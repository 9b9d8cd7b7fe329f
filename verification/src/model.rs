//! The mathematical model of a blockquote: what a formatter holds, where its
//! walk over the text stops, and the sequence of characters it produces.

use vstd::prelude::*;
use crate::whitespace::{blank_from, is_space};

verus! {

/// The marker in front of every quoted line.
pub open spec fn marker() -> Seq<char> {
    seq!['>', ' ']
}

/// The character that stands for dropped content.
pub open spec fn ellipsis() -> char {
    '…'
}

/// Whether index `i` of `s` is the first character of a line.
pub open spec fn starts_line(s: Seq<char>, i: int) -> bool {
    i == 0 || s[i - 1] == '\n'
}

/// The first `n` characters of `s`, each line with the marker in front.
pub open spec fn quoted(s: Seq<char>, n: int) -> Seq<char>
    decreases n,
{
    if n <= 0 {
        Seq::empty()
    } else if starts_line(s, n - 1) {
        quoted(s, n - 1) + marker() + seq![s[n - 1]]
    } else {
        quoted(s, n - 1) + seq![s[n - 1]]
    }
}

/// The number of line feeds among the first `n` characters of `s`.
pub open spec fn line_feeds(s: Seq<char>, n: int) -> int
    decreases n,
{
    if n <= 0 {
        0
    } else if s[n - 1] == '\n' {
        line_feeds(s, n - 1) + 1
    } else {
        line_feeds(s, n - 1)
    }
}

/// What a formatter is, as plain values.
pub struct Quote {
    /// The characters of the text.
    pub text: Seq<char>,
    /// The index from which no whitespace character is written.
    pub soft_limit: usize,
    /// The allowance beyond the soft limit, where one was set.
    pub hard_limit: Option<usize>,
    /// Whether dropped content is marked by an ellipsis.
    pub with_ellipsis: bool,
}

impl Quote {
    /// The allowance beyond the soft limit: 0 where none was set.
    pub open spec fn allowance(self) -> int {
        match self.hard_limit {
            Some(extra) => extra as int,
            None => 0,
        }
    }

    /// The index from which no character at all is written: the soft limit
    /// plus the allowance, held at `usize::MAX`.
    pub open spec fn cutoff(self) -> int {
        if self.soft_limit + self.allowance() > usize::MAX {
            usize::MAX as int
        } else {
            self.soft_limit + self.allowance()
        }
    }

    /// The limit that a character is held against: the soft limit where
    /// `soft` is set, the cutoff where it is not.
    pub open spec fn limit(self, soft: bool) -> int {
        if soft {
            self.soft_limit as int
        } else {
            self.cutoff()
        }
    }

    /// Whether the walk stops in front of the character at index `i`: the
    /// text from there on is blank, or the character's limit is reached.
    pub open spec fn halts_at(self, i: int) -> bool {
        blank_from(self.text, i) || i >= self.limit(is_space(self.text[i]))
    }

    /// Where a walk that has come to index `i` stops.
    pub open spec fn kept_from(self, i: int) -> int
        decreases self.text.len() - i,
    {
        if i >= self.text.len() || self.halts_at(i) {
            i
        } else {
            self.kept_from(i + 1)
        }
    }

    /// The number of characters of the text that are written.
    pub open spec fn kept(self) -> int {
        self.kept_from(0)
    }

    /// Whether the walk left anything but whitespace unwritten.
    pub open spec fn truncated(self) -> bool {
        !blank_from(self.text, self.kept())
    }

    /// The quoted characters, with the marker of a line that was begun but
    /// received no character.
    pub open spec fn body(self) -> Seq<char> {
        if self.truncated() && starts_line(self.text, self.kept()) {
            quoted(self.text, self.kept()) + marker()
        } else {
            quoted(self.text, self.kept())
        }
    }

    /// Whether the output ends in an ellipsis of the formatter's own.
    pub open spec fn has_ellipsis(self) -> bool {
        self.with_ellipsis && self.truncated()
    }

    /// The formatted blockquote.
    pub open spec fn rendered(self) -> Seq<char> {
        if self.has_ellipsis() {
            self.body().push(ellipsis())
        } else {
            self.body()
        }
    }
}

/// A walk from index `i` stops at the first index from `i` on at which it
/// halts, or at the end of the text where there is none.
pub proof fn lemma_kept_from(q: Quote, i: int)
    requires
        0 <= i <= q.text.len(),
    ensures
        i <= q.kept_from(i) <= q.text.len(),
        q.kept_from(i) == q.text.len() || q.halts_at(q.kept_from(i)),
        forall|j: int| i <= j < q.kept_from(i) ==> !q.halts_at(j),
    decreases q.text.len() - i,
{
    if i < q.text.len() && !q.halts_at(i) {
        lemma_kept_from(q, i + 1);
    }
}

/// A walk that halts nowhere between `from` and `to` stops where a walk
/// from `to` stops.
pub proof fn lemma_kept_from_skip(q: Quote, from: int, to: int)
    requires
        0 <= from <= to <= q.text.len(),
        forall|j: int| from <= j < to ==> !q.halts_at(j),
    ensures
        q.kept_from(from) == q.kept_from(to),
    decreases to - from,
{
    if from < to {
        lemma_kept_from_skip(q, from + 1, to);
    }
}

} // verus!
