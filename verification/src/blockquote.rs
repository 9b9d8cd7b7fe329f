//! The blockquote formatter: its configuration and its rendering.

use vstd::prelude::*;
use vstd::std_specs::iter::IteratorSpec;
use vstd::string::StringExecFns;
use vstd::string::StrSliceExecFns;
use crate::model::{lemma_kept_from_skip, marker, quoted, starts_line, Quote};
use crate::whitespace::{
    blank, blank_from, content_end, content_len, is_blank, is_space_char, lemma_blank_from_iff,
    lemma_content_end,
};

verus! {

/// `String::push` of the standard library: the character is appended to the
/// end of the string, and nothing else of it changes.
pub assume_specification[ String::push ](s: &mut String, ch: char)
    ensures
        final(s)@ == old(s)@.push(ch),
;

/// Where the walk over the text stands within the current line.
enum Stage {
    /// A character of the line has been written.
    Ongoing,
    /// The line's marker is still to be written.
    StartLine,
}

/// Quotes some text in a markdown blockquote.
#[derive(Clone, Copy, Debug, Eq, PartialEq)]
pub struct Blockquote<'a> {
    hard_limit: Option<usize>,
    soft_limit: usize,
    text: &'a str,
    with_ellipsis: bool,
}

impl<'a> View for Blockquote<'a> {
    type V = Quote;

    closed spec fn view(&self) -> Quote {
        Quote {
            text: self.text@,
            soft_limit: self.soft_limit,
            hard_limit: self.hard_limit,
            with_ellipsis: self.with_ellipsis,
        }
    }
}

impl<'a> Blockquote<'a> {
    /// Creates a formatter for `text` without limits and with the ellipsis
    /// switched on.
    pub fn new(text: &'a str) -> (quote: Self)
        ensures
            quote@ == (Quote {
                text: text@,
                soft_limit: usize::MAX,
                hard_limit: None,
                with_ellipsis: true,
            }),
    {
        Self { hard_limit: None, soft_limit: usize::MAX, text, with_ellipsis: true }
    }

    /// Sets the soft limit: the index from which no whitespace character is
    /// written.
    pub fn soft_limit(self, soft_limit: usize) -> (quote: Self)
        ensures
            quote@ == (Quote { soft_limit, ..self@ }),
    {
        Self { soft_limit, ..self }
    }

    /// Sets the hard limit, which is an allowance on top of the soft limit: a
    /// soft limit of 50 with a hard limit of 10 stops every character from
    /// index 60 on.
    pub fn hard_limit(self, hard_limit: usize) -> (quote: Self)
        ensures
            quote@ == (Quote { hard_limit: Some(hard_limit), ..self@ }),
    {
        Self { hard_limit: Some(hard_limit), ..self }
    }

    /// Chooses whether an ellipsis marks dropped content.
    pub fn with_ellipsis(self, with_ellipsis: bool) -> (quote: Self)
        ensures
            quote@ == (Quote { with_ellipsis, ..self@ }),
    {
        Self { with_ellipsis, ..self }
    }

    /// Whether the blockquote formats to nothing, which is the case where the
    /// text is empty or holds whitespace only.
    pub fn is_empty(&self) -> (empty: bool)
        ensures
            empty == is_blank(self@.text),
    {
        self.text.is_empty() || blank(self.text)
    }

    /// Whether a character at `index` is stopped by its limit: the soft limit
    /// where `soft` is set, else the soft limit plus the hard limit,
    /// saturating.
    pub fn reached_limit(&self, index: usize, soft: bool) -> (reached: bool)
        ensures
            reached == (index >= self@.limit(soft)),
    {
        let limit = if soft {
            self.soft_limit
        } else {
            let hard_limit = match self.hard_limit {
                Some(extra) => extra,
                None => 0,
            };
            self.soft_limit.saturating_add(hard_limit)
        };
        index >= limit
    }

    /// Whether `index` lies within the text and nothing but whitespace
    /// follows from there.
    pub fn remaining_empty(&self, index: usize) -> (empty: bool)
        ensures
            empty == (index <= self@.text.len() && blank_from(self@.text, index as int)),
    {
        proof {
            lemma_blank_from_iff(self.text@, index as int);
        }
        index <= self.text.unicode_len() && content_len(self.text) <= index
    }

    /// Formats the blockquote: the text up to the place where the walk over
    /// it stops, the marker in front of each line, and an ellipsis where
    /// content was dropped.
    pub fn render(&self) -> (out: String)
        ensures
            out@ == self@.rendered(),
            is_blank(self@.text) ==> out@.len() == 0,
    {
        let mut out = String::new();
        if self.is_empty() {
            return out;
        }
        let end = content_len(self.text);
        let mut chars = self.text.chars();
        let mut index: usize = 0;
        let mut stage = Stage::StartLine;
        proof {
            lemma_content_end(self.text@);
        }
        loop
            invariant_except_break
                chars.remaining() == self.text@.skip(index as int),
                forall|j: int| 0 <= j < index ==> !self@.halts_at(j),
                out@ == quoted(self.text@, index as int),
                (stage is StartLine) == starts_line(self.text@, index as int),
            invariant
                index <= self.text@.len(),
                end == content_end(self.text@),
                end <= self.text@.len(),
            ensures
                index == self@.kept(),
                out@ == self@.body(),
            decreases self.text@.len() - index,
        {
            proof {
                lemma_kept_from_skip(self@, 0, index as int);
                lemma_blank_from_iff(self.text@, index as int);
            }
            let character = match chars.next() {
                Some(character) => character,
                None => {
                    break;
                },
            };
            if index >= end {
                break;
            }
            match stage {
                Stage::StartLine => {
                    proof {
                        reveal_strlit("> ");
                        assert("> "@ == marker());
                    }
                    out.append("> ");
                    if character != '\n' {
                        stage = Stage::Ongoing;
                    }
                },
                Stage::Ongoing => {},
            }
            if self.reached_limit(index, is_space_char(character)) {
                break;
            }
            write_char(character, &mut out);
            index += 1;
            if character == '\n' {
                stage = Stage::StartLine;
            }
        }
        if self.with_ellipsis && !self.remaining_empty(index) {
            write_char('…', &mut out);
        }
        out
    }
}

/// Appends one character to the output.
pub fn write_char(character: char, out: &mut String)
    ensures
        final(out)@ == old(out)@.push(character),
{
    out.push(character);
}

} // verus!
