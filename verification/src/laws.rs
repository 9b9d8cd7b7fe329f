//! What holds of every blockquote, proved over the model.

use vstd::prelude::*;
use crate::blockquote::Blockquote;
use crate::model::{
    ellipsis, lemma_kept_from, line_feeds, marker, quoted, starts_line, Quote,
};
use crate::whitespace::{blank_from, is_blank, is_space};

verus! {

/// The number of lines that begin among the first `n` characters of `s`.
pub open spec fn line_starts(s: Seq<char>, n: int) -> int {
    if n <= 0 {
        0
    } else {
        1 + line_feeds(s, n - 1)
    }
}

/// Whether the marker stands in `r` right behind index `p`, inside `r`.
pub open spec fn marker_follows(r: Seq<char>, p: int) -> bool {
    p + 2 < r.len() && r[p + 1] == '>' && r[p + 2] == ' '
}

/// Among `n` characters there are between 0 and `n` line feeds.
proof fn lemma_line_feeds_bounds(s: Seq<char>, n: int)
    requires
        0 <= n,
    ensures
        0 <= line_feeds(s, n) <= n,
    decreases n,
{
    if n > 0 {
        lemma_line_feeds_bounds(s, n - 1);
    }
}

/// The shape of the first `n` quoted characters: their number, the marker
/// at the front, the last character, and the marker behind every line feed
/// but a last one.
proof fn lemma_quoted_shape(s: Seq<char>, n: int)
    requires
        0 <= n <= s.len(),
    ensures
        quoted(s, n).len() == n + 2 * line_starts(s, n),
        n > 0 ==> quoted(s, n).len() >= 3,
        n > 0 ==> quoted(s, n)[0] == '>' && quoted(s, n)[1] == ' ' && quoted(s, n).last() == s[n
            - 1],
        forall|p: int|
            0 <= p < quoted(s, n).len() - 1 && #[trigger] quoted(s, n)[p] == '\n'
                ==> marker_follows(quoted(s, n), p),
    decreases n,
{
    if n > 0 {
        lemma_quoted_shape(s, n - 1);
        lemma_line_feeds_bounds(s, n - 1);
        let head = quoted(s, n - 1);
        let whole = quoted(s, n);
        if n == 1 {
            assert(head.len() == 0);
            assert(whole =~= marker().push(s[0]));
        } else {
            assert(whole[0] == head[0] && whole[1] == head[1]);
        }
        assert forall|p: int| 0 <= p < whole.len() - 1 && #[trigger] whole[p] == '\n' implies marker_follows(
            whole,
            p,
        ) by {
            if p < head.len() - 1 {
                assert(head[p] == '\n');
                assert(marker_follows(head, p));
            } else if p == head.len() - 1 {
                assert(head[p] == '\n');
                assert(starts_line(s, n - 1));
            }
        }
    }
}

/// Line feeds are counted over the characters in front of `n` alone.
proof fn lemma_line_feeds_prefix(a: Seq<char>, b: Seq<char>, n: int)
    requires
        0 <= n <= a.len(),
        n <= b.len(),
        forall|i: int| 0 <= i < n ==> a[i] == b[i],
    ensures
        line_feeds(a, n) == line_feeds(b, n),
    decreases n,
{
    if n > 0 {
        lemma_line_feeds_prefix(a, b, n - 1);
    }
}

/// Characters other than the line feed, appended to `a`, add no line feed.
proof fn lemma_line_feeds_append(a: Seq<char>, b: Seq<char>)
    requires
        forall|i: int| 0 <= i < b.len() ==> b[i] != '\n',
    ensures
        line_feeds(a + b, (a + b).len() as int) == line_feeds(a, a.len() as int),
    decreases b.len(),
{
    if b.len() == 0 {
        assert(a + b == a);
    } else {
        let whole = a + b;
        let short = a + b.drop_last();
        lemma_line_feeds_append(a, b.drop_last());
        lemma_line_feeds_prefix(whole, short, short.len() as int);
        assert(whole.last() == b.last());
    }
}

/// Quoting adds no line feed and drops none.
proof fn lemma_quoted_line_feeds(s: Seq<char>, n: int)
    requires
        0 <= n <= s.len(),
    ensures
        line_feeds(quoted(s, n), quoted(s, n).len() as int) == line_feeds(s, n),
    decreases n,
{
    if n > 0 {
        lemma_quoted_line_feeds(s, n - 1);
        let head = quoted(s, n - 1);
        let whole = quoted(s, n);
        if starts_line(s, n - 1) {
            lemma_line_feeds_append(head, marker());
            lemma_line_feeds_prefix(whole, head + marker(), whole.len() - 1);
        } else {
            lemma_line_feeds_prefix(whole, head, whole.len() - 1);
        }
    }
}

/// The walk stops within the text, at the first index at which it halts.
pub proof fn lemma_kept_is_first_halt(q: Quote)
    ensures
        0 <= q.kept() <= q.text.len(),
        q.kept() == q.text.len() || q.halts_at(q.kept()),
        forall|j: int| 0 <= j < q.kept() ==> !q.halts_at(j),
{
    lemma_kept_from(q, 0);
}

/// Emptiness: a text that is empty or holds whitespace only formats to
/// nothing, and any other text formats to something.
pub proof fn lemma_blank_renders_nothing(q: Quote)
    ensures
        is_blank(q.text) <==> q.rendered().len() == 0,
{
    lemma_kept_is_first_halt(q);
    lemma_quoted_shape(q.text, q.kept());
    if !is_blank(q.text) {
        if q.kept() == 0 {
            assert(q.truncated());
            assert(starts_line(q.text, 0));
        }
    }
}

/// Idempotence: what a formatter renders is decided by its text and its
/// configuration alone, so two formatters that agree in these render the
/// same.
pub proof fn lemma_render_is_pure(first: Blockquote, second: Blockquote)
    requires
        first@ == second@,
    ensures
        first@.rendered() == second@.rendered(),
{
}

/// Ellipsis invariant: the output ends in an ellipsis of the formatter's
/// own exactly where the ellipsis is switched on and a character that is not
/// whitespace was left unwritten; it is then the one character that follows
/// the body.
pub proof fn lemma_ellipsis_iff_content_dropped(q: Quote)
    ensures
        q.has_ellipsis() <==> q.with_ellipsis && exists|j: int|
            q.kept() <= j < q.text.len() && !is_space(#[trigger] q.text[j]),
        q.has_ellipsis() ==> q.rendered() == q.body().push(ellipsis()),
        !q.has_ellipsis() ==> q.rendered() == q.body(),
{
}

/// Additive hard limit: the cutoff is the soft limit plus the hard limit,
/// held at `usize::MAX`. No character is written at or behind the cutoff, no
/// whitespace at or behind the soft limit, and where the walk stops in
/// front of a character that is not whitespace, although content follows,
/// it stands at the cutoff or behind it.
pub proof fn lemma_hard_limit_is_additive(q: Quote)
    ensures
        q.hard_limit is None ==> q.cutoff() == q.soft_limit,
        q.hard_limit is Some && q.soft_limit + q.hard_limit->0 <= usize::MAX ==> q.cutoff()
            == q.soft_limit + q.hard_limit->0,
        q.hard_limit is Some && q.soft_limit + q.hard_limit->0 > usize::MAX ==> q.cutoff()
            == usize::MAX,
        q.kept() <= q.cutoff(),
        forall|j: int| 0 <= j < q.kept() && is_space(#[trigger] q.text[j]) ==> j < q.soft_limit,
        q.truncated() && !is_space(q.text[q.kept()]) ==> q.kept() >= q.cutoff(),
        q.truncated() && is_space(q.text[q.kept()]) ==> q.kept() >= q.soft_limit,
{
    lemma_kept_is_first_halt(q);
    if q.kept() > 0 {
        assert(!q.halts_at(q.kept() - 1));
    }
    assert forall|j: int| 0 <= j < q.kept() && is_space(#[trigger] q.text[j]) implies j
        < q.soft_limit by {
        assert(!q.halts_at(j));
    }
}

/// Marker invariant: an output that is not empty begins with the marker,
/// the marker follows every line feed of the output, and the output holds
/// no more than that: the written characters of the text, one marker for
/// each of its lines, and the ellipsis where there is one.
pub proof fn lemma_marker_on_every_line(q: Quote)
    ensures
        q.rendered().len() > 0 ==> q.rendered().len() >= 2 && q.rendered()[0] == '>'
            && q.rendered()[1] == ' ',
        forall|p: int|
            0 <= p < q.rendered().len() && #[trigger] q.rendered()[p] == '\n' ==> marker_follows(
                q.rendered(),
                p,
            ),
        q.rendered().len() > 0 ==> q.rendered().len() == q.kept() + 2 * (1 + line_feeds(
            q.rendered(),
            q.rendered().len() as int,
        )) + if q.has_ellipsis() {
            1int
        } else {
            0int
        },
{
    let k = q.kept();
    let s = q.text;
    let r = q.rendered();
    let inner = quoted(s, k);
    lemma_kept_is_first_halt(q);
    lemma_quoted_shape(s, k);
    lemma_quoted_line_feeds(s, k);
    lemma_blank_renders_nothing(q);
    let dangling = q.truncated() && starts_line(s, k);
    let tail = (if dangling {
        marker()
    } else {
        Seq::<char>::empty()
    }) + (if q.has_ellipsis() {
        seq![ellipsis()]
    } else {
        Seq::<char>::empty()
    });
    assert(r =~= inner + tail);
    lemma_line_feeds_append(inner, tail);
    if r.len() > 0 {
        if k == 0 {
            assert(dangling);
            assert(r[0] == marker()[0] && r[1] == marker()[1]);
        } else {
            assert(r[0] == inner[0] && r[1] == inner[1]);
        }
    }
    if k > 0 && s[k - 1] == '\n' {
        assert(!q.halts_at(k - 1));
        assert(!blank_from(s, k - 1));
        assert(q.truncated());
    }
    assert forall|p: int| 0 <= p < r.len() && #[trigger] r[p] == '\n' implies marker_follows(
        r,
        p,
    ) by {
        if p < inner.len() - 1 {
            assert(inner[p] == '\n');
            assert(marker_follows(inner, p));
        } else if p == inner.len() - 1 {
            assert(inner[p] == '\n');
            assert(dangling);
        }
    }
}

} // verus!
