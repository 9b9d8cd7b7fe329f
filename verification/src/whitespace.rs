//! Whitespace classification of characters and of character sequences.

use vstd::prelude::*;
use vstd::std_specs::iter::IteratorSpec;

verus! {

/// Whether a character carries the Unicode `White_Space` property.
pub uninterp spec fn white_space_property(c: char) -> bool;

/// `char::is_whitespace` of the standard library. Its result is the Unicode
/// `White_Space` property of the character, which the line feed has.
pub assume_specification[ char::is_whitespace ](c: char) -> (b: bool)
    ensures
        b == white_space_property(c),
        c == '\n' ==> b,
;

/// Whether a character counts as whitespace: the line feed and every
/// character with the `White_Space` property.
pub open spec fn is_space(c: char) -> bool {
    c == '\n' || white_space_property(c)
}

/// Whether every character of `s` from index `from` onward is whitespace.
pub open spec fn blank_from(s: Seq<char>, from: int) -> bool {
    forall|j: int| from <= j < s.len() ==> is_space(#[trigger] s[j])
}

/// Whether `s` is empty or holds whitespace only.
pub open spec fn is_blank(s: Seq<char>) -> bool {
    blank_from(s, 0)
}

/// Classifies one character.
pub fn is_space_char(c: char) -> (b: bool)
    ensures
        b == is_space(c),
{
    c.is_whitespace()
}

/// Tests whether a text is empty or holds whitespace only.
pub fn blank(text: &str) -> (b: bool)
    ensures
        b == is_blank(text@),
{
    for c in it: text.chars()
        invariant
            it.seq() == text@,
            forall|j: int| 0 <= j < it.index() ==> is_space(#[trigger] text@[j]),
    {
        if !is_space_char(c) {
            return false;
        }
    }
    true
}

/// The length of `s` without its trailing whitespace: the index just behind
/// the last character that is not whitespace, or 0 where there is none.
pub open spec fn content_end(s: Seq<char>) -> int
    decreases s.len(),
{
    if s.len() == 0 {
        0
    } else if is_space(s.last()) {
        content_end(s.drop_last())
    } else {
        s.len() as int
    }
}

/// `content_end` lies within the sequence, everything from it onward is
/// whitespace, and the character in front of it is not.
pub proof fn lemma_content_end(s: Seq<char>)
    ensures
        0 <= content_end(s) <= s.len(),
        blank_from(s, content_end(s)),
        content_end(s) > 0 ==> !is_space(s[content_end(s) - 1]),
    decreases s.len(),
{
    if s.len() > 0 && is_space(s.last()) {
        let head = s.drop_last();
        lemma_content_end(head);
        assert forall|j: int| content_end(s) <= j < s.len() implies is_space(#[trigger] s[j]) by {
            if j < head.len() {
                assert(s[j] == head[j]);
            }
        }
        if content_end(s) > 0 {
            assert(s[content_end(s) - 1] == head[content_end(head) - 1]);
        }
    }
}

/// The tail of `s` from `from` onward is blank exactly from `content_end(s)` on.
pub proof fn lemma_blank_from_iff(s: Seq<char>, from: int)
    requires
        0 <= from,
    ensures
        blank_from(s, from) <==> content_end(s) <= from,
{
    lemma_content_end(s);
    if from < content_end(s) {
        assert(!is_space(s[content_end(s) - 1]));
    }
}

/// Measures a text without its trailing whitespace, in characters.
pub fn content_len(text: &str) -> (end: usize)
    ensures
        end == content_end(text@),
{
    let mut it = text.chars();
    let mut index: usize = 0;
    let mut end: usize = 0;
    let total = text.unicode_len();
    loop
        invariant
            it.remaining() == text@.skip(index as int),
            index <= text@.len() == total,
            end == content_end(text@.take(index as int)),
        ensures
            end == content_end(text@),
        decreases text@.len() - index,
    {
        match it.next() {
            None => {
                assert(text@.take(index as int) == text@);
                break;
            },
            Some(c) => {
                proof {
                    let before = text@.take(index as int);
                    let after = text@.take(index + 1);
                    assert(after.drop_last() == before);
                    assert(after.last() == c);
                }
                index += 1;
                if !is_space_char(c) {
                    end = index;
                }
            },
        }
    }
    end
}

} // verus!
