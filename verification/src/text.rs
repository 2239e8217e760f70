//! Predicates on text that the validation rules are built from.

use vstd::prelude::*;
use vstd::std_specs::iter::IteratorSpec;

verus! {

/// Whether `c` is one of the code points that Unicode classifies as white
/// space: the ASCII controls tab through carriage return, the space, next
/// line, the no-break space, the Ogham space mark, the fixed-width spaces,
/// the line and paragraph separators, the narrow no-break space, the medium
/// mathematical space and the ideographic space.
pub open spec fn is_white_space(c: char) -> bool {
    let code = c as u32;
    ||| 0x0009 <= code <= 0x000D
    ||| code == 0x0020
    ||| code == 0x0085
    ||| code == 0x00A0
    ||| code == 0x1680
    ||| 0x2000 <= code <= 0x200A
    ||| code == 0x2028
    ||| code == 0x2029
    ||| code == 0x202F
    ||| code == 0x205F
    ||| code == 0x3000
}

/// Whether `text` holds nothing but white space. The empty text is blank.
pub open spec fn is_blank(text: Seq<char>) -> bool {
    forall|i: int| 0 <= i < text.len() ==> is_white_space(#[trigger] text[i])
}

/// Tests one character for white space.
pub fn char_is_white_space(c: char) -> (white: bool)
    ensures
        white == is_white_space(c),
{
    let code: u32 = c as u32;
    (0x0009 <= code && code <= 0x000D) || code == 0x0020 || code == 0x0085 || code == 0x00A0
        || code == 0x1680 || (0x2000 <= code && code <= 0x200A) || code == 0x2028 || code
        == 0x2029 || code == 0x202F || code == 0x205F || code == 0x3000
}

/// Tests whether `text` is empty or made of white space only.
pub fn text_is_blank(text: &str) -> (blank: bool)
    ensures
        blank == is_blank(text@),
{
    let mut blank: bool = true;
    for c in chars: text.chars()
        invariant
            chars.seq() == text@,
            blank == (forall|i: int| 0 <= i < chars.index() ==> is_white_space(#[trigger] text@[i])),
    {
        if !char_is_white_space(c) {
            blank = false;
        }
    }
    blank
}

/// Tests whether `wanted` occurs in `text`.
pub fn text_contains(text: &str, wanted: char) -> (found: bool)
    ensures
        found == text@.contains(wanted),
{
    let mut found: bool = false;
    for c in chars: text.chars()
        invariant
            chars.seq() == text@,
            found == (exists|i: int| 0 <= i < chars.index() && #[trigger] text@[i] == wanted),
    {
        if c == wanted {
            found = true;
        }
    }
    found
}

/// Tests whether two texts hold the same characters.
pub fn text_eq(left: &str, right: &str) -> (same: bool)
    ensures
        same == (left@ == right@),
{
    let mut rest_left = left.chars();
    let mut rest_right = right.chars();
    let ghost mut done: int = 0;
    loop
        invariant
            0 <= done <= left@.len(),
            done <= right@.len(),
            rest_left.remaining() == left@.skip(done),
            rest_right.remaining() == right@.skip(done),
            left@.take(done) == right@.take(done),
        decreases left@.len() - done,
    {
        let next_left = rest_left.next();
        let next_right = rest_right.next();
        match (next_left, next_right) {
            (None, None) => {
                assert(left@ == left@.take(done));
                assert(right@ == right@.take(done));
                return true;
            },
            (Some(a), Some(b)) => {
                if a != b {
                    assert(left@[done] != right@[done]);
                    return false;
                }
                proof {
                    assert(left@.take(done + 1) == left@.take(done).push(a));
                    assert(right@.take(done + 1) == right@.take(done).push(b));
                    assert(left@.skip(done).drop_first() == left@.skip(done + 1));
                    assert(right@.skip(done).drop_first() == right@.skip(done + 1));
                    done = done + 1;
                }
            },
            _ => {
                assert(left@.len() != right@.len());
                return false;
            },
        }
    }
}

} // verus!
