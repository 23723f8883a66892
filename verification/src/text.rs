//! Characters and strings: the whitespace class, blank text, and the few
//! string operations the tokenizer is built from.

use vstd::prelude::*;
use vstd::string::*;

verus! {

/// Whether `c` has the Unicode `White_Space` property.
pub open spec fn is_whitespace(c: char) -> bool {
    let n = c as u32;
    ||| 0x09 <= n <= 0x0D
    ||| n == 0x20
    ||| n == 0x85
    ||| n == 0xA0
    ||| n == 0x1680
    ||| 0x2000 <= n <= 0x200A
    ||| n == 0x2028
    ||| n == 0x2029
    ||| n == 0x202F
    ||| n == 0x205F
    ||| n == 0x3000
}

/// Text is blank when it holds nothing but whitespace; empty text is blank.
pub open spec fn is_blank(text: Seq<char>) -> bool {
    forall|i: int| 0 <= i < text.len() ==> is_whitespace(#[trigger] text[i])
}

/// Decides [`is_whitespace`].
pub fn char_is_whitespace(c: char) -> (b: bool)
    ensures
        b == is_whitespace(c),
{
    let n: u32 = c as u32;
    (0x09 <= n && n <= 0x0D) || n == 0x20 || n == 0x85 || n == 0xA0 || n == 0x1680 || (0x2000 <= n
        && n <= 0x200A) || n == 0x2028 || n == 0x2029 || n == 0x202F || n == 0x205F || n == 0x3000
}

/// Appending a character keeps text blank exactly when the text was blank and
/// the character is whitespace.
pub proof fn lemma_blank_push(text: Seq<char>, c: char)
    ensures
        is_blank(text.push(c)) == (is_blank(text) && is_whitespace(c)),
{
    let longer = text.push(c);
    if is_blank(text) && is_whitespace(c) {
        assert forall|i: int| 0 <= i < longer.len() implies is_whitespace(#[trigger] longer[i]) by {
            if i < text.len() {
                assert(longer[i] == text[i]);
            }
        }
    } else if is_blank(longer) {
        assert(is_whitespace(longer[text.len() as int]));
        assert forall|i: int| 0 <= i < text.len() implies is_whitespace(#[trigger] text[i]) by {
            assert(longer[i] == text[i]);
        }
    }
}

/// Specifies `String::push`. Trusted: the call appends `ch` to the end of the
/// string and changes nothing else of it.
pub assume_specification[ String::push ](s: &mut String, ch: char)
    ensures
        final(s)@ == old(s)@.push(ch),
;

/// The characters of `s`, in order.
pub fn chars_of(s: &str) -> (v: Vec<char>)
    ensures
        v@ == s@,
{
    broadcast use group_string_axioms;

    let mut v: Vec<char> = Vec::new();
    for c in it: s.chars()
        invariant
            v@ == it.seq().take(it.index()),
            it.seq() == s@,
    {
        v.push(c);
    }
    v
}

} // verus!
