use vstd::prelude::*;
use vstd::std_specs::iter::IteratorSpec;

verus! {

/// Whether `c` has the Unicode `White_Space` property, as
/// `char::is_whitespace` tells.
pub open spec fn is_whitespace(c: char) -> bool {
    let u = c as u32;
    ||| 0x09 <= u <= 0x0d
    ||| u == 0x20
    ||| u == 0x85
    ||| u == 0xa0
    ||| u == 0x1680
    ||| 0x2000 <= u <= 0x200a
    ||| u == 0x2028
    ||| u == 0x2029
    ||| u == 0x202f
    ||| u == 0x205f
    ||| u == 0x3000
}

/// Whether a text holds nothing but whitespace, so that trimming it leaves
/// nothing.
pub open spec fn is_blank_text(s: Seq<char>) -> bool {
    forall|k: int| 0 <= k < s.len() ==> is_whitespace(#[trigger] s[k])
}

fn char_is_whitespace(c: char) -> (r: bool)
    ensures
        r == is_whitespace(c),
{
    let u = c as u32;
    (0x09 <= u && u <= 0x0d) || u == 0x20 || u == 0x85 || u == 0xa0 || u == 0x1680 || (0x2000
        <= u && u <= 0x200a) || u == 0x2028 || u == 0x2029 || u == 0x202f || u == 0x205f || u
        == 0x3000
}

/// Tells whether a line holds nothing but whitespace.
pub fn is_blank(line: &str) -> (r: bool)
    ensures
        r == is_blank_text(line@),
{
    broadcast use vstd::string::axiom_spec_iter, vstd::string::next_postcondition;

    let mut chars = line.chars();
    let ghost mut k: int = 0;
    loop
        invariant
            0 <= k <= line@.len(),
            chars.remaining() == line@.subrange(k, line@.len() as int),
            chars.obeys_prophetic_iter_laws(),
            forall|i: int| 0 <= i < k ==> is_whitespace(#[trigger] line@[i]),
        decreases line@.len() - k,
    {
        let ghost before = chars.remaining();
        match chars.next() {
            None => {
                return true;
            },
            Some(c) => {
                assert(before[0] == line@[k]);
                if !char_is_whitespace(c) {
                    return false;
                }
                proof {
                    assert(before.drop_first() =~= line@.subrange(k + 1, line@.len() as int));
                    k = k + 1;
                }
            },
        }
    }
}

} // verus!
