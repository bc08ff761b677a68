//! Lowercase hexadecimal text of byte strings.
use crate::text::{digit, digit_char, push_char};
use vstd::prelude::*;

verus! {

/// The lowercase hex digit for `d` (`d < 16`).
pub open spec fn hex_char(d: nat) -> char {
    if d < 10 { digit_char(d) }
    else if d == 10 { 'a' }
    else if d == 11 { 'b' }
    else if d == 12 { 'c' }
    else if d == 13 { 'd' }
    else if d == 14 { 'e' }
    else { 'f' }
}

pub open spec fn is_lower_hex_char(c: char) -> bool {
    ('0' <= c && c <= '9') || ('a' <= c && c <= 'f')
}

/// Two lowercase hex digits per byte, high nibble first.
pub open spec fn hex_text(b: Seq<u8>) -> Seq<char>
    decreases b.len(),
{
    if b.len() == 0 {
        Seq::empty()
    } else {
        hex_text(b.drop_last()).push(hex_char(b.last() as nat / 16)).push(
            hex_char(b.last() as nat % 16),
        )
    }
}

/// Lowercase hex of a byte string, two digits per byte.
pub fn encode(b: &Vec<u8>) -> (r: String)
    ensures
        r@ == hex_text(b@),
{
    let mut r = String::new();
    let mut i: usize = 0;
    while i < b.len()
        invariant
            i <= b@.len(),
            r@ == hex_text(b@.subrange(0, i as int)),
        decreases b@.len() - i,
    {
        let x = b[i];
        push_char(&mut r, digit((x / 16) as u64));
        push_char(&mut r, digit((x % 16) as u64));
        assert(b@.subrange(0, i + 1).drop_last() =~= b@.subrange(0, i as int));
        i = i + 1;
    }
    assert(b@.subrange(0, b@.len() as int) =~= b@);
    r
}

/// The hex text of `b` has two characters per byte, each a lowercase hex digit.
pub proof fn lemma_hex_text_shape(b: Seq<u8>)
    ensures
        hex_text(b).len() == 2 * b.len(),
        forall|i: int| 0 <= i < hex_text(b).len() ==> is_lower_hex_char(#[trigger] hex_text(b)[i]),
    decreases b.len(),
{
    if b.len() > 0 {
        lemma_hex_text_shape(b.drop_last());
        let p = hex_text(b.drop_last());
        assert forall|i: int| 0 <= i < hex_text(b).len() implies is_lower_hex_char(
            #[trigger] hex_text(b)[i],
        ) by {
            if i < p.len() {
                assert(hex_text(b)[i] == p[i]);
            }
        }
    }
}

} // verus!
