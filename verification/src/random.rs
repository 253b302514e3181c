//! Random identifiers: lowercase hex encoding and UUID-shaped strings.
use vstd::prelude::*;

use crate::text::push_char;
use rand::Rng;

verus! {

/// Sixteen random bytes from the thread-local generator.
///
/// Calls `rand::thread_rng().gen::<[u8; 16]>()`. The bytes depend on chance, so the
/// contract states nothing about them.
#[verifier::external_body]
pub(crate) fn random_byte_block() -> (r: [u8; 16]) {
    rand::thread_rng().gen::<[u8; 16]>()
}

/// The lowercase hex digit for `d` (`0 <= d < 16`).
pub open spec fn hex_char(d: int) -> char {
    if d < 10 {
        (d + 48) as char
    } else {
        (d + 87) as char
    }
}

/// The two lowercase hex digits of `b`, high nibble first.
pub open spec fn hex_byte(b: u8) -> Seq<char> {
    seq![hex_char(b as int / 16), hex_char(b as int % 16)]
}

/// Lowercase hex encoding of `bytes`: two digits per byte, high nibble first.
pub open spec fn hex_of(bytes: Seq<u8>) -> Seq<char>
    decreases bytes.len(),
{
    if bytes.len() == 0 {
        Seq::empty()
    } else {
        hex_of(bytes.drop_last()) + hex_byte(bytes.last())
    }
}

/// Every character of a hex encoding is a lowercase hex digit.
pub open spec fn is_lower_hex(s: Seq<char>) -> bool {
    forall|i: int|
        0 <= i < s.len() ==> (('0' <= #[trigger] s[i] && s[i] <= '9') || ('a' <= s[i] && s[i]
            <= 'f'))
}

pub proof fn lemma_hex_of_len(bytes: Seq<u8>)
    ensures
        hex_of(bytes).len() == 2 * bytes.len(),
        is_lower_hex(hex_of(bytes)),
    decreases bytes.len(),
{
    if bytes.len() > 0 {
        lemma_hex_of_len(bytes.drop_last());
        let h = hex_of(bytes.drop_last());
        let t = hex_byte(bytes.last());
        assert forall|i: int| 0 <= i < (h + t).len() implies (('0' <= #[trigger] (h + t)[i] && (h
            + t)[i] <= '9') || ('a' <= (h + t)[i] && (h + t)[i] <= 'f')) by {
            if i >= h.len() {
                let b = bytes.last() as int;
                assert(0 <= b / 16 < 16);
                assert(0 <= b % 16 < 16);
            }
        }
    }
}

fn nibble_char(d: u8) -> (c: char)
    requires
        d < 16,
    ensures
        c == hex_char(d as int),
{
    if d < 10 {
        (48u8 + d) as char
    } else {
        (87u8 + d) as char
    }
}

/// Appends the two hex digits of `b` to `s`.
pub fn push_hex_byte(s: &mut String, b: u8)
    ensures
        final(s)@ == old(s)@ + hex_byte(b),
{
    push_char(s, nibble_char(b / 16));
    push_char(s, nibble_char(b % 16));
    assert(s@ =~= old(s)@ + hex_byte(b));
}

/// Appends the hex encoding of `bytes[from..to]` to `s`.
pub fn push_hex_range(s: &mut String, bytes: &[u8], from: usize, to: usize)
    requires
        from <= to <= bytes@.len(),
    ensures
        final(s)@ == old(s)@ + hex_of(bytes@.subrange(from as int, to as int)),
{
    let mut i: usize = from;
    assert(bytes@.subrange(from as int, from as int) =~= Seq::<u8>::empty());
    while i < to
        invariant
            from <= i <= to <= bytes@.len(),
            s@ == old(s)@ + hex_of(bytes@.subrange(from as int, i as int)),
        decreases to - i,
    {
        let ghost prev = s@;
        push_hex_byte(s, bytes[i]);
        i = i + 1;
        let ghost sub = bytes@.subrange(from as int, i as int);
        assert(sub.drop_last() =~= bytes@.subrange(from as int, i - 1));
        assert(s@ =~= old(s)@ + hex_of(sub));
    }
}

} // verus!
