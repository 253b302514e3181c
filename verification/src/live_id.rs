//! Widget ids: the hash the UI toolkit gives a name, and the fixed-width hex text that
//! stands for an id in saved state.
use vstd::prelude::*;

use crate::random::hex_char;
use crate::text::{push_char, to_chars};

verus! {

/// What `LiveId::from_str` gives for the text `s`: a hash of its UTF-8 bytes.
pub uninterp spec fn live_id_hash(s: Seq<char>) -> u64;

/// The widget id of a name.
///
/// Calls `makepad_live_id::LiveId::from_str`. The hash is named, not restated; the
/// contract also states that the high bit of the result is set, which the function
/// does to every id it makes from text.
#[verifier::external_body]
pub(crate) fn live_id_from_str(s: &str) -> (r: u64)
    ensures
        r == live_id_hash(s@),
        r >= 0x8000_0000_0000_0000u64,
{
    makepad_live_id::LiveId::from_str(s).0
}

/// `16` to the power `k`.
pub open spec fn pow16(k: nat) -> nat
    decreases k,
{
    if k == 0 {
        1
    } else {
        16 * pow16((k - 1) as nat)
    }
}

/// The lowest `k` hex digits of `n`, most significant first, lowercase, zero-padded.
pub open spec fn hex_digits(n: nat, k: nat) -> Seq<char>
    decreases k,
{
    if k == 0 {
        Seq::empty()
    } else {
        hex_digits(n / 16, (k - 1) as nat).push(hex_char((n % 16) as int))
    }
}

/// `n` as sixteen lowercase hex digits, as `format!("{:016x}", n)` writes it.
pub open spec fn hex16(n: u64) -> Seq<char> {
    hex_digits(n as nat, 16)
}

/// Whether `c` is a hex digit, in either case.
pub open spec fn is_hex_digit(c: char) -> bool {
    ('0' <= c <= '9') || ('a' <= c <= 'f') || ('A' <= c <= 'F')
}

/// The value of the hex digit `c`.
pub open spec fn hex_digit_value(c: char) -> int {
    if '0' <= c <= '9' {
        c as int - 48
    } else if 'a' <= c <= 'f' {
        c as int - 87
    } else {
        c as int - 55
    }
}

/// The number the hex digits `s` spell.
pub open spec fn hex_value(s: Seq<char>) -> nat
    decreases s.len(),
{
    if s.len() == 0 {
        0
    } else {
        (hex_value(s.drop_last()) * 16 + hex_digit_value(s.last())) as nat
    }
}

/// Whether every character of `s` is a hex digit.
pub open spec fn all_hex(s: Seq<char>) -> bool {
    forall|i: int| 0 <= i < s.len() ==> is_hex_digit(#[trigger] s[i])
}

/// What `u64::from_str_radix(s, 16)` gives: an optional `+`, then at least one hex
/// digit and nothing else, for a value that fits in 64 bits.
pub open spec fn parse_hex(s: Seq<char>) -> Option<u64> {
    let body = if s.len() > 0 && s[0] == '+' {
        s.drop_first()
    } else {
        s
    };
    if body.len() == 0 || !all_hex(body) || hex_value(body) >= pow16(16) {
        None
    } else {
        Some(hex_value(body) as u64)
    }
}

proof fn lemma_pow16_16()
    ensures
        pow16(16) == 0x1_0000_0000_0000_0000,
{
    reveal_with_fuel(pow16, 17);
}

proof fn lemma_hex_digits(n: nat, k: nat)
    requires
        n < pow16(k),
    ensures
        hex_digits(n, k).len() == k,
        all_hex(hex_digits(n, k)),
        hex_value(hex_digits(n, k)) == n,
    decreases k,
{
    if k > 0 {
        let q = n / 16;
        let r = n % 16;
        assert(n == q * 16 + r && 0 <= r < 16);
        assert(q < pow16((k - 1) as nat)) by (nonlinear_arith)
            requires
                n == q * 16 + r,
                0 <= r < 16,
                n < 16 * pow16((k - 1) as nat),
        ;
        lemma_hex_digits(q, (k - 1) as nat);
        let s = hex_digits(n, k);
        let p = hex_digits(q, (k - 1) as nat);
        assert(s.drop_last() =~= p);
        let c = hex_char(r as int);
        assert(is_hex_digit(c) && hex_digit_value(c) == r);
        assert forall|i: int| 0 <= i < s.len() implies is_hex_digit(#[trigger] s[i]) by {
            if i < p.len() {
                assert(s[i] == p[i]);
            }
        }
    }
}

/// Parsing the sixteen hex digits of `n` gives `n` back.
pub proof fn law_hex16_parses_back(n: u64)
    ensures
        parse_hex(hex16(n)) == Some(n),
        hex16(n).len() == 16,
{
    lemma_pow16_16();
    lemma_hex_digits(n as nat, 16);
    let s = hex16(n);
    assert(s[0] != '+') by {
        assert(is_hex_digit(s[0]));
    }
}

fn hex_nibble(d: u64) -> (c: char)
    requires
        d < 16,
    ensures
        c == hex_char(d as int),
{
    let b: u8 = d as u8;
    if b < 10 {
        (48u8 + b) as char
    } else {
        (87u8 + b) as char
    }
}

/// Appends `n` as sixteen lowercase hex digits to `s`.
pub fn push_hex16(s: &mut String, n: u64)
    ensures
        final(s)@ == old(s)@ + hex16(n),
{
    let mut v: Vec<char> = Vec::new();
    let mut m: u64 = n;
    let mut k: usize = 0;
    while k < 16
        invariant
            k <= 16,
            hex16(n) == hex_digits(m as nat, (16 - k) as nat) + v@,
        decreases 16 - k,
    {
        let c = hex_nibble(m % 16);
        let ghost prev = v@;
        v.insert(0, c);
        assert(hex_digits(m as nat, (16 - k) as nat) == hex_digits((m / 16) as nat, (
        16 - k - 1) as nat).push(c));
        assert(hex_digits(m as nat, (16 - k) as nat) + prev =~= hex_digits((m / 16) as nat, (
        16 - k - 1) as nat) + v@);
        m = m / 16;
        k = k + 1;
    }
    assert(hex_digits(m as nat, 0) + v@ =~= v@);
    let mut i: usize = 0;
    let ghost start = s@;
    while i < v.len()
        invariant
            i <= v@.len(),
            v@ == hex16(n),
            s@ == start + v@.subrange(0, i as int),
        decreases v@.len() - i,
    {
        push_char(s, v[i]);
        i = i + 1;
        assert(s@ =~= start + v@.subrange(0, i as int));
    }
    assert(v@.subrange(0, v@.len() as int) =~= v@);
}

fn hex_value_of(c: char) -> (d: u64)
    requires
        is_hex_digit(c),
    ensures
        d == hex_digit_value(c),
        d < 16,
{
    if '0' <= c && c <= '9' {
        (c as u32 - 48) as u64
    } else if 'a' <= c && c <= 'f' {
        (c as u32 - 87) as u64
    } else {
        (c as u32 - 55) as u64
    }
}

proof fn lemma_hex_value_grows(s: Seq<char>, i: int, j: int)
    requires
        0 <= i <= j <= s.len(),
        all_hex(s),
    ensures
        hex_value(s.subrange(0, i)) <= hex_value(s.subrange(0, j)),
    decreases j - i,
{
    if i < j {
        lemma_hex_value_grows(s, i, j - 1);
        let t = s.subrange(0, j);
        assert(t.drop_last() =~= s.subrange(0, j - 1));
        assert(is_hex_digit(s[j - 1]));
        assert(hex_digit_value(t.last()) >= 0);
        let a = hex_value(s.subrange(0, j - 1));
        assert(a <= a * 16 + hex_digit_value(t.last())) by (nonlinear_arith)
            requires
                a >= 0,
                hex_digit_value(t.last()) >= 0,
        ;
    }
}

/// Parses `s` as a hex number, as `u64::from_str_radix(s, 16)` does.
pub fn parse_hex_u64(s: &str) -> (r: Option<u64>)
    ensures
        r == parse_hex(s@),
{
    proof {
        lemma_pow16_16();
    }
    let v = to_chars(s);
    let start: usize = if v.len() > 0 && v[0] == '+' {
        1
    } else {
        0
    };
    let ghost body = if s@.len() > 0 && s@[0] == '+' {
        s@.drop_first()
    } else {
        s@
    };
    assert(body =~= s@.subrange(start as int, s@.len() as int));
    if v.len() == start {
        return None;
    }
    let mut value: u64 = 0;
    let mut i: usize = start;
    while i < v.len()
        invariant
            v@ == s@,
            start <= i <= v@.len(),
            body == s@.subrange(start as int, s@.len() as int),
            body == (if s@.len() > 0 && s@[0] == '+' {
                s@.drop_first()
            } else {
                s@
            }),
            pow16(16) == 0x1_0000_0000_0000_0000,
            all_hex(body.subrange(0, i - start)),
            value == hex_value(body.subrange(0, i - start)),
        decreases v@.len() - i,
    {
        let c = v[i];
        let ghost pre = body.subrange(0, i - start);
        let ghost next = body.subrange(0, i + 1 - start);
        assert(next.drop_last() =~= pre);
        assert(next.last() == c);
        if !(('0' <= c && c <= '9') || ('a' <= c && c <= 'f') || ('A' <= c && c <= 'F')) {
            assert(body[i - start] == c);
            assert(!is_hex_digit(body[i - start]));
            assert(!all_hex(body));
            return None;
        }
        let d = hex_value_of(c);
        assert(hex_value(next) == value * 16 + d);
        assert forall|j: int| 0 <= j < next.len() implies is_hex_digit(#[trigger] next[j]) by {
            if j < pre.len() {
                assert(next[j] == pre[j]);
            }
        }
        match value.checked_mul(16) {
            Some(m) => match m.checked_add(d) {
                Some(w) => {
                    value = w;
                },
                None => {
                    proof {
                        assert(m == value * 16);
                        assert(hex_value(next) >= pow16(16));
                        if all_hex(body) {
                            lemma_hex_value_grows(body, i + 1 - start, body.len() as int);
                            assert(body.subrange(0, body.len() as int) =~= body);
                        }
                    }
                    return None;
                },
            },
            None => {
                proof {
                    assert(hex_value(next) >= pow16(16)) by (nonlinear_arith)
                        requires
                            hex_value(next) == value * 16 + d,
                            value * 16 > 0xffff_ffff_ffff_ffff,
                            d >= 0,
                            pow16(16) == 0x1_0000_0000_0000_0000,
                    ;
                    if all_hex(body) {
                        lemma_hex_value_grows(body, i + 1 - start, body.len() as int);
                        assert(body.subrange(0, body.len() as int) =~= body);
                    }
                }
                return None;
            },
        }
        i = i + 1;
    }
    assert(body.subrange(0, body.len() as int) =~= body);
    Some(value)
}

} // verus!
