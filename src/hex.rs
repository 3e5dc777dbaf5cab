//! Fixed-width lowercase hexadecimal, as used by the `traceparent` header.
use vstd::prelude::*;

verus! {

/// `16^n`.
pub open spec fn pow16(n: nat) -> nat
    decreases n,
{
    if n == 0 {
        1
    } else {
        16 * pow16((n - 1) as nat)
    }
}

/// A lowercase hexadecimal digit.
pub open spec fn is_hex_digit(b: u8) -> bool {
    (48 <= b <= 57) || (97 <= b <= 102)
}

/// The value of a lowercase hexadecimal digit.
pub open spec fn digit_value(b: u8) -> nat {
    if 48 <= b <= 57 {
        (b - 48) as nat
    } else {
        (b - 87) as nat
    }
}

/// The lowercase digit that stands for `v`, for `v < 16`.
pub open spec fn digit_char(v: nat) -> u8 {
    if v < 10 {
        (v + 48) as u8
    } else {
        (v + 87) as u8
    }
}

pub open spec fn all_hex(s: Seq<u8>) -> bool {
    forall|i: int| 0 <= i < s.len() ==> is_hex_digit(#[trigger] s[i])
}

/// The big-endian value of a string of hexadecimal digits.
pub open spec fn hex_value(s: Seq<u8>) -> nat
    decreases s.len(),
{
    if s.len() == 0 {
        0
    } else {
        hex_value(s.drop_last()) * 16 + digit_value(s.last())
    }
}

/// The `n` lowest hexadecimal digits of `v`, most significant first.
pub open spec fn hex_digits(v: nat, n: nat) -> Seq<u8>
    decreases n,
{
    if n == 0 {
        Seq::empty()
    } else {
        hex_digits(v / 16, (n - 1) as nat).push(digit_char(v % 16))
    }
}

pub proof fn lemma_pow16_positive(n: nat)
    ensures
        pow16(n) >= 1,
    decreases n,
{
    if n > 0 {
        lemma_pow16_positive((n - 1) as nat);
    }
}

pub proof fn lemma_pow16_monotone(a: nat, b: nat)
    requires
        a <= b,
    ensures
        pow16(a) <= pow16(b),
    decreases b,
{
    if a < b {
        lemma_pow16_monotone(a, (b - 1) as nat);
        lemma_pow16_positive((b - 1) as nat);
    }
}

pub proof fn lemma_pow16_widths()
    ensures
        pow16(2) == 0x100,
        pow16(16) == 0x1_0000_0000_0000_0000,
        pow16(32) == 0x1_0000_0000_0000_0000_0000_0000_0000_0000,
{
    reveal_with_fuel(pow16, 33);
}

pub proof fn lemma_hex_value_bound(s: Seq<u8>)
    requires
        all_hex(s),
    ensures
        hex_value(s) < pow16(s.len()),
    decreases s.len(),
{
    if s.len() > 0 {
        let p = s.drop_last();
        assert(all_hex(p)) by {
            assert forall|i: int| 0 <= i < p.len() implies is_hex_digit(#[trigger] p[i]) by {
                assert(p[i] == s[i]);
            }
        }
        lemma_hex_value_bound(p);
        assert(is_hex_digit(s[s.len() - 1]));
        let h = hex_value(p);
        let q = pow16(p.len());
        assert(h * 16 + digit_value(s.last()) < 16 * q) by (nonlinear_arith)
            requires
                h < q,
                digit_value(s.last()) < 16,
        ;
    }
}

pub proof fn lemma_hex_digits_shape(v: nat, n: nat)
    ensures
        hex_digits(v, n).len() == n,
        all_hex(hex_digits(v, n)),
    decreases n,
{
    if n > 0 {
        lemma_hex_digits_shape(v / 16, (n - 1) as nat);
        let d = hex_digits(v, n);
        let p = hex_digits(v / 16, (n - 1) as nat);
        assert forall|i: int| 0 <= i < d.len() implies is_hex_digit(#[trigger] d[i]) by {
            if i < p.len() {
                assert(d[i] == p[i]);
            }
        }
    }
}

/// Reading back `n` digits written from `v` gives `v`, when `v` fits in them.
pub proof fn lemma_hex_round_trip(v: nat, n: nat)
    requires
        v < pow16(n),
    ensures
        hex_value(hex_digits(v, n)) == v,
    decreases n,
{
    if n > 0 {
        let q = pow16((n - 1) as nat);
        assert(v / 16 < q) by (nonlinear_arith)
            requires
                v < 16 * q,
        ;
        lemma_hex_round_trip(v / 16, (n - 1) as nat);
        let d = hex_digits(v, n);
        assert(d.drop_last() =~= hex_digits(v / 16, (n - 1) as nat));
        assert(digit_value(digit_char(v % 16)) == v % 16);
        assert((v / 16) * 16 + v % 16 == v) by (nonlinear_arith);
    }
}

/// Appends the `n` lowest hexadecimal digits of `v` to `out`.
pub fn push_hex(v: u128, n: usize, out: &mut Vec<u8>)
    ensures
        final(out)@ == old(out)@ + hex_digits(v as nat, n as nat),
    decreases n,
{
    if n == 0 {
        assert(old(out)@ + Seq::<u8>::empty() =~= old(out)@);
        return;
    }
    push_hex(v / 16, n - 1, out);
    let d = (v % 16) as u8;
    let c: u8 = if d < 10 {
        d + 48
    } else {
        d + 87
    };
    out.push(c);
    assert(final(out)@ =~= old(out)@ + hex_digits(v as nat, n as nat));
}

/// Reads the hexadecimal digits `s[start..start + len]`; `None` where one is not a digit.
pub fn parse_hex(s: &[u8], start: usize, len: usize) -> (r: Option<u128>)
    requires
        start + len <= s@.len(),
        len <= 32,
    ensures
        r.is_some() == all_hex(s@.subrange(start as int, start + len)),
        r.is_some() ==> r.unwrap() as nat == hex_value(s@.subrange(start as int, start + len)),
{
    let n = s.len();
    let mut acc: u128 = 0;
    let mut i: usize = 0;
    proof {
        lemma_hex_value_bound(Seq::<u8>::empty());
        lemma_pow16_widths();
    }
    while i < len
        invariant
            start + len <= s@.len(),
            n == s@.len(),
            len <= 32,
            i <= len,
            all_hex(s@.subrange(start as int, start + i)),
            acc as nat == hex_value(s@.subrange(start as int, start + i)),
            pow16(32) == 0x1_0000_0000_0000_0000_0000_0000_0000_0000,
        decreases len - i,
    {
        let b = s[start + i];
        if !((48 <= b && b <= 57) || (97 <= b && b <= 102)) {
            proof {
                let t = s@.subrange(start as int, start + len);
                assert(t[i as int] == b);
            }
            return None;
        }
        let d: u8 = if b <= 57 {
            b - 48
        } else {
            b - 87
        };
        let ghost p = s@.subrange(start as int, start + i);
        let ghost t = s@.subrange(start as int, start + i + 1);
        proof {
            assert(t.drop_last() =~= p);
            assert(all_hex(t)) by {
                assert forall|k: int| 0 <= k < t.len() implies is_hex_digit(#[trigger] t[k]) by {
                    if k < p.len() {
                        assert(t[k] == p[k]);
                    }
                }
            }
            lemma_hex_value_bound(p);
            lemma_pow16_monotone(p.len(), 31);
            lemma_hex_value_bound(t);
            lemma_pow16_monotone(t.len(), 32);
        }
        acc = acc * 16 + d as u128;
        i = i + 1;
    }
    Some(acc)
}

} // verus!
