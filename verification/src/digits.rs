//! Decimal rendering and parsing of unsigned integers.
//!
//! The nonce challenge signs the decimal string of a unix timestamp, and the
//! identity provider hands user ids over the wire as decimal strings; both
//! directions are defined here against one mathematical description.

use vstd::prelude::*;

verus! {

/// The decimal digits of `n`, most significant first, as ASCII bytes.
pub open spec fn spec_dec_bytes(n: nat) -> Seq<u8>
    decreases n,
{
    if n < 10 {
        seq![(48 + n) as u8]
    } else {
        spec_dec_bytes(n / 10).push((48 + n % 10) as u8)
    }
}

/// The numeric value of a sequence of ASCII digit bytes, most significant first.
pub open spec fn spec_dec_val(s: Seq<u8>) -> nat
    decreases s.len(),
{
    if s.len() == 0 {
        0
    } else {
        (spec_dec_val(s.drop_last()) * 10 + (s.last() - 48)) as nat
    }
}

/// Every byte of `s` is an ASCII digit.
pub open spec fn all_dec_digits(s: Seq<u8>) -> bool {
    forall|i: int| 0 <= i < s.len() ==> 48 <= #[trigger] s[i] <= 57
}

/// What parsing a decimal string yields: the value when the string is a
/// non-empty run of digits whose value fits in a `u64`, nothing otherwise.
pub open spec fn spec_parse_u64(s: Seq<u8>) -> Option<u64> {
    if s.len() > 0 && all_dec_digits(s) && spec_dec_val(s) <= u64::MAX {
        Some(spec_dec_val(s) as u64)
    } else {
        None
    }
}

/// Rendering then evaluating gives the number back.
pub proof fn lemma_dec_bytes_val(n: nat)
    ensures
        spec_dec_val(spec_dec_bytes(n)) == n,
        spec_dec_bytes(n).len() >= 1,
        all_dec_digits(spec_dec_bytes(n)),
    decreases n,
{
    if n < 10 {
        assert(spec_dec_bytes(n) == seq![(48 + n) as u8]);
        assert(spec_dec_bytes(n).drop_last() =~= Seq::<u8>::empty());
        assert(spec_dec_val(Seq::<u8>::empty()) == 0);
        assert(spec_dec_bytes(n).last() == (48 + n) as u8);
    } else {
        lemma_dec_bytes_val(n / 10);
        assert(spec_dec_bytes(n).drop_last() =~= spec_dec_bytes(n / 10));
        assert(forall|i: int|
            0 <= i < spec_dec_bytes(n).len() ==> 48 <= #[trigger] spec_dec_bytes(n)[i] <= 57) by {
            assert(forall|i: int|
                0 <= i < spec_dec_bytes(n / 10).len()
                    ==> 48 <= #[trigger] spec_dec_bytes(n / 10)[i] <= 57);
        }
    }
}

/// Rendering a `u64` and parsing the digits back yields the number: the two
/// directions of the decimal codec agree.
pub proof fn lemma_dec_round_trip(n: u64)
    ensures
        spec_parse_u64(spec_dec_bytes(n as nat)) == Some(n),
{
    lemma_dec_bytes_val(n as nat);
}

/// The decimal digits of `n`, most significant first, as ASCII bytes.
pub fn u64_to_dec_bytes(n: u64) -> (r: Vec<u8>)
    ensures
        r@ == spec_dec_bytes(n as nat),
    decreases n,
{
    if n < 10 {
        let mut v: Vec<u8> = Vec::new();
        v.push((48 + n) as u8);
        assert(v@ =~= spec_dec_bytes(n as nat));
        v
    } else {
        let mut v = u64_to_dec_bytes(n / 10);
        v.push((48 + n % 10) as u8);
        assert(v@ =~= spec_dec_bytes(n as nat));
        v
    }
}

/// The value of a prefix of a digit string never exceeds the value of the whole.
proof fn lemma_dec_val_prefix(s: Seq<u8>, j: int)
    requires
        0 <= j <= s.len(),
        all_dec_digits(s),
    ensures
        spec_dec_val(s.take(j)) <= spec_dec_val(s),
    decreases s.len() - j,
{
    if j == s.len() {
        assert(s.take(j) =~= s);
    } else {
        lemma_dec_val_prefix(s, j + 1);
        assert(s.take(j + 1).drop_last() =~= s.take(j));
        assert(s.take(j + 1).last() == s[j]);
        assert(spec_dec_val(s.take(j + 1)) == spec_dec_val(s.take(j)) * 10 + (s[j] - 48));
        assert(spec_dec_val(s.take(j)) <= spec_dec_val(s.take(j)) * 10) by (nonlinear_arith);
    }
}

/// Parse a run of ASCII decimal digits into a `u64`; `None` when the input is
/// empty, holds a non-digit, or overflows.
pub fn parse_u64(s: &[u8]) -> (r: Option<u64>)
    ensures
        r == spec_parse_u64(s@),
{
    if s.len() == 0 {
        return None;
    }
    let mut acc: u64 = 0;
    let mut i: usize = 0;
    while i < s.len()
        invariant
            0 <= i <= s@.len(),
            s@.len() > 0,
            all_dec_digits(s@.take(i as int)),
            acc == spec_dec_val(s@.take(i as int)),
        decreases s@.len() - i,
    {
        let b = s[i];
        if b < 48 || b > 57 {
            assert(!all_dec_digits(s@));
            return None;
        }
        let d = (b - 48) as u64;
        if acc > (u64::MAX - d) / 10 {
            // Any completion of this prefix is at least `acc * 10 + d`,
            // which already exceeds `u64::MAX`.
            proof {
                assert(s@.take(i + 1).drop_last() =~= s@.take(i as int));
                assert(spec_dec_val(s@.take(i + 1)) == acc * 10 + d);
                assert(acc * 10 + d > u64::MAX) by (nonlinear_arith)
                    requires
                        acc > (u64::MAX - d) / 10,
                        d <= 9,
                ;
                if all_dec_digits(s@) {
                    lemma_dec_val_prefix(s@, i + 1);
                }
            }
            return None;
        }
        proof {
            assert(acc * 10 + d <= u64::MAX) by (nonlinear_arith)
                requires
                    acc <= (u64::MAX - d) / 10,
                    d <= 9,
            ;
            assert(s@.take(i + 1).drop_last() =~= s@.take(i as int));
        }
        acc = acc * 10 + d;
        i = i + 1;
    }
    proof {
        assert(s@.take(i as int) =~= s@);
    }
    Some(acc)
}

} // verus!
