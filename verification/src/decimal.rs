//! Decimal notation of integers, as ASCII bytes.
use vstd::prelude::*;

verus! {

/// The decimal digits of `n`, most significant first, without leading zeros.
pub open spec fn decimal(n: nat) -> Seq<u8>
    decreases n,
{
    if n < 10 {
        seq![(48 + n) as u8]
    } else {
        decimal(n / 10).push((48 + n % 10) as u8)
    }
}

/// `decimal`, with a minus sign in front of negative numbers.
pub open spec fn signed_decimal(i: int) -> Seq<u8> {
    if i < 0 {
        seq![45u8] + decimal((-i) as nat)
    } else {
        decimal(i as nat)
    }
}

/// The number that a string of decimal digits stands for.
pub open spec fn decimal_value(s: Seq<u8>) -> int
    decreases s.len(),
{
    if s.len() == 0 {
        0
    } else {
        10 * decimal_value(s.drop_last()) + (s.last() - 48)
    }
}

/// The number that an optionally signed string of decimal digits stands for.
pub open spec fn signed_decimal_value(s: Seq<u8>) -> int {
    if s.len() > 0 && s[0] == 45 {
        -decimal_value(s.subrange(1, s.len() as int))
    } else {
        decimal_value(s)
    }
}

/// Appends the decimal digits of `n` to `out`.
pub fn push_decimal(out: &mut Vec<u8>, n: u64)
    ensures
        final(out)@ == old(out)@ + decimal(n as nat),
    decreases n,
{
    if n >= 10 {
        push_decimal(out, n / 10);
    }
    let digit: u8 = (n % 10) as u8;
    out.push(48 + digit);
}

/// Appends `i` in decimal, with a minus sign when it is negative.
pub fn push_signed_decimal(out: &mut Vec<u8>, i: i64)
    requires
        i > i64::MIN,
    ensures
        final(out)@ == old(out)@ + signed_decimal(i as int),
{
    if i < 0 {
        out.push(45);
        push_decimal(out, (-i) as u64);
    } else {
        push_decimal(out, i as u64);
    }
}

/// Every byte of `decimal` is a digit, and there is at least one.
pub proof fn decimal_is_digits(n: nat)
    ensures
        decimal(n).len() > 0,
        forall|i: int| 0 <= i < decimal(n).len() ==> 48 <= #[trigger] decimal(n)[i] <= 57,
    decreases n,
{
    if n >= 10 {
        decimal_is_digits(n / 10);
    }
}

/// Reading `decimal` back gives the number that was written.
pub proof fn decimal_reads_back(n: nat)
    ensures
        decimal_value(decimal(n)) == n,
    decreases n,
{
    reveal_with_fuel(decimal_value, 2);
    if n >= 10 {
        decimal_reads_back(n / 10);
        assert(decimal(n).drop_last() =~= decimal(n / 10));
    }
}

/// Reading `signed_decimal` back gives the number that was written.
pub proof fn signed_decimal_reads_back(i: int)
    ensures
        signed_decimal_value(signed_decimal(i)) == i,
{
    if i < 0 {
        let digits = decimal((-i) as nat);
        assert(signed_decimal(i).subrange(1, signed_decimal(i).len() as int) =~= digits);
        decimal_reads_back((-i) as nat);
    } else {
        decimal_is_digits(i as nat);
        decimal_reads_back(i as nat);
    }
}

} // verus!
