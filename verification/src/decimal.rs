use vstd::prelude::*;

use crate::bytes::append_bytes;

verus! {

/// The decimal digits of `n`, most significant first, as ASCII bytes.
pub open spec fn spec_decimal_nat(n: nat) -> Seq<u8>
    decreases n,
{
    if n < 10 {
        seq![(48 + n) as u8]
    } else {
        spec_decimal_nat((n / 10) as nat).push((48 + n % 10) as u8)
    }
}

/// The decimal rendering of a signed number: a `-` sign in front of the
/// digits of its magnitude when it is negative.
pub open spec fn spec_decimal_int(n: int) -> Seq<u8> {
    if n >= 0 {
        spec_decimal_nat(n as nat)
    } else {
        seq![45u8] + spec_decimal_nat((-n) as nat)
    }
}

/// Renders an unsigned 128-bit number in decimal.
pub fn decimal_of_u128(n: u128) -> (r: Vec<u8>)
    ensures
        r@ == spec_decimal_nat(n as nat),
    decreases n,
{
    if n < 10 {
        let mut r: Vec<u8> = Vec::new();
        r.push(48 + (n as u8));
        proof {
            assert(r@ =~= spec_decimal_nat(n as nat));
        }
        r
    } else {
        let mut r = decimal_of_u128(n / 10);
        r.push(48 + ((n % 10) as u8));
        r
    }
}

/// Renders a signed 128-bit number in decimal, the form a bootstrap
/// identifier takes on the wire.
pub fn decimal_of_i128(n: i128) -> (r: Vec<u8>)
    ensures
        r@ == spec_decimal_int(n as int),
{
    if n >= 0 {
        decimal_of_u128(n as u128)
    } else {
        // `-(n + 1)` stays in range even for the smallest value, whose
        // plain negation would overflow.
        let magnitude: u128 = ((-(n + 1)) as u128) + 1;
        assert(magnitude as int == -(n as int));
        let digits = decimal_of_u128(magnitude);
        let mut r: Vec<u8> = Vec::new();
        r.push(45);
        append_bytes(&mut r, digits.as_slice());
        proof {
            assert(r@ =~= spec_decimal_int(n as int));
        }
        r
    }
}

} // verus!
