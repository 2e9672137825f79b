//! Decimal rendering of machine integers, used for the newline-terminated
//! number lines the demo handlers emit and for building listen addresses.

use vstd::prelude::*;

verus! {

/// The decimal digits of `n`, most significant first, as ASCII bytes.
pub open spec fn spec_decimal(n: nat) -> Seq<u8>
    decreases n,
{
    if n < 10 {
        seq![(n + 0x30) as u8]
    } else {
        spec_decimal(n / 10).push((n % 10 + 0x30) as u8)
    }
}

/// Render `n` in its usual base-ten writing, as ASCII bytes.
pub fn decimal_bytes(n: u64) -> (r: Vec<u8>)
    ensures
        r@ == spec_decimal(n as nat),
{
    let mut rev: Vec<u8> = Vec::new();
    let mut m: u64 = n;
    loop
        invariant_except_break
            rev@.len() > 0 ==> m > 0 && spec_decimal(n as nat) == spec_decimal(m as nat) + rev@.reverse(),
        invariant
            rev@.len() == 0 ==> m == n,
        ensures
            rev@.len() > 0,
            spec_decimal(n as nat) == rev@.reverse(),
        decreases m, (if rev@.len() == 0 { 1int } else { 0int }),
    {
        let ghost old_rev = rev@;
        let ghost old_m = m as nat;
        let d: u8 = (m % 10) as u8 + 0x30;
        rev.push(d);
        m = m / 10;
        proof {
            assert(rev@ == old_rev.push(d));
            assert(rev@.reverse() =~= seq![d] + old_rev.reverse());
            assert(spec_decimal(n as nat) == spec_decimal(old_m) + old_rev.reverse());
            if old_m >= 10 {
                assert(spec_decimal(old_m) == spec_decimal(old_m / 10).push(d));
                assert(spec_decimal(old_m) =~= spec_decimal(old_m / 10) + seq![d]);
                assert(spec_decimal(n as nat) =~= spec_decimal(m as nat) + rev@.reverse());
            } else {
                assert(spec_decimal(old_m) == seq![d]);
                assert(spec_decimal(n as nat) =~= rev@.reverse());
            }
        }
        if m == 0 {
            break;
        }
    }
    let mut r: Vec<u8> = Vec::new();
    let mut i: usize = rev.len();
    while i > 0
        invariant
            i <= rev@.len(),
            r@ =~= rev@.subrange(i as int, rev@.len() as int).reverse(),
        decreases i,
    {
        i = i - 1;
        r.push(rev[i]);
        proof {
            assert(r@ =~= rev@.subrange(i as int, rev@.len() as int).reverse());
        }
    }
    proof {
        assert(rev@.subrange(0, rev@.len() as int) =~= rev@);
    }
    r
}

} // verus!
