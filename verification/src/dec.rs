//! Decimal ASCII rendering of counters, used to namespace per-index
//! derivation seeds exactly as a decimal string would.

use vstd::prelude::*;
use vstd::arithmetic::div_mod::lemma_fundamental_div_mod;

verus! {

/// The decimal ASCII digits of `n`, most significant first, no leading zeros
/// (a single `'0'` for zero).
pub open spec fn dec_digits(n: nat) -> Seq<u8>
    decreases n,
{
    if n < 10 {
        seq![(48 + n) as u8]
    } else {
        dec_digits(n / 10).push((48 + n % 10) as u8)
    }
}

/// A decimal rendering is never empty, grows with the magnitude of `n`, and
/// holds ASCII digits only.
pub proof fn lemma_dec_digits_shape(n: nat)
    ensures
        dec_digits(n).len() >= 1,
        n >= 10 ==> dec_digits(n).len() >= 2,
        forall|i: int| 0 <= i < dec_digits(n).len() ==> 48 <= #[trigger] dec_digits(n)[i] <= 57,
    decreases n,
{
    if n >= 10 {
        lemma_dec_digits_shape(n / 10);
    }
}

/// Distinct numbers render as distinct digit strings.
pub proof fn lemma_dec_digits_injective(m: nat, n: nat)
    requires
        dec_digits(m) == dec_digits(n),
    ensures
        m == n,
    decreases m,
{
    lemma_dec_digits_shape(m);
    lemma_dec_digits_shape(n);
    if m < 10 && n < 10 {
        assert(dec_digits(m)[0] == dec_digits(n)[0]);
    } else if m < 10 {
        assert(dec_digits(m).len() == 1);
        assert(dec_digits(n).len() >= 2);
    } else if n < 10 {
        assert(dec_digits(n).len() == 1);
        assert(dec_digits(m).len() >= 2);
    } else {
        let dm = dec_digits(m / 10);
        let dn = dec_digits(n / 10);
        assert(dm.push((48 + m % 10) as u8) == dn.push((48 + n % 10) as u8));
        assert(dm.len() == dn.len());
        assert(dm =~= dn) by {
            assert forall|i: int| 0 <= i < dm.len() implies dm[i] == dn[i] by {
                assert(dm[i] == dm.push((48 + m % 10) as u8)[i]);
                assert(dn[i] == dn.push((48 + n % 10) as u8)[i]);
            }
        }
        assert(dm.push((48 + m % 10) as u8).last() == (48 + m % 10) as u8);
        assert(dn.push((48 + n % 10) as u8).last() == (48 + n % 10) as u8);
        assert(m % 10 == n % 10);
        lemma_dec_digits_injective(m / 10, n / 10);
        lemma_fundamental_div_mod(m as int, 10);
        lemma_fundamental_div_mod(n as int, 10);
    }
}

/// The decimal ASCII digits of a counter.
pub fn u32_to_decimal(n: u32) -> (r: Vec<u8>)
    ensures
        r@ == dec_digits(n as nat),
    decreases n,
{
    if n < 10 {
        let mut r: Vec<u8> = Vec::new();
        r.push(48 + n as u8);
        proof {
            assert(r@ =~= dec_digits(n as nat));
        }
        r
    } else {
        let mut r = u32_to_decimal(n / 10);
        r.push(48 + (n % 10) as u8);
        proof {
            assert(r@ =~= dec_digits(n as nat));
        }
        r
    }
}

} // verus!
