//! The storage-allocation utility: how much balance a new slot is funded
//! with, and the creation order handed to the host.
//!
//! A permanent slot is funded to the ledger's rent-exemption minimum; a
//! temporary slot is funded with roughly a seven-day holding period's worth
//! of that minimum. Either way the deposit is at least one unit.

use vstd::prelude::*;
use crate::accounts::{AccountCreation, CreationModel, RentParams};
use crate::addr::Addr;

verus! {

/// The rent-exemption minimum for a slot of `space` bytes: the storage
/// overhead plus the data bytes, at the rental rate, over the threshold
/// years — clamped at the largest representable balance.
pub open spec fn spec_minimum_balance(rent: RentParams, space: u64) -> int {
    let full = (128 + space) * rent.lamports_per_byte_year * rent.exemption_threshold_years;
    if full > u64::MAX {
        u64::MAX as int
    } else {
        full
    }
}

/// The deposit a new slot is funded with: the exemption minimum when
/// permanent, a seven-day holding period's worth of it when temporary, and
/// at least one unit either way.
pub open spec fn spec_allocation_lamports(rent: RentParams, is_rent_exempt: bool, space: u64) -> int {
    let minimum = spec_minimum_balance(rent, space);
    let funded = if is_rent_exempt {
        minimum
    } else {
        (minimum / (rent.exemption_threshold_years * 365)) * 7
    };
    if funded >= 1 {
        funded
    } else {
        1
    }
}

/// The funding deposit never exceeds the largest representable balance.
pub proof fn lemma_allocation_lamports_bounded(rent: RentParams, is_rent_exempt: bool, space: u64)
    requires
        rent.wf(),
    ensures
        1 <= spec_allocation_lamports(rent, is_rent_exempt, space) <= u64::MAX,
{
    let minimum = spec_minimum_balance(rent, space);
    assert(0 <= (128 + space) * rent.lamports_per_byte_year * rent.exemption_threshold_years) by (nonlinear_arith);
    if !is_rent_exempt {
        assert(
            0 <= (minimum / (rent.exemption_threshold_years * 365)) * 7 <= u64::MAX
        ) by (nonlinear_arith)
            requires
                0 <= minimum <= u64::MAX,
                rent.exemption_threshold_years >= 1,
        ;
    }
}

/// The rent-exemption minimum for a slot of `space` bytes.
pub fn minimum_balance(rent: &RentParams, space: u64) -> (r: u64)
    requires
        space <= u64::MAX - 128,
    ensures
        r == spec_minimum_balance(*rent, space),
{
    let base: u64 = 128 + space;
    let by_rate: u64 = match base.checked_mul(rent.lamports_per_byte_year) {
        Some(v) => v,
        None => u64::MAX,
    };
    let r: u64 = match by_rate.checked_mul(rent.exemption_threshold_years) {
        Some(v) => v,
        None => u64::MAX,
    };
    proof {
        if base * rent.lamports_per_byte_year > u64::MAX {
            if rent.exemption_threshold_years == 0 {
                assert(base * rent.lamports_per_byte_year * rent.exemption_threshold_years == 0) by (nonlinear_arith)
                    requires
                        rent.exemption_threshold_years == 0,
                ;
            } else {
                assert(base * rent.lamports_per_byte_year * rent.exemption_threshold_years > u64::MAX) by (nonlinear_arith)
                    requires
                        base * rent.lamports_per_byte_year > u64::MAX,
                        rent.exemption_threshold_years >= 1,
                ;
            }
        }
    }
    r
}

/// Describe the creation of a program-derived storage slot: the deposit is
/// computed from the rent parameters and the persistence mode, and the slot
/// carries the given bytes once the invocation completes.
pub fn create_pda_account(
    new_pda_address: &Addr,
    bump_seed: u8,
    signer_seeds: Vec<Vec<u8>>,
    rent: &RentParams,
    is_rent_exempt: bool,
    space: u64,
    data: Vec<u8>,
) -> (r: AccountCreation)
    requires
        rent.wf(),
        space <= u64::MAX - 128,
        data@.len() == space,
    ensures
        r@ == (CreationModel {
            address: new_pda_address@,
            bump: bump_seed,
            seeds: signer_seeds.deep_view(),
            space: space,
            lamports: spec_allocation_lamports(*rent, is_rent_exempt, space) as u64,
            data: data@,
        }),
{
    proof {
        lemma_allocation_lamports_bounded(*rent, is_rent_exempt, space);
    }
    let minimum = minimum_balance(rent, space);
    let rent_balance: u64 = if is_rent_exempt {
        minimum
    } else {
        match rent.exemption_threshold_years.checked_mul(365) {
            Some(divisor) => {
                let quotient = minimum / divisor;
                proof {
                    assert(quotient * 7 <= u64::MAX) by (nonlinear_arith)
                        requires
                            quotient == minimum as int / divisor as int,
                            0 <= minimum <= u64::MAX,
                            divisor >= 365,
                    ;
                }
                quotient * 7
            },
            None => {
                proof {
                    assert((minimum as int / (rent.exemption_threshold_years * 365)) * 7 == 0) by (nonlinear_arith)
                        requires
                            0 <= minimum <= u64::MAX,
                            rent.exemption_threshold_years * 365 > u64::MAX,
                    ;
                }
                0
            },
        }
    };
    let lamports: u64 = if rent_balance >= 1 {
        rent_balance
    } else {
        1
    };
    AccountCreation {
        address: *new_pda_address,
        bump: bump_seed,
        seeds: signer_seeds,
        space,
        lamports,
        data,
    }
}

} // verus!
