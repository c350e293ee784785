//! Program-derived address computation.
//!
//! The derivation hashes the ordered seed byte strings with the program
//! identity and searches bump seeds for an output with no private key; it is
//! handled by the host SDK and named here, so that every contract of this
//! library can speak of "the address derived from these seeds" exactly.

use vstd::prelude::*;
use crate::addr::Addr;

verus! {

/// What `Pubkey::try_find_program_address` returns for the given seed byte
/// strings under the given program identity: the derived 32-byte address and
/// its bump seed, or nothing in the statistically improbable event that no
/// bump seed yields a valid address.
pub uninterp spec fn pda_of(seeds: Seq<Seq<u8>>, program_id: Seq<u8>) -> Option<(Seq<u8>, u8)>;

/// Whether `r` is exactly what the derivation yields for these seeds: the
/// derived address and bump when one exists, and nothing otherwise.
pub open spec fn derives_to(seeds: Seq<Seq<u8>>, program_id: Seq<u8>, r: Option<(Addr, u8)>) -> bool {
    match r {
        Some(p) => pda_of(seeds, program_id) == Some((p.0@, p.1)),
        None => pda_of(seeds, program_id) is None,
    }
}

/// Relies on `solana_program::pubkey::Pubkey::try_find_program_address`: the
/// derivation hashes the seeds and the program id and checks candidates
/// against the curve, so its result is a function of the seeds and the
/// program id alone, and it returns `None` rather than panicking when no
/// bump seed works.
#[verifier::external_body]
pub(crate) fn derive_program_address(seeds: &Vec<Vec<u8>>, program_id: &Addr) -> (r: Option<(Addr, u8)>)
    ensures
        r matches Some(p) ==> pda_of(seeds.deep_view(), program_id@) == Some((p.0@, p.1)),
        r is None ==> pda_of(seeds.deep_view(), program_id@) is None,
{
    let pid = solana_program::pubkey::Pubkey::new_from_array(*program_id);
    let seed_slices: Vec<&[u8]> = seeds.iter().map(|s| s.as_slice()).collect();
    solana_program::pubkey::Pubkey::try_find_program_address(&seed_slices, &pid)
        .map(|(address, bump)| (address.to_bytes(), bump))
}

/// This program's identity.
pub open spec fn spec_id() -> Seq<u8> {
    seq![
        248u8, 196, 59, 106, 237, 2, 148, 147, 97, 240, 17, 154, 159, 255, 224, 158,
        33, 151, 123, 163, 199, 88, 26, 133, 101, 177, 162, 56, 103, 139, 60, 78,
    ]
}

/// The address of the rent-parameters system singleton.
pub open spec fn spec_rent_sysvar_id() -> Seq<u8> {
    seq![
        6u8, 167, 213, 23, 25, 44, 92, 81, 33, 140, 201, 76, 61, 74, 241, 127,
        88, 218, 238, 8, 155, 161, 253, 68, 227, 219, 217, 138, 0, 0, 0, 0,
    ]
}

/// The address of the wall-clock system singleton.
pub open spec fn spec_clock_sysvar_id() -> Seq<u8> {
    seq![
        6u8, 167, 213, 23, 24, 199, 116, 201, 40, 86, 99, 152, 105, 29, 94, 182,
        139, 94, 184, 163, 155, 75, 109, 92, 115, 85, 91, 33, 0, 0, 0, 0,
    ]
}

/// The address of the system program that creates accounts.
pub open spec fn spec_system_program_id() -> Seq<u8> {
    seq![
        0u8, 0, 0, 0, 0, 0, 0, 0, 0, 0, 0, 0, 0, 0, 0, 0,
        0, 0, 0, 0, 0, 0, 0, 0, 0, 0, 0, 0, 0, 0, 0, 0,
    ]
}

/// This program's identity.
pub fn id() -> (r: Addr)
    ensures
        r@ == spec_id(),
{
    let r: Addr = [
        248u8, 196, 59, 106, 237, 2, 148, 147, 97, 240, 17, 154, 159, 255, 224, 158,
        33, 151, 123, 163, 199, 88, 26, 133, 101, 177, 162, 56, 103, 139, 60, 78,
    ];
    proof {
        assert(r@ =~= spec_id());
    }
    r
}

/// The address of the rent-parameters system singleton.
pub fn rent_sysvar_id() -> (r: Addr)
    ensures
        r@ == spec_rent_sysvar_id(),
{
    let r: Addr = [
        6u8, 167, 213, 23, 25, 44, 92, 81, 33, 140, 201, 76, 61, 74, 241, 127,
        88, 218, 238, 8, 155, 161, 253, 68, 227, 219, 217, 138, 0, 0, 0, 0,
    ];
    proof {
        assert(r@ =~= spec_rent_sysvar_id());
    }
    r
}

/// The address of the wall-clock system singleton.
pub fn clock_sysvar_id() -> (r: Addr)
    ensures
        r@ == spec_clock_sysvar_id(),
{
    let r: Addr = [
        6u8, 167, 213, 23, 24, 199, 116, 201, 40, 86, 99, 152, 105, 29, 94, 182,
        139, 94, 184, 163, 155, 75, 109, 92, 115, 85, 91, 33, 0, 0, 0, 0,
    ];
    proof {
        assert(r@ =~= spec_clock_sysvar_id());
    }
    r
}

/// The address of the system program that creates accounts.
pub fn system_program_id() -> (r: Addr)
    ensures
        r@ == spec_system_program_id(),
{
    let r: Addr = [0u8; 32];
    proof {
        assert(r@ =~= spec_system_program_id());
    }
    r
}

} // verus!
