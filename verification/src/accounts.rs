//! What one invocation sees of the ledger and what it gives back.
//!
//! The processor is a pure state transition: it reads snapshots of the
//! supplied accounts and, on success, describes every storage creation and
//! every byte write of the invocation. An error describes nothing, so the
//! ledger is untouched — the host applies an invocation atomically.

use vstd::prelude::*;
use crate::addr::Addr;

verus! {

/// What the processor sees of one supplied account: its address, its owner,
/// whether its key holder signed the invocation, and its current bytes.
#[derive(Clone, Debug)]
pub struct AccountView {
    /// The account's address.
    pub key: Addr,
    /// The program that owns the account's bytes.
    pub owner: Addr,
    /// Whether the account's key holder signed the invocation.
    pub is_signer: bool,
    /// The account's bytes; empty until the account is created.
    pub data: Vec<u8>,
}

/// The mathematical view of an account snapshot.
pub ghost struct AccountModel {
    /// The account's address.
    pub key: Seq<u8>,
    /// The program that owns the account's bytes.
    pub owner: Seq<u8>,
    /// Whether the account's key holder signed the invocation.
    pub is_signer: bool,
    /// The account's bytes.
    pub data: Seq<u8>,
}

impl View for AccountView {
    type V = AccountModel;

    open spec fn view(&self) -> AccountModel {
        AccountModel { key: self.key@, owner: self.owner@, is_signer: self.is_signer, data: self.data@ }
    }
}

/// The ledger's storage-pricing parameters, as whole numbers: the rental rate
/// and the exemption threshold in years. The genuine network publishes a
/// whole-number threshold, and a threshold below one year would make the
/// reduced funding tier meaningless.
#[derive(Clone, Copy, Debug, PartialEq, Eq, Structural)]
pub struct RentParams {
    /// Rental rate in lamports per byte-year.
    pub lamports_per_byte_year: u64,
    /// How many years of rent an account must hold to be exempt.
    pub exemption_threshold_years: u64,
}

impl RentParams {
    /// The threshold is at least one year, as on the genuine network.
    pub open spec fn wf(&self) -> bool {
        self.exemption_threshold_years >= 1
    }
}

/// One storage slot the invocation asks the host to create: the derived
/// address with its full signer seed chain, the funding deposit, the byte
/// size, and the bytes the slot holds once the invocation completes.
#[derive(Clone, Debug)]
pub struct AccountCreation {
    /// The address of the new slot.
    pub address: Addr,
    /// The bump seed that made the derivation land off the curve.
    pub bump: u8,
    /// The signer seed chain authorizing the creation, bump included.
    pub seeds: Vec<Vec<u8>>,
    /// The byte size of the new slot.
    pub space: u64,
    /// The deposit funding the new slot.
    pub lamports: u64,
    /// The bytes the slot holds once the invocation completes.
    pub data: Vec<u8>,
}

/// The mathematical view of a storage creation.
pub ghost struct CreationModel {
    /// The address of the new slot.
    pub address: Seq<u8>,
    /// The bump seed that made the derivation land off the curve.
    pub bump: u8,
    /// The signer seed chain authorizing the creation, bump included.
    pub seeds: Seq<Seq<u8>>,
    /// The byte size of the new slot.
    pub space: u64,
    /// The deposit funding the new slot.
    pub lamports: u64,
    /// The bytes the slot holds once the invocation completes.
    pub data: Seq<u8>,
}

impl View for AccountCreation {
    type V = CreationModel;

    open spec fn view(&self) -> CreationModel {
        CreationModel {
            address: self.address@,
            bump: self.bump,
            seeds: self.seeds.deep_view(),
            space: self.space,
            lamports: self.lamports,
            data: self.data@,
        }
    }
}

/// One in-place byte write of the invocation to an existing account.
#[derive(Clone, Debug)]
pub struct AccountUpdate {
    /// The address of the account written to.
    pub address: Addr,
    /// The account's bytes once the invocation completes.
    pub data: Vec<u8>,
}

/// The mathematical view of an in-place write.
pub ghost struct UpdateModel {
    /// The address of the account written to.
    pub address: Seq<u8>,
    /// The account's bytes once the invocation completes.
    pub data: Seq<u8>,
}

impl View for AccountUpdate {
    type V = UpdateModel;

    open spec fn view(&self) -> UpdateModel {
        UpdateModel { address: self.address@, data: self.data@ }
    }
}

/// Everything one successful invocation does to the ledger, in the order the
/// operations are performed.
#[derive(Clone, Debug)]
pub struct InvocationOutcome {
    /// The storage slots the invocation creates.
    pub creations: Vec<AccountCreation>,
    /// The in-place writes the invocation makes.
    pub updates: Vec<AccountUpdate>,
}

/// The mathematical view of an invocation's effect.
pub ghost struct OutcomeModel {
    /// The storage slots the invocation creates.
    pub creations: Seq<CreationModel>,
    /// The in-place writes the invocation makes.
    pub updates: Seq<UpdateModel>,
}

impl View for InvocationOutcome {
    type V = OutcomeModel;

    open spec fn view(&self) -> OutcomeModel {
        OutcomeModel {
            creations: self.creations@.map_values(|c: AccountCreation| c@),
            updates: self.updates@.map_values(|u: AccountUpdate| u@),
        }
    }
}

/// The mathematical view of a list of storage creations.
pub open spec fn creations_view(v: Vec<AccountCreation>) -> Seq<CreationModel> {
    v@.map_values(|c: AccountCreation| c@)
}

/// The mathematical view of a list of in-place writes.
pub open spec fn updates_view(v: Vec<AccountUpdate>) -> Seq<UpdateModel> {
    v@.map_values(|u: AccountUpdate| u@)
}

/// The mathematical view of a handler's result.
pub open spec fn outcome_of(
    r: Result<InvocationOutcome, crate::error::InstantMessagingError>,
) -> Result<OutcomeModel, crate::error::InstantMessagingError> {
    match r {
        Ok(o) => Ok(o@),
        Err(e) => Err(e),
    }
}

} // verus!
