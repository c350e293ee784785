//! A content-addressed model of the ledger, and the laws the processor's
//! operations obey on it.
//!
//! The ledger is a map from addresses to owner-tagged byte cells; an address
//! outside the map reads as empty bytes. Applying an invocation's outcome
//! performs its creations and then its in-place writes, in order; an error
//! applies nothing.

use vstd::prelude::*;
use crate::accounts::{AccountModel, CreationModel, OutcomeModel, RentParams, UpdateModel};
use crate::codec::{
    lemma_conversation_roundtrip, lemma_message_roundtrip, lemma_user_roundtrip,
    spec_conversation_bytes, spec_conversation_decode, spec_message_bytes, spec_message_decode,
    spec_user_decode,
};
use crate::error::InstantMessagingError;
use crate::pda::pda_of;
use crate::processor::{
    spec_append_message, spec_create_conversation_account,
    spec_create_conversation_encryption_info_account, spec_create_message_account,
    spec_create_user_account, spec_create_user_conversation_account, spec_link_participant,
    spec_send_message,
};
use crate::state::{Conversation, Message, MessageModel, User, UserConversation};

verus! {

/// One storage cell of the ledger: its owning program and its bytes.
pub ghost struct LedgerCell {
    /// The program that owns the cell's bytes.
    pub owner: Seq<u8>,
    /// The cell's bytes.
    pub data: Seq<u8>,
}

/// The ledger: a map from addresses to cells.
pub type LedgerModel = Map<Seq<u8>, LedgerCell>;

/// The bytes a reader sees at an address: empty until the cell is created.
pub open spec fn cell_data(ledger: LedgerModel, key: Seq<u8>) -> Seq<u8> {
    if ledger.dom().contains(key) {
        ledger[key].data
    } else {
        Seq::empty()
    }
}

/// One storage creation applied to the ledger: the new cell belongs to the
/// owning program and holds the creation's bytes.
pub open spec fn apply_creation(ledger: LedgerModel, creation: CreationModel, owner: Seq<u8>) -> LedgerModel {
    ledger.insert(creation.address, LedgerCell { owner, data: creation.data })
}

/// One in-place write applied to the ledger: the cell keeps its owner and
/// takes the written bytes.
pub open spec fn apply_update(ledger: LedgerModel, update: UpdateModel) -> LedgerModel {
    let owner = if ledger.dom().contains(update.address) {
        ledger[update.address].owner
    } else {
        Seq::empty()
    };
    ledger.insert(update.address, LedgerCell { owner, data: update.data })
}

/// A list of creations applied in order.
pub open spec fn apply_creations(ledger: LedgerModel, creations: Seq<CreationModel>, owner: Seq<u8>) -> LedgerModel
    decreases creations.len(),
{
    if creations.len() == 0 {
        ledger
    } else {
        apply_creations(apply_creation(ledger, creations[0], owner), creations.skip(1), owner)
    }
}

/// A list of in-place writes applied in order.
pub open spec fn apply_updates(ledger: LedgerModel, updates: Seq<UpdateModel>) -> LedgerModel
    decreases updates.len(),
{
    if updates.len() == 0 {
        ledger
    } else {
        apply_updates(apply_update(ledger, updates[0]), updates.skip(1))
    }
}

/// An invocation's whole outcome applied to the ledger: its creations, then
/// its writes.
pub open spec fn apply_outcome(ledger: LedgerModel, outcome: OutcomeModel, owner: Seq<u8>) -> LedgerModel {
    apply_updates(apply_creations(ledger, outcome.creations, owner), outcome.updates)
}

/// An invocation's result applied to the ledger: an error applies nothing,
/// so a failed invocation leaves every cell as it was.
pub open spec fn apply_result(
    ledger: LedgerModel,
    r: Result<OutcomeModel, InstantMessagingError>,
    owner: Seq<u8>,
) -> LedgerModel {
    match r {
        Ok(outcome) => apply_outcome(ledger, outcome, owner),
        Err(_) => ledger,
    }
}

/// A cell that holds bytes keeps holding bytes under creations that write
/// bytes.
proof fn lemma_creations_keep_cell_nonempty(
    ledger: LedgerModel,
    creations: Seq<CreationModel>,
    owner: Seq<u8>,
    key: Seq<u8>,
)
    requires
        cell_data(ledger, key).len() > 0,
        forall|i: int| 0 <= i < creations.len() ==> #[trigger] creations[i].data.len() > 0,
    ensures
        cell_data(apply_creations(ledger, creations, owner), key).len() > 0,
    decreases creations.len(),
{
    if creations.len() > 0 {
        lemma_creations_keep_cell_nonempty(apply_creation(ledger, creations[0], owner), creations.skip(1), owner, key);
    }
}

/// A cell that holds bytes keeps holding bytes under writes that write bytes.
proof fn lemma_updates_keep_cell_nonempty(ledger: LedgerModel, updates: Seq<UpdateModel>, key: Seq<u8>)
    requires
        cell_data(ledger, key).len() > 0,
        forall|i: int| 0 <= i < updates.len() ==> #[trigger] updates[i].data.len() > 0,
    ensures
        cell_data(apply_updates(ledger, updates), key).len() > 0,
    decreases updates.len(),
{
    if updates.len() > 0 {
        lemma_updates_keep_cell_nonempty(apply_update(ledger, updates[0]), updates.skip(1), key);
    }
}

/// An outcome of one creation and no writes applies as that one creation.
proof fn lemma_apply_single_creation_outcome(ledger: LedgerModel, outcome: OutcomeModel, owner: Seq<u8>)
    requires
        outcome.creations.len() == 1,
        outcome.updates.len() == 0,
    ensures
        apply_outcome(ledger, outcome, owner) == apply_creation(ledger, outcome.creations[0], owner),
{
    let created = apply_creation(ledger, outcome.creations[0], owner);
    assert(outcome.creations.skip(1) =~= Seq::<CreationModel>::empty());
    assert(apply_creations(created, outcome.creations.skip(1), owner) == created);
    assert(apply_creations(ledger, outcome.creations, owner)
        == apply_creations(created, outcome.creations.skip(1), owner));
    assert(apply_updates(created, outcome.updates) == created);
}

/// Creating the same user twice: once a creation for a wallet has succeeded
/// and its writes are on the ledger, any retry that reads the slot's current
/// bytes fails with AlreadyInitialized — whatever funder or rent parameters
/// it comes with — and the failed retry changes no cell, so the first
/// creation's data stays untouched.
pub proof fn lemma_user_creation_not_repeatable(
    program_id: Seq<u8>,
    ledger: LedgerModel,
    user_account: AccountModel,
    wallet_key: Seq<u8>,
    rent: RentParams,
    retry_user_account: AccountModel,
    retry_rent: RentParams,
)
    requires
        spec_create_user_account(program_id, user_account, wallet_key, rent) is Ok,
        retry_user_account.key == user_account.key,
        retry_user_account.data == cell_data(
            apply_result(ledger, spec_create_user_account(program_id, user_account, wallet_key, rent), program_id),
            user_account.key,
        ),
    ensures
        spec_create_user_account(program_id, retry_user_account, wallet_key, retry_rent)
            == Err::<OutcomeModel, _>(InstantMessagingError::AlreadyInitialized),
        apply_result(
            apply_result(ledger, spec_create_user_account(program_id, user_account, wallet_key, rent), program_id),
            spec_create_user_account(program_id, retry_user_account, wallet_key, retry_rent),
            program_id,
        ) == apply_result(ledger, spec_create_user_account(program_id, user_account, wallet_key, rent), program_id),
{
    lemma_user_roundtrip(User { conversation_counter: 0 });
    let outcome = spec_create_user_account(program_id, user_account, wallet_key, rent)->Ok_0;
    let after = apply_result(ledger, spec_create_user_account(program_id, user_account, wallet_key, rent), program_id);
    lemma_apply_single_creation_outcome(ledger, outcome, program_id);
    assert(cell_data(after, user_account.key).len() > 0);
}

/// Creating the same user-conversation slot twice: once a creation for a
/// user and index has succeeded and its writes are on the ledger, any retry
/// that reads the slot's current bytes fails with AlreadyInitialized and
/// changes no cell.
pub proof fn lemma_user_conversation_creation_not_repeatable(
    program_id: Seq<u8>,
    ledger: LedgerModel,
    uc_account: AccountModel,
    user_key: Seq<u8>,
    conversation_index: u32,
    rent: RentParams,
    retry_uc_account: AccountModel,
    retry_rent: RentParams,
)
    requires
        spec_create_user_conversation_account(program_id, uc_account, user_key, conversation_index, rent) is Ok,
        retry_uc_account.key == uc_account.key,
        retry_uc_account.data == cell_data(
            apply_result(
                ledger,
                spec_create_user_conversation_account(program_id, uc_account, user_key, conversation_index, rent),
                program_id,
            ),
            uc_account.key,
        ),
    ensures
        spec_create_user_conversation_account(program_id, retry_uc_account, user_key, conversation_index, retry_rent)
            == Err::<OutcomeModel, _>(InstantMessagingError::AlreadyInitialized),
        apply_result(
            apply_result(
                ledger,
                spec_create_user_conversation_account(program_id, uc_account, user_key, conversation_index, rent),
                program_id,
            ),
            spec_create_user_conversation_account(program_id, retry_uc_account, user_key, conversation_index, retry_rent),
            program_id,
        ) == apply_result(
            ledger,
            spec_create_user_conversation_account(program_id, uc_account, user_key, conversation_index, rent),
            program_id,
        ),
{
    let first = spec_create_user_conversation_account(program_id, uc_account, user_key, conversation_index, rent);
    let outcome = first->Ok_0;
    let after = apply_result(ledger, first, program_id);
    lemma_apply_single_creation_outcome(ledger, outcome, program_id);
    assert(cell_data(after, uc_account.key).len() > 0);
}

/// Creating the same conversation's encryption info twice: once a creation
/// has succeeded and its write is on the ledger, any retry that reads the
/// slot's current bytes fails with AlreadyInitialized — whatever signer,
/// user accounts, blob or rent parameters it comes with — and the failed
/// retry changes no cell, so the stored blob stays untouched.
pub proof fn lemma_encryption_info_creation_not_repeatable(
    program_id: Seq<u8>,
    ledger: LedgerModel,
    sender: AccountModel,
    encryption_info_account: AccountModel,
    sender_user: AccountModel,
    receiver_user: AccountModel,
    conversation: AccountModel,
    rent_key: Seq<u8>,
    clock_key: Seq<u8>,
    rent: RentParams,
    data: Seq<u8>,
    retry_sender: AccountModel,
    retry_info_account: AccountModel,
    retry_sender_user: AccountModel,
    retry_receiver_user: AccountModel,
    retry_conversation: AccountModel,
    retry_rent_key: Seq<u8>,
    retry_clock_key: Seq<u8>,
    retry_rent: RentParams,
    retry_data: Seq<u8>,
)
    requires
        spec_create_conversation_encryption_info_account(
            program_id, sender, encryption_info_account, sender_user, receiver_user,
            conversation, rent_key, clock_key, rent, data,
        ) is Ok,
        retry_conversation.key == conversation.key,
        retry_info_account.key == encryption_info_account.key,
        retry_info_account.data == cell_data(
            apply_result(
                ledger,
                spec_create_conversation_encryption_info_account(
                    program_id, sender, encryption_info_account, sender_user, receiver_user,
                    conversation, rent_key, clock_key, rent, data,
                ),
                program_id,
            ),
            encryption_info_account.key,
        ),
    ensures
        spec_create_conversation_encryption_info_account(
            program_id, retry_sender, retry_info_account, retry_sender_user,
            retry_receiver_user, retry_conversation, retry_rent_key, retry_clock_key,
            retry_rent, retry_data,
        ) == Err::<OutcomeModel, _>(InstantMessagingError::AlreadyInitialized),
        apply_result(
            apply_result(
                ledger,
                spec_create_conversation_encryption_info_account(
                    program_id, sender, encryption_info_account, sender_user, receiver_user,
                    conversation, rent_key, clock_key, rent, data,
                ),
                program_id,
            ),
            spec_create_conversation_encryption_info_account(
                program_id, retry_sender, retry_info_account, retry_sender_user,
                retry_receiver_user, retry_conversation, retry_rent_key, retry_clock_key,
                retry_rent, retry_data,
            ),
            program_id,
        ) == apply_result(
            ledger,
            spec_create_conversation_encryption_info_account(
                program_id, sender, encryption_info_account, sender_user, receiver_user,
                conversation, rent_key, clock_key, rent, data,
            ),
            program_id,
        ),
{
    vstd::bytes::lemma_auto_spec_u32_to_from_le_bytes();
    let first = spec_create_conversation_encryption_info_account(
        program_id, sender, encryption_info_account, sender_user, receiver_user,
        conversation, rent_key, clock_key, rent, data,
    );
    let outcome = first->Ok_0;
    let after = apply_result(ledger, first, program_id);
    assert(outcome.creations[0].data.len() == 4 + data.len());
    lemma_apply_single_creation_outcome(ledger, outcome, program_id);
    assert(cell_data(after, encryption_info_account.key).len() > 0);
}

/// Re-attempting a conversation between the same two user accounts after it
/// already exists: the retry fails with AlreadyInitialized — whatever link
/// slots, funder or rent parameters it supplies — and changes no cell, so no
/// duplicate link entries are created for either participant.
pub proof fn lemma_conversation_creation_not_repeatable(
    program_id: Seq<u8>,
    ledger: LedgerModel,
    conversation_account: AccountModel,
    first_user: AccountModel,
    second_user: AccountModel,
    sender_uc: AccountModel,
    receiver_uc: AccountModel,
    rent: RentParams,
    retry_conversation: AccountModel,
    retry_first_user: AccountModel,
    retry_second_user: AccountModel,
    retry_sender_uc: AccountModel,
    retry_receiver_uc: AccountModel,
    retry_rent: RentParams,
)
    requires
        conversation_account.key.len() > 0,
        spec_create_conversation_account(
            program_id, conversation_account, first_user, second_user, sender_uc, receiver_uc, rent,
        ) is Ok,
        retry_conversation.key == conversation_account.key,
        retry_first_user.key == first_user.key,
        retry_second_user.key == second_user.key,
        retry_conversation.data == cell_data(
            apply_result(
                ledger,
                spec_create_conversation_account(
                    program_id, conversation_account, first_user, second_user, sender_uc, receiver_uc, rent,
                ),
                program_id,
            ),
            conversation_account.key,
        ),
    ensures
        spec_create_conversation_account(
            program_id, retry_conversation, retry_first_user, retry_second_user,
            retry_sender_uc, retry_receiver_uc, retry_rent,
        ) == Err::<OutcomeModel, _>(InstantMessagingError::AlreadyInitialized),
        apply_result(
            apply_result(
                ledger,
                spec_create_conversation_account(
                    program_id, conversation_account, first_user, second_user, sender_uc, receiver_uc, rent,
                ),
                program_id,
            ),
            spec_create_conversation_account(
                program_id, retry_conversation, retry_first_user, retry_second_user,
                retry_sender_uc, retry_receiver_uc, retry_rent,
            ),
            program_id,
        ) == apply_result(
            ledger,
            spec_create_conversation_account(
                program_id, conversation_account, first_user, second_user, sender_uc, receiver_uc, rent,
            ),
            program_id,
        ),
{
    lemma_conversation_roundtrip(Conversation { message_counter: 0 });
    let first = spec_create_conversation_account(
        program_id, conversation_account, first_user, second_user, sender_uc, receiver_uc, rent,
    );
    let outcome = first->Ok_0;
    let after = apply_result(ledger, first, program_id);

    let sender_part = spec_link_participant(
        program_id, conversation_account.key, first_user.key, first_user.data,
        sender_uc.key, sender_uc.data, rent,
    )->Ok_0;
    let second_user_data = if second_user.key == first_user.key && sender_part.1.len() > 0 {
        sender_part.1[0].data
    } else {
        second_user.data
    };
    let receiver_uc_data = if receiver_uc.key == sender_uc.key && sender_part.0.len() > 0 {
        sender_part.0[0].data
    } else {
        receiver_uc.data
    };
    let receiver_part = spec_link_participant(
        program_id, conversation_account.key, second_user.key, second_user_data,
        receiver_uc.key, receiver_uc_data, rent,
    )->Ok_0;

    assert forall|i: int| 0 <= i < outcome.creations.len()
        implies #[trigger] outcome.creations[i].data.len() > 0 by {
        if sender_part.0.len() > 0 {
            assert(sender_part.0[0].data == conversation_account.key);
        }
        if receiver_part.0.len() > 0 {
            assert(receiver_part.0[0].data == conversation_account.key);
        }
        assert(outcome.creations == seq![outcome.creations[0]] + sender_part.0 + receiver_part.0);
    }
    assert forall|i: int| 0 <= i < outcome.updates.len()
        implies #[trigger] outcome.updates[i].data.len() > 0 by {
        if sender_part.1.len() > 0 {
            let advanced = spec_user_decode(first_user.data)->Some_0.conversation_counter;
            lemma_user_roundtrip(User { conversation_counter: (advanced + 1) as u32 });
        }
        if receiver_part.1.len() > 0 {
            let advanced = spec_user_decode(second_user_data)->Some_0.conversation_counter;
            lemma_user_roundtrip(User { conversation_counter: (advanced + 1) as u32 });
        }
        assert(outcome.updates == sender_part.1 + receiver_part.1);
    }

    let ledger_created = apply_creation(ledger, outcome.creations[0], program_id);
    assert(cell_data(ledger_created, conversation_account.key).len() > 0);
    assert(apply_creations(ledger, outcome.creations, program_id)
        == apply_creations(ledger_created, outcome.creations.skip(1), program_id));
    lemma_creations_keep_cell_nonempty(ledger_created, outcome.creations.skip(1), program_id, conversation_account.key);
    lemma_updates_keep_cell_nonempty(
        apply_creations(ledger, outcome.creations, program_id),
        outcome.updates,
        conversation_account.key,
    );
    assert(cell_data(after, conversation_account.key).len() > 0);
}

/// A message creation whose signer's link record points at a different
/// conversation than the one supplied fails with MembershipViolation — even
/// though the signer signed, every referenced account exists with the right
/// owner, and the link slot is the correctly derived one — and the failed
/// invocation creates no account and changes no cell.
pub proof fn lemma_membership_violation_rejected(
    program_id: Seq<u8>,
    ledger: LedgerModel,
    sender: AccountModel,
    sender_user: AccountModel,
    sender_user_conversation: AccountModel,
    conversation: AccountModel,
    message_account: AccountModel,
    rent_key: Seq<u8>,
    clock_key: Seq<u8>,
    rent: RentParams,
    now: i64,
    conversation_index: u32,
    message_type: u8,
    content: Seq<u8>,
)
    requires
        sender.is_signer,
        sender_user.data.len() > 0,
        conversation.data.len() > 0,
        conversation.owner == program_id,
        pda_of(UserConversation::spec_seeds(sender_user.key, conversation_index), program_id)
            matches Some(d) && d.0 == sender_user_conversation.key,
        crate::codec::spec_user_conversation_decode(sender_user_conversation.data)
            matches Some(linked) && linked != conversation.key,
    ensures
        spec_create_message_account(
            program_id, sender, sender_user, sender_user_conversation, conversation,
            message_account, rent_key, clock_key, rent, now, conversation_index,
            message_type, content,
        ) == Err::<OutcomeModel, _>(InstantMessagingError::MembershipViolation),
        apply_result(
            ledger,
            spec_create_message_account(
                program_id, sender, sender_user, sender_user_conversation, conversation,
                message_account, rent_key, clock_key, rent, now, conversation_index,
                message_type, content,
            ),
            program_id,
        ) == ledger,
{
}

/// Creations aimed at other addresses leave a cell untouched.
proof fn lemma_creations_preserve_other_cells(
    ledger: LedgerModel,
    creations: Seq<CreationModel>,
    owner: Seq<u8>,
    key: Seq<u8>,
)
    requires
        forall|i: int| 0 <= i < creations.len() ==> #[trigger] creations[i].address != key,
    ensures
        cell_data(apply_creations(ledger, creations, owner), key) == cell_data(ledger, key),
    decreases creations.len(),
{
    if creations.len() > 0 {
        lemma_creations_preserve_other_cells(apply_creation(ledger, creations[0], owner), creations.skip(1), owner, key);
    }
}

/// Writes aimed at other addresses leave a cell untouched.
proof fn lemma_updates_preserve_other_cells(ledger: LedgerModel, updates: Seq<UpdateModel>, key: Seq<u8>)
    requires
        forall|i: int| 0 <= i < updates.len() ==> #[trigger] updates[i].address != key,
    ensures
        cell_data(apply_updates(ledger, updates), key) == cell_data(ledger, key),
    decreases updates.len(),
{
    if updates.len() > 0 {
        lemma_updates_preserve_other_cells(apply_update(ledger, updates[0]), updates.skip(1), key);
    }
}

/// An outcome of one creation and one write applies as that creation
/// followed by that write.
proof fn lemma_apply_creation_update_outcome(ledger: LedgerModel, outcome: OutcomeModel, owner: Seq<u8>)
    requires
        outcome.creations.len() == 1,
        outcome.updates.len() == 1,
    ensures
        apply_outcome(ledger, outcome, owner)
            == apply_update(apply_creation(ledger, outcome.creations[0], owner), outcome.updates[0]),
{
    let created = apply_creation(ledger, outcome.creations[0], owner);
    assert(outcome.creations.skip(1) =~= Seq::<CreationModel>::empty());
    assert(apply_creations(created, outcome.creations.skip(1), owner) == created);
    assert(apply_creations(ledger, outcome.creations, owner)
        == apply_creations(created, outcome.creations.skip(1), owner));
    let written = apply_update(created, outcome.updates[0]);
    assert(outcome.updates.skip(1) =~= Seq::<UpdateModel>::empty());
    assert(apply_updates(written, outcome.updates.skip(1)) == written);
    assert(apply_updates(created, outcome.updates)
        == apply_updates(written, outcome.updates.skip(1)));
}

/// Message indices are contiguous from zero: the conversation's counter
/// reads `n`, and a decodable message record sits at the derived address of
/// every index below `n`.
pub open spec fn conversation_messages_contiguous(
    ledger: LedgerModel,
    program_id: Seq<u8>,
    conversation_key: Seq<u8>,
    n: u32,
) -> bool {
    &&& spec_conversation_decode(cell_data(ledger, conversation_key))
        == Some(Conversation { message_counter: n })
    &&& forall|i: u32| i < n ==> ((#[trigger] pda_of(Message::spec_seeds(conversation_key, i), program_id))
        matches Some(d) && spec_message_decode(cell_data(ledger, d.0)) is Some)
}

/// A successful conversation creation leaves the new conversation's counter
/// at zero with no message below it, as long as the participants' records
/// stand at addresses other than the conversation's own — which the
/// namespacing seeds guarantee short of a derivation collision.
pub proof fn lemma_conversation_creation_starts_contiguous(
    program_id: Seq<u8>,
    ledger: LedgerModel,
    conversation_account: AccountModel,
    first_user: AccountModel,
    second_user: AccountModel,
    sender_uc: AccountModel,
    receiver_uc: AccountModel,
    rent: RentParams,
)
    requires
        spec_create_conversation_account(
            program_id, conversation_account, first_user, second_user, sender_uc, receiver_uc, rent,
        ) is Ok,
        first_user.key != conversation_account.key,
        second_user.key != conversation_account.key,
        sender_uc.key != conversation_account.key,
        receiver_uc.key != conversation_account.key,
    ensures
        conversation_messages_contiguous(
            apply_result(
                ledger,
                spec_create_conversation_account(
                    program_id, conversation_account, first_user, second_user, sender_uc, receiver_uc, rent,
                ),
                program_id,
            ),
            program_id,
            conversation_account.key,
            0,
        ),
{
    lemma_conversation_roundtrip(Conversation { message_counter: 0 });
    let first = spec_create_conversation_account(
        program_id, conversation_account, first_user, second_user, sender_uc, receiver_uc, rent,
    );
    let outcome = first->Ok_0;
    let sender_part = spec_link_participant(
        program_id, conversation_account.key, first_user.key, first_user.data,
        sender_uc.key, sender_uc.data, rent,
    )->Ok_0;
    let second_user_data = if second_user.key == first_user.key && sender_part.1.len() > 0 {
        sender_part.1[0].data
    } else {
        second_user.data
    };
    let receiver_uc_data = if receiver_uc.key == sender_uc.key && sender_part.0.len() > 0 {
        sender_part.0[0].data
    } else {
        receiver_uc.data
    };
    let receiver_part = spec_link_participant(
        program_id, conversation_account.key, second_user.key, second_user_data,
        receiver_uc.key, receiver_uc_data, rent,
    )->Ok_0;

    let rest = sender_part.0 + receiver_part.0;
    assert(outcome.creations == seq![outcome.creations[0]] + rest);
    let created = apply_creation(ledger, outcome.creations[0], program_id);
    assert((seq![outcome.creations[0]] + rest).skip(1) =~= rest);
    assert(apply_creations(ledger, outcome.creations, program_id)
        == apply_creations(created, rest, program_id));
    assert forall|i: int| 0 <= i < rest.len()
        implies #[trigger] rest[i].address != conversation_account.key by {
        if sender_part.0.len() > 0 {
            assert(sender_part.0[0].address == sender_uc.key);
        }
        if receiver_part.0.len() > 0 {
            assert(receiver_part.0[0].address == receiver_uc.key);
        }
    }
    lemma_creations_preserve_other_cells(created, rest, program_id, conversation_account.key);
    assert forall|i: int| 0 <= i < outcome.updates.len()
        implies #[trigger] outcome.updates[i].address != conversation_account.key by {
        assert(outcome.updates == sender_part.1 + receiver_part.1);
        if sender_part.1.len() > 0 {
            assert(sender_part.1[0].address == first_user.key);
        }
        if receiver_part.1.len() > 0 {
            assert(receiver_part.1[0].address == second_user.key);
        }
    }
    lemma_updates_preserve_other_cells(
        apply_creations(ledger, outcome.creations, program_id),
        outcome.updates,
        conversation_account.key,
    );
}

/// A successful message creation appends exactly at the old counter and
/// advances it by one, preserving contiguity: the supplied message slot is
/// the address derived at the old counter, it then decodes to the message
/// sent, every earlier message stays untouched, and the counter reads one
/// higher — as long as no derived address collides with the conversation's
/// or another index's, which the seed lists guarantee short of a derivation
/// collision.
pub proof fn lemma_message_creation_extends_contiguous(
    program_id: Seq<u8>,
    ledger: LedgerModel,
    sender: AccountModel,
    sender_user: AccountModel,
    sender_user_conversation: AccountModel,
    conversation: AccountModel,
    message_account: AccountModel,
    rent_key: Seq<u8>,
    clock_key: Seq<u8>,
    rent: RentParams,
    now: i64,
    conversation_index: u32,
    message_type: u8,
    content: Seq<u8>,
    n: u32,
)
    requires
        conversation_messages_contiguous(ledger, program_id, conversation.key, n),
        n < u32::MAX,
        conversation.data == cell_data(ledger, conversation.key),
        sender.key.len() == 32,
        content.len() <= u32::MAX,
        spec_create_message_account(
            program_id, sender, sender_user, sender_user_conversation, conversation,
            message_account, rent_key, clock_key, rent, now, conversation_index,
            message_type, content,
        ) is Ok,
        message_account.key != conversation.key,
        forall|i: u32| i < n ==> ((#[trigger] pda_of(Message::spec_seeds(conversation.key, i), program_id))
            matches Some(d) && d.0 != message_account.key && d.0 != conversation.key),
    ensures
        pda_of(Message::spec_seeds(conversation.key, n), program_id)
            matches Some(d) && d.0 == message_account.key,
        conversation_messages_contiguous(
            apply_result(
                ledger,
                spec_create_message_account(
                    program_id, sender, sender_user, sender_user_conversation, conversation,
                    message_account, rent_key, clock_key, rent, now, conversation_index,
                    message_type, content,
                ),
                program_id,
            ),
            program_id,
            conversation.key,
            (n + 1) as u32,
        ),
        spec_message_decode(cell_data(
            apply_result(
                ledger,
                spec_create_message_account(
                    program_id, sender, sender_user, sender_user_conversation, conversation,
                    message_account, rent_key, clock_key, rent, now, conversation_index,
                    message_type, content,
                ),
                program_id,
            ),
            message_account.key,
        )) == Some(MessageModel {
            sender: sender.key,
            message_type: message_type,
            content: content,
            timestamp: now,
        }),
{
    let result = spec_create_message_account(
        program_id, sender, sender_user, sender_user_conversation, conversation,
        message_account, rent_key, clock_key, rent, now, conversation_index,
        message_type, content,
    );
    let outcome = result->Ok_0;
    let sent = MessageModel {
        sender: sender.key,
        message_type: message_type,
        content: content,
        timestamp: now,
    };
    lemma_message_roundtrip(sent);
    lemma_conversation_roundtrip(Conversation { message_counter: (n + 1) as u32 });
    lemma_apply_creation_update_outcome(ledger, outcome, program_id);
    let after = apply_result(ledger, result, program_id);
    assert(cell_data(after, conversation.key)
        == spec_conversation_bytes(Conversation { message_counter: (n + 1) as u32 }));
    assert(cell_data(after, message_account.key) == spec_message_bytes(sent));
    assert forall|i: u32| i < (n + 1) as u32
        implies ((#[trigger] pda_of(Message::spec_seeds(conversation.key, i), program_id))
            matches Some(d) && spec_message_decode(cell_data(after, d.0)) is Some) by {
        if i < n {
            assert((pda_of(Message::spec_seeds(conversation.key, i), program_id) matches Some(d)
                && spec_message_decode(cell_data(ledger, d.0)) is Some));
            let d = pda_of(Message::spec_seeds(conversation.key, i), program_id)->Some_0;
            assert(cell_data(after, d.0) == cell_data(ledger, d.0));
        }
    }
}

/// The twin of the step law for the send operation, whose conversation is
/// re-derived from the two user accounts rather than read from a stored
/// link: a successful send appends exactly at the old counter, advances it
/// by one, and preserves contiguity under the same collision-freedom
/// hypotheses.
pub proof fn lemma_send_message_extends_contiguous(
    program_id: Seq<u8>,
    ledger: LedgerModel,
    sender: AccountModel,
    sender_user: AccountModel,
    receiver_user: AccountModel,
    conversation: AccountModel,
    message_account: AccountModel,
    rent_key: Seq<u8>,
    clock_key: Seq<u8>,
    rent: RentParams,
    now: i64,
    message_type: u8,
    content: Seq<u8>,
    n: u32,
)
    requires
        conversation_messages_contiguous(ledger, program_id, conversation.key, n),
        n < u32::MAX,
        conversation.data == cell_data(ledger, conversation.key),
        sender.key.len() == 32,
        content.len() <= u32::MAX,
        spec_send_message(
            program_id, sender, sender_user, receiver_user, conversation, message_account,
            rent_key, clock_key, rent, now, message_type, content,
        ) is Ok,
        message_account.key != conversation.key,
        forall|i: u32| i < n ==> ((#[trigger] pda_of(Message::spec_seeds(conversation.key, i), program_id))
            matches Some(d) && d.0 != message_account.key && d.0 != conversation.key),
    ensures
        pda_of(Message::spec_seeds(conversation.key, n), program_id)
            matches Some(d) && d.0 == message_account.key,
        conversation_messages_contiguous(
            apply_result(
                ledger,
                spec_send_message(
                    program_id, sender, sender_user, receiver_user, conversation, message_account,
                    rent_key, clock_key, rent, now, message_type, content,
                ),
                program_id,
            ),
            program_id,
            conversation.key,
            (n + 1) as u32,
        ),
        spec_message_decode(cell_data(
            apply_result(
                ledger,
                spec_send_message(
                    program_id, sender, sender_user, receiver_user, conversation, message_account,
                    rent_key, clock_key, rent, now, message_type, content,
                ),
                program_id,
            ),
            message_account.key,
        )) == Some(MessageModel {
            sender: sender.key,
            message_type: message_type,
            content: content,
            timestamp: now,
        }),
{
    let result = spec_send_message(
        program_id, sender, sender_user, receiver_user, conversation, message_account,
        rent_key, clock_key, rent, now, message_type, content,
    );
    let outcome = result->Ok_0;
    let sent = MessageModel {
        sender: sender.key,
        message_type: message_type,
        content: content,
        timestamp: now,
    };
    lemma_message_roundtrip(sent);
    lemma_conversation_roundtrip(Conversation { message_counter: (n + 1) as u32 });
    lemma_apply_creation_update_outcome(ledger, outcome, program_id);
    let after = apply_result(ledger, result, program_id);
    assert(cell_data(after, conversation.key)
        == spec_conversation_bytes(Conversation { message_counter: (n + 1) as u32 }));
    assert(cell_data(after, message_account.key) == spec_message_bytes(sent));
    assert forall|i: u32| i < (n + 1) as u32
        implies ((#[trigger] pda_of(Message::spec_seeds(conversation.key, i), program_id))
            matches Some(d) && spec_message_decode(cell_data(after, d.0)) is Some) by {
        if i < n {
            assert((pda_of(Message::spec_seeds(conversation.key, i), program_id) matches Some(d)
                && spec_message_decode(cell_data(ledger, d.0)) is Some));
            let d = pda_of(Message::spec_seeds(conversation.key, i), program_id)->Some_0;
            assert(cell_data(after, d.0) == cell_data(ledger, d.0));
        }
    }
}

/// The counter is the single source of truth for the next message index:
/// once an append at the current counter has succeeded and the counter has
/// moved on, a second attempt supplying the same message slot fails with an
/// address mismatch, whatever sender, payload or rent parameters it comes
/// with — the slot of the advanced counter is a different address, short of
/// a derivation collision. A truly concurrent duplicate instead loses the
/// host-level race for the identical slot address.
pub proof fn lemma_same_message_slot_not_repeatable(
    program_id: Seq<u8>,
    conversation: AccountModel,
    sender_key: Seq<u8>,
    message_key: Seq<u8>,
    rent: RentParams,
    now: i64,
    message_type: u8,
    content: Seq<u8>,
    retry_conversation: AccountModel,
    retry_sender_key: Seq<u8>,
    retry_rent: RentParams,
    retry_now: i64,
    retry_message_type: u8,
    retry_content: Seq<u8>,
)
    requires
        spec_append_message(program_id, conversation, sender_key, message_key, rent, now, message_type, content) is Ok,
        spec_conversation_decode(conversation.data) matches Some(c) && c.message_counter < u32::MAX,
        retry_conversation.key == conversation.key,
        retry_conversation.data == spec_conversation_bytes(Conversation {
            message_counter: (spec_conversation_decode(conversation.data)->Some_0.message_counter + 1) as u32,
        }),
        (pda_of(
            Message::spec_seeds(
                conversation.key,
                (spec_conversation_decode(conversation.data)->Some_0.message_counter + 1) as u32,
            ),
            program_id,
        ) matches Some(d) ==> d.0 != message_key),
    ensures
        spec_append_message(
            program_id, retry_conversation, retry_sender_key, message_key,
            retry_rent, retry_now, retry_message_type, retry_content,
        ) == Err::<(CreationModel, UpdateModel), _>(InstantMessagingError::AddressDerivationMismatch),
{
    let advanced = (spec_conversation_decode(conversation.data)->Some_0.message_counter + 1) as u32;
    lemma_conversation_roundtrip(Conversation { message_counter: advanced });
}

/// The message slot the derivation picks for one index of a conversation.
pub open spec fn message_slot_of(program_id: Seq<u8>, conversation_key: Seq<u8>, index: u32) -> Seq<u8> {
    pda_of(Message::spec_seeds(conversation_key, index), program_id)->Some_0.0
}

/// Whether the message slots of the indices below `bound` are pairwise
/// distinct addresses, all off the conversation account itself. The seed
/// lists of distinct indices are distinct, so only a collision of the
/// derivation could break this.
pub open spec fn message_slots_distinct(program_id: Seq<u8>, conversation_key: Seq<u8>, bound: u32) -> bool {
    &&& forall|i: u32, j: u32| i < j < bound ==> message_slot_of(program_id, conversation_key, i)
        != message_slot_of(program_id, conversation_key, j)
    &&& forall|i: u32| i < bound ==> message_slot_of(program_id, conversation_key, i) != conversation_key
}

/// One send invocation's supplied accounts and payload, against a fixed
/// conversation whose snapshot is read from the ledger of the moment.
pub ghost struct SendStep {
    /// The signing sender.
    pub sender: AccountModel,
    /// The sender's user account.
    pub sender_user: AccountModel,
    /// The receiver's user account.
    pub receiver_user: AccountModel,
    /// The supplied message slot.
    pub message_account: AccountModel,
    /// The supplied rent reference.
    pub rent_key: Seq<u8>,
    /// The supplied clock reference.
    pub clock_key: Seq<u8>,
    /// The rent parameters of the moment.
    pub rent: RentParams,
    /// The wall-clock time of the moment.
    pub now: i64,
    /// Content type of the message.
    pub message_type: u8,
    /// Message content.
    pub content: Seq<u8>,
}

/// The conversation snapshot one send step reads from the ledger.
pub open spec fn step_conversation(ledger: LedgerModel, program_id: Seq<u8>, conversation_key: Seq<u8>) -> AccountModel {
    AccountModel {
        key: conversation_key,
        owner: program_id,
        is_signer: false,
        data: cell_data(ledger, conversation_key),
    }
}

/// What one send step does to the ledger.
pub open spec fn step_result(
    ledger: LedgerModel,
    program_id: Seq<u8>,
    conversation_key: Seq<u8>,
    step: SendStep,
) -> Result<OutcomeModel, InstantMessagingError> {
    spec_send_message(
        program_id,
        step.sender,
        step.sender_user,
        step.receiver_user,
        step_conversation(ledger, program_id, conversation_key),
        step.message_account,
        step.rent_key,
        step.clock_key,
        step.rent,
        step.now,
        step.message_type,
        step.content,
    )
}

/// The ledger after a sequence of send invocations against one conversation,
/// each reading the conversation as the one before left it.
pub open spec fn apply_send_steps(
    ledger: LedgerModel,
    program_id: Seq<u8>,
    conversation_key: Seq<u8>,
    steps: Seq<SendStep>,
) -> LedgerModel
    decreases steps.len(),
{
    if steps.len() == 0 {
        ledger
    } else {
        apply_send_steps(
            apply_result(ledger, step_result(ledger, program_id, conversation_key, steps[0]), program_id),
            program_id,
            conversation_key,
            steps.skip(1),
        )
    }
}

/// Whether every send invocation of the sequence succeeds.
pub open spec fn send_steps_succeed(
    ledger: LedgerModel,
    program_id: Seq<u8>,
    conversation_key: Seq<u8>,
    steps: Seq<SendStep>,
) -> bool
    decreases steps.len(),
{
    if steps.len() == 0 {
        true
    } else {
        &&& step_result(ledger, program_id, conversation_key, steps[0]) is Ok
        &&& send_steps_succeed(
            apply_result(ledger, step_result(ledger, program_id, conversation_key, steps[0]), program_id),
            program_id,
            conversation_key,
            steps.skip(1),
        )
    }
}

/// Whether every step's supplied sender and content are well-sized.
pub open spec fn send_steps_wf(steps: Seq<SendStep>) -> bool {
    forall|k: int| 0 <= k < steps.len() ==> (#[trigger] steps[k]).sender.key.len() == 32
        && steps[k].content.len() <= u32::MAX
}

/// Message indices stay contiguous over any run of successful sends: after
/// `N` more successful send invocations against a conversation whose counter
/// reads `n`, the counter reads `n + N` and a decodable message sits at the
/// derived slot of every index below it, with no gap — as long as the
/// derived message slots stay off each other and off the conversation
/// account, which distinct seed lists guarantee short of a derivation
/// collision.
pub proof fn lemma_send_trace_keeps_contiguity(
    ledger: LedgerModel,
    program_id: Seq<u8>,
    conversation_key: Seq<u8>,
    steps: Seq<SendStep>,
    n: u32,
)
    requires
        conversation_messages_contiguous(ledger, program_id, conversation_key, n),
        n + steps.len() <= u32::MAX,
        send_steps_wf(steps),
        send_steps_succeed(ledger, program_id, conversation_key, steps),
        message_slots_distinct(program_id, conversation_key, (n + steps.len()) as u32),
    ensures
        conversation_messages_contiguous(
            apply_send_steps(ledger, program_id, conversation_key, steps),
            program_id,
            conversation_key,
            (n + steps.len()) as u32,
        ),
    decreases steps.len(),
{
    if steps.len() > 0 {
        let step = steps[0];
        let conversation = step_conversation(ledger, program_id, conversation_key);
        let r = step_result(ledger, program_id, conversation_key, step);
        assert(spec_conversation_decode(conversation.data) == Some(Conversation { message_counter: n }));
        assert(pda_of(Message::spec_seeds(conversation_key, n), program_id) matches Some(d)
            && d.0 == step.message_account.key);
        assert(step.message_account.key == message_slot_of(program_id, conversation_key, n));
        assert forall|i: u32| i < n
            implies ((#[trigger] pda_of(Message::spec_seeds(conversation_key, i), program_id))
                matches Some(d) && d.0 != step.message_account.key && d.0 != conversation.key) by {
            assert((pda_of(Message::spec_seeds(conversation_key, i), program_id) matches Some(d)
                && spec_message_decode(cell_data(ledger, d.0)) is Some));
            assert(message_slot_of(program_id, conversation_key, i)
                != message_slot_of(program_id, conversation_key, n));
            assert(message_slot_of(program_id, conversation_key, i) != conversation_key);
        }
        lemma_send_message_extends_contiguous(
            program_id, ledger, step.sender, step.sender_user, step.receiver_user,
            conversation, step.message_account, step.rent_key, step.clock_key, step.rent,
            step.now, step.message_type, step.content, n,
        );
        assert(send_steps_wf(steps.skip(1))) by {
            assert forall|k: int| 0 <= k < steps.skip(1).len()
                implies (#[trigger] steps.skip(1)[k]).sender.key.len() == 32
                    && steps.skip(1)[k].content.len() <= u32::MAX by {
                assert(steps.skip(1)[k] == steps[k + 1]);
            }
        }
        lemma_send_trace_keeps_contiguity(
            apply_result(ledger, r, program_id),
            program_id,
            conversation_key,
            steps.skip(1),
            (n + 1) as u32,
        );
    }
}

} // verus!
