//! The instruction processor: six operations, each of which re-derives every
//! expected address from the supplied keys, rejects mismatches, checks
//! signer, owner and initialization preconditions, and describes the
//! allocation and byte writes of the invocation.
//!
//! Each handler is a pure state transition over snapshots of the supplied
//! accounts: the first failing check returns its error and describes no
//! write. Within one invocation, reads that follow writes are modeled for
//! the one pair of roles that may legitimately alias — the two participants
//! of one conversation and their two link slots.

use vstd::prelude::*;
use crate::accounts::{
    AccountCreation, AccountModel, AccountUpdate, AccountView, CreationModel, InvocationOutcome,
    OutcomeModel, RentParams, UpdateModel, creations_view, outcome_of, updates_view,
};
use crate::addr::{Addr, addr_eq, addr_to_vec};
use crate::codec::{
    deserialize_conversation, deserialize_user, deserialize_user_conversation,
    serialize_conversation, serialize_encryption_info, serialize_message, serialize_user,
    spec_conversation_bytes, spec_conversation_decode, spec_encryption_info_bytes,
    spec_message_bytes, spec_user_bytes, spec_user_conversation_decode, spec_user_decode,
};
use crate::error::InstantMessagingError;
use crate::instruction::{InstantMessagingInstruction, InstantMessagingInstructionModel, decode_instruction, spec_instruction_decode};
use crate::pda::{clock_sysvar_id, pda_of, rent_sysvar_id, spec_clock_sysvar_id, spec_rent_sysvar_id};
use crate::state::{
    Conversation, ConversationEncryptionInfo, Message, MessageModel, User, UserConversation,
    zero_bytes, zero_vec,
};
use crate::utils::{create_pda_account, spec_allocation_lamports};

verus! {

/// The full signer seed chain of a creation: the derivation seeds, then the
/// bump seed as a one-byte string.
pub open spec fn spec_signer_seeds(seeds: Seq<Seq<u8>>, bump: u8) -> Seq<Seq<u8>> {
    seeds.push(seq![bump])
}

/// Whether a stored user record leaves room for two more recorded links;
/// one conversation creation may record a link for each participant, and a
/// participant may appear on both sides.
pub open spec fn user_counter_has_headroom(data: Seq<u8>) -> bool {
    spec_user_decode(data) matches Some(u) ==> u.conversation_counter + 2 <= u32::MAX
}

/// What creating a user account does: the supplied slot must be the address
/// derived from the wallet, and must still be empty; the new permanent slot
/// then holds a zeroed counter.
pub open spec fn spec_create_user_account(
    program_id: Seq<u8>,
    user_account: AccountModel,
    wallet_key: Seq<u8>,
    rent: RentParams,
) -> Result<OutcomeModel, InstantMessagingError> {
    match pda_of(User::spec_seeds(wallet_key), program_id) {
        None => Err(InstantMessagingError::AddressDerivationMismatch),
        Some(derived) => {
            if derived.0 != user_account.key {
                Err(InstantMessagingError::AddressDerivationMismatch)
            } else if user_account.data.len() > 0 {
                Err(InstantMessagingError::AlreadyInitialized)
            } else {
                Ok(OutcomeModel {
                    creations: seq![
                        CreationModel {
                            address: derived.0,
                            bump: derived.1,
                            seeds: spec_signer_seeds(User::spec_seeds(wallet_key), derived.1),
                            space: 4,
                            lamports: spec_allocation_lamports(rent, true, 4) as u64,
                            data: spec_user_bytes(User { conversation_counter: 0 }),
                        },
                    ],
                    updates: seq![],
                })
            }
        },
    }
}

/// Create a new user account for a wallet.
pub fn create_user_account(
    program_id: &Addr,
    user_account: &AccountView,
    user_wallet_key: &Addr,
    rent: &RentParams,
) -> (r: Result<InvocationOutcome, InstantMessagingError>)
    requires
        rent.wf(),
    ensures
        outcome_of(r) == spec_create_user_account(program_id@, user_account@, user_wallet_key@, *rent),
{
    let derived = match User::find_pda_address_with_bump_seed(user_wallet_key, program_id) {
        Some(d) => d,
        None => {
            return Err(InstantMessagingError::AddressDerivationMismatch);
        },
    };
    if !addr_eq(&derived.0, &user_account.key) {
        return Err(InstantMessagingError::AddressDerivationMismatch);
    }
    if user_account.data.len() > 0 {
        return Err(InstantMessagingError::AlreadyInitialized);
    }
    let mut signer_seeds: Vec<Vec<u8>> = Vec::new();
    signer_seeds.push(addr_to_vec(user_wallet_key));
    signer_seeds.push(User::account_address_seed());
    signer_seeds.push(vec![derived.1]);
    proof {
        assert(signer_seeds.deep_view() =~~= spec_signer_seeds(User::spec_seeds(user_wallet_key@), derived.1));
    }
    let fresh_record = serialize_user(&User { conversation_counter: 0 });
    proof {
        crate::codec::lemma_user_roundtrip(User { conversation_counter: 0 });
    }
    let creation = create_pda_account(&derived.0, derived.1, signer_seeds, rent, true, 4, fresh_record);
    let mut creations: Vec<AccountCreation> = Vec::new();
    creations.push(creation);
    let outcome = InvocationOutcome { creations, updates: Vec::new() };
    proof {
        let expected = spec_create_user_account(program_id@, user_account@, user_wallet_key@, *rent);
        assert(outcome@.creations =~~= expected->Ok_0.creations);
        assert(outcome@.updates =~~= expected->Ok_0.updates);
    }
    Ok(outcome)
}

/// What recording one participant's link to a new conversation does. The
/// participant's user record must decode; then, only if the supplied link
/// slot is still empty, the slot — re-derived from the user and the user's
/// current counter — is created holding the conversation's address, and the
/// counter is advanced. A populated slot is skipped silently, so a retried
/// creation never books a participant twice.
pub open spec fn spec_link_participant(
    program_id: Seq<u8>,
    conversation_key: Seq<u8>,
    user_key: Seq<u8>,
    user_data: Seq<u8>,
    uc_key: Seq<u8>,
    uc_data: Seq<u8>,
    rent: RentParams,
) -> Result<(Seq<CreationModel>, Seq<UpdateModel>), InstantMessagingError> {
    match spec_user_decode(user_data) {
        None => Err(InstantMessagingError::DecodeFailure),
        Some(user) => {
            if uc_data.len() == 0 {
                match pda_of(UserConversation::spec_seeds(user_key, user.conversation_counter), program_id) {
                    None => Err(InstantMessagingError::AddressDerivationMismatch),
                    Some(derived) => {
                        if derived.0 != uc_key {
                            Err(InstantMessagingError::AddressDerivationMismatch)
                        } else {
                            Ok((
                                seq![
                                    CreationModel {
                                        address: derived.0,
                                        bump: derived.1,
                                        seeds: spec_signer_seeds(
                                            UserConversation::spec_seeds(user_key, user.conversation_counter),
                                            derived.1,
                                        ),
                                        space: 32,
                                        lamports: spec_allocation_lamports(rent, true, 32) as u64,
                                        data: conversation_key,
                                    },
                                ],
                                seq![
                                    UpdateModel {
                                        address: user_key,
                                        data: spec_user_bytes(User {
                                            conversation_counter: (user.conversation_counter + 1) as u32,
                                        }),
                                    },
                                ],
                            ))
                        }
                    },
                }
            } else {
                Ok((seq![], seq![]))
            }
        },
    }
}

/// Record one participant's link to a new conversation, if that
/// participant's link slot is still empty.
fn link_participant(
    program_id: &Addr,
    conversation_key: &Addr,
    user_key: &Addr,
    user_data: &Vec<u8>,
    uc_key: &Addr,
    uc_data: &Vec<u8>,
    rent: &RentParams,
) -> (r: Result<(Vec<AccountCreation>, Vec<AccountUpdate>), InstantMessagingError>)
    requires
        rent.wf(),
        spec_user_decode(user_data@) matches Some(u) ==> u.conversation_counter < u32::MAX,
    ensures
        (match r {
            Ok(p) => spec_link_participant(
                program_id@, conversation_key@, user_key@, user_data@, uc_key@, uc_data@, *rent,
            ) == Ok::<_, InstantMessagingError>((creations_view(p.0), updates_view(p.1))),
            Err(e) => spec_link_participant(
                program_id@, conversation_key@, user_key@, user_data@, uc_key@, uc_data@, *rent,
            ) == Err::<(Seq<CreationModel>, Seq<UpdateModel>), _>(e),
        }),
{
    let user = match deserialize_user(user_data) {
        Ok(u) => u,
        Err(e) => {
            return Err(e);
        },
    };
    if uc_data.len() == 0 {
        let derived = match UserConversation::find_pda_address_with_bump_seed(user_key, user.conversation_counter, program_id) {
            Some(d) => d,
            None => {
                return Err(InstantMessagingError::AddressDerivationMismatch);
            },
        };
        if !addr_eq(&derived.0, uc_key) {
            return Err(InstantMessagingError::AddressDerivationMismatch);
        }
        let mut indexed_seed = crate::dec::u32_to_decimal(user.conversation_counter);
        let mut suffix = UserConversation::account_address_seed();
        indexed_seed.append(&mut suffix);
        let mut signer_seeds: Vec<Vec<u8>> = Vec::new();
        signer_seeds.push(addr_to_vec(user_key));
        signer_seeds.push(indexed_seed);
        signer_seeds.push(vec![derived.1]);
        proof {
            assert(signer_seeds.deep_view() =~~= spec_signer_seeds(
                UserConversation::spec_seeds(user_key@, user.conversation_counter),
                derived.1,
            ));
        }
        let creation = create_pda_account(
            &derived.0,
            derived.1,
            signer_seeds,
            rent,
            true,
            32,
            addr_to_vec(conversation_key),
        );
        let advanced = User { conversation_counter: user.conversation_counter + 1 };
        let update = AccountUpdate { address: *user_key, data: serialize_user(&advanced) };
        let mut creations: Vec<AccountCreation> = Vec::new();
        creations.push(creation);
        let mut updates: Vec<AccountUpdate> = Vec::new();
        updates.push(update);
        proof {
            let expected = spec_link_participant(
                program_id@, conversation_key@, user_key@, user_data@, uc_key@, uc_data@, *rent,
            );
            assert(creations_view(creations) =~~= expected->Ok_0.0);
            assert(updates_view(updates) =~~= expected->Ok_0.1);
        }
        Ok((creations, updates))
    } else {
        let creations: Vec<AccountCreation> = Vec::new();
        let updates: Vec<AccountUpdate> = Vec::new();
        proof {
            let expected = spec_link_participant(
                program_id@, conversation_key@, user_key@, user_data@, uc_key@, uc_data@, *rent,
            );
            assert(creations_view(creations) =~~= expected->Ok_0.0);
            assert(updates_view(updates) =~~= expected->Ok_0.1);
        }
        Ok((creations, updates))
    }
}

/// What creating a conversation does: the supplied slot must be the address
/// derived from the canonically sorted pair of user accounts, and must still
/// be empty; the new permanent slot then holds a zeroed message counter, and
/// each participant whose link slot is still empty has it created and their
/// counter advanced, independently and idempotently. The second participant
/// reads whatever the first participant's phase wrote: a shared user record
/// sees the advanced counter, and a shared link slot is skipped.
pub open spec fn spec_create_conversation_account(
    program_id: Seq<u8>,
    conversation_account: AccountModel,
    first_user: AccountModel,
    second_user: AccountModel,
    sender_user_conversation: AccountModel,
    receiver_user_conversation: AccountModel,
    rent: RentParams,
) -> Result<OutcomeModel, InstantMessagingError> {
    match pda_of(Conversation::spec_seeds(first_user.key, second_user.key), program_id) {
        None => Err(InstantMessagingError::AddressDerivationMismatch),
        Some(derived) => {
            if derived.0 != conversation_account.key {
                Err(InstantMessagingError::AddressDerivationMismatch)
            } else if conversation_account.data.len() > 0 {
                Err(InstantMessagingError::AlreadyInitialized)
            } else {
                let conversation_creation = CreationModel {
                    address: derived.0,
                    bump: derived.1,
                    seeds: spec_signer_seeds(
                        Conversation::spec_seeds(first_user.key, second_user.key),
                        derived.1,
                    ),
                    space: 4,
                    lamports: spec_allocation_lamports(rent, true, 4) as u64,
                    data: spec_conversation_bytes(Conversation { message_counter: 0 }),
                };
                match spec_link_participant(
                    program_id,
                    conversation_account.key,
                    first_user.key,
                    first_user.data,
                    sender_user_conversation.key,
                    sender_user_conversation.data,
                    rent,
                ) {
                    Err(e) => Err(e),
                    Ok(sender_part) => {
                        let second_user_data = if second_user.key == first_user.key && sender_part.1.len() > 0 {
                            sender_part.1[0].data
                        } else {
                            second_user.data
                        };
                        let receiver_uc_data = if receiver_user_conversation.key == sender_user_conversation.key
                            && sender_part.0.len() > 0 {
                            sender_part.0[0].data
                        } else {
                            receiver_user_conversation.data
                        };
                        match spec_link_participant(
                            program_id,
                            conversation_account.key,
                            second_user.key,
                            second_user_data,
                            receiver_user_conversation.key,
                            receiver_uc_data,
                            rent,
                        ) {
                            Err(e) => Err(e),
                            Ok(receiver_part) => Ok(OutcomeModel {
                                creations: seq![conversation_creation] + sender_part.0 + receiver_part.0,
                                updates: sender_part.1 + receiver_part.1,
                            }),
                        }
                    },
                }
            }
        },
    }
}

/// Create a new conversation account for a pair of user accounts, and record
/// each participant's link to it where not already recorded.
pub fn create_conversation_account(
    program_id: &Addr,
    conversation_account: &AccountView,
    first_user: &AccountView,
    second_user: &AccountView,
    sender_user_conversation: &AccountView,
    receiver_user_conversation: &AccountView,
    rent: &RentParams,
) -> (r: Result<InvocationOutcome, InstantMessagingError>)
    requires
        rent.wf(),
        user_counter_has_headroom(first_user@.data),
        user_counter_has_headroom(second_user@.data),
    ensures
        outcome_of(r) == spec_create_conversation_account(
            program_id@,
            conversation_account@,
            first_user@,
            second_user@,
            sender_user_conversation@,
            receiver_user_conversation@,
            *rent,
        ),
{
    let derived = match Conversation::find_pda_address_with_bump_seed(&first_user.key, &second_user.key, program_id) {
        Some(d) => d,
        None => {
            return Err(InstantMessagingError::AddressDerivationMismatch);
        },
    };
    if !addr_eq(&derived.0, &conversation_account.key) {
        return Err(InstantMessagingError::AddressDerivationMismatch);
    }
    if conversation_account.data.len() > 0 {
        return Err(InstantMessagingError::AlreadyInitialized);
    }
    let (address_one, address_two) = crate::addr::sort_addresses_asc(&first_user.key, &second_user.key);
    let mut signer_seeds: Vec<Vec<u8>> = Vec::new();
    signer_seeds.push(addr_to_vec(address_one));
    signer_seeds.push(addr_to_vec(address_two));
    signer_seeds.push(Conversation::account_address_seed());
    signer_seeds.push(vec![derived.1]);
    proof {
        assert(signer_seeds.deep_view() =~~= spec_signer_seeds(
            Conversation::spec_seeds(first_user@.key, second_user@.key),
            derived.1,
        ));
    }
    let fresh_record = serialize_conversation(&Conversation { message_counter: 0 });
    proof {
        crate::codec::lemma_conversation_roundtrip(Conversation { message_counter: 0 });
    }
    let conversation_creation = create_pda_account(&derived.0, derived.1, signer_seeds, rent, true, 4, fresh_record);

    let (sender_creations, sender_updates) = match link_participant(
        program_id,
        &conversation_account.key,
        &first_user.key,
        &first_user.data,
        &sender_user_conversation.key,
        &sender_user_conversation.data,
        rent,
    ) {
        Ok(p) => p,
        Err(e) => {
            return Err(e);
        },
    };

    let second_user_data: &Vec<u8> = if addr_eq(&second_user.key, &first_user.key) && sender_updates.len() > 0 {
        &sender_updates[0].data
    } else {
        &second_user.data
    };
    let receiver_uc_data: &Vec<u8> = if addr_eq(&receiver_user_conversation.key, &sender_user_conversation.key)
        && sender_creations.len() > 0 {
        &sender_creations[0].data
    } else {
        &receiver_user_conversation.data
    };
    proof {
        if sender_updates.len() > 0 {
            let first_decoded = spec_user_decode(first_user@.data)->Some_0;
            crate::codec::lemma_user_roundtrip(User {
                conversation_counter: (first_decoded.conversation_counter + 1) as u32,
            });
            assert(sender_updates[0]@.data == updates_view(sender_updates)[0].data);
        }
    }
    let (receiver_creations, receiver_updates) = match link_participant(
        program_id,
        &conversation_account.key,
        &second_user.key,
        second_user_data,
        &receiver_user_conversation.key,
        receiver_uc_data,
        rent,
    ) {
        Ok(p) => p,
        Err(e) => {
            return Err(e);
        },
    };

    let mut creations: Vec<AccountCreation> = Vec::new();
    creations.push(conversation_creation);
    let mut sender_creations = sender_creations;
    let mut receiver_creations = receiver_creations;
    creations.append(&mut sender_creations);
    creations.append(&mut receiver_creations);
    let mut updates = sender_updates;
    let mut receiver_updates = receiver_updates;
    updates.append(&mut receiver_updates);
    let outcome = InvocationOutcome { creations, updates };
    proof {
        let expected = spec_create_conversation_account(
            program_id@,
            conversation_account@,
            first_user@,
            second_user@,
            sender_user_conversation@,
            receiver_user_conversation@,
            *rent,
        );
        assert(outcome@.creations =~~= expected->Ok_0.creations);
        assert(outcome@.updates =~~= expected->Ok_0.updates);
    }
    Ok(outcome)
}

/// What creating a user-conversation slot does: the supplied slot must be
/// the address derived from the user and the index, and must still be empty;
/// the new permanent slot then holds a zeroed conversation address until the
/// caller assigns one.
pub open spec fn spec_create_user_conversation_account(
    program_id: Seq<u8>,
    user_conversation_account: AccountModel,
    user_key: Seq<u8>,
    conversation_index: u32,
    rent: RentParams,
) -> Result<OutcomeModel, InstantMessagingError> {
    match pda_of(UserConversation::spec_seeds(user_key, conversation_index), program_id) {
        None => Err(InstantMessagingError::AddressDerivationMismatch),
        Some(derived) => {
            if derived.0 != user_conversation_account.key {
                Err(InstantMessagingError::AddressDerivationMismatch)
            } else if user_conversation_account.data.len() > 0 {
                Err(InstantMessagingError::AlreadyInitialized)
            } else {
                Ok(OutcomeModel {
                    creations: seq![
                        CreationModel {
                            address: derived.0,
                            bump: derived.1,
                            seeds: spec_signer_seeds(
                                UserConversation::spec_seeds(user_key, conversation_index),
                                derived.1,
                            ),
                            space: 32,
                            lamports: spec_allocation_lamports(rent, true, 32) as u64,
                            data: zero_bytes(32),
                        },
                    ],
                    updates: seq![],
                })
            }
        },
    }
}

/// Create a new user-conversation slot at the given index of a user's
/// private sequence.
pub fn create_user_conversation_account(
    program_id: &Addr,
    user_conversation_account: &AccountView,
    user_pda_key: &Addr,
    conversation_index: u32,
    rent: &RentParams,
) -> (r: Result<InvocationOutcome, InstantMessagingError>)
    requires
        rent.wf(),
    ensures
        outcome_of(r) == spec_create_user_conversation_account(
            program_id@,
            user_conversation_account@,
            user_pda_key@,
            conversation_index,
            *rent,
        ),
{
    let derived = match UserConversation::find_pda_address_with_bump_seed(user_pda_key, conversation_index, program_id) {
        Some(d) => d,
        None => {
            return Err(InstantMessagingError::AddressDerivationMismatch);
        },
    };
    if !addr_eq(&derived.0, &user_conversation_account.key) {
        return Err(InstantMessagingError::AddressDerivationMismatch);
    }
    if user_conversation_account.data.len() > 0 {
        return Err(InstantMessagingError::AlreadyInitialized);
    }
    let mut indexed_seed = crate::dec::u32_to_decimal(conversation_index);
    let mut suffix = UserConversation::account_address_seed();
    indexed_seed.append(&mut suffix);
    let mut signer_seeds: Vec<Vec<u8>> = Vec::new();
    signer_seeds.push(addr_to_vec(user_pda_key));
    signer_seeds.push(indexed_seed);
    signer_seeds.push(vec![derived.1]);
    proof {
        assert(signer_seeds.deep_view() =~~= spec_signer_seeds(
            UserConversation::spec_seeds(user_pda_key@, conversation_index),
            derived.1,
        ));
    }
    let creation = create_pda_account(&derived.0, derived.1, signer_seeds, rent, true, 32, zero_vec(32));
    let mut creations: Vec<AccountCreation> = Vec::new();
    creations.push(creation);
    let outcome = InvocationOutcome { creations, updates: Vec::new() };
    proof {
        let expected = spec_create_user_conversation_account(
            program_id@,
            user_conversation_account@,
            user_pda_key@,
            conversation_index,
            *rent,
        );
        assert(outcome@.creations =~~= expected->Ok_0.creations);
        assert(outcome@.updates =~~= expected->Ok_0.updates);
    }
    Ok(outcome)
}

/// Whether a stored conversation record leaves room for one more message.
pub open spec fn conversation_counter_has_room(data: Seq<u8>) -> bool {
    spec_conversation_decode(data) matches Some(c) ==> c.message_counter < u32::MAX
}

/// What appending a message to a conversation does: the conversation's
/// current counter picks the one legitimate message slot, which is
/// re-derived and checked against the supplied address; the new temporary
/// slot then holds the sender, the type, the content and the timestamp, and
/// the counter is advanced.
pub open spec fn spec_append_message(
    program_id: Seq<u8>,
    conversation: AccountModel,
    sender_key: Seq<u8>,
    message_key: Seq<u8>,
    rent: RentParams,
    now: i64,
    message_type: u8,
    content: Seq<u8>,
) -> Result<(CreationModel, UpdateModel), InstantMessagingError> {
    match spec_conversation_decode(conversation.data) {
        None => Err(InstantMessagingError::DecodeFailure),
        Some(c) => {
            match pda_of(Message::spec_seeds(conversation.key, c.message_counter), program_id) {
                None => Err(InstantMessagingError::AddressDerivationMismatch),
                Some(derived) => {
                    if derived.0 != message_key {
                        Err(InstantMessagingError::AddressDerivationMismatch)
                    } else {
                        Ok((
                            CreationModel {
                                address: derived.0,
                                bump: derived.1,
                                seeds: spec_signer_seeds(
                                    Message::spec_seeds(conversation.key, c.message_counter),
                                    derived.1,
                                ),
                                space: (45 + content.len()) as u64,
                                lamports: spec_allocation_lamports(rent, false, (45 + content.len()) as u64) as u64,
                                data: spec_message_bytes(MessageModel {
                                    sender: sender_key,
                                    message_type: message_type,
                                    content: content,
                                    timestamp: now,
                                }),
                            },
                            UpdateModel {
                                address: conversation.key,
                                data: spec_conversation_bytes(Conversation {
                                    message_counter: (c.message_counter + 1) as u32,
                                }),
                            },
                        ))
                    }
                },
            }
        },
    }
}

/// Append a message to a conversation at its current counter.
fn append_message(
    program_id: &Addr,
    conversation: &AccountView,
    sender_key: &Addr,
    message_key: &Addr,
    rent: &RentParams,
    now: i64,
    message_type: u8,
    content: Vec<u8>,
) -> (r: Result<(AccountCreation, AccountUpdate), InstantMessagingError>)
    requires
        rent.wf(),
        conversation_counter_has_room(conversation@.data),
        content@.len() <= u32::MAX,
    ensures
        (match r {
            Ok(p) => spec_append_message(
                program_id@, conversation@, sender_key@, message_key@, *rent, now, message_type, content@,
            ) == Ok::<_, InstantMessagingError>((p.0@, p.1@)),
            Err(e) => spec_append_message(
                program_id@, conversation@, sender_key@, message_key@, *rent, now, message_type, content@,
            ) == Err::<(CreationModel, UpdateModel), _>(e),
        }),
{
    let stored = match deserialize_conversation(&conversation.data) {
        Ok(c) => c,
        Err(e) => {
            return Err(e);
        },
    };
    let message_counter = stored.message_counter;
    let derived = match Message::find_pda_address_with_bump_seed(&conversation.key, message_counter, program_id) {
        Some(d) => d,
        None => {
            return Err(InstantMessagingError::AddressDerivationMismatch);
        },
    };
    if !addr_eq(&derived.0, message_key) {
        return Err(InstantMessagingError::AddressDerivationMismatch);
    }
    let mut indexed_seed = crate::dec::u32_to_decimal(message_counter);
    let mut suffix = Message::account_address_seed();
    indexed_seed.append(&mut suffix);
    let mut signer_seeds: Vec<Vec<u8>> = Vec::new();
    signer_seeds.push(addr_to_vec(&conversation.key));
    signer_seeds.push(indexed_seed);
    signer_seeds.push(vec![derived.1]);
    proof {
        assert(signer_seeds.deep_view() =~~= spec_signer_seeds(
            Message::spec_seeds(conversation@.key, message_counter),
            derived.1,
        ));
    }
    let message = Message {
        sender: *sender_key,
        message_type,
        content,
        timestamp: now,
    };
    let message_bytes = serialize_message(&message);
    proof {
        crate::codec::lemma_message_roundtrip(message@);
    }
    let space: u64 = 45 + message.content.len() as u64;
    let creation = create_pda_account(message_key, derived.1, signer_seeds, rent, false, space, message_bytes);
    let advanced = Conversation { message_counter: message_counter + 1 };
    let update = AccountUpdate { address: conversation.key, data: serialize_conversation(&advanced) };
    Ok((creation, update))
}

/// What creating a message account does: the sender must have signed; the
/// sender's user account must exist; the conversation must exist and be
/// owned by this program; the sender's link slot at the supplied index must
/// be the derived address and must point at this very conversation — a
/// sender with no recorded link is rejected; the rent and clock references
/// must be the genuine singletons; then the message is appended at the
/// conversation's current counter.
pub open spec fn spec_create_message_account(
    program_id: Seq<u8>,
    sender: AccountModel,
    sender_user: AccountModel,
    sender_user_conversation: AccountModel,
    conversation: AccountModel,
    message_account: AccountModel,
    rent_key: Seq<u8>,
    clock_key: Seq<u8>,
    rent: RentParams,
    now: i64,
    conversation_index: u32,
    message_type: u8,
    content: Seq<u8>,
) -> Result<OutcomeModel, InstantMessagingError> {
    if !sender.is_signer {
        Err(InstantMessagingError::MissingSignature)
    } else if sender_user.data.len() == 0 {
        Err(InstantMessagingError::UninitializedAccount)
    } else if conversation.data.len() == 0 {
        Err(InstantMessagingError::UninitializedAccount)
    } else if conversation.owner != program_id {
        Err(InstantMessagingError::IncorrectOwner)
    } else {
        match pda_of(UserConversation::spec_seeds(sender_user.key, conversation_index), program_id) {
            None => Err(InstantMessagingError::AddressDerivationMismatch),
            Some(derived) => {
                if derived.0 != sender_user_conversation.key {
                    Err(InstantMessagingError::AddressDerivationMismatch)
                } else {
                    match spec_user_conversation_decode(sender_user_conversation.data) {
                        None => Err(InstantMessagingError::DecodeFailure),
                        Some(linked_conversation) => {
                            if conversation.key != linked_conversation {
                                Err(InstantMessagingError::MembershipViolation)
                            } else if rent_key != spec_rent_sysvar_id() {
                                Err(InstantMessagingError::InvalidSystemReference)
                            } else if clock_key != spec_clock_sysvar_id() {
                                Err(InstantMessagingError::InvalidSystemReference)
                            } else {
                                match spec_append_message(
                                    program_id, conversation, sender.key, message_account.key,
                                    rent, now, message_type, content,
                                ) {
                                    Err(e) => Err(e),
                                    Ok(p) => Ok(OutcomeModel {
                                        creations: seq![p.0],
                                        updates: seq![p.1],
                                    }),
                                }
                            }
                        },
                    }
                }
            },
        }
    }
}

/// Create a new message account in a conversation the signer is recorded in,
/// at the conversation's current counter.
pub fn create_message_account(
    program_id: &Addr,
    sender: &AccountView,
    sender_user: &AccountView,
    sender_user_conversation: &AccountView,
    conversation: &AccountView,
    message_account: &AccountView,
    rent_key: &Addr,
    clock_key: &Addr,
    rent: &RentParams,
    now: i64,
    conversation_index: u32,
    message_type: u8,
    content: Vec<u8>,
) -> (r: Result<InvocationOutcome, InstantMessagingError>)
    requires
        rent.wf(),
        conversation_counter_has_room(conversation@.data),
        content@.len() <= u32::MAX,
    ensures
        outcome_of(r) == spec_create_message_account(
            program_id@, sender@, sender_user@, sender_user_conversation@, conversation@,
            message_account@, rent_key@, clock_key@, *rent, now, conversation_index,
            message_type, content@,
        ),
{
    if !sender.is_signer {
        return Err(InstantMessagingError::MissingSignature);
    }
    if sender_user.data.len() == 0 {
        return Err(InstantMessagingError::UninitializedAccount);
    }
    if conversation.data.len() == 0 {
        return Err(InstantMessagingError::UninitializedAccount);
    }
    if !addr_eq(&conversation.owner, program_id) {
        return Err(InstantMessagingError::IncorrectOwner);
    }
    let derived = match UserConversation::find_pda_address_with_bump_seed(&sender_user.key, conversation_index, program_id) {
        Some(d) => d,
        None => {
            return Err(InstantMessagingError::AddressDerivationMismatch);
        },
    };
    if !addr_eq(&derived.0, &sender_user_conversation.key) {
        return Err(InstantMessagingError::AddressDerivationMismatch);
    }
    let linked = match deserialize_user_conversation(&sender_user_conversation.data) {
        Ok(uc) => uc,
        Err(e) => {
            return Err(e);
        },
    };
    if !addr_eq(&conversation.key, &linked.conversation_address) {
        return Err(InstantMessagingError::MembershipViolation);
    }
    if !addr_eq(rent_key, &rent_sysvar_id()) {
        return Err(InstantMessagingError::InvalidSystemReference);
    }
    if !addr_eq(clock_key, &clock_sysvar_id()) {
        return Err(InstantMessagingError::InvalidSystemReference);
    }
    let (creation, update) = match append_message(
        program_id, conversation, &sender.key, &message_account.key, rent, now, message_type, content,
    ) {
        Ok(p) => p,
        Err(e) => {
            return Err(e);
        },
    };
    let mut creations: Vec<AccountCreation> = Vec::new();
    creations.push(creation);
    let mut updates: Vec<AccountUpdate> = Vec::new();
    updates.push(update);
    let outcome = InvocationOutcome { creations, updates };
    proof {
        let expected = spec_create_message_account(
            program_id@, sender@, sender_user@, sender_user_conversation@, conversation@,
            message_account@, rent_key@, clock_key@, *rent, now, conversation_index,
            message_type, content@,
        );
        assert(outcome@.creations =~~= expected->Ok_0.creations);
        assert(outcome@.updates =~~= expected->Ok_0.updates);
    }
    Ok(outcome)
}

/// What creating a conversation's encryption info does: the supplied slot
/// must be the address derived from the conversation, and must still be
/// empty — a conversation has at most one encryption-info record; the
/// sender must have signed; the conversation must exist; the two user
/// accounts and the conversation must be owned by this program; the
/// supplied conversation must be the address derivable from the two user
/// accounts; the rent and clock references must be the genuine singletons.
/// The new permanent slot then stores the blob verbatim.
pub open spec fn spec_create_conversation_encryption_info_account(
    program_id: Seq<u8>,
    sender: AccountModel,
    encryption_info_account: AccountModel,
    sender_user: AccountModel,
    receiver_user: AccountModel,
    conversation: AccountModel,
    rent_key: Seq<u8>,
    clock_key: Seq<u8>,
    rent: RentParams,
    data: Seq<u8>,
) -> Result<OutcomeModel, InstantMessagingError> {
    match pda_of(ConversationEncryptionInfo::spec_seeds(conversation.key), program_id) {
        None => Err(InstantMessagingError::AddressDerivationMismatch),
        Some(derived) => {
            if derived.0 != encryption_info_account.key {
                Err(InstantMessagingError::AddressDerivationMismatch)
            } else if encryption_info_account.data.len() > 0 {
                Err(InstantMessagingError::AlreadyInitialized)
            } else if !sender.is_signer {
                Err(InstantMessagingError::MissingSignature)
            } else if conversation.data.len() == 0 {
                Err(InstantMessagingError::UninitializedAccount)
            } else if sender_user.owner != program_id {
                Err(InstantMessagingError::IncorrectOwner)
            } else if receiver_user.owner != program_id {
                Err(InstantMessagingError::IncorrectOwner)
            } else if conversation.owner != program_id {
                Err(InstantMessagingError::IncorrectOwner)
            } else {
                match pda_of(Conversation::spec_seeds(sender_user.key, receiver_user.key), program_id) {
                    None => Err(InstantMessagingError::AddressDerivationMismatch),
                    Some(conversation_derived) => {
                        if conversation.key != conversation_derived.0 {
                            Err(InstantMessagingError::AddressDerivationMismatch)
                        } else if rent_key != spec_rent_sysvar_id() {
                            Err(InstantMessagingError::InvalidSystemReference)
                        } else if clock_key != spec_clock_sysvar_id() {
                            Err(InstantMessagingError::InvalidSystemReference)
                        } else {
                            Ok(OutcomeModel {
                                creations: seq![
                                    CreationModel {
                                        address: derived.0,
                                        bump: derived.1,
                                        seeds: spec_signer_seeds(
                                            ConversationEncryptionInfo::spec_seeds(conversation.key),
                                            derived.1,
                                        ),
                                        space: (4 + data.len()) as u64,
                                        lamports: spec_allocation_lamports(rent, true, (4 + data.len()) as u64) as u64,
                                        data: spec_encryption_info_bytes(data),
                                    },
                                ],
                                updates: seq![],
                            })
                        }
                    },
                }
            }
        },
    }
}

/// Create the encryption-info account of a conversation, storing the blob
/// verbatim.
pub fn create_conversation_encryption_info_account(
    program_id: &Addr,
    sender: &AccountView,
    encryption_info_account: &AccountView,
    sender_user: &AccountView,
    receiver_user: &AccountView,
    conversation: &AccountView,
    rent_key: &Addr,
    clock_key: &Addr,
    rent: &RentParams,
    data: Vec<u8>,
) -> (r: Result<InvocationOutcome, InstantMessagingError>)
    requires
        rent.wf(),
        data@.len() <= u32::MAX,
    ensures
        outcome_of(r) == spec_create_conversation_encryption_info_account(
            program_id@, sender@, encryption_info_account@, sender_user@, receiver_user@,
            conversation@, rent_key@, clock_key@, *rent, data@,
        ),
{
    let derived = match ConversationEncryptionInfo::find_pda_address_with_bump_seed(&conversation.key, program_id) {
        Some(d) => d,
        None => {
            return Err(InstantMessagingError::AddressDerivationMismatch);
        },
    };
    if !addr_eq(&derived.0, &encryption_info_account.key) {
        return Err(InstantMessagingError::AddressDerivationMismatch);
    }
    if encryption_info_account.data.len() > 0 {
        return Err(InstantMessagingError::AlreadyInitialized);
    }
    if !sender.is_signer {
        return Err(InstantMessagingError::MissingSignature);
    }
    if conversation.data.len() == 0 {
        return Err(InstantMessagingError::UninitializedAccount);
    }
    if !addr_eq(&sender_user.owner, program_id) {
        return Err(InstantMessagingError::IncorrectOwner);
    }
    if !addr_eq(&receiver_user.owner, program_id) {
        return Err(InstantMessagingError::IncorrectOwner);
    }
    if !addr_eq(&conversation.owner, program_id) {
        return Err(InstantMessagingError::IncorrectOwner);
    }
    let conversation_derived = match Conversation::find_pda_address(&sender_user.key, &receiver_user.key, program_id) {
        Some(a) => a,
        None => {
            return Err(InstantMessagingError::AddressDerivationMismatch);
        },
    };
    if !addr_eq(&conversation.key, &conversation_derived) {
        return Err(InstantMessagingError::AddressDerivationMismatch);
    }
    if !addr_eq(rent_key, &rent_sysvar_id()) {
        return Err(InstantMessagingError::InvalidSystemReference);
    }
    if !addr_eq(clock_key, &clock_sysvar_id()) {
        return Err(InstantMessagingError::InvalidSystemReference);
    }
    let mut signer_seeds: Vec<Vec<u8>> = Vec::new();
    signer_seeds.push(addr_to_vec(&conversation.key));
    signer_seeds.push(ConversationEncryptionInfo::account_address_seed());
    signer_seeds.push(vec![derived.1]);
    proof {
        assert(signer_seeds.deep_view() =~~= spec_signer_seeds(
            ConversationEncryptionInfo::spec_seeds(conversation@.key),
            derived.1,
        ));
    }
    let space: u64 = 4 + data.len() as u64;
    let record = ConversationEncryptionInfo { data };
    let record_bytes = serialize_encryption_info(&record);
    proof {
        crate::codec::lemma_encryption_info_roundtrip(record@);
    }
    let creation = create_pda_account(&derived.0, derived.1, signer_seeds, rent, true, space, record_bytes);
    let mut creations: Vec<AccountCreation> = Vec::new();
    creations.push(creation);
    let outcome = InvocationOutcome { creations, updates: Vec::new() };
    proof {
        let expected = spec_create_conversation_encryption_info_account(
            program_id@, sender@, encryption_info_account@, sender_user@, receiver_user@,
            conversation@, rent_key@, clock_key@, *rent, record@,
        );
        assert(outcome@.creations =~~= expected->Ok_0.creations);
        assert(outcome@.updates =~~= expected->Ok_0.updates);
    }
    Ok(outcome)
}

/// What sending a message does: like creating a message account, but the
/// conversation's legitimacy is re-derived from the two user accounts rather
/// than read from a stored link — the sender must have signed, both user
/// accounts must exist and be owned by this program, the conversation must
/// exist, be owned by this program, and be the address derivable from the
/// pair; the rent and clock references must be the genuine singletons; then
/// the message is appended at the conversation's current counter.
pub open spec fn spec_send_message(
    program_id: Seq<u8>,
    sender: AccountModel,
    sender_user: AccountModel,
    receiver_user: AccountModel,
    conversation: AccountModel,
    message_account: AccountModel,
    rent_key: Seq<u8>,
    clock_key: Seq<u8>,
    rent: RentParams,
    now: i64,
    message_type: u8,
    content: Seq<u8>,
) -> Result<OutcomeModel, InstantMessagingError> {
    if !sender.is_signer {
        Err(InstantMessagingError::MissingSignature)
    } else if sender_user.data.len() == 0 {
        Err(InstantMessagingError::UninitializedAccount)
    } else if receiver_user.data.len() == 0 {
        Err(InstantMessagingError::UninitializedAccount)
    } else if conversation.data.len() == 0 {
        Err(InstantMessagingError::UninitializedAccount)
    } else if sender_user.owner != program_id {
        Err(InstantMessagingError::IncorrectOwner)
    } else if receiver_user.owner != program_id {
        Err(InstantMessagingError::IncorrectOwner)
    } else if conversation.owner != program_id {
        Err(InstantMessagingError::IncorrectOwner)
    } else {
        match pda_of(Conversation::spec_seeds(sender_user.key, receiver_user.key), program_id) {
            None => Err(InstantMessagingError::AddressDerivationMismatch),
            Some(conversation_derived) => {
                if conversation.key != conversation_derived.0 {
                    Err(InstantMessagingError::AddressDerivationMismatch)
                } else if rent_key != spec_rent_sysvar_id() {
                    Err(InstantMessagingError::InvalidSystemReference)
                } else if clock_key != spec_clock_sysvar_id() {
                    Err(InstantMessagingError::InvalidSystemReference)
                } else {
                    match spec_append_message(
                        program_id, conversation, sender.key, message_account.key,
                        rent, now, message_type, content,
                    ) {
                        Err(e) => Err(e),
                        Ok(p) => Ok(OutcomeModel {
                            creations: seq![p.0],
                            updates: seq![p.1],
                        }),
                    }
                }
            },
        }
    }
}

/// Send a message into the conversation derivable from the sender's and the
/// receiver's user accounts, at the conversation's current counter.
pub fn send_message(
    program_id: &Addr,
    sender: &AccountView,
    sender_user: &AccountView,
    receiver_user: &AccountView,
    conversation: &AccountView,
    message_account: &AccountView,
    rent_key: &Addr,
    clock_key: &Addr,
    rent: &RentParams,
    now: i64,
    message_type: u8,
    content: Vec<u8>,
) -> (r: Result<InvocationOutcome, InstantMessagingError>)
    requires
        rent.wf(),
        conversation_counter_has_room(conversation@.data),
        content@.len() <= u32::MAX,
    ensures
        outcome_of(r) == spec_send_message(
            program_id@, sender@, sender_user@, receiver_user@, conversation@, message_account@,
            rent_key@, clock_key@, *rent, now, message_type, content@,
        ),
{
    if !sender.is_signer {
        return Err(InstantMessagingError::MissingSignature);
    }
    if sender_user.data.len() == 0 {
        return Err(InstantMessagingError::UninitializedAccount);
    }
    if receiver_user.data.len() == 0 {
        return Err(InstantMessagingError::UninitializedAccount);
    }
    if conversation.data.len() == 0 {
        return Err(InstantMessagingError::UninitializedAccount);
    }
    if !addr_eq(&sender_user.owner, program_id) {
        return Err(InstantMessagingError::IncorrectOwner);
    }
    if !addr_eq(&receiver_user.owner, program_id) {
        return Err(InstantMessagingError::IncorrectOwner);
    }
    if !addr_eq(&conversation.owner, program_id) {
        return Err(InstantMessagingError::IncorrectOwner);
    }
    let conversation_derived = match Conversation::find_pda_address(&sender_user.key, &receiver_user.key, program_id) {
        Some(a) => a,
        None => {
            return Err(InstantMessagingError::AddressDerivationMismatch);
        },
    };
    if !addr_eq(&conversation.key, &conversation_derived) {
        return Err(InstantMessagingError::AddressDerivationMismatch);
    }
    if !addr_eq(rent_key, &rent_sysvar_id()) {
        return Err(InstantMessagingError::InvalidSystemReference);
    }
    if !addr_eq(clock_key, &clock_sysvar_id()) {
        return Err(InstantMessagingError::InvalidSystemReference);
    }
    let (creation, update) = match append_message(
        program_id, conversation, &sender.key, &message_account.key, rent, now, message_type, content,
    ) {
        Ok(p) => p,
        Err(e) => {
            return Err(e);
        },
    };
    let mut creations: Vec<AccountCreation> = Vec::new();
    creations.push(creation);
    let mut updates: Vec<AccountUpdate> = Vec::new();
    updates.push(update);
    let outcome = InvocationOutcome { creations, updates };
    proof {
        let expected = spec_send_message(
            program_id@, sender@, sender_user@, receiver_user@, conversation@, message_account@,
            rent_key@, clock_key@, *rent, now, message_type, content@,
        );
        assert(outcome@.creations =~~= expected->Ok_0.creations);
        assert(outcome@.updates =~~= expected->Ok_0.updates);
    }
    Ok(outcome)
}

/// The mathematical view of the supplied account list.
pub open spec fn accounts_view(accounts: Vec<AccountView>) -> Seq<AccountModel> {
    accounts@.map_values(|a: AccountView| a@)
}

/// Whether the counters that this invocation would advance leave room for
/// it: each participant of a new conversation can record up to two more
/// links, and a conversation taking a message can count one more.
pub open spec fn spec_counters_have_room(accounts: Seq<AccountModel>, instruction_data: Seq<u8>) -> bool {
    match spec_instruction_decode(instruction_data) {
        Some(InstantMessagingInstructionModel::CreateConversationAccount) =>
            accounts.len() >= 8 ==> user_counter_has_headroom(accounts[2].data)
                && user_counter_has_headroom(accounts[3].data),
        Some(InstantMessagingInstructionModel::CreateMessageAccount { .. }) =>
            accounts.len() >= 9 ==> conversation_counter_has_room(accounts[4].data),
        Some(InstantMessagingInstructionModel::SendMessage { .. }) =>
            accounts.len() >= 9 ==> conversation_counter_has_room(accounts[4].data),
        _ => true,
    }
}

/// What one invocation does: the payload is decoded, the account list must
/// be long enough for the operation, and the operation's handler decides the
/// rest. An undecodable payload, like an account list that does not match
/// the operation's shape, is a decode failure.
pub open spec fn spec_process_instruction(
    program_id: Seq<u8>,
    accounts: Seq<AccountModel>,
    instruction_data: Seq<u8>,
    rent: RentParams,
    now: i64,
) -> Result<OutcomeModel, InstantMessagingError> {
    match spec_instruction_decode(instruction_data) {
        None => Err(InstantMessagingError::DecodeFailure),
        Some(instruction) => match instruction {
            InstantMessagingInstructionModel::CreateUserAccount => {
                if accounts.len() < 5 {
                    Err(InstantMessagingError::DecodeFailure)
                } else {
                    spec_create_user_account(program_id, accounts[1], accounts[2].key, rent)
                }
            },
            InstantMessagingInstructionModel::CreateConversationAccount => {
                if accounts.len() < 8 {
                    Err(InstantMessagingError::DecodeFailure)
                } else {
                    spec_create_conversation_account(
                        program_id, accounts[1], accounts[2], accounts[3], accounts[4], accounts[5], rent,
                    )
                }
            },
            InstantMessagingInstructionModel::CreateUserConversationAccount { conversation_index } => {
                if accounts.len() < 5 {
                    Err(InstantMessagingError::DecodeFailure)
                } else {
                    spec_create_user_conversation_account(
                        program_id, accounts[1], accounts[2].key, conversation_index, rent,
                    )
                }
            },
            InstantMessagingInstructionModel::CreateMessageAccount { conversation_index, message_type, content } => {
                if accounts.len() < 9 {
                    Err(InstantMessagingError::DecodeFailure)
                } else {
                    spec_create_message_account(
                        program_id, accounts[1], accounts[2], accounts[3], accounts[4], accounts[5],
                        accounts[6].key, accounts[7].key, rent, now, conversation_index, message_type, content,
                    )
                }
            },
            InstantMessagingInstructionModel::CreateConversationEncryptionInfoAccount { data } => {
                if accounts.len() < 9 {
                    Err(InstantMessagingError::DecodeFailure)
                } else {
                    spec_create_conversation_encryption_info_account(
                        program_id, accounts[1], accounts[2], accounts[3], accounts[4], accounts[5],
                        accounts[6].key, accounts[7].key, rent, data,
                    )
                }
            },
            InstantMessagingInstructionModel::SendMessage { message_type, content } => {
                if accounts.len() < 9 {
                    Err(InstantMessagingError::DecodeFailure)
                } else {
                    spec_send_message(
                        program_id, accounts[1], accounts[2], accounts[3], accounts[4], accounts[5],
                        accounts[6].key, accounts[7].key, rent, now, message_type, content,
                    )
                }
            },
        },
    }
}

/// Decode an invocation's payload, dispatch to its operation's handler, and
/// describe what the invocation does to the ledger.
pub fn process_instruction(
    program_id: &Addr,
    accounts: &Vec<AccountView>,
    instruction_data: &Vec<u8>,
    rent: &RentParams,
    now: i64,
) -> (r: Result<InvocationOutcome, InstantMessagingError>)
    requires
        rent.wf(),
        spec_counters_have_room(accounts_view(*accounts), instruction_data@),
    ensures
        outcome_of(r) == spec_process_instruction(
            program_id@, accounts_view(*accounts), instruction_data@, *rent, now,
        ),
{
    let instruction = match decode_instruction(instruction_data) {
        Ok(i) => i,
        Err(e) => {
            return Err(e);
        },
    };
    match instruction {
        InstantMessagingInstruction::CreateUserAccount => {
            if accounts.len() < 5 {
                return Err(InstantMessagingError::DecodeFailure);
            }
            create_user_account(program_id, &accounts[1], &accounts[2].key, rent)
        },
        InstantMessagingInstruction::CreateConversationAccount => {
            if accounts.len() < 8 {
                return Err(InstantMessagingError::DecodeFailure);
            }
            create_conversation_account(
                program_id, &accounts[1], &accounts[2], &accounts[3], &accounts[4], &accounts[5], rent,
            )
        },
        InstantMessagingInstruction::CreateUserConversationAccount { conversation_index } => {
            if accounts.len() < 5 {
                return Err(InstantMessagingError::DecodeFailure);
            }
            create_user_conversation_account(program_id, &accounts[1], &accounts[2].key, conversation_index, rent)
        },
        InstantMessagingInstruction::CreateMessageAccount { conversation_index, message_type, content } => {
            if accounts.len() < 9 {
                return Err(InstantMessagingError::DecodeFailure);
            }
            create_message_account(
                program_id, &accounts[1], &accounts[2], &accounts[3], &accounts[4], &accounts[5],
                &accounts[6].key, &accounts[7].key, rent, now, conversation_index, message_type, content,
            )
        },
        InstantMessagingInstruction::CreateConversationEncryptionInfoAccount { data } => {
            if accounts.len() < 9 {
                return Err(InstantMessagingError::DecodeFailure);
            }
            create_conversation_encryption_info_account(
                program_id, &accounts[1], &accounts[2], &accounts[3], &accounts[4], &accounts[5],
                &accounts[6].key, &accounts[7].key, rent, data,
            )
        },
        InstantMessagingInstruction::SendMessage { message_type, content } => {
            if accounts.len() < 9 {
                return Err(InstantMessagingError::DecodeFailure);
            }
            send_message(
                program_id, &accounts[1], &accounts[2], &accounts[3], &accounts[4], &accounts[5],
                &accounts[6].key, &accounts[7].key, rent, now, message_type, content,
            )
        },
    }
}

} // verus!
