//! The operation handlers under adversarial and well-formed inputs.

use instant_messaging::accounts::{AccountView, RentParams};
use instant_messaging::codec::{deserialize_conversation, serialize_user, serialize_user_conversation};
use instant_messaging::error::InstantMessagingError;
use instant_messaging::pda::{clock_sysvar_id, id, rent_sysvar_id};
use instant_messaging::processor::{
    create_conversation_account, create_conversation_encryption_info_account,
    create_message_account, create_user_account, create_user_conversation_account,
};
use instant_messaging::state::{Conversation, ConversationEncryptionInfo, Message, MessageType, User, UserConversation};
use instant_messaging::utils::minimum_balance;

fn rent() -> RentParams {
    RentParams { lamports_per_byte_year: 3480, exemption_threshold_years: 2 }
}

fn empty_account(key: [u8; 32]) -> AccountView {
    AccountView { key, owner: [0u8; 32], is_signer: false, data: Vec::new() }
}

fn program_account(key: [u8; 32], data: Vec<u8>) -> AccountView {
    AccountView { key, owner: id(), is_signer: false, data }
}

fn user_record(counter: u32) -> Vec<u8> {
    serialize_user(&User { conversation_counter: counter })
}

#[test]
fn test_minimum_balance_matches_sdk() {
    #[allow(deprecated)]
    let sdk_rent = solana_program::rent::Rent {
        lamports_per_byte: 3480,
        exemption_threshold: 2.0f64.to_le_bytes(),
        burn_percent: 50,
    };
    for space in [0usize, 4, 32, 59, 1024] {
        assert_eq!(minimum_balance(&rent(), space as u64), sdk_rent.minimum_balance(space));
    }
}

#[test]
fn test_create_user_account_success() {
    let wallet = [7u8; 32];
    let (address, bump) = User::find_pda_address_with_bump_seed(&wallet, &id()).unwrap();
    let outcome = create_user_account(&id(), &empty_account(address), &wallet, &rent()).unwrap();
    assert_eq!(outcome.creations.len(), 1);
    assert_eq!(outcome.updates.len(), 0);
    let creation = &outcome.creations[0];
    assert_eq!(creation.address, address);
    assert_eq!(creation.bump, bump);
    assert_eq!(creation.space, 4);
    assert_eq!(creation.data, vec![0u8; 4]);
    assert_eq!(creation.lamports, (128 + 4) * 3480 * 2);
    assert_eq!(creation.seeds, vec![wallet.to_vec(), b"user".to_vec(), vec![bump]]);
}

#[test]
fn test_create_user_account_address_mismatch() {
    let wallet = [7u8; 32];
    let err = create_user_account(&id(), &empty_account([1u8; 32]), &wallet, &rent()).unwrap_err();
    assert_eq!(err, InstantMessagingError::AddressDerivationMismatch);
}

#[test]
fn test_create_user_account_twice_fails() {
    let wallet = [8u8; 32];
    let address = User::find_pda_address(&wallet, &id()).unwrap();
    let outcome = create_user_account(&id(), &empty_account(address), &wallet, &rent()).unwrap();
    let occupied = program_account(address, outcome.creations[0].data.clone());
    let err = create_user_account(&id(), &occupied, &wallet, &rent()).unwrap_err();
    assert_eq!(err, InstantMessagingError::AlreadyInitialized);
}

#[test]
fn test_create_user_conversation_account_success_and_retry() {
    let user_key = User::find_pda_address(&[9u8; 32], &id()).unwrap();
    let (address, bump) = UserConversation::find_pda_address_with_bump_seed(&user_key, 3, &id()).unwrap();
    let outcome = create_user_conversation_account(&id(), &empty_account(address), &user_key, 3, &rent()).unwrap();
    assert_eq!(outcome.creations.len(), 1);
    let creation = &outcome.creations[0];
    assert_eq!(creation.address, address);
    assert_eq!(creation.space, 32);
    assert_eq!(creation.data, vec![0u8; 32]);
    assert_eq!(creation.seeds, vec![user_key.to_vec(), b"3user-conversation".to_vec(), vec![bump]]);
    let occupied = program_account(address, creation.data.clone());
    let err = create_user_conversation_account(&id(), &occupied, &user_key, 3, &rent()).unwrap_err();
    assert_eq!(err, InstantMessagingError::AlreadyInitialized);
}

#[test]
fn test_create_conversation_account_success() {
    let first_key = User::find_pda_address(&[1u8; 32], &id()).unwrap();
    let second_key = User::find_pda_address(&[2u8; 32], &id()).unwrap();
    let conversation_key = Conversation::find_pda_address(&first_key, &second_key, &id()).unwrap();
    let first_uc_key = UserConversation::find_pda_address(&first_key, 0, &id()).unwrap();
    let second_uc_key = UserConversation::find_pda_address(&second_key, 0, &id()).unwrap();
    let outcome = create_conversation_account(
        &id(),
        &empty_account(conversation_key),
        &program_account(first_key, user_record(0)),
        &program_account(second_key, user_record(0)),
        &empty_account(first_uc_key),
        &empty_account(second_uc_key),
        &rent(),
    )
    .unwrap();
    assert_eq!(outcome.creations.len(), 3);
    assert_eq!(outcome.creations[0].address, conversation_key);
    assert_eq!(outcome.creations[0].data, vec![0u8; 4]);
    assert_eq!(outcome.creations[1].address, first_uc_key);
    assert_eq!(outcome.creations[1].data, conversation_key.to_vec());
    assert_eq!(outcome.creations[2].address, second_uc_key);
    assert_eq!(outcome.creations[2].data, conversation_key.to_vec());
    assert_eq!(outcome.updates.len(), 2);
    assert_eq!(outcome.updates[0].address, first_key);
    assert_eq!(outcome.updates[0].data, user_record(1));
    assert_eq!(outcome.updates[1].address, second_key);
    assert_eq!(outcome.updates[1].data, user_record(1));
}

#[test]
fn test_create_conversation_skips_populated_link() {
    let first_key = User::find_pda_address(&[3u8; 32], &id()).unwrap();
    let second_key = User::find_pda_address(&[4u8; 32], &id()).unwrap();
    let conversation_key = Conversation::find_pda_address(&first_key, &second_key, &id()).unwrap();
    let first_uc_key = UserConversation::find_pda_address(&first_key, 0, &id()).unwrap();
    let second_uc_key = UserConversation::find_pda_address(&second_key, 0, &id()).unwrap();
    let existing_link = serialize_user_conversation(&UserConversation { conversation_address: conversation_key });
    let outcome = create_conversation_account(
        &id(),
        &empty_account(conversation_key),
        &program_account(first_key, user_record(1)),
        &program_account(second_key, user_record(0)),
        &program_account(first_uc_key, existing_link),
        &empty_account(second_uc_key),
        &rent(),
    )
    .unwrap();
    // The populated sender link is skipped silently: only the receiver's
    // link is created and only the receiver's counter advances.
    assert_eq!(outcome.creations.len(), 2);
    assert_eq!(outcome.creations[1].address, second_uc_key);
    assert_eq!(outcome.updates.len(), 1);
    assert_eq!(outcome.updates[0].address, second_key);
    assert_eq!(outcome.updates[0].data, user_record(1));
}

#[test]
fn test_create_conversation_with_self() {
    // Both participants are the same user account: the second bookkeeping
    // phase reads the counter the first phase advanced, so the two link
    // slots land at consecutive indices and the counter advances twice.
    let wallet = [33u8; 32];
    let user_key = User::find_pda_address(&wallet, &id()).unwrap();
    let conversation_key = Conversation::find_pda_address(&user_key, &user_key, &id()).unwrap();
    let first_link = UserConversation::find_pda_address(&user_key, 0, &id()).unwrap();
    let second_link = UserConversation::find_pda_address(&user_key, 1, &id()).unwrap();
    let outcome = create_conversation_account(
        &id(),
        &empty_account(conversation_key),
        &program_account(user_key, user_record(0)),
        &program_account(user_key, user_record(0)),
        &empty_account(first_link),
        &empty_account(second_link),
        &rent(),
    )
    .unwrap();
    assert_eq!(outcome.creations.len(), 3);
    assert_eq!(outcome.creations[1].address, first_link);
    assert_eq!(outcome.creations[2].address, second_link);
    assert_eq!(outcome.updates.len(), 2);
    assert_eq!(outcome.updates[0].data, user_record(1));
    assert_eq!(outcome.updates[1].data, user_record(2));
}

#[test]
fn test_create_conversation_recreate_fails() {
    let first_key = User::find_pda_address(&[5u8; 32], &id()).unwrap();
    let second_key = User::find_pda_address(&[6u8; 32], &id()).unwrap();
    let conversation_key = Conversation::find_pda_address(&first_key, &second_key, &id()).unwrap();
    let first_uc_key = UserConversation::find_pda_address(&first_key, 0, &id()).unwrap();
    let second_uc_key = UserConversation::find_pda_address(&second_key, 0, &id()).unwrap();
    let err = create_conversation_account(
        &id(),
        &program_account(conversation_key, vec![0u8; 4]),
        &program_account(first_key, user_record(1)),
        &program_account(second_key, user_record(1)),
        &program_account(first_uc_key, conversation_key.to_vec()),
        &program_account(second_uc_key, conversation_key.to_vec()),
        &rent(),
    )
    .unwrap_err();
    assert_eq!(err, InstantMessagingError::AlreadyInitialized);
}

#[test]
fn test_create_conversation_rejects_undecodable_user() {
    let first_key = User::find_pda_address(&[15u8; 32], &id()).unwrap();
    let second_key = User::find_pda_address(&[16u8; 32], &id()).unwrap();
    let conversation_key = Conversation::find_pda_address(&first_key, &second_key, &id()).unwrap();
    let first_uc_key = UserConversation::find_pda_address(&first_key, 0, &id()).unwrap();
    let second_uc_key = UserConversation::find_pda_address(&second_key, 0, &id()).unwrap();
    let err = create_conversation_account(
        &id(),
        &empty_account(conversation_key),
        &program_account(first_key, vec![1u8, 2, 3]),
        &program_account(second_key, user_record(0)),
        &empty_account(first_uc_key),
        &empty_account(second_uc_key),
        &rent(),
    )
    .unwrap_err();
    assert_eq!(err, InstantMessagingError::DecodeFailure);
}

struct MessageSetup {
    sender_wallet: [u8; 32],
    sender_user_key: [u8; 32],
    sender_uc_key: [u8; 32],
    conversation_key: [u8; 32],
    message_key: [u8; 32],
}

fn message_setup() -> MessageSetup {
    let sender_wallet = [21u8; 32];
    let receiver_wallet = [22u8; 32];
    let sender_user_key = User::find_pda_address(&sender_wallet, &id()).unwrap();
    let receiver_user_key = User::find_pda_address(&receiver_wallet, &id()).unwrap();
    let conversation_key = Conversation::find_pda_address(&sender_user_key, &receiver_user_key, &id()).unwrap();
    let sender_uc_key = UserConversation::find_pda_address(&sender_user_key, 0, &id()).unwrap();
    let message_key = Message::find_pda_address(&conversation_key, 0, &id()).unwrap();
    MessageSetup { sender_wallet, sender_user_key, sender_uc_key, conversation_key, message_key }
}

fn signer(key: [u8; 32]) -> AccountView {
    AccountView { key, owner: [0u8; 32], is_signer: true, data: Vec::new() }
}

#[test]
fn test_create_message_account_success() {
    let s = message_setup();
    let content = b"First message!".to_vec();
    let outcome = create_message_account(
        &id(),
        &signer(s.sender_wallet),
        &program_account(s.sender_user_key, user_record(1)),
        &program_account(s.sender_uc_key, s.conversation_key.to_vec()),
        &program_account(s.conversation_key, vec![0u8; 4]),
        &empty_account(s.message_key),
        &rent_sysvar_id(),
        &clock_sysvar_id(),
        &rent(),
        1650000000,
        0,
        MessageType::PLAIN_TEXT,
        content.clone(),
    )
    .unwrap();
    assert_eq!(outcome.creations.len(), 1);
    let creation = &outcome.creations[0];
    assert_eq!(creation.address, s.message_key);
    assert_eq!(creation.space, 45 + 14);
    // The temporary tier: a seven-day slice of the exemption minimum.
    let exemption_minimum = (128u64 + 59) * 3480 * 2;
    assert_eq!(creation.lamports, exemption_minimum / 730 * 7);
    assert_eq!(creation.lamports, 12474);
    let written = instant_messaging::codec::deserialize_message(&creation.data).unwrap();
    assert_eq!(written.sender, s.sender_wallet);
    assert_eq!(written.message_type, MessageType::PLAIN_TEXT);
    assert_eq!(written.content, content);
    assert_eq!(written.timestamp, 1650000000);
    assert_eq!(outcome.updates.len(), 1);
    assert_eq!(outcome.updates[0].address, s.conversation_key);
    let counted = deserialize_conversation(&outcome.updates[0].data).unwrap();
    assert_eq!(counted.message_counter, 1);
}

#[test]
fn test_create_encryption_info_success() {
    let sender_wallet = [23u8; 32];
    let receiver_wallet = [24u8; 32];
    let sender_user_key = User::find_pda_address(&sender_wallet, &id()).unwrap();
    let receiver_user_key = User::find_pda_address(&receiver_wallet, &id()).unwrap();
    let conversation_key = Conversation::find_pda_address(&sender_user_key, &receiver_user_key, &id()).unwrap();
    let info_key = ConversationEncryptionInfo::find_pda_address(&conversation_key, &id()).unwrap();
    let data = b"key material".to_vec();
    let outcome = create_conversation_encryption_info_account(
        &id(),
        &signer(sender_wallet),
        &empty_account(info_key),
        &program_account(sender_user_key, user_record(1)),
        &program_account(receiver_user_key, user_record(1)),
        &program_account(conversation_key, vec![0u8; 4]),
        &rent_sysvar_id(),
        &clock_sysvar_id(),
        &rent(),
        data.clone(),
    )
    .unwrap();
    assert_eq!(outcome.creations.len(), 1);
    assert_eq!(outcome.updates.len(), 0);
    let creation = &outcome.creations[0];
    assert_eq!(creation.address, info_key);
    assert_eq!(creation.space, 4 + 12);
    let stored = instant_messaging::codec::deserialize_encryption_info(&creation.data).unwrap();
    assert_eq!(stored.data, data);
}

#[test]
fn test_create_encryption_info_twice_fails() {
    let sender_wallet = [28u8; 32];
    let receiver_wallet = [29u8; 32];
    let sender_user_key = User::find_pda_address(&sender_wallet, &id()).unwrap();
    let receiver_user_key = User::find_pda_address(&receiver_wallet, &id()).unwrap();
    let conversation_key = Conversation::find_pda_address(&sender_user_key, &receiver_user_key, &id()).unwrap();
    let info_key = ConversationEncryptionInfo::find_pda_address(&conversation_key, &id()).unwrap();
    let outcome = create_conversation_encryption_info_account(
        &id(),
        &signer(sender_wallet),
        &empty_account(info_key),
        &program_account(sender_user_key, user_record(1)),
        &program_account(receiver_user_key, user_record(1)),
        &program_account(conversation_key, vec![0u8; 4]),
        &rent_sysvar_id(),
        &clock_sysvar_id(),
        &rent(),
        b"first blob".to_vec(),
    )
    .unwrap();
    // The slot now holds the first blob: a second creation is rejected
    // before any other check and describes no write.
    let occupied = program_account(info_key, outcome.creations[0].data.clone());
    let err = create_conversation_encryption_info_account(
        &id(),
        &signer(sender_wallet),
        &occupied,
        &program_account(sender_user_key, user_record(1)),
        &program_account(receiver_user_key, user_record(1)),
        &program_account(conversation_key, vec![0u8; 4]),
        &rent_sysvar_id(),
        &clock_sysvar_id(),
        &rent(),
        b"second blob".to_vec(),
    )
    .unwrap_err();
    assert_eq!(err, InstantMessagingError::AlreadyInitialized);
    let stored = instant_messaging::codec::deserialize_encryption_info(&occupied.data).unwrap();
    assert_eq!(stored.data, b"first blob".to_vec());
}

#[test]
fn test_create_encryption_info_rejects_unrelated_conversation() {
    let sender_wallet = [25u8; 32];
    let receiver_wallet = [26u8; 32];
    let sender_user_key = User::find_pda_address(&sender_wallet, &id()).unwrap();
    let receiver_user_key = User::find_pda_address(&receiver_wallet, &id()).unwrap();
    // A conversation account that is not the one derivable from this pair.
    let other_user_key = User::find_pda_address(&[27u8; 32], &id()).unwrap();
    let unrelated_conversation = Conversation::find_pda_address(&sender_user_key, &other_user_key, &id()).unwrap();
    let info_key = ConversationEncryptionInfo::find_pda_address(&unrelated_conversation, &id()).unwrap();
    let err = create_conversation_encryption_info_account(
        &id(),
        &signer(sender_wallet),
        &empty_account(info_key),
        &program_account(sender_user_key, user_record(1)),
        &program_account(receiver_user_key, user_record(1)),
        &program_account(unrelated_conversation, vec![0u8; 4]),
        &rent_sysvar_id(),
        &clock_sysvar_id(),
        &rent(),
        Vec::new(),
    )
    .unwrap_err();
    assert_eq!(err, InstantMessagingError::AddressDerivationMismatch);
}

#[test]
fn test_create_message_missing_signature() {
    let s = message_setup();
    let err = create_message_account(
        &id(),
        &empty_account(s.sender_wallet),
        &program_account(s.sender_user_key, user_record(1)),
        &program_account(s.sender_uc_key, s.conversation_key.to_vec()),
        &program_account(s.conversation_key, vec![0u8; 4]),
        &empty_account(s.message_key),
        &rent_sysvar_id(),
        &clock_sysvar_id(),
        &rent(),
        1650000000,
        0,
        MessageType::PLAIN_TEXT,
        Vec::new(),
    )
    .unwrap_err();
    assert_eq!(err, InstantMessagingError::MissingSignature);
}

#[test]
fn test_create_message_uninitialized_user() {
    let s = message_setup();
    let err = create_message_account(
        &id(),
        &signer(s.sender_wallet),
        &program_account(s.sender_user_key, Vec::new()),
        &program_account(s.sender_uc_key, s.conversation_key.to_vec()),
        &program_account(s.conversation_key, vec![0u8; 4]),
        &empty_account(s.message_key),
        &rent_sysvar_id(),
        &clock_sysvar_id(),
        &rent(),
        1650000000,
        0,
        MessageType::PLAIN_TEXT,
        Vec::new(),
    )
    .unwrap_err();
    assert_eq!(err, InstantMessagingError::UninitializedAccount);
}

#[test]
fn test_create_message_wrong_conversation_owner() {
    let s = message_setup();
    let mut conversation = program_account(s.conversation_key, vec![0u8; 4]);
    conversation.owner = [0u8; 32];
    let err = create_message_account(
        &id(),
        &signer(s.sender_wallet),
        &program_account(s.sender_user_key, user_record(1)),
        &program_account(s.sender_uc_key, s.conversation_key.to_vec()),
        &conversation,
        &empty_account(s.message_key),
        &rent_sysvar_id(),
        &clock_sysvar_id(),
        &rent(),
        1650000000,
        0,
        MessageType::PLAIN_TEXT,
        Vec::new(),
    )
    .unwrap_err();
    assert_eq!(err, InstantMessagingError::IncorrectOwner);
}

#[test]
fn test_create_message_membership_violation() {
    let s = message_setup();
    // The signer's link record points at some other conversation.
    let other_conversation = [250u8; 32];
    let err = create_message_account(
        &id(),
        &signer(s.sender_wallet),
        &program_account(s.sender_user_key, user_record(1)),
        &program_account(s.sender_uc_key, other_conversation.to_vec()),
        &program_account(s.conversation_key, vec![0u8; 4]),
        &empty_account(s.message_key),
        &rent_sysvar_id(),
        &clock_sysvar_id(),
        &rent(),
        1650000000,
        0,
        MessageType::PLAIN_TEXT,
        b"stolen".to_vec(),
    )
    .unwrap_err();
    assert_eq!(err, InstantMessagingError::MembershipViolation);
}

#[test]
fn test_create_message_invalid_system_reference() {
    let s = message_setup();
    let err = create_message_account(
        &id(),
        &signer(s.sender_wallet),
        &program_account(s.sender_user_key, user_record(1)),
        &program_account(s.sender_uc_key, s.conversation_key.to_vec()),
        &program_account(s.conversation_key, vec![0u8; 4]),
        &empty_account(s.message_key),
        &[99u8; 32],
        &clock_sysvar_id(),
        &rent(),
        1650000000,
        0,
        MessageType::PLAIN_TEXT,
        Vec::new(),
    )
    .unwrap_err();
    assert_eq!(err, InstantMessagingError::InvalidSystemReference);
}
