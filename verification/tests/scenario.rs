//! End-to-end scenarios: instructions built by the client helpers, dispatched
//! through the processor, and applied to a small in-memory ledger.

use std::collections::HashMap;

use instant_messaging::accounts::{AccountView, InvocationOutcome, RentParams};
use instant_messaging::codec::{deserialize_conversation, deserialize_message, deserialize_user, deserialize_user_conversation};
use instant_messaging::error::InstantMessagingError;
use instant_messaging::instruction::{
    create_conversation_account, create_user_account, send_message, Instruction,
};
use instant_messaging::pda::id;
use instant_messaging::processor::process_instruction;
use instant_messaging::state::{Conversation, Message, MessageType, User, UserConversation};

type Ledger = HashMap<[u8; 32], ([u8; 32], Vec<u8>)>;

fn rent() -> RentParams {
    RentParams { lamports_per_byte_year: 3480, exemption_threshold_years: 2 }
}

fn read_account(ledger: &Ledger, key: [u8; 32], is_signer: bool) -> AccountView {
    let (owner, data) = ledger.get(&key).cloned().unwrap_or(([0u8; 32], Vec::new()));
    AccountView { key, owner, is_signer, data }
}

fn apply(ledger: &mut Ledger, outcome: &InvocationOutcome) {
    for creation in &outcome.creations {
        ledger.insert(creation.address, (id(), creation.data.clone()));
    }
    for update in &outcome.updates {
        let cell = ledger.get_mut(&update.address).expect("update of a missing account");
        cell.1 = update.data.clone();
    }
}

fn dispatch(ledger: &mut Ledger, instruction: &Instruction, now: i64) -> Result<(), InstantMessagingError> {
    let accounts: Vec<AccountView> = instruction
        .accounts
        .iter()
        .map(|meta| read_account(ledger, meta.address, meta.is_signer))
        .collect();
    let outcome = process_instruction(&id(), &accounts, &instruction.data, &rent(), now)?;
    apply(ledger, &outcome);
    Ok(())
}

fn data_of(ledger: &Ledger, key: [u8; 32]) -> Vec<u8> {
    ledger.get(&key).expect("account not found").1.clone()
}

#[test]
fn test_send_message() {
    let funder = [90u8; 32];
    let sender_wallet_address = [31u8; 32];
    let receiver_wallet_address = [32u8; 32];
    let sender_pda_address = User::find_pda_address(&sender_wallet_address, &id()).unwrap();
    let receiver_pda_address = User::find_pda_address(&receiver_wallet_address, &id()).unwrap();
    let conversation_pda_address =
        Conversation::find_pda_address(&sender_pda_address, &receiver_pda_address, &id()).unwrap();

    let mut ledger: Ledger = Ledger::new();

    // Create sender's and receiver's user accounts.
    let ins = create_user_account(&funder, &sender_wallet_address).unwrap();
    dispatch(&mut ledger, &ins, 0).unwrap();
    let ins = create_user_account(&funder, &receiver_wallet_address).unwrap();
    dispatch(&mut ledger, &ins, 0).unwrap();

    // Create the conversation, linking both participants at index 0.
    let sender_user_conversation_index = 0;
    let receiver_user_conversation_index = 0;
    let ins = create_conversation_account(
        &funder,
        &sender_pda_address,
        &receiver_pda_address,
        sender_user_conversation_index,
        receiver_user_conversation_index,
    )
    .unwrap();
    dispatch(&mut ledger, &ins, 0).unwrap();

    // Both users now count one conversation.
    assert_eq!(
        deserialize_user(&data_of(&ledger, sender_pda_address)).unwrap().conversation_counter,
        1,
    );
    assert_eq!(
        deserialize_user(&data_of(&ledger, receiver_pda_address)).unwrap().conversation_counter,
        1,
    );

    // Both link records hold the conversation's address.
    let sender_user_conversation_pda_address =
        UserConversation::find_pda_address(&sender_pda_address, sender_user_conversation_index, &id()).unwrap();
    assert_eq!(
        deserialize_user_conversation(&data_of(&ledger, sender_user_conversation_pda_address))
            .unwrap()
            .conversation_address,
        conversation_pda_address,
    );
    let receiver_user_conversation_pda_address =
        UserConversation::find_pda_address(&receiver_pda_address, receiver_user_conversation_index, &id()).unwrap();
    assert_eq!(
        deserialize_user_conversation(&data_of(&ledger, receiver_user_conversation_pda_address))
            .unwrap()
            .conversation_address,
        conversation_pda_address,
    );

    // Send the first message.
    let first_message_index = 0;
    let first_message_type = MessageType::PLAIN_TEXT;
    let first_message_content = String::from("First message!").into_bytes();
    let message_pda_address =
        Message::find_pda_address(&conversation_pda_address, first_message_index, &id()).unwrap();
    assert!(ledger.get(&message_pda_address).is_none());

    let now = 1650000000;
    let ins = send_message(
        &funder,
        &sender_wallet_address,
        &receiver_wallet_address,
        first_message_index,
        first_message_type,
        first_message_content.clone(),
    )
    .unwrap();
    dispatch(&mut ledger, &ins, now).unwrap();

    let first_message = deserialize_message(&data_of(&ledger, message_pda_address)).unwrap();
    assert_eq!(first_message.sender, sender_wallet_address);
    assert_eq!(first_message.message_type, first_message_type);
    assert_eq!(first_message.content, first_message_content);
    assert_ne!(first_message.timestamp, 0);

    // The conversation counts one message.
    assert_eq!(
        deserialize_conversation(&data_of(&ledger, conversation_pda_address)).unwrap().message_counter,
        1,
    );
}

#[test]
fn test_message_indices_contiguous() {
    let funder = [90u8; 32];
    let sender_wallet = [41u8; 32];
    let receiver_wallet = [42u8; 32];
    let sender_user = User::find_pda_address(&sender_wallet, &id()).unwrap();
    let receiver_user = User::find_pda_address(&receiver_wallet, &id()).unwrap();
    let conversation = Conversation::find_pda_address(&sender_user, &receiver_user, &id()).unwrap();

    let mut ledger: Ledger = Ledger::new();
    dispatch(&mut ledger, &create_user_account(&funder, &sender_wallet).unwrap(), 0).unwrap();
    dispatch(&mut ledger, &create_user_account(&funder, &receiver_wallet).unwrap(), 0).unwrap();
    dispatch(
        &mut ledger,
        &create_conversation_account(&funder, &sender_user, &receiver_user, 0, 0).unwrap(),
        0,
    )
    .unwrap();

    for index in 0u32..3 {
        let content = format!("message {}", index).into_bytes();
        let ins = send_message(&funder, &sender_wallet, &receiver_wallet, index, MessageType::PLAIN_TEXT, content)
            .unwrap();
        dispatch(&mut ledger, &ins, 1650000000 + index as i64).unwrap();
    }

    // The counter equals the number of messages sent, and a message record
    // sits at every index below it, with no gap and none beyond it.
    assert_eq!(
        deserialize_conversation(&data_of(&ledger, conversation)).unwrap().message_counter,
        3,
    );
    for index in 0u32..3 {
        let slot = Message::find_pda_address(&conversation, index, &id()).unwrap();
        let message = deserialize_message(&data_of(&ledger, slot)).unwrap();
        assert_eq!(message.content, format!("message {}", index).into_bytes());
    }
    let beyond = Message::find_pda_address(&conversation, 3, &id()).unwrap();
    assert!(ledger.get(&beyond).is_none());
}

#[test]
fn test_conversation_recreation_leaves_links_alone() {
    let funder = [90u8; 32];
    let first_wallet = [51u8; 32];
    let second_wallet = [52u8; 32];
    let first_user = User::find_pda_address(&first_wallet, &id()).unwrap();
    let second_user = User::find_pda_address(&second_wallet, &id()).unwrap();

    let mut ledger: Ledger = Ledger::new();
    dispatch(&mut ledger, &create_user_account(&funder, &first_wallet).unwrap(), 0).unwrap();
    dispatch(&mut ledger, &create_user_account(&funder, &second_wallet).unwrap(), 0).unwrap();
    dispatch(
        &mut ledger,
        &create_conversation_account(&funder, &first_user, &second_user, 0, 0).unwrap(),
        0,
    )
    .unwrap();
    let before = ledger.clone();

    // A retry — even one aimed at the participants' next link indices —
    // fails before any bookkeeping and changes nothing.
    let retry = create_conversation_account(&funder, &first_user, &second_user, 1, 1).unwrap();
    let err = dispatch(&mut ledger, &retry, 0).unwrap_err();
    assert_eq!(err, InstantMessagingError::AlreadyInitialized);
    assert_eq!(ledger, before);
    assert_eq!(
        deserialize_user(&data_of(&ledger, first_user)).unwrap().conversation_counter,
        1,
    );
}

#[test]
fn test_retry_of_taken_message_slot_fails() {
    let funder = [90u8; 32];
    let sender_wallet = [71u8; 32];
    let receiver_wallet = [72u8; 32];
    let mut ledger: Ledger = Ledger::new();
    dispatch(&mut ledger, &create_user_account(&funder, &sender_wallet).unwrap(), 0).unwrap();
    dispatch(&mut ledger, &create_user_account(&funder, &receiver_wallet).unwrap(), 0).unwrap();
    let sender_user = User::find_pda_address(&sender_wallet, &id()).unwrap();
    let receiver_user = User::find_pda_address(&receiver_wallet, &id()).unwrap();
    dispatch(
        &mut ledger,
        &create_conversation_account(&funder, &sender_user, &receiver_user, 0, 0).unwrap(),
        0,
    )
    .unwrap();
    let first = send_message(&funder, &sender_wallet, &receiver_wallet, 0, MessageType::PLAIN_TEXT, b"one".to_vec())
        .unwrap();
    dispatch(&mut ledger, &first, 1).unwrap();
    // The counter has moved past index 0: a second attempt at the same slot
    // no longer matches the derivation of the next index.
    let retry = send_message(&funder, &sender_wallet, &receiver_wallet, 0, MessageType::PLAIN_TEXT, b"two".to_vec())
        .unwrap();
    let err = dispatch(&mut ledger, &retry, 2).unwrap_err();
    assert_eq!(err, InstantMessagingError::AddressDerivationMismatch);
}

#[test]
fn test_process_instruction_rejects_garbage() {
    let accounts: Vec<AccountView> = Vec::new();
    let err = process_instruction(&id(), &accounts, &vec![9u8, 9, 9], &rent(), 0).unwrap_err();
    assert_eq!(err, InstantMessagingError::DecodeFailure);
    let err = process_instruction(&id(), &accounts, &vec![0u8], &rent(), 0).unwrap_err();
    assert_eq!(err, InstantMessagingError::DecodeFailure);
}

#[test]
fn test_builders_place_accounts_in_wire_order() {
    let funder = [90u8; 32];
    let wallet = [61u8; 32];
    let ins = create_user_account(&funder, &wallet).unwrap();
    assert_eq!(ins.program_id, id());
    assert_eq!(ins.data, vec![0u8]);
    assert_eq!(ins.accounts.len(), 5);
    assert_eq!(ins.accounts[0].address, funder);
    assert!(ins.accounts[0].is_signer);
    assert_eq!(ins.accounts[1].address, User::find_pda_address(&wallet, &id()).unwrap());
    assert_eq!(ins.accounts[2].address, wallet);
    assert_eq!(ins.accounts[3].address, instant_messaging::pda::rent_sysvar_id());
    assert!(!ins.accounts[3].is_writable);
    assert_eq!(ins.accounts[4].address, instant_messaging::pda::system_program_id());

    let ins = send_message(&funder, &wallet, &[62u8; 32], 0, MessageType::PLAIN_TEXT, b"hi".to_vec()).unwrap();
    assert_eq!(ins.accounts.len(), 9);
    assert!(ins.accounts[0].is_signer);
    assert!(ins.accounts[1].is_signer);
    assert_eq!(ins.accounts[1].address, wallet);
    assert_eq!(ins.accounts[6].address, instant_messaging::pda::rent_sysvar_id());
    assert_eq!(ins.accounts[7].address, instant_messaging::pda::clock_sysvar_id());
    assert_eq!(ins.data[0], 5);
}
