//! The record and instruction byte layouts, checked against an independent
//! serializer of the same format and for lossless round trips.

use instant_messaging::codec::{
    deserialize_conversation, deserialize_encryption_info, deserialize_message,
    deserialize_user, deserialize_user_conversation, serialize_conversation,
    serialize_encryption_info, serialize_message, serialize_user, serialize_user_conversation,
};
use instant_messaging::error::InstantMessagingError;
use instant_messaging::instruction::{decode_instruction, encode_instruction, InstantMessagingInstruction};
use instant_messaging::state::{Conversation, ConversationEncryptionInfo, Message, MessageType, User, UserConversation};

#[test]
fn test_user_codec_matches_borsh() {
    let user = User { conversation_counter: 513 };
    let bytes = serialize_user(&user);
    assert_eq!(bytes, borsh::to_vec(&513u32).unwrap());
    let back = deserialize_user(&bytes).unwrap();
    assert_eq!(back.conversation_counter, 513);
}

#[test]
fn test_fresh_user_record_is_zero_filled() {
    assert_eq!(serialize_user(&User { conversation_counter: 0 }), vec![0u8; 4]);
    assert_eq!(serialize_conversation(&Conversation { message_counter: 0 }), vec![0u8; 4]);
}

#[test]
fn test_conversation_codec_matches_borsh() {
    let conversation = Conversation { message_counter: 4294967295 };
    let bytes = serialize_conversation(&conversation);
    assert_eq!(bytes, borsh::to_vec(&4294967295u32).unwrap());
    let back = deserialize_conversation(&bytes).unwrap();
    assert_eq!(back.message_counter, 4294967295);
}

#[test]
fn test_user_conversation_codec_matches_borsh() {
    let record = UserConversation { conversation_address: [42u8; 32] };
    let bytes = serialize_user_conversation(&record);
    assert_eq!(bytes, borsh::to_vec(&[42u8; 32]).unwrap());
    let back = deserialize_user_conversation(&bytes).unwrap();
    assert_eq!(back.conversation_address, [42u8; 32]);
}

#[test]
fn test_message_codec_matches_borsh() {
    let message = Message {
        sender: [5u8; 32],
        message_type: MessageType::PLAIN_TEXT,
        content: b"First message!".to_vec(),
        timestamp: 1650000000,
    };
    let bytes = serialize_message(&message);
    let independent = borsh::to_vec(&([5u8; 32], 0u8, b"First message!".to_vec(), 1650000000i64)).unwrap();
    assert_eq!(bytes, independent);
    let back = deserialize_message(&bytes).unwrap();
    assert_eq!(back.sender, [5u8; 32]);
    assert_eq!(back.message_type, MessageType::PLAIN_TEXT);
    assert_eq!(back.content, b"First message!".to_vec());
    assert_eq!(back.timestamp, 1650000000);
}

#[test]
fn test_message_codec_negative_timestamp() {
    let message = Message {
        sender: [0u8; 32],
        message_type: MessageType::RSA_ENCRYPTED,
        content: Vec::new(),
        timestamp: -1234567890,
    };
    let bytes = serialize_message(&message);
    let independent = borsh::to_vec(&([0u8; 32], 1u8, Vec::<u8>::new(), -1234567890i64)).unwrap();
    assert_eq!(bytes, independent);
    let back = deserialize_message(&bytes).unwrap();
    assert_eq!(back.timestamp, -1234567890);
}

#[test]
fn test_message_size_is_exact_serialized_length() {
    for content_len in [0usize, 1, 14, 255, 1024] {
        let message = Message {
            sender: [9u8; 32],
            message_type: MessageType::ARWEAVE,
            content: vec![7u8; content_len],
            timestamp: 99,
        };
        let bytes = serialize_message(&message);
        assert_eq!(Message::retrieve_size(content_len), bytes.len());
        assert_eq!(bytes.len(), 45 + content_len);
        let back = deserialize_message(&bytes).unwrap();
        assert_eq!(back.sender, message.sender);
        assert_eq!(back.message_type, message.message_type);
        assert_eq!(back.content, message.content);
        assert_eq!(back.timestamp, message.timestamp);
    }
}

#[test]
fn test_message_decode_rejects_wrong_shapes() {
    assert_eq!(deserialize_message(&Vec::new()).unwrap_err(), InstantMessagingError::DecodeFailure);
    assert_eq!(deserialize_message(&vec![0u8; 44]).unwrap_err(), InstantMessagingError::DecodeFailure);
    // A length prefix that overstates the content is rejected.
    let mut bytes = serialize_message(&Message {
        sender: [1u8; 32],
        message_type: 0,
        content: b"hi".to_vec(),
        timestamp: 1,
    });
    bytes[33] = 200;
    assert_eq!(deserialize_message(&bytes).unwrap_err(), InstantMessagingError::DecodeFailure);
}

#[test]
fn test_user_decode_rejects_wrong_shapes() {
    assert_eq!(deserialize_user(&Vec::new()).unwrap_err(), InstantMessagingError::DecodeFailure);
    assert_eq!(deserialize_user(&vec![0u8; 3]).unwrap_err(), InstantMessagingError::DecodeFailure);
    assert_eq!(deserialize_user(&vec![0u8; 5]).unwrap_err(), InstantMessagingError::DecodeFailure);
    assert_eq!(deserialize_user_conversation(&vec![0u8; 31]).unwrap_err(), InstantMessagingError::DecodeFailure);
}

#[test]
fn test_encryption_info_codec_matches_borsh() {
    let info = ConversationEncryptionInfo { data: b"key material".to_vec() };
    let bytes = serialize_encryption_info(&info);
    assert_eq!(bytes, borsh::to_vec(&b"key material".to_vec()).unwrap());
    assert_eq!(ConversationEncryptionInfo::retrieve_size(info.data.len()), bytes.len());
    let back = deserialize_encryption_info(&bytes).unwrap();
    assert_eq!(back.data, b"key material".to_vec());
    assert_eq!(deserialize_encryption_info(&vec![1u8; 3]).unwrap_err(), InstantMessagingError::DecodeFailure);
}

#[test]
fn test_blank_records() {
    let message = Message::new(6);
    assert_eq!(message.sender, [0u8; 32]);
    assert_eq!(message.message_type, 0);
    assert_eq!(message.content, vec![0u8; 6]);
    assert_eq!(message.timestamp, 0);
    let info = ConversationEncryptionInfo::new(3);
    assert_eq!(info.data, vec![0u8; 3]);
    assert_eq!(User::retrieve_size(), 4);
    assert_eq!(Conversation::retrieve_size(), 4);
    assert_eq!(UserConversation::retrieve_size(), 32);
}

#[test]
fn test_instruction_codec_roundtrip() {
    let cases = vec![
        InstantMessagingInstruction::CreateUserAccount,
        InstantMessagingInstruction::CreateConversationAccount,
        InstantMessagingInstruction::CreateUserConversationAccount { conversation_index: 7 },
        InstantMessagingInstruction::CreateMessageAccount {
            conversation_index: 3,
            message_type: MessageType::PLAIN_TEXT,
            content: b"hello".to_vec(),
        },
        InstantMessagingInstruction::CreateConversationEncryptionInfoAccount { data: b"blob".to_vec() },
        InstantMessagingInstruction::SendMessage {
            message_type: MessageType::RSA_ENCRYPTED,
            content: b"cipher".to_vec(),
        },
    ];
    for case in &cases {
        let encoded = encode_instruction(case);
        let decoded = decode_instruction(&encoded).unwrap();
        assert_eq!(encode_instruction(&decoded), encoded);
    }
    assert_eq!(encode_instruction(&InstantMessagingInstruction::CreateUserAccount), vec![0u8]);
    assert_eq!(encode_instruction(&InstantMessagingInstruction::CreateConversationAccount), vec![1u8]);
    let with_index = encode_instruction(&InstantMessagingInstruction::CreateUserConversationAccount {
        conversation_index: 258,
    });
    assert_eq!(with_index, vec![2u8, 2, 1, 0, 0]);
    let sent = encode_instruction(&InstantMessagingInstruction::SendMessage {
        message_type: 1,
        content: b"ab".to_vec(),
    });
    assert_eq!(sent, vec![5u8, 1, 2, 0, 0, 0, 97, 98]);
}

#[test]
fn test_instruction_decode_rejects_wrong_shapes() {
    assert_eq!(decode_instruction(&Vec::new()).unwrap_err(), InstantMessagingError::DecodeFailure);
    assert_eq!(decode_instruction(&vec![6u8]).unwrap_err(), InstantMessagingError::DecodeFailure);
    assert_eq!(decode_instruction(&vec![0u8, 0]).unwrap_err(), InstantMessagingError::DecodeFailure);
    assert_eq!(decode_instruction(&vec![2u8, 1, 0]).unwrap_err(), InstantMessagingError::DecodeFailure);
    assert_eq!(decode_instruction(&vec![5u8, 1, 9, 0, 0, 0, 97]).unwrap_err(), InstantMessagingError::DecodeFailure);
}

#[test]
fn test_error_codes_are_stable() {
    assert_eq!(InstantMessagingError::AddressDerivationMismatch.error_code(), 0);
    assert_eq!(InstantMessagingError::AlreadyInitialized.error_code(), 1);
    assert_eq!(InstantMessagingError::UninitializedAccount.error_code(), 2);
    assert_eq!(InstantMessagingError::IncorrectOwner.error_code(), 3);
    assert_eq!(InstantMessagingError::MembershipViolation.error_code(), 4);
    assert_eq!(InstantMessagingError::MissingSignature.error_code(), 5);
    assert_eq!(InstantMessagingError::InvalidSystemReference.error_code(), 6);
    assert_eq!(InstantMessagingError::DecodeFailure.error_code(), 7);
    assert_eq!(InstantMessagingError::AllocationFailure.error_code(), 8);
}

#[test]
fn test_error_type_label() {
    assert_eq!(InstantMessagingError::type_of(), "Instant Messaging Error");
}
