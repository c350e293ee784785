//! Address derivation checked against the host SDK's own computation.

use instant_messaging::addr::{addr_to_vec, sort_addresses_asc};
use instant_messaging::dec::u32_to_decimal;
use instant_messaging::pda::{clock_sysvar_id, id, rent_sysvar_id, system_program_id};
use instant_messaging::state::{Conversation, ConversationEncryptionInfo, Message, User, UserConversation};
use solana_program::pubkey::Pubkey;
use std::str::FromStr;

fn program() -> Pubkey {
    Pubkey::new_from_array(id())
}

#[test]
fn test_program_id_matches_declared_string() {
    let declared = Pubkey::from_str("Hk5f9Xw9PdaQ9GEg8TPVFusojLA9otDpUkziXw1hAVE5").unwrap();
    assert_eq!(id(), declared.to_bytes());
}

#[test]
fn test_sysvar_ids_match_sdk() {
    assert_eq!(rent_sysvar_id(), solana_program::sysvar::rent::id().to_bytes());
    assert_eq!(clock_sysvar_id(), solana_program::sysvar::clock::id().to_bytes());
    assert_eq!(system_program_id(), [0u8; 32]);
}

#[test]
fn test_user_pda_matches_sdk() {
    let wallet = [7u8; 32];
    let (derived, bump) = User::find_pda_address_with_bump_seed(&wallet, &id()).unwrap();
    let (expected, expected_bump) = Pubkey::find_program_address(&[&wallet, b"user"], &program());
    assert_eq!(derived, expected.to_bytes());
    assert_eq!(bump, expected_bump);
}

#[test]
fn test_user_pda_deterministic_and_distinct() {
    let mut seen: Vec<[u8; 32]> = Vec::new();
    for b in 0u8..16 {
        let wallet = [b; 32];
        let first = User::find_pda_address(&wallet, &id()).unwrap();
        let again = User::find_pda_address(&wallet, &id()).unwrap();
        assert_eq!(first, again);
        assert!(!seen.contains(&first));
        seen.push(first);
    }
}

#[test]
fn test_conversation_pda_order_independent() {
    let a = User::find_pda_address(&[1u8; 32], &id()).unwrap();
    let b = User::find_pda_address(&[2u8; 32], &id()).unwrap();
    let one_way = Conversation::find_pda_address(&a, &b, &id()).unwrap();
    let other_way = Conversation::find_pda_address(&b, &a, &id()).unwrap();
    assert_eq!(one_way, other_way);
}

#[test]
fn test_conversation_pda_matches_sdk() {
    let a = [3u8; 32];
    let b = [9u8; 32];
    let (low, high) = if Pubkey::new_from_array(a) < Pubkey::new_from_array(b) {
        (a, b)
    } else {
        (b, a)
    };
    let derived = Conversation::find_pda_address(&a, &b, &id()).unwrap();
    let (expected, _) = Pubkey::find_program_address(&[&low, &high, b"conversation"], &program());
    assert_eq!(derived, expected.to_bytes());
}

#[test]
fn test_user_conversation_pda_matches_sdk() {
    let user = [11u8; 32];
    for index in [0u32, 1, 9, 10, 4294967295] {
        let derived = UserConversation::find_pda_address(&user, index, &id()).unwrap();
        let seed = format!("{}user-conversation", index);
        let (expected, _) = Pubkey::find_program_address(&[&user, seed.as_bytes()], &program());
        assert_eq!(derived, expected.to_bytes());
    }
}

#[test]
fn test_message_pda_matches_sdk() {
    let conversation = [13u8; 32];
    for index in [0u32, 7, 123456] {
        let derived = Message::find_pda_address(&conversation, index, &id()).unwrap();
        let seed = format!("{}message", index);
        let (expected, _) = Pubkey::find_program_address(&[&conversation, seed.as_bytes()], &program());
        assert_eq!(derived, expected.to_bytes());
    }
}

#[test]
fn test_encryption_info_pda_matches_sdk() {
    let conversation = [17u8; 32];
    let derived = ConversationEncryptionInfo::find_pda_address(&conversation, &id()).unwrap();
    let (expected, _) = Pubkey::find_program_address(&[&conversation, b"conversation-encryption"], &program());
    assert_eq!(derived, expected.to_bytes());
}

#[test]
fn test_sort_addresses_asc_matches_pubkey_order() {
    let mut a = [0u8; 32];
    let mut b = [0u8; 32];
    a[31] = 5;
    b[31] = 4;
    let (low, high) = sort_addresses_asc(&a, &b);
    assert!(Pubkey::new_from_array(*low) < Pubkey::new_from_array(*high));
    assert_eq!(*low, b);
    assert_eq!(*high, a);
    let (low2, high2) = sort_addresses_asc(&b, &a);
    assert_eq!(*low2, *low);
    assert_eq!(*high2, *high);
    let (same_low, same_high) = sort_addresses_asc(&a, &a);
    assert_eq!(*same_low, a);
    assert_eq!(*same_high, a);
}

#[test]
fn test_decimal_rendering_matches_display() {
    for n in [0u32, 1, 9, 10, 99, 100, 1000, 65535, 4294967295] {
        let rendered = u32_to_decimal(n);
        assert_eq!(rendered, format!("{}", n).into_bytes());
    }
}

#[test]
fn test_addr_to_vec_copies_bytes() {
    let mut a = [0u8; 32];
    for (i, byte) in a.iter_mut().enumerate() {
        *byte = i as u8;
    }
    assert_eq!(addr_to_vec(&a), a.to_vec());
}
