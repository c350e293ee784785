//! The binary layout of every record: fixed-width integers little-endian,
//! length-prefixed variable byte strings.
//!
//! Serialization is a lossless round trip, and a non-empty byte string that
//! does not match a record's exact shape is a hard decode failure, never a
//! default value.

use vstd::prelude::*;
use vstd::bytes::{
    lemma_auto_spec_u32_to_from_le_bytes, spec_u32_from_le_bytes, spec_u32_to_le_bytes,
    spec_u64_from_le_bytes, spec_u64_to_le_bytes, u32_from_le_bytes, u32_to_le_bytes,
    u64_from_le_bytes, u64_to_le_bytes,
};
use crate::addr::addr_from_vec;
use crate::error::InstantMessagingError;
use crate::state::{Conversation, ConversationEncryptionInfo, Message, MessageModel, User, UserConversation};

verus! {

/// The bytes of `d` from `start` (inclusive) to `end` (exclusive).
pub fn copy_range(d: &Vec<u8>, start: usize, end: usize) -> (r: Vec<u8>)
    requires
        start <= end <= d@.len(),
    ensures
        r@ == d@.subrange(start as int, end as int),
{
    let mut r: Vec<u8> = Vec::new();
    let mut i: usize = start;
    while i < end
        invariant
            start <= i <= end <= d@.len(),
            r@ == d@.subrange(start as int, i as int),
        decreases end - i,
    {
        r.push(d[i]);
        i = i + 1;
        proof {
            assert(r@ =~= d@.subrange(start as int, i as int));
        }
    }
    r
}

/// `src` appended to `dst`.
pub fn append_bytes(dst: &mut Vec<u8>, src: &Vec<u8>)
    ensures
        final(dst)@ == old(dst)@ + src@,
{
    let mut i: usize = 0;
    while i < src.len()
        invariant
            0 <= i <= src@.len(),
            dst@ == old(dst)@ + src@.take(i as int),
        decreases src@.len() - i,
    {
        dst.push(src[i]);
        i = i + 1;
        proof {
            assert(old(dst)@ + src@.take(i as int) =~= (old(dst)@ + src@.take(i as int - 1)).push(src@[i as int - 1]));
        }
    }
    proof {
        assert(old(dst)@ + src@.take(src@.len() as int) =~= old(dst)@ + src@);
    }
}

/// The unsigned 64-bit pattern that stores a signed timestamp, two's
/// complement.
pub open spec fn spec_i64_bits(x: i64) -> u64 {
    if x >= 0 {
        x as u64
    } else {
        (x + 0x1_0000_0000_0000_0000) as u64
    }
}

/// The signed timestamp stored in an unsigned 64-bit pattern, two's
/// complement.
pub open spec fn spec_i64_from_bits(u: u64) -> i64 {
    if u < 0x8000_0000_0000_0000 {
        u as i64
    } else {
        (u - 0x1_0000_0000_0000_0000) as i64
    }
}

/// Storing a timestamp as its bit pattern and reading it back is lossless.
pub proof fn lemma_i64_bits_roundtrip(x: i64)
    ensures
        spec_i64_from_bits(spec_i64_bits(x)) == x,
{
}

/// The unsigned 64-bit pattern of a signed timestamp.
pub fn i64_to_bits(x: i64) -> (r: u64)
    ensures
        r == spec_i64_bits(x),
{
    if x >= 0 {
        x as u64
    } else {
        (x as i128 + 0x1_0000_0000_0000_0000) as u64
    }
}

/// The signed timestamp of an unsigned 64-bit pattern.
pub fn i64_from_bits(u: u64) -> (r: i64)
    ensures
        r == spec_i64_from_bits(u),
{
    if u < 0x8000_0000_0000_0000 {
        u as i64
    } else {
        (u as i128 - 0x1_0000_0000_0000_0000) as i64
    }
}

/// The serialized bytes of a user record: its counter, little-endian.
pub open spec fn spec_user_bytes(u: User) -> Seq<u8> {
    spec_u32_to_le_bytes(u.conversation_counter)
}

/// The user record stored in a byte string, or nothing when the shape is wrong.
pub open spec fn spec_user_decode(d: Seq<u8>) -> Option<User> {
    if d.len() == 4 {
        Some(User { conversation_counter: spec_u32_from_le_bytes(d) })
    } else {
        None
    }
}

/// Serializing a user record and reading it back is lossless.
pub proof fn lemma_user_roundtrip(u: User)
    ensures
        spec_user_bytes(u).len() == 4,
        spec_user_decode(spec_user_bytes(u)) == Some(u),
{
    lemma_auto_spec_u32_to_from_le_bytes();
}

/// Serialize a user record.
pub fn serialize_user(u: &User) -> (r: Vec<u8>)
    ensures
        r@ == spec_user_bytes(*u),
{
    u32_to_le_bytes(u.conversation_counter)
}

/// Deserialize a user record; a byte string of the wrong shape is rejected.
pub fn deserialize_user(d: &Vec<u8>) -> (r: Result<User, InstantMessagingError>)
    ensures
        r matches Ok(u) ==> spec_user_decode(d@) == Some(u),
        r matches Err(e) ==> spec_user_decode(d@) is None && e == InstantMessagingError::DecodeFailure,
{
    if d.len() == 4 {
        Ok(User { conversation_counter: u32_from_le_bytes(d.as_slice()) })
    } else {
        Err(InstantMessagingError::DecodeFailure)
    }
}

/// The serialized bytes of a conversation record: its counter, little-endian.
pub open spec fn spec_conversation_bytes(c: Conversation) -> Seq<u8> {
    spec_u32_to_le_bytes(c.message_counter)
}

/// The conversation record stored in a byte string, or nothing when the
/// shape is wrong.
pub open spec fn spec_conversation_decode(d: Seq<u8>) -> Option<Conversation> {
    if d.len() == 4 {
        Some(Conversation { message_counter: spec_u32_from_le_bytes(d) })
    } else {
        None
    }
}

/// Serializing a conversation record and reading it back is lossless.
pub proof fn lemma_conversation_roundtrip(c: Conversation)
    ensures
        spec_conversation_bytes(c).len() == 4,
        spec_conversation_decode(spec_conversation_bytes(c)) == Some(c),
{
    lemma_auto_spec_u32_to_from_le_bytes();
}

/// Serialize a conversation record.
pub fn serialize_conversation(c: &Conversation) -> (r: Vec<u8>)
    ensures
        r@ == spec_conversation_bytes(*c),
{
    u32_to_le_bytes(c.message_counter)
}

/// Deserialize a conversation record; a byte string of the wrong shape is
/// rejected.
pub fn deserialize_conversation(d: &Vec<u8>) -> (r: Result<Conversation, InstantMessagingError>)
    ensures
        r matches Ok(c) ==> spec_conversation_decode(d@) == Some(c),
        r matches Err(e) ==> spec_conversation_decode(d@) is None && e == InstantMessagingError::DecodeFailure,
{
    if d.len() == 4 {
        Ok(Conversation { message_counter: u32_from_le_bytes(d.as_slice()) })
    } else {
        Err(InstantMessagingError::DecodeFailure)
    }
}

/// The serialized bytes of a user-conversation record: the stored
/// conversation address, raw.
pub open spec fn spec_user_conversation_bytes(uc: UserConversation) -> Seq<u8> {
    uc.conversation_address@
}

/// The conversation address stored in a user-conversation byte string, or
/// nothing when the shape is wrong.
pub open spec fn spec_user_conversation_decode(d: Seq<u8>) -> Option<Seq<u8>> {
    if d.len() == 32 {
        Some(d)
    } else {
        None
    }
}

/// Serializing a user-conversation record and reading it back is lossless.
pub proof fn lemma_user_conversation_roundtrip(uc: UserConversation)
    ensures
        spec_user_conversation_bytes(uc).len() == 32,
        spec_user_conversation_decode(spec_user_conversation_bytes(uc)) == Some(uc.conversation_address@),
{
}

/// Serialize a user-conversation record.
pub fn serialize_user_conversation(uc: &UserConversation) -> (r: Vec<u8>)
    ensures
        r@ == spec_user_conversation_bytes(*uc),
{
    crate::addr::addr_to_vec(&uc.conversation_address)
}

/// Deserialize a user-conversation record; a byte string of the wrong shape
/// is rejected.
pub fn deserialize_user_conversation(d: &Vec<u8>) -> (r: Result<UserConversation, InstantMessagingError>)
    ensures
        r matches Ok(uc) ==> spec_user_conversation_decode(d@) == Some(uc.conversation_address@),
        r matches Err(e) ==> spec_user_conversation_decode(d@) is None && e == InstantMessagingError::DecodeFailure,
{
    if d.len() == 32 {
        Ok(UserConversation { conversation_address: addr_from_vec(d) })
    } else {
        Err(InstantMessagingError::DecodeFailure)
    }
}

/// The serialized bytes of a message record: the sender, the type byte, the
/// length-prefixed content, and the timestamp.
pub open spec fn spec_message_bytes(m: MessageModel) -> Seq<u8> {
    m.sender + seq![m.message_type] + spec_u32_to_le_bytes(m.content.len() as u32) + m.content
        + spec_u64_to_le_bytes(spec_i64_bits(m.timestamp))
}

/// The message record stored in a byte string, or nothing when the shape is
/// wrong.
pub open spec fn spec_message_decode(d: Seq<u8>) -> Option<MessageModel> {
    if d.len() < 37 {
        None
    } else {
        let len = spec_u32_from_le_bytes(d.subrange(33, 37)) as int;
        if d.len() == 45 + len {
            Some(MessageModel {
                sender: d.subrange(0, 32),
                message_type: d[32],
                content: d.subrange(37, 37 + len),
                timestamp: spec_i64_from_bits(spec_u64_from_le_bytes(d.subrange(37 + len, 45 + len))),
            })
        } else {
            None
        }
    }
}

/// A message serializes to exactly 45 bytes plus its content length, and
/// serializing then reading it back is lossless.
pub proof fn lemma_message_roundtrip(m: MessageModel)
    requires
        m.sender.len() == 32,
        m.content.len() <= u32::MAX,
    ensures
        spec_message_bytes(m).len() == 45 + m.content.len(),
        spec_message_decode(spec_message_bytes(m)) == Some(m),
{
    lemma_auto_spec_u32_to_from_le_bytes();
    vstd::bytes::lemma_auto_spec_u64_to_from_le_bytes();
    let e = spec_message_bytes(m);
    let len = m.content.len() as int;
    assert(e.subrange(33, 37) =~= spec_u32_to_le_bytes(m.content.len() as u32));
    assert(spec_u32_from_le_bytes(e.subrange(33, 37)) as int == len);
    assert(e.subrange(0, 32) =~= m.sender);
    assert(e[32] == m.message_type);
    assert(e.subrange(37, 37 + len) =~= m.content);
    assert(e.subrange(37 + len, 45 + len) =~= spec_u64_to_le_bytes(spec_i64_bits(m.timestamp)));
    lemma_i64_bits_roundtrip(m.timestamp);
}

/// Serialize a message record.
pub fn serialize_message(m: &Message) -> (r: Vec<u8>)
    requires
        m.content@.len() <= u32::MAX,
    ensures
        r@ == spec_message_bytes(m@),
{
    let mut r = crate::addr::addr_to_vec(&m.sender);
    r.push(m.message_type);
    let mut len_bytes = u32_to_le_bytes(m.content.len() as u32);
    r.append(&mut len_bytes);
    append_bytes(&mut r, &m.content);
    let mut ts_bytes = u64_to_le_bytes(i64_to_bits(m.timestamp));
    r.append(&mut ts_bytes);
    proof {
        assert(r@ =~= spec_message_bytes(m@));
    }
    r
}

/// Deserialize a message record; a byte string of the wrong shape is rejected.
pub fn deserialize_message(d: &Vec<u8>) -> (r: Result<Message, InstantMessagingError>)
    ensures
        r matches Ok(m) ==> spec_message_decode(d@) == Some(m@),
        r matches Err(e) ==> spec_message_decode(d@) is None && e == InstantMessagingError::DecodeFailure,
{
    if d.len() < 37 {
        return Err(InstantMessagingError::DecodeFailure);
    }
    let len_bytes = copy_range(d, 33, 37);
    let len = u32_from_le_bytes(len_bytes.as_slice());
    if d.len() < 45 || d.len() - 45 != len as usize {
        return Err(InstantMessagingError::DecodeFailure);
    }
    let sender_bytes = copy_range(d, 0, 32);
    let sender = addr_from_vec(&sender_bytes);
    let message_type = d[32];
    let content = copy_range(d, 37, d.len() - 8);
    let ts_bytes = copy_range(d, d.len() - 8, d.len());
    let timestamp = i64_from_bits(u64_from_le_bytes(ts_bytes.as_slice()));
    let m = Message { sender, message_type, content, timestamp };
    proof {
        assert(spec_message_decode(d@) == Some(m@));
    }
    Ok(m)
}

/// The serialized bytes of a conversation-encryption-info record: its
/// length-prefixed data.
pub open spec fn spec_encryption_info_bytes(data: Seq<u8>) -> Seq<u8> {
    spec_u32_to_le_bytes(data.len() as u32) + data
}

/// The encryption data stored in a byte string, or nothing when the shape is
/// wrong.
pub open spec fn spec_encryption_info_decode(d: Seq<u8>) -> Option<Seq<u8>> {
    if d.len() < 4 {
        None
    } else {
        let len = spec_u32_from_le_bytes(d.subrange(0, 4)) as int;
        if d.len() == 4 + len {
            Some(d.subrange(4, 4 + len))
        } else {
            None
        }
    }
}

/// An encryption-info record serializes to exactly 4 bytes plus its data
/// length, and serializing then reading it back is lossless.
pub proof fn lemma_encryption_info_roundtrip(data: Seq<u8>)
    requires
        data.len() <= u32::MAX,
    ensures
        spec_encryption_info_bytes(data).len() == 4 + data.len(),
        spec_encryption_info_decode(spec_encryption_info_bytes(data)) == Some(data),
{
    lemma_auto_spec_u32_to_from_le_bytes();
    let e = spec_encryption_info_bytes(data);
    assert(e.subrange(0, 4) =~= spec_u32_to_le_bytes(data.len() as u32));
    assert(e.subrange(4, 4 + data.len() as int) =~= data);
}

/// Serialize a conversation-encryption-info record.
pub fn serialize_encryption_info(info: &ConversationEncryptionInfo) -> (r: Vec<u8>)
    requires
        info.data@.len() <= u32::MAX,
    ensures
        r@ == spec_encryption_info_bytes(info@),
{
    let mut r = u32_to_le_bytes(info.data.len() as u32);
    append_bytes(&mut r, &info.data);
    r
}

/// Deserialize a conversation-encryption-info record; a byte string of the
/// wrong shape is rejected.
pub fn deserialize_encryption_info(d: &Vec<u8>) -> (r: Result<ConversationEncryptionInfo, InstantMessagingError>)
    ensures
        r matches Ok(info) ==> spec_encryption_info_decode(d@) == Some(info@),
        r matches Err(e) ==> spec_encryption_info_decode(d@) is None && e == InstantMessagingError::DecodeFailure,
{
    if d.len() < 4 {
        return Err(InstantMessagingError::DecodeFailure);
    }
    let len_bytes = copy_range(d, 0, 4);
    let len = u32_from_le_bytes(len_bytes.as_slice());
    if d.len() - 4 != len as usize {
        return Err(InstantMessagingError::DecodeFailure);
    }
    let data = copy_range(d, 4, d.len());
    Ok(ConversationEncryptionInfo { data })
}

} // verus!
