//! The five record types stored in program-owned accounts, their derivation
//! seeds, and their exact storage sizes.
//!
//! Every record lives at a program-derived address computed from a semantic
//! key plus a namespacing seed string, so distinct entity kinds can never
//! collide on one address.

use vstd::prelude::*;
use crate::addr::{Addr, addr_to_vec, sort_addresses_asc, sorted_pair};
use crate::dec::dec_digits;
use crate::pda::{derive_program_address, derives_to, pda_of};

verus! {

/// A zero-filled byte string of the requested length: what a freshly created
/// storage slot holds.
pub open spec fn zero_bytes(n: nat) -> Seq<u8> {
    Seq::new(n, |i: int| 0u8)
}

/// A zero-filled byte vector of the requested length.
pub fn zero_vec(n: usize) -> (r: Vec<u8>)
    ensures
        r@ == zero_bytes(n as nat),
{
    let mut r: Vec<u8> = Vec::new();
    let mut i: usize = 0;
    while i < n
        invariant
            0 <= i <= n,
            r@ == zero_bytes(i as nat),
        decreases n - i,
    {
        r.push(0u8);
        i = i + 1;
        proof {
            assert(r@ =~= zero_bytes(i as nat));
        }
    }
    r
}

/// A user account: one per wallet, counting that wallet's conversations.
#[derive(Clone, Copy, Debug, PartialEq, Eq, Structural)]
pub struct User {
    /// Number of conversations the user has.
    pub conversation_counter: u32,
}

impl User {
    /// The namespacing seed, the ASCII bytes of `user`.
    pub open spec fn spec_seed() -> Seq<u8> {
        seq![117u8, 115, 101, 114]
    }

    /// The namespacing seed, the ASCII bytes of `user`.
    pub fn account_address_seed() -> (r: Vec<u8>)
        ensures
            r@ == Self::spec_seed(),
    {
        let r: Vec<u8> = vec![117u8, 115, 101, 114];
        proof {
            assert(r@ =~= Self::spec_seed());
        }
        r
    }

    /// The ordered derivation seeds of the user account for a wallet.
    pub open spec fn spec_seeds(wallet: Seq<u8>) -> Seq<Seq<u8>> {
        seq![wallet, Self::spec_seed()]
    }

    /// Get size of user account.
    pub fn retrieve_size() -> (r: usize)
        ensures
            r == 4,
    {
        4
    }

    /// Get program-derived account address and bump seed for the user.
    pub fn find_pda_address_with_bump_seed(user_wallet_address: &Addr, program_id: &Addr) -> (r: Option<(Addr, u8)>)
        ensures
            derives_to(Self::spec_seeds(user_wallet_address@), program_id@, r),
    {
        let mut seeds: Vec<Vec<u8>> = Vec::new();
        seeds.push(addr_to_vec(user_wallet_address));
        seeds.push(Self::account_address_seed());
        proof {
            assert(seeds.deep_view() =~~= Self::spec_seeds(user_wallet_address@));
        }
        derive_program_address(&seeds, program_id)
    }

    /// Get program-derived account address for the user.
    pub fn find_pda_address(user_wallet_address: &Addr, program_id: &Addr) -> (r: Option<Addr>)
        ensures
            r matches Some(a) ==> pda_of(Self::spec_seeds(user_wallet_address@), program_id@) matches Some(q) && q.0 == a@,
            r is None ==> pda_of(Self::spec_seeds(user_wallet_address@), program_id@) is None,
    {
        match Self::find_pda_address_with_bump_seed(user_wallet_address, program_id) {
            Some(p) => Some(p.0),
            None => None,
        }
    }
}

/// A conversation account: one per unordered pair of user accounts, counting
/// its messages.
#[derive(Clone, Copy, Debug, PartialEq, Eq, Structural)]
pub struct Conversation {
    /// Number of messages the conversation has.
    pub message_counter: u32,
}

impl Conversation {
    /// The namespacing seed, the ASCII bytes of `conversation`.
    pub open spec fn spec_seed() -> Seq<u8> {
        seq![99u8, 111, 110, 118, 101, 114, 115, 97, 116, 105, 111, 110]
    }

    /// The namespacing seed, the ASCII bytes of `conversation`.
    pub fn account_address_seed() -> (r: Vec<u8>)
        ensures
            r@ == Self::spec_seed(),
    {
        let r: Vec<u8> = vec![99u8, 111, 110, 118, 101, 114, 115, 97, 116, 105, 111, 110];
        proof {
            assert(r@ =~= Self::spec_seed());
        }
        r
    }

    /// The ordered derivation seeds for the conversation of a user pair: the
    /// two user addresses in ascending byte order, then the namespacing seed.
    pub open spec fn spec_seeds(first: Seq<u8>, second: Seq<u8>) -> Seq<Seq<u8>> {
        let (low, high) = sorted_pair(first, second);
        seq![low, high, Self::spec_seed()]
    }

    /// Get size of conversation account.
    pub fn retrieve_size() -> (r: usize)
        ensures
            r == 4,
    {
        4
    }

    /// Get program-derived account address and bump seed for the conversation.
    pub fn find_pda_address_with_bump_seed(
        first_user_pda_address: &Addr,
        second_user_pda_address: &Addr,
        program_id: &Addr,
    ) -> (r: Option<(Addr, u8)>)
        ensures
            derives_to(Self::spec_seeds(first_user_pda_address@, second_user_pda_address@), program_id@, r),
    {
        // Sort first & second address so that they are always in the same order.
        let (address_one, address_two) = sort_addresses_asc(first_user_pda_address, second_user_pda_address);
        let mut seeds: Vec<Vec<u8>> = Vec::new();
        seeds.push(addr_to_vec(address_one));
        seeds.push(addr_to_vec(address_two));
        seeds.push(Self::account_address_seed());
        proof {
            assert(seeds.deep_view() =~~= Self::spec_seeds(first_user_pda_address@, second_user_pda_address@));
        }
        derive_program_address(&seeds, program_id)
    }

    /// Get program-derived account address for the conversation.
    pub fn find_pda_address(
        first_user_pda_address: &Addr,
        second_user_pda_address: &Addr,
        program_id: &Addr,
    ) -> (r: Option<Addr>)
        ensures
            r matches Some(a) ==> pda_of(Self::spec_seeds(first_user_pda_address@, second_user_pda_address@), program_id@)
                matches Some(q) && q.0 == a@,
            r is None ==> pda_of(Self::spec_seeds(first_user_pda_address@, second_user_pda_address@), program_id@) is None,
    {
        match Self::find_pda_address_with_bump_seed(first_user_pda_address, second_user_pda_address, program_id) {
            Some(p) => Some(p.0),
            None => None,
        }
    }
}

/// A user-conversation account: the owning user's numbered link to one
/// conversation; once assigned, the stored address never changes.
#[derive(Clone, Copy, Debug)]
pub struct UserConversation {
    /// Address of the conversation account.
    pub conversation_address: Addr,
}

impl UserConversation {
    /// The namespacing seed, the ASCII bytes of `user-conversation`.
    pub open spec fn spec_seed() -> Seq<u8> {
        seq![117u8, 115, 101, 114, 45, 99, 111, 110, 118, 101, 114, 115, 97, 116, 105, 111, 110]
    }

    /// The namespacing seed, the ASCII bytes of `user-conversation`.
    pub fn account_address_seed() -> (r: Vec<u8>)
        ensures
            r@ == Self::spec_seed(),
    {
        let r: Vec<u8> = vec![
            117u8, 115, 101, 114, 45, 99, 111, 110, 118, 101, 114, 115, 97, 116, 105, 111, 110,
        ];
        proof {
            assert(r@ =~= Self::spec_seed());
        }
        r
    }

    /// The ordered derivation seeds of a user's link at one index: the user
    /// address, then the decimal index glued to the namespacing seed.
    pub open spec fn spec_seeds(user: Seq<u8>, conversation_index: u32) -> Seq<Seq<u8>> {
        seq![user, dec_digits(conversation_index as nat) + Self::spec_seed()]
    }

    /// Get size of user-conversation account.
    pub fn retrieve_size() -> (r: usize)
        ensures
            r == 32,
    {
        32
    }

    /// Get program-derived account address and bump seed for the user-conversation.
    pub fn find_pda_address_with_bump_seed(
        user_pda_address: &Addr,
        conversation_index: u32,
        program_id: &Addr,
    ) -> (r: Option<(Addr, u8)>)
        ensures
            derives_to(Self::spec_seeds(user_pda_address@, conversation_index), program_id@, r),
    {
        let mut indexed_seed = crate::dec::u32_to_decimal(conversation_index);
        let mut suffix = Self::account_address_seed();
        indexed_seed.append(&mut suffix);
        let mut seeds: Vec<Vec<u8>> = Vec::new();
        seeds.push(addr_to_vec(user_pda_address));
        seeds.push(indexed_seed);
        proof {
            assert(seeds.deep_view() =~~= Self::spec_seeds(user_pda_address@, conversation_index));
        }
        derive_program_address(&seeds, program_id)
    }

    /// Get program-derived account address for the user-conversation.
    pub fn find_pda_address(
        user_pda_address: &Addr,
        conversation_index: u32,
        program_id: &Addr,
    ) -> (r: Option<Addr>)
        ensures
            r matches Some(a) ==> pda_of(Self::spec_seeds(user_pda_address@, conversation_index), program_id@)
                matches Some(q) && q.0 == a@,
            r is None ==> pda_of(Self::spec_seeds(user_pda_address@, conversation_index), program_id@) is None,
    {
        match Self::find_pda_address_with_bump_seed(user_pda_address, conversation_index, program_id) {
            Some(p) => Some(p.0),
            None => None,
        }
    }
}

/// A message account: one per index in a conversation, append-only.
#[derive(Clone, Debug)]
pub struct Message {
    /// The sender of the message.
    pub sender: Addr,
    /// Content type of the message.
    pub message_type: u8,
    /// Message content; its meaning depends on the message type.
    pub content: Vec<u8>,
    /// Timestamp at which the sender sent the message.
    pub timestamp: i64,
}

impl Message {
    /// The namespacing seed, the ASCII bytes of `message`.
    pub open spec fn spec_seed() -> Seq<u8> {
        seq![109u8, 101, 115, 115, 97, 103, 101]
    }

    /// The namespacing seed, the ASCII bytes of `message`.
    pub fn account_address_seed() -> (r: Vec<u8>)
        ensures
            r@ == Self::spec_seed(),
    {
        let r: Vec<u8> = vec![109u8, 101, 115, 115, 97, 103, 101];
        proof {
            assert(r@ =~= Self::spec_seed());
        }
        r
    }

    /// The ordered derivation seeds of a message at one index: the
    /// conversation address, then the decimal index glued to the seed.
    pub open spec fn spec_seeds(conversation: Seq<u8>, message_index: u32) -> Seq<Seq<u8>> {
        seq![conversation, dec_digits(message_index as nat) + Self::spec_seed()]
    }

    /// Create a new blank message account of the given content length.
    pub fn new(content_size: usize) -> (r: Message)
        ensures
            r.sender@ == zero_bytes(32),
            r.message_type == 0,
            r.content@ == zero_bytes(content_size as nat),
            r.timestamp == 0,
    {
        let sender: Addr = [0u8; 32];
        proof {
            assert(sender@ =~= zero_bytes(32));
        }
        Message { sender, message_type: 0, content: zero_vec(content_size), timestamp: 0 }
    }

    /// Get size of message account: the exact serialized byte length of a
    /// message with that content length.
    pub fn retrieve_size(content_size: usize) -> (r: usize)
        requires
            content_size <= usize::MAX - 45,
        ensures
            r == 45 + content_size,
    {
        45 + content_size
    }

    /// Get program-derived account address and bump seed for the conversation message.
    pub fn find_pda_address_with_bump_seed(
        conversation_address: &Addr,
        message_index: u32,
        program_id: &Addr,
    ) -> (r: Option<(Addr, u8)>)
        ensures
            derives_to(Self::spec_seeds(conversation_address@, message_index), program_id@, r),
    {
        let mut indexed_seed = crate::dec::u32_to_decimal(message_index);
        let mut suffix = Self::account_address_seed();
        indexed_seed.append(&mut suffix);
        let mut seeds: Vec<Vec<u8>> = Vec::new();
        seeds.push(addr_to_vec(conversation_address));
        seeds.push(indexed_seed);
        proof {
            assert(seeds.deep_view() =~~= Self::spec_seeds(conversation_address@, message_index));
        }
        derive_program_address(&seeds, program_id)
    }

    /// Get program-derived account address for the conversation message.
    pub fn find_pda_address(
        conversation_address: &Addr,
        message_index: u32,
        program_id: &Addr,
    ) -> (r: Option<Addr>)
        ensures
            r matches Some(a) ==> pda_of(Self::spec_seeds(conversation_address@, message_index), program_id@)
                matches Some(q) && q.0 == a@,
            r is None ==> pda_of(Self::spec_seeds(conversation_address@, message_index), program_id@) is None,
    {
        match Self::find_pda_address_with_bump_seed(conversation_address, message_index, program_id) {
            Some(p) => Some(p.0),
            None => None,
        }
    }
}

/// The mathematical view of a message: plain byte strings and numbers.
pub ghost struct MessageModel {
    /// The sender of the message.
    pub sender: Seq<u8>,
    /// Content type of the message.
    pub message_type: u8,
    /// Message content.
    pub content: Seq<u8>,
    /// Timestamp at which the sender sent the message.
    pub timestamp: i64,
}

impl View for Message {
    type V = MessageModel;

    open spec fn view(&self) -> MessageModel {
        MessageModel {
            sender: self.sender@,
            message_type: self.message_type,
            content: self.content@,
            timestamp: self.timestamp,
        }
    }
}

/// The content types a message may carry.
#[non_exhaustive]
#[derive(Debug)]
pub struct MessageType;

impl MessageType {
    /// Plain text content.
    pub const PLAIN_TEXT: u8 = 0;

    /// RSA-encrypted content.
    pub const RSA_ENCRYPTED: u8 = 1;

    /// A reference to content stored off-ledger.
    pub const ARWEAVE: u8 = 2;
}

/// A conversation-encryption-info account: at most one per conversation,
/// holding an opaque encryption-related blob.
#[derive(Clone, Debug)]
pub struct ConversationEncryptionInfo {
    /// Conversation encryption data; opaque to this program.
    pub data: Vec<u8>,
}

impl View for ConversationEncryptionInfo {
    type V = Seq<u8>;

    open spec fn view(&self) -> Seq<u8> {
        self.data@
    }
}

impl ConversationEncryptionInfo {
    /// The namespacing seed, the ASCII bytes of `conversation-encryption`.
    pub open spec fn spec_seed() -> Seq<u8> {
        seq![
            99u8, 111, 110, 118, 101, 114, 115, 97, 116, 105, 111, 110, 45,
            101, 110, 99, 114, 121, 112, 116, 105, 111, 110,
        ]
    }

    /// The namespacing seed, the ASCII bytes of `conversation-encryption`.
    pub fn account_address_seed() -> (r: Vec<u8>)
        ensures
            r@ == Self::spec_seed(),
    {
        let r: Vec<u8> = vec![
            99u8, 111, 110, 118, 101, 114, 115, 97, 116, 105, 111, 110, 45,
            101, 110, 99, 114, 121, 112, 116, 105, 111, 110,
        ];
        proof {
            assert(r@ =~= Self::spec_seed());
        }
        r
    }

    /// The ordered derivation seeds of a conversation's encryption info.
    pub open spec fn spec_seeds(conversation: Seq<u8>) -> Seq<Seq<u8>> {
        seq![conversation, Self::spec_seed()]
    }

    /// Create a new blank conversation-encryption-info account.
    pub fn new(data_size: usize) -> (r: ConversationEncryptionInfo)
        ensures
            r.data@ == zero_bytes(data_size as nat),
    {
        ConversationEncryptionInfo { data: zero_vec(data_size) }
    }

    /// Get size of conversation-encryption-info account: the exact serialized
    /// byte length of a record with that data length.
    pub fn retrieve_size(data_size: usize) -> (r: usize)
        requires
            data_size <= usize::MAX - 4,
        ensures
            r == 4 + data_size,
    {
        4 + data_size
    }

    /// Get program-derived account address and bump seed for the conversation-encryption-info.
    pub fn find_pda_address_with_bump_seed(
        conversation_address: &Addr,
        program_id: &Addr,
    ) -> (r: Option<(Addr, u8)>)
        ensures
            derives_to(Self::spec_seeds(conversation_address@), program_id@, r),
    {
        let mut seeds: Vec<Vec<u8>> = Vec::new();
        seeds.push(addr_to_vec(conversation_address));
        seeds.push(Self::account_address_seed());
        proof {
            assert(seeds.deep_view() =~~= Self::spec_seeds(conversation_address@));
        }
        derive_program_address(&seeds, program_id)
    }

    /// Get program-derived account address for the conversation-encryption-info.
    pub fn find_pda_address(conversation_address: &Addr, program_id: &Addr) -> (r: Option<Addr>)
        ensures
            r matches Some(a) ==> pda_of(Self::spec_seeds(conversation_address@), program_id@)
                matches Some(q) && q.0 == a@,
            r is None ==> pda_of(Self::spec_seeds(conversation_address@), program_id@) is None,
    {
        match Self::find_pda_address_with_bump_seed(conversation_address, program_id) {
            Some(p) => Some(p.0),
            None => None,
        }
    }
}

/// One wallet always derives its user account from one seed list, and
/// distinct wallets derive from distinct seed lists — so two wallets could
/// share a user address only if the derivation itself collided on different
/// inputs.
pub proof fn lemma_user_seeds_injective(first_wallet: Seq<u8>, second_wallet: Seq<u8>)
    ensures
        (User::spec_seeds(first_wallet) == User::spec_seeds(second_wallet)) <==> first_wallet == second_wallet,
{
    if User::spec_seeds(first_wallet) == User::spec_seeds(second_wallet) {
        assert(User::spec_seeds(first_wallet)[0] == User::spec_seeds(second_wallet)[0]);
    }
}

/// A conversation's derivation seeds do not depend on the order in which the
/// two participants are supplied, so the same conversation is reachable from
/// either side.
pub proof fn lemma_conversation_seeds_symmetric(first: Seq<u8>, second: Seq<u8>)
    requires
        first.len() == second.len(),
    ensures
        Conversation::spec_seeds(first, second) == Conversation::spec_seeds(second, first),
{
    crate::addr::lemma_sorted_pair_symmetric(first, second);
}

/// The same conversation address is derived whichever way round the two
/// participants are supplied.
pub proof fn lemma_conversation_derivation_symmetric(first: Seq<u8>, second: Seq<u8>, program_id: Seq<u8>)
    requires
        first.len() == second.len(),
    ensures
        pda_of(Conversation::spec_seeds(first, second), program_id)
            == pda_of(Conversation::spec_seeds(second, first), program_id),
{
    lemma_conversation_seeds_symmetric(first, second);
}

/// One user and index always derive one link-slot seed list, and distinct
/// pairs derive distinct lists.
pub proof fn lemma_user_conversation_seeds_injective(
    first_user: Seq<u8>,
    first_index: u32,
    second_user: Seq<u8>,
    second_index: u32,
)
    ensures
        (UserConversation::spec_seeds(first_user, first_index)
            == UserConversation::spec_seeds(second_user, second_index))
            <==> (first_user == second_user && first_index == second_index),
{
    let a = UserConversation::spec_seeds(first_user, first_index);
    let b = UserConversation::spec_seeds(second_user, second_index);
    if a == b {
        assert(a[0] == b[0]);
        assert(a[1] == b[1]);
        lemma_indexed_seed_injective(first_index, second_index, UserConversation::spec_seed());
    }
}

/// One conversation and index always derive one message seed list, and
/// distinct pairs derive distinct lists — message slots never collide at the
/// seed level.
pub proof fn lemma_message_seeds_injective(
    first_conversation: Seq<u8>,
    first_index: u32,
    second_conversation: Seq<u8>,
    second_index: u32,
)
    ensures
        (Message::spec_seeds(first_conversation, first_index)
            == Message::spec_seeds(second_conversation, second_index))
            <==> (first_conversation == second_conversation && first_index == second_index),
{
    let a = Message::spec_seeds(first_conversation, first_index);
    let b = Message::spec_seeds(second_conversation, second_index);
    if a == b {
        assert(a[0] == b[0]);
        assert(a[1] == b[1]);
        lemma_indexed_seed_injective(first_index, second_index, Message::spec_seed());
    }
}

/// Two decimal-prefixed seed strings with one suffix are equal only for
/// equal indices.
proof fn lemma_indexed_seed_injective(first_index: u32, second_index: u32, suffix: Seq<u8>)
    requires
        dec_digits(first_index as nat) + suffix == dec_digits(second_index as nat) + suffix,
    ensures
        first_index == second_index,
{
    let da = dec_digits(first_index as nat);
    let db = dec_digits(second_index as nat);
    assert((da + suffix).len() == da.len() + suffix.len());
    assert((db + suffix).len() == db.len() + suffix.len());
    assert(da.len() == db.len());
    assert(da =~= db) by {
        assert forall|k: int| 0 <= k < da.len() implies da[k] == db[k] by {
            assert(da[k] == (da + suffix)[k]);
            assert(db[k] == (db + suffix)[k]);
        }
    }
    crate::dec::lemma_dec_digits_injective(first_index as nat, second_index as nat);
}

/// The namespacing seed strings keep the five entity kinds on disjoint seed
/// lists: whatever the keys and indices, no two kinds ever derive from the
/// same list, so one address can never stand for two kinds of record unless
/// the derivation itself collides.
pub proof fn lemma_entity_namespaces_disjoint(
    wallet: Seq<u8>,
    first: Seq<u8>,
    second: Seq<u8>,
    user: Seq<u8>,
    link_index: u32,
    conversation: Seq<u8>,
    message_index: u32,
    encrypted_conversation: Seq<u8>,
)
    ensures
        User::spec_seeds(wallet) != Conversation::spec_seeds(first, second),
        User::spec_seeds(wallet) != UserConversation::spec_seeds(user, link_index),
        User::spec_seeds(wallet) != Message::spec_seeds(conversation, message_index),
        User::spec_seeds(wallet) != ConversationEncryptionInfo::spec_seeds(encrypted_conversation),
        Conversation::spec_seeds(first, second) != UserConversation::spec_seeds(user, link_index),
        Conversation::spec_seeds(first, second) != Message::spec_seeds(conversation, message_index),
        Conversation::spec_seeds(first, second) != ConversationEncryptionInfo::spec_seeds(encrypted_conversation),
        UserConversation::spec_seeds(user, link_index) != Message::spec_seeds(conversation, message_index),
        UserConversation::spec_seeds(user, link_index) != ConversationEncryptionInfo::spec_seeds(encrypted_conversation),
        Message::spec_seeds(conversation, message_index) != ConversationEncryptionInfo::spec_seeds(encrypted_conversation),
{
    crate::dec::lemma_dec_digits_shape(link_index as nat);
    crate::dec::lemma_dec_digits_shape(message_index as nat);
    let link_seed = dec_digits(link_index as nat) + UserConversation::spec_seed();
    let message_seed = dec_digits(message_index as nat) + Message::spec_seed();
    // A conversation's list has three seeds; every other kind's has two.
    assert(Conversation::spec_seeds(first, second).len() == 3);
    // The second seed separates the two-element kinds: its length, its first
    // byte (a digit never opens the fixed strings), and its last byte.
    assert(User::spec_seeds(wallet)[1].len() == 4);
    assert(link_seed.len() >= 18);
    assert(message_seed.len() >= 8);
    assert(ConversationEncryptionInfo::spec_seeds(encrypted_conversation)[1].len() == 23);
    assert(link_seed.last() == 110u8);
    assert(message_seed.last() == 101u8);
    assert(48 <= link_seed[0] <= 57) by {
        assert(link_seed[0] == dec_digits(link_index as nat)[0]);
    }
    assert(ConversationEncryptionInfo::spec_seed()[0] == 99u8);
    if User::spec_seeds(wallet) == UserConversation::spec_seeds(user, link_index) {
        assert(User::spec_seeds(wallet)[1].len() == link_seed.len());
    }
    if User::spec_seeds(wallet) == Message::spec_seeds(conversation, message_index) {
        assert(User::spec_seeds(wallet)[1] =~= message_seed);
        assert(User::spec_seeds(wallet)[1].len() == message_seed.len());
        assert(message_seed.len() == dec_digits(message_index as nat).len() + 7);
    }
    if User::spec_seeds(wallet) == ConversationEncryptionInfo::spec_seeds(encrypted_conversation) {
        assert(User::spec_seeds(wallet)[1].len()
            == ConversationEncryptionInfo::spec_seeds(encrypted_conversation)[1].len());
    }
    if UserConversation::spec_seeds(user, link_index) == Message::spec_seeds(conversation, message_index) {
        assert(link_seed =~= message_seed);
        assert(link_seed.last() == message_seed.last());
    }
    if UserConversation::spec_seeds(user, link_index)
        == ConversationEncryptionInfo::spec_seeds(encrypted_conversation) {
        assert(link_seed =~= ConversationEncryptionInfo::spec_seed());
        assert(link_seed[0] == ConversationEncryptionInfo::spec_seed()[0]);
    }
    if Message::spec_seeds(conversation, message_index)
        == ConversationEncryptionInfo::spec_seeds(encrypted_conversation) {
        assert(message_seed =~= ConversationEncryptionInfo::spec_seed());
        assert(message_seed.last() == ConversationEncryptionInfo::spec_seed().last());
        assert(ConversationEncryptionInfo::spec_seed().last() == 110u8);
    }
}

} // verus!
