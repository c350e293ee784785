//! The wire contract: the tagged instruction payload and, for clients, the
//! builders that place every account in exactly the order the processor
//! expects, each flagged as signer and writable as documented.

use vstd::prelude::*;
use vstd::bytes::{
    lemma_auto_spec_u32_to_from_le_bytes, spec_u32_from_le_bytes, spec_u32_to_le_bytes,
    u32_from_le_bytes, u32_to_le_bytes,
};
use crate::addr::{Addr, addr_to_vec};
use crate::codec::{append_bytes, copy_range};
use crate::error::InstantMessagingError;
use crate::pda::{
    clock_sysvar_id, id, pda_of, rent_sysvar_id, spec_clock_sysvar_id, spec_id,
    spec_rent_sysvar_id, spec_system_program_id, system_program_id,
};
use crate::state::{Conversation, ConversationEncryptionInfo, Message, User, UserConversation};

verus! {

/// A request to the program: one of six operations, consumed as an opaque
/// byte payload by the program entry point.
#[derive(Debug)]
pub enum InstantMessagingInstruction {
    /// Create a new user account.
    ///
    /// Accounts expected:
    ///
    /// 0. `[signer]` Funder account (must be a system account)
    /// 1. `[]` Derived address of the user
    /// 2. `[]` Wallet address of the user (must be a system account)
    /// 3. `[]` Rent sysvar
    /// 4. `[]` System program
    CreateUserAccount,
    /// Create a new conversation account.
    ///
    /// Accounts expected:
    ///
    /// 0. `[signer]` Funder account (must be a system account)
    /// 1. `[]` Derived address of the conversation
    /// 2. `[writable]` Derived address of the user - sender
    /// 3. `[writable]` Derived address of the user - receiver
    /// 4. `[writable]` Derived address of the user-conversation - sender
    /// 5. `[writable]` Derived address of the user-conversation - receiver
    /// 6. `[]` Rent sysvar
    /// 7. `[]` System program
    CreateConversationAccount,
    /// Create a new user-conversation account.
    ///
    /// Accounts expected:
    ///
    /// 0. `[signer]` Funder account (must be a system account)
    /// 1. `[]` Derived address of the user-conversation
    /// 2. `[]` Derived address of the user
    /// 3. `[]` Rent sysvar
    /// 4. `[]` System program
    CreateUserConversationAccount {
        /// The index of the slot in the owning user's private sequence.
        conversation_index: u32,
    },
    /// Create a new message account.
    ///
    /// Accounts expected:
    ///
    /// 0. `[signer]` Funder account (must be a system account)
    /// 1. `[signer]` Sender account (must be a system account)
    /// 2. `[]` Derived address of the user - sender
    /// 3. `[]` Derived address of the user-conversation - sender
    /// 4. `[writable]` Derived address of the conversation
    /// 5. `[writable]` Derived address of the message
    /// 6. `[]` Rent sysvar
    /// 7. `[]` Clock sysvar
    /// 8. `[]` System program
    CreateMessageAccount {
        /// The index of the sender's link slot for the conversation.
        conversation_index: u32,
        /// Content type of the message.
        message_type: u8,
        /// Message content.
        content: Vec<u8>,
    },
    /// Create a new conversation-encryption-info account.
    ///
    /// Accounts expected:
    ///
    /// 0. `[signer]` Funder account (must be a system account)
    /// 1. `[signer]` Sender account (must be a system account)
    /// 2. `[writable]` Derived address of the conversation-encryption-info
    /// 3. `[]` Derived address of the user - sender
    /// 4. `[]` Derived address of the user - receiver
    /// 5. `[]` Derived address of the conversation
    /// 6. `[]` Rent sysvar
    /// 7. `[]` Clock sysvar
    /// 8. `[]` System program
    CreateConversationEncryptionInfoAccount {
        /// The encryption-related blob, stored verbatim.
        data: Vec<u8>,
    },
    /// Send a message into the conversation derivable from the two users.
    ///
    /// Accounts expected:
    ///
    /// 0. `[signer]` Funder account (must be a system account)
    /// 1. `[signer]` Sender account (must be a system account)
    /// 2. `[writable]` Derived address of the user - sender
    /// 3. `[writable]` Derived address of the user - receiver
    /// 4. `[writable]` Derived address of the conversation
    /// 5. `[writable]` Derived address of the message
    /// 6. `[]` Rent sysvar
    /// 7. `[]` Clock sysvar
    /// 8. `[]` System program
    SendMessage {
        /// Content type of the message.
        message_type: u8,
        /// Message content.
        content: Vec<u8>,
    },
}

/// The mathematical view of an instruction payload.
pub ghost enum InstantMessagingInstructionModel {
    /// Create a new user account.
    CreateUserAccount,
    /// Create a new conversation account.
    CreateConversationAccount,
    /// Create a new user-conversation account.
    CreateUserConversationAccount {
        /// The index of the slot in the owning user's private sequence.
        conversation_index: u32,
    },
    /// Create a new message account.
    CreateMessageAccount {
        /// The index of the sender's link slot for the conversation.
        conversation_index: u32,
        /// Content type of the message.
        message_type: u8,
        /// Message content.
        content: Seq<u8>,
    },
    /// Create a new conversation-encryption-info account.
    CreateConversationEncryptionInfoAccount {
        /// The encryption-related blob, stored verbatim.
        data: Seq<u8>,
    },
    /// Send a message into the conversation derivable from the two users.
    SendMessage {
        /// Content type of the message.
        message_type: u8,
        /// Message content.
        content: Seq<u8>,
    },
}

impl View for InstantMessagingInstruction {
    type V = InstantMessagingInstructionModel;

    open spec fn view(&self) -> InstantMessagingInstructionModel {
        match self {
            InstantMessagingInstruction::CreateUserAccount =>
                InstantMessagingInstructionModel::CreateUserAccount,
            InstantMessagingInstruction::CreateConversationAccount =>
                InstantMessagingInstructionModel::CreateConversationAccount,
            InstantMessagingInstruction::CreateUserConversationAccount { conversation_index } =>
                InstantMessagingInstructionModel::CreateUserConversationAccount {
                    conversation_index: *conversation_index,
                },
            InstantMessagingInstruction::CreateMessageAccount { conversation_index, message_type, content } =>
                InstantMessagingInstructionModel::CreateMessageAccount {
                    conversation_index: *conversation_index,
                    message_type: *message_type,
                    content: content@,
                },
            InstantMessagingInstruction::CreateConversationEncryptionInfoAccount { data } =>
                InstantMessagingInstructionModel::CreateConversationEncryptionInfoAccount { data: data@ },
            InstantMessagingInstruction::SendMessage { message_type, content } =>
                InstantMessagingInstructionModel::SendMessage {
                    message_type: *message_type,
                    content: content@,
                },
        }
    }
}

/// Whether a payload's variable byte strings fit their length prefixes.
pub open spec fn spec_instruction_wf(i: InstantMessagingInstructionModel) -> bool {
    match i {
        InstantMessagingInstructionModel::CreateMessageAccount { content, .. } => content.len() <= u32::MAX,
        InstantMessagingInstructionModel::CreateConversationEncryptionInfoAccount { data } => data.len() <= u32::MAX,
        InstantMessagingInstructionModel::SendMessage { content, .. } => content.len() <= u32::MAX,
        _ => true,
    }
}

/// The serialized bytes of an instruction payload: a one-byte variant tag in
/// declaration order, then the variant's fields.
pub open spec fn spec_instruction_bytes(i: InstantMessagingInstructionModel) -> Seq<u8> {
    match i {
        InstantMessagingInstructionModel::CreateUserAccount => seq![0u8],
        InstantMessagingInstructionModel::CreateConversationAccount => seq![1u8],
        InstantMessagingInstructionModel::CreateUserConversationAccount { conversation_index } =>
            seq![2u8] + spec_u32_to_le_bytes(conversation_index),
        InstantMessagingInstructionModel::CreateMessageAccount { conversation_index, message_type, content } =>
            seq![3u8] + spec_u32_to_le_bytes(conversation_index) + seq![message_type]
                + spec_u32_to_le_bytes(content.len() as u32) + content,
        InstantMessagingInstructionModel::CreateConversationEncryptionInfoAccount { data } =>
            seq![4u8] + spec_u32_to_le_bytes(data.len() as u32) + data,
        InstantMessagingInstructionModel::SendMessage { message_type, content } =>
            seq![5u8] + seq![message_type] + spec_u32_to_le_bytes(content.len() as u32) + content,
    }
}

/// The instruction payload stored in a byte string, or nothing when the
/// shape is wrong.
pub open spec fn spec_instruction_decode(d: Seq<u8>) -> Option<InstantMessagingInstructionModel> {
    if d.len() < 1 {
        None
    } else if d[0] == 0 {
        if d.len() == 1 {
            Some(InstantMessagingInstructionModel::CreateUserAccount)
        } else {
            None
        }
    } else if d[0] == 1 {
        if d.len() == 1 {
            Some(InstantMessagingInstructionModel::CreateConversationAccount)
        } else {
            None
        }
    } else if d[0] == 2 {
        if d.len() == 5 {
            Some(InstantMessagingInstructionModel::CreateUserConversationAccount {
                conversation_index: spec_u32_from_le_bytes(d.subrange(1, 5)),
            })
        } else {
            None
        }
    } else if d[0] == 3 {
        if d.len() < 10 {
            None
        } else {
            let content_len = spec_u32_from_le_bytes(d.subrange(6, 10)) as int;
            if d.len() == 10 + content_len {
                Some(InstantMessagingInstructionModel::CreateMessageAccount {
                    conversation_index: spec_u32_from_le_bytes(d.subrange(1, 5)),
                    message_type: d[5],
                    content: d.subrange(10, 10 + content_len),
                })
            } else {
                None
            }
        }
    } else if d[0] == 4 {
        if d.len() < 5 {
            None
        } else {
            let data_len = spec_u32_from_le_bytes(d.subrange(1, 5)) as int;
            if d.len() == 5 + data_len {
                Some(InstantMessagingInstructionModel::CreateConversationEncryptionInfoAccount {
                    data: d.subrange(5, 5 + data_len),
                })
            } else {
                None
            }
        }
    } else if d[0] == 5 {
        if d.len() < 6 {
            None
        } else {
            let content_len = spec_u32_from_le_bytes(d.subrange(2, 6)) as int;
            if d.len() == 6 + content_len {
                Some(InstantMessagingInstructionModel::SendMessage {
                    message_type: d[1],
                    content: d.subrange(6, 6 + content_len),
                })
            } else {
                None
            }
        }
    } else {
        None
    }
}

/// Encoding an instruction payload and reading it back is lossless.
pub proof fn lemma_instruction_roundtrip(i: InstantMessagingInstructionModel)
    requires
        spec_instruction_wf(i),
    ensures
        spec_instruction_decode(spec_instruction_bytes(i)) == Some(i),
{
    lemma_auto_spec_u32_to_from_le_bytes();
    let e = spec_instruction_bytes(i);
    match i {
        InstantMessagingInstructionModel::CreateUserAccount => {},
        InstantMessagingInstructionModel::CreateConversationAccount => {},
        InstantMessagingInstructionModel::CreateUserConversationAccount { conversation_index } => {
            assert(e.subrange(1, 5) =~= spec_u32_to_le_bytes(conversation_index));
        },
        InstantMessagingInstructionModel::CreateMessageAccount { conversation_index, message_type, content } => {
            let content_len = content.len() as int;
            assert(e.subrange(1, 5) =~= spec_u32_to_le_bytes(conversation_index));
            assert(e[5] == message_type);
            assert(e.subrange(6, 10) =~= spec_u32_to_le_bytes(content.len() as u32));
            assert(e.subrange(10, 10 + content_len) =~= content);
        },
        InstantMessagingInstructionModel::CreateConversationEncryptionInfoAccount { data } => {
            let data_len = data.len() as int;
            assert(e.subrange(1, 5) =~= spec_u32_to_le_bytes(data.len() as u32));
            assert(e.subrange(5, 5 + data_len) =~= data);
        },
        InstantMessagingInstructionModel::SendMessage { message_type, content } => {
            let content_len = content.len() as int;
            assert(e[1] == message_type);
            assert(e.subrange(2, 6) =~= spec_u32_to_le_bytes(content.len() as u32));
            assert(e.subrange(6, 6 + content_len) =~= content);
        },
    }
}

/// Encode an instruction payload.
pub fn encode_instruction(i: &InstantMessagingInstruction) -> (r: Vec<u8>)
    requires
        spec_instruction_wf(i@),
    ensures
        r@ == spec_instruction_bytes(i@),
{
    match i {
        InstantMessagingInstruction::CreateUserAccount => {
            let r: Vec<u8> = vec![0u8];
            proof {
                assert(r@ =~= spec_instruction_bytes(i@));
            }
            r
        },
        InstantMessagingInstruction::CreateConversationAccount => {
            let r: Vec<u8> = vec![1u8];
            proof {
                assert(r@ =~= spec_instruction_bytes(i@));
            }
            r
        },
        InstantMessagingInstruction::CreateUserConversationAccount { conversation_index } => {
            let mut r: Vec<u8> = vec![2u8];
            let mut index_bytes = u32_to_le_bytes(*conversation_index);
            r.append(&mut index_bytes);
            proof {
                assert(r@ =~= spec_instruction_bytes(i@));
            }
            r
        },
        InstantMessagingInstruction::CreateMessageAccount { conversation_index, message_type, content } => {
            let mut r: Vec<u8> = vec![3u8];
            let mut index_bytes = u32_to_le_bytes(*conversation_index);
            r.append(&mut index_bytes);
            r.push(*message_type);
            let mut len_bytes = u32_to_le_bytes(content.len() as u32);
            r.append(&mut len_bytes);
            append_bytes(&mut r, content);
            proof {
                assert(r@ =~= spec_instruction_bytes(i@));
            }
            r
        },
        InstantMessagingInstruction::CreateConversationEncryptionInfoAccount { data } => {
            let mut r: Vec<u8> = vec![4u8];
            let mut len_bytes = u32_to_le_bytes(data.len() as u32);
            r.append(&mut len_bytes);
            append_bytes(&mut r, data);
            proof {
                assert(r@ =~= spec_instruction_bytes(i@));
            }
            r
        },
        InstantMessagingInstruction::SendMessage { message_type, content } => {
            let mut r: Vec<u8> = vec![5u8];
            r.push(*message_type);
            let mut len_bytes = u32_to_le_bytes(content.len() as u32);
            r.append(&mut len_bytes);
            append_bytes(&mut r, content);
            proof {
                assert(r@ =~= spec_instruction_bytes(i@));
            }
            r
        },
    }
}

/// Decode an instruction payload; a byte string of the wrong shape is
/// rejected.
pub fn decode_instruction(d: &Vec<u8>) -> (r: Result<InstantMessagingInstruction, InstantMessagingError>)
    ensures
        r matches Ok(i) ==> spec_instruction_decode(d@) == Some(i@),
        r matches Err(e) ==> spec_instruction_decode(d@) is None && e == InstantMessagingError::DecodeFailure,
{
    if d.len() < 1 {
        return Err(InstantMessagingError::DecodeFailure);
    }
    let tag = d[0];
    if tag == 0 {
        if d.len() == 1 {
            Ok(InstantMessagingInstruction::CreateUserAccount)
        } else {
            Err(InstantMessagingError::DecodeFailure)
        }
    } else if tag == 1 {
        if d.len() == 1 {
            Ok(InstantMessagingInstruction::CreateConversationAccount)
        } else {
            Err(InstantMessagingError::DecodeFailure)
        }
    } else if tag == 2 {
        if d.len() == 5 {
            let index_bytes = copy_range(d, 1, 5);
            Ok(InstantMessagingInstruction::CreateUserConversationAccount {
                conversation_index: u32_from_le_bytes(index_bytes.as_slice()),
            })
        } else {
            Err(InstantMessagingError::DecodeFailure)
        }
    } else if tag == 3 {
        if d.len() < 10 {
            return Err(InstantMessagingError::DecodeFailure);
        }
        let len_bytes = copy_range(d, 6, 10);
        let content_len = u32_from_le_bytes(len_bytes.as_slice());
        if d.len() - 10 != content_len as usize {
            return Err(InstantMessagingError::DecodeFailure);
        }
        let index_bytes = copy_range(d, 1, 5);
        let i = InstantMessagingInstruction::CreateMessageAccount {
            conversation_index: u32_from_le_bytes(index_bytes.as_slice()),
            message_type: d[5],
            content: copy_range(d, 10, d.len()),
        };
        proof {
            assert(spec_instruction_decode(d@) == Some(i@));
        }
        Ok(i)
    } else if tag == 4 {
        if d.len() < 5 {
            return Err(InstantMessagingError::DecodeFailure);
        }
        let len_bytes = copy_range(d, 1, 5);
        let data_len = u32_from_le_bytes(len_bytes.as_slice());
        if d.len() - 5 != data_len as usize {
            return Err(InstantMessagingError::DecodeFailure);
        }
        let i = InstantMessagingInstruction::CreateConversationEncryptionInfoAccount {
            data: copy_range(d, 5, d.len()),
        };
        proof {
            assert(spec_instruction_decode(d@) == Some(i@));
        }
        Ok(i)
    } else if tag == 5 {
        if d.len() < 6 {
            return Err(InstantMessagingError::DecodeFailure);
        }
        let len_bytes = copy_range(d, 2, 6);
        let content_len = u32_from_le_bytes(len_bytes.as_slice());
        if d.len() - 6 != content_len as usize {
            return Err(InstantMessagingError::DecodeFailure);
        }
        let i = InstantMessagingInstruction::SendMessage {
            message_type: d[1],
            content: copy_range(d, 6, d.len()),
        };
        proof {
            assert(spec_instruction_decode(d@) == Some(i@));
        }
        Ok(i)
    } else {
        Err(InstantMessagingError::DecodeFailure)
    }
}

/// One account reference of a built instruction, with its access flags.
#[derive(Clone, Debug)]
pub struct AccountMeta {
    /// The account's address.
    pub address: Addr,
    /// Whether the account must sign the invocation.
    pub is_signer: bool,
    /// Whether the invocation may write the account.
    pub is_writable: bool,
}

/// The mathematical view of an account reference.
pub ghost struct AccountMetaModel {
    /// The account's address.
    pub address: Seq<u8>,
    /// Whether the account must sign the invocation.
    pub is_signer: bool,
    /// Whether the invocation may write the account.
    pub is_writable: bool,
}

impl View for AccountMeta {
    type V = AccountMetaModel;

    open spec fn view(&self) -> AccountMetaModel {
        AccountMetaModel { address: self.address@, is_signer: self.is_signer, is_writable: self.is_writable }
    }
}

/// An account reference.
pub open spec fn spec_meta(address: Seq<u8>, is_signer: bool, is_writable: bool) -> AccountMetaModel {
    AccountMetaModel { address, is_signer, is_writable }
}

/// A fully built request: the program to invoke, the ordered account
/// references, and the encoded payload.
#[derive(Clone, Debug)]
pub struct Instruction {
    /// The program to invoke.
    pub program_id: Addr,
    /// The ordered account references.
    pub accounts: Vec<AccountMeta>,
    /// The encoded payload.
    pub data: Vec<u8>,
}

/// The mathematical view of a built request.
pub ghost struct InstructionModel {
    /// The program to invoke.
    pub program_id: Seq<u8>,
    /// The ordered account references.
    pub accounts: Seq<AccountMetaModel>,
    /// The encoded payload.
    pub data: Seq<u8>,
}

impl View for Instruction {
    type V = InstructionModel;

    open spec fn view(&self) -> InstructionModel {
        InstructionModel {
            program_id: self.program_id@,
            accounts: self.accounts@.map_values(|m: AccountMeta| m@),
            data: self.data@,
        }
    }
}

/// The mathematical view of a builder's result.
pub open spec fn built_of(r: Option<Instruction>) -> Option<InstructionModel> {
    match r {
        Some(ins) => Some(ins@),
        None => None,
    }
}

/// The instruction that creates a user account for a wallet, or nothing in
/// the improbable event that a derivation finds no bump seed.
pub open spec fn spec_create_user_account_instruction(
    funder_address: Seq<u8>,
    wallet_address: Seq<u8>,
) -> Option<InstructionModel> {
    match pda_of(User::spec_seeds(wallet_address), spec_id()) {
        None => None,
        Some(user_derived) => Some(InstructionModel {
            program_id: spec_id(),
            accounts: seq![
                spec_meta(funder_address, true, true),
                spec_meta(user_derived.0, false, true),
                spec_meta(wallet_address, false, true),
                spec_meta(spec_rent_sysvar_id(), false, false),
                spec_meta(spec_system_program_id(), false, false),
            ],
            data: spec_instruction_bytes(InstantMessagingInstructionModel::CreateUserAccount),
        }),
    }
}

/// Creates a CreateUserAccount instruction.
pub fn create_user_account(funder_address: &Addr, wallet_address: &Addr) -> (r: Option<Instruction>)
    ensures
        built_of(r) == spec_create_user_account_instruction(funder_address@, wallet_address@),
{
    let program = id();
    let user_pda_address = match User::find_pda_address(wallet_address, &program) {
        Some(a) => a,
        None => {
            return None;
        },
    };
    let mut accounts: Vec<AccountMeta> = Vec::new();
    accounts.push(AccountMeta { address: *funder_address, is_signer: true, is_writable: true });
    accounts.push(AccountMeta { address: user_pda_address, is_signer: false, is_writable: true });
    accounts.push(AccountMeta { address: *wallet_address, is_signer: false, is_writable: true });
    accounts.push(AccountMeta { address: rent_sysvar_id(), is_signer: false, is_writable: false });
    accounts.push(AccountMeta { address: system_program_id(), is_signer: false, is_writable: false });
    let data = encode_instruction(&InstantMessagingInstruction::CreateUserAccount);
    let ins = Instruction { program_id: program, accounts, data };
    proof {
        let expected = spec_create_user_account_instruction(funder_address@, wallet_address@);
        assert(ins@.accounts =~~= expected->Some_0.accounts);
    }
    Some(ins)
}

/// The instruction that creates a conversation account for a pair of user
/// accounts, with the two link slots at the given indices, or nothing in the
/// improbable event that a derivation finds no bump seed.
pub open spec fn spec_create_conversation_account_instruction(
    funder_address: Seq<u8>,
    sender_pda_address: Seq<u8>,
    receiver_pda_address: Seq<u8>,
    sender_user_conversation_index: u32,
    receiver_user_conversation_index: u32,
) -> Option<InstructionModel> {
    let conversation = pda_of(Conversation::spec_seeds(sender_pda_address, receiver_pda_address), spec_id());
    let sender_uc = pda_of(
        UserConversation::spec_seeds(sender_pda_address, sender_user_conversation_index),
        spec_id(),
    );
    let receiver_uc = pda_of(
        UserConversation::spec_seeds(receiver_pda_address, receiver_user_conversation_index),
        spec_id(),
    );
    if conversation is None || sender_uc is None || receiver_uc is None {
        None
    } else {
        Some(InstructionModel {
            program_id: spec_id(),
            accounts: seq![
                spec_meta(funder_address, true, true),
                spec_meta(conversation->Some_0.0, false, true),
                spec_meta(sender_pda_address, false, true),
                spec_meta(receiver_pda_address, false, true),
                spec_meta(sender_uc->Some_0.0, false, true),
                spec_meta(receiver_uc->Some_0.0, false, true),
                spec_meta(spec_rent_sysvar_id(), false, false),
                spec_meta(spec_system_program_id(), false, false),
            ],
            data: spec_instruction_bytes(InstantMessagingInstructionModel::CreateConversationAccount),
        })
    }
}

/// Creates a CreateConversationAccount instruction.
pub fn create_conversation_account(
    funder_address: &Addr,
    sender_pda_address: &Addr,
    receiver_pda_address: &Addr,
    sender_user_conversation_index: u32,
    receiver_user_conversation_index: u32,
) -> (r: Option<Instruction>)
    ensures
        built_of(r) == spec_create_conversation_account_instruction(
            funder_address@,
            sender_pda_address@,
            receiver_pda_address@,
            sender_user_conversation_index,
            receiver_user_conversation_index,
        ),
{
    let program = id();
    let conversation_pda_address = match Conversation::find_pda_address(sender_pda_address, receiver_pda_address, &program) {
        Some(a) => a,
        None => {
            return None;
        },
    };
    let sender_user_conversation_pda_address = match UserConversation::find_pda_address(
        sender_pda_address,
        sender_user_conversation_index,
        &program,
    ) {
        Some(a) => a,
        None => {
            return None;
        },
    };
    let receiver_user_conversation_pda_address = match UserConversation::find_pda_address(
        receiver_pda_address,
        receiver_user_conversation_index,
        &program,
    ) {
        Some(a) => a,
        None => {
            return None;
        },
    };
    let mut accounts: Vec<AccountMeta> = Vec::new();
    accounts.push(AccountMeta { address: *funder_address, is_signer: true, is_writable: true });
    accounts.push(AccountMeta { address: conversation_pda_address, is_signer: false, is_writable: true });
    accounts.push(AccountMeta { address: *sender_pda_address, is_signer: false, is_writable: true });
    accounts.push(AccountMeta { address: *receiver_pda_address, is_signer: false, is_writable: true });
    accounts.push(AccountMeta { address: sender_user_conversation_pda_address, is_signer: false, is_writable: true });
    accounts.push(AccountMeta { address: receiver_user_conversation_pda_address, is_signer: false, is_writable: true });
    accounts.push(AccountMeta { address: rent_sysvar_id(), is_signer: false, is_writable: false });
    accounts.push(AccountMeta { address: system_program_id(), is_signer: false, is_writable: false });
    let data = encode_instruction(&InstantMessagingInstruction::CreateConversationAccount);
    let ins = Instruction { program_id: program, accounts, data };
    proof {
        let expected = spec_create_conversation_account_instruction(
            funder_address@,
            sender_pda_address@,
            receiver_pda_address@,
            sender_user_conversation_index,
            receiver_user_conversation_index,
        );
        assert(ins@.accounts =~~= expected->Some_0.accounts);
    }
    Some(ins)
}

/// The instruction that creates a user-conversation slot at one index, or
/// nothing in the improbable event that the derivation finds no bump seed.
pub open spec fn spec_create_user_conversation_account_instruction(
    funder_address: Seq<u8>,
    user_pda_address: Seq<u8>,
    conversation_index: u32,
) -> Option<InstructionModel> {
    match pda_of(UserConversation::spec_seeds(user_pda_address, conversation_index), spec_id()) {
        None => None,
        Some(uc_derived) => Some(InstructionModel {
            program_id: spec_id(),
            accounts: seq![
                spec_meta(funder_address, true, true),
                spec_meta(uc_derived.0, false, true),
                spec_meta(user_pda_address, false, true),
                spec_meta(spec_rent_sysvar_id(), false, false),
                spec_meta(spec_system_program_id(), false, false),
            ],
            data: spec_instruction_bytes(InstantMessagingInstructionModel::CreateUserConversationAccount {
                conversation_index,
            }),
        }),
    }
}

/// Creates a CreateUserConversationAccount instruction.
pub fn create_user_conversation_account(
    funder_address: &Addr,
    user_pda_address: &Addr,
    conversation_index: u32,
) -> (r: Option<Instruction>)
    ensures
        built_of(r) == spec_create_user_conversation_account_instruction(
            funder_address@,
            user_pda_address@,
            conversation_index,
        ),
{
    let program = id();
    let user_conversation_pda_address = match UserConversation::find_pda_address(
        user_pda_address,
        conversation_index,
        &program,
    ) {
        Some(a) => a,
        None => {
            return None;
        },
    };
    let mut accounts: Vec<AccountMeta> = Vec::new();
    accounts.push(AccountMeta { address: *funder_address, is_signer: true, is_writable: true });
    accounts.push(AccountMeta { address: user_conversation_pda_address, is_signer: false, is_writable: true });
    accounts.push(AccountMeta { address: *user_pda_address, is_signer: false, is_writable: true });
    accounts.push(AccountMeta { address: rent_sysvar_id(), is_signer: false, is_writable: false });
    accounts.push(AccountMeta { address: system_program_id(), is_signer: false, is_writable: false });
    let data = encode_instruction(&InstantMessagingInstruction::CreateUserConversationAccount { conversation_index });
    let ins = Instruction { program_id: program, accounts, data };
    proof {
        let expected = spec_create_user_conversation_account_instruction(
            funder_address@,
            user_pda_address@,
            conversation_index,
        );
        assert(ins@.accounts =~~= expected->Some_0.accounts);
    }
    Some(ins)
}

/// The instruction that creates a message account in a conversation the
/// sender is recorded in, or nothing in the improbable event that a
/// derivation finds no bump seed.
pub open spec fn spec_create_message_account_instruction(
    funder_address: Seq<u8>,
    sender_wallet_address: Seq<u8>,
    conversation_pda_address: Seq<u8>,
    conversation_index: u32,
    message_index: u32,
    message_type: u8,
    content: Seq<u8>,
) -> Option<InstructionModel> {
    match pda_of(User::spec_seeds(sender_wallet_address), spec_id()) {
        None => None,
        Some(sender_user_derived) => {
            let sender_uc = pda_of(
                UserConversation::spec_seeds(sender_user_derived.0, conversation_index),
                spec_id(),
            );
            let message = pda_of(Message::spec_seeds(conversation_pda_address, message_index), spec_id());
            if sender_uc is None || message is None {
                None
            } else {
                Some(InstructionModel {
                    program_id: spec_id(),
                    accounts: seq![
                        spec_meta(funder_address, true, true),
                        spec_meta(sender_wallet_address, true, true),
                        spec_meta(sender_user_derived.0, false, true),
                        spec_meta(sender_uc->Some_0.0, false, true),
                        spec_meta(conversation_pda_address, false, true),
                        spec_meta(message->Some_0.0, false, true),
                        spec_meta(spec_rent_sysvar_id(), false, false),
                        spec_meta(spec_clock_sysvar_id(), false, false),
                        spec_meta(spec_system_program_id(), false, false),
                    ],
                    data: spec_instruction_bytes(InstantMessagingInstructionModel::CreateMessageAccount {
                        conversation_index,
                        message_type,
                        content,
                    }),
                })
            }
        },
    }
}

/// Creates a CreateMessageAccount instruction.
pub fn create_message_account(
    funder_address: &Addr,
    sender_wallet_address: &Addr,
    conversation_pda_address: &Addr,
    conversation_index: u32,
    message_index: u32,
    message_type: u8,
    content: Vec<u8>,
) -> (r: Option<Instruction>)
    requires
        content@.len() <= u32::MAX,
    ensures
        built_of(r) == spec_create_message_account_instruction(
            funder_address@,
            sender_wallet_address@,
            conversation_pda_address@,
            conversation_index,
            message_index,
            message_type,
            content@,
        ),
{
    let program = id();
    let sender_user_pda_address = match User::find_pda_address(sender_wallet_address, &program) {
        Some(a) => a,
        None => {
            return None;
        },
    };
    let sender_user_conversation_pda_address = match UserConversation::find_pda_address(
        &sender_user_pda_address,
        conversation_index,
        &program,
    ) {
        Some(a) => a,
        None => {
            return None;
        },
    };
    let message_pda_address = match Message::find_pda_address(conversation_pda_address, message_index, &program) {
        Some(a) => a,
        None => {
            return None;
        },
    };
    let mut accounts: Vec<AccountMeta> = Vec::new();
    accounts.push(AccountMeta { address: *funder_address, is_signer: true, is_writable: true });
    accounts.push(AccountMeta { address: *sender_wallet_address, is_signer: true, is_writable: true });
    accounts.push(AccountMeta { address: sender_user_pda_address, is_signer: false, is_writable: true });
    accounts.push(AccountMeta { address: sender_user_conversation_pda_address, is_signer: false, is_writable: true });
    accounts.push(AccountMeta { address: *conversation_pda_address, is_signer: false, is_writable: true });
    accounts.push(AccountMeta { address: message_pda_address, is_signer: false, is_writable: true });
    accounts.push(AccountMeta { address: rent_sysvar_id(), is_signer: false, is_writable: false });
    accounts.push(AccountMeta { address: clock_sysvar_id(), is_signer: false, is_writable: false });
    accounts.push(AccountMeta { address: system_program_id(), is_signer: false, is_writable: false });
    let ghost content_view = content@;
    let data = encode_instruction(&InstantMessagingInstruction::CreateMessageAccount {
        conversation_index,
        message_type,
        content,
    });
    let ins = Instruction { program_id: program, accounts, data };
    proof {
        let expected = spec_create_message_account_instruction(
            funder_address@,
            sender_wallet_address@,
            conversation_pda_address@,
            conversation_index,
            message_index,
            message_type,
            content_view,
        );
        assert(ins@.accounts =~~= expected->Some_0.accounts);
    }
    Some(ins)
}

/// The instruction that creates the encryption info of the conversation
/// derivable from two wallets' user accounts, or nothing in the improbable
/// event that a derivation finds no bump seed.
pub open spec fn spec_create_conversation_encryption_info_account_instruction(
    funder_address: Seq<u8>,
    sender_wallet_address: Seq<u8>,
    receiver_wallet_address: Seq<u8>,
    data: Seq<u8>,
) -> Option<InstructionModel> {
    let sender_user = pda_of(User::spec_seeds(sender_wallet_address), spec_id());
    let receiver_user = pda_of(User::spec_seeds(receiver_wallet_address), spec_id());
    if sender_user is None || receiver_user is None {
        None
    } else {
        let conversation = pda_of(
            Conversation::spec_seeds(sender_user->Some_0.0, receiver_user->Some_0.0),
            spec_id(),
        );
        if conversation is None {
            None
        } else {
            match pda_of(ConversationEncryptionInfo::spec_seeds(conversation->Some_0.0), spec_id()) {
                None => None,
                Some(info_derived) => Some(InstructionModel {
                    program_id: spec_id(),
                    accounts: seq![
                        spec_meta(funder_address, true, true),
                        spec_meta(sender_wallet_address, true, true),
                        spec_meta(info_derived.0, false, true),
                        spec_meta(sender_user->Some_0.0, false, true),
                        spec_meta(receiver_user->Some_0.0, false, true),
                        spec_meta(conversation->Some_0.0, false, true),
                        spec_meta(spec_rent_sysvar_id(), false, false),
                        spec_meta(spec_clock_sysvar_id(), false, false),
                        spec_meta(spec_system_program_id(), false, false),
                    ],
                    data: spec_instruction_bytes(
                        InstantMessagingInstructionModel::CreateConversationEncryptionInfoAccount { data },
                    ),
                }),
            }
        }
    }
}

/// Creates a CreateConversationEncryptionInfoAccount instruction.
pub fn create_conversation_encryption_info_account(
    funder_address: &Addr,
    sender_wallet_address: &Addr,
    receiver_wallet_address: &Addr,
    data: Vec<u8>,
) -> (r: Option<Instruction>)
    requires
        data@.len() <= u32::MAX,
    ensures
        built_of(r) == spec_create_conversation_encryption_info_account_instruction(
            funder_address@,
            sender_wallet_address@,
            receiver_wallet_address@,
            data@,
        ),
{
    let program = id();
    let sender_user_pda_address = match User::find_pda_address(sender_wallet_address, &program) {
        Some(a) => a,
        None => {
            return None;
        },
    };
    let receiver_user_pda_address = match User::find_pda_address(receiver_wallet_address, &program) {
        Some(a) => a,
        None => {
            return None;
        },
    };
    let conversation_pda_address = match Conversation::find_pda_address(
        &sender_user_pda_address,
        &receiver_user_pda_address,
        &program,
    ) {
        Some(a) => a,
        None => {
            return None;
        },
    };
    let conversation_encryption_info_pda_address = match ConversationEncryptionInfo::find_pda_address(
        &conversation_pda_address,
        &program,
    ) {
        Some(a) => a,
        None => {
            return None;
        },
    };
    let mut accounts: Vec<AccountMeta> = Vec::new();
    accounts.push(AccountMeta { address: *funder_address, is_signer: true, is_writable: true });
    accounts.push(AccountMeta { address: *sender_wallet_address, is_signer: true, is_writable: true });
    accounts.push(AccountMeta { address: conversation_encryption_info_pda_address, is_signer: false, is_writable: true });
    accounts.push(AccountMeta { address: sender_user_pda_address, is_signer: false, is_writable: true });
    accounts.push(AccountMeta { address: receiver_user_pda_address, is_signer: false, is_writable: true });
    accounts.push(AccountMeta { address: conversation_pda_address, is_signer: false, is_writable: true });
    accounts.push(AccountMeta { address: rent_sysvar_id(), is_signer: false, is_writable: false });
    accounts.push(AccountMeta { address: clock_sysvar_id(), is_signer: false, is_writable: false });
    accounts.push(AccountMeta { address: system_program_id(), is_signer: false, is_writable: false });
    let ghost data_view = data@;
    let payload = encode_instruction(&InstantMessagingInstruction::CreateConversationEncryptionInfoAccount { data });
    let ins = Instruction { program_id: program, accounts, data: payload };
    proof {
        let expected = spec_create_conversation_encryption_info_account_instruction(
            funder_address@,
            sender_wallet_address@,
            receiver_wallet_address@,
            data_view,
        );
        assert(ins@.accounts =~~= expected->Some_0.accounts);
    }
    Some(ins)
}

/// The instruction that sends a message into the conversation derivable from
/// two wallets' user accounts, or nothing in the improbable event that a
/// derivation finds no bump seed.
pub open spec fn spec_send_message_instruction(
    funder_address: Seq<u8>,
    sender_wallet_address: Seq<u8>,
    receiver_wallet_address: Seq<u8>,
    message_index: u32,
    message_type: u8,
    content: Seq<u8>,
) -> Option<InstructionModel> {
    let sender_user = pda_of(User::spec_seeds(sender_wallet_address), spec_id());
    let receiver_user = pda_of(User::spec_seeds(receiver_wallet_address), spec_id());
    if sender_user is None || receiver_user is None {
        None
    } else {
        let conversation = pda_of(
            Conversation::spec_seeds(sender_user->Some_0.0, receiver_user->Some_0.0),
            spec_id(),
        );
        if conversation is None {
            None
        } else {
            match pda_of(Message::spec_seeds(conversation->Some_0.0, message_index), spec_id()) {
                None => None,
                Some(message_derived) => Some(InstructionModel {
                    program_id: spec_id(),
                    accounts: seq![
                        spec_meta(funder_address, true, true),
                        spec_meta(sender_wallet_address, true, true),
                        spec_meta(sender_user->Some_0.0, false, true),
                        spec_meta(receiver_user->Some_0.0, false, true),
                        spec_meta(conversation->Some_0.0, false, true),
                        spec_meta(message_derived.0, false, true),
                        spec_meta(spec_rent_sysvar_id(), false, false),
                        spec_meta(spec_clock_sysvar_id(), false, false),
                        spec_meta(spec_system_program_id(), false, false),
                    ],
                    data: spec_instruction_bytes(InstantMessagingInstructionModel::SendMessage {
                        message_type,
                        content,
                    }),
                }),
            }
        }
    }
}

/// Creates a SendMessage instruction.
pub fn send_message(
    funder_address: &Addr,
    sender_wallet_address: &Addr,
    receiver_wallet_address: &Addr,
    message_index: u32,
    message_type: u8,
    content: Vec<u8>,
) -> (r: Option<Instruction>)
    requires
        content@.len() <= u32::MAX,
    ensures
        built_of(r) == spec_send_message_instruction(
            funder_address@,
            sender_wallet_address@,
            receiver_wallet_address@,
            message_index,
            message_type,
            content@,
        ),
{
    let program = id();
    let sender_user_pda_address = match User::find_pda_address(sender_wallet_address, &program) {
        Some(a) => a,
        None => {
            return None;
        },
    };
    let receiver_user_pda_address = match User::find_pda_address(receiver_wallet_address, &program) {
        Some(a) => a,
        None => {
            return None;
        },
    };
    let conversation_pda_address = match Conversation::find_pda_address(
        &sender_user_pda_address,
        &receiver_user_pda_address,
        &program,
    ) {
        Some(a) => a,
        None => {
            return None;
        },
    };
    let message_pda_address = match Message::find_pda_address(&conversation_pda_address, message_index, &program) {
        Some(a) => a,
        None => {
            return None;
        },
    };
    let mut accounts: Vec<AccountMeta> = Vec::new();
    accounts.push(AccountMeta { address: *funder_address, is_signer: true, is_writable: true });
    accounts.push(AccountMeta { address: *sender_wallet_address, is_signer: true, is_writable: true });
    accounts.push(AccountMeta { address: sender_user_pda_address, is_signer: false, is_writable: true });
    accounts.push(AccountMeta { address: receiver_user_pda_address, is_signer: false, is_writable: true });
    accounts.push(AccountMeta { address: conversation_pda_address, is_signer: false, is_writable: true });
    accounts.push(AccountMeta { address: message_pda_address, is_signer: false, is_writable: true });
    accounts.push(AccountMeta { address: rent_sysvar_id(), is_signer: false, is_writable: false });
    accounts.push(AccountMeta { address: clock_sysvar_id(), is_signer: false, is_writable: false });
    accounts.push(AccountMeta { address: system_program_id(), is_signer: false, is_writable: false });
    let ghost content_view = content@;
    let data = encode_instruction(&InstantMessagingInstruction::SendMessage { message_type, content });
    let ins = Instruction { program_id: program, accounts, data };
    proof {
        let expected = spec_send_message_instruction(
            funder_address@,
            sender_wallet_address@,
            receiver_wallet_address@,
            message_index,
            message_type,
            content_view,
        );
        assert(ins@.accounts =~~= expected->Some_0.accounts);
    }
    Some(ins)
}

} // verus!
