use solana_program::instruction::Instruction;
use solana_program::program_error::ProgramError;
use solana_program::program_pack::Pack;
use solana_program::pubkey::Pubkey;
use vstd::bytes::{spec_u64_from_le_bytes, spec_u64_to_le_bytes};
use vstd::prelude::*;

verus! {

#[verifier::external_type_specification]
#[verifier::external_body]
pub struct ExInstruction(Instruction);

#[verifier::external_type_specification]
#[verifier::external_body]
pub struct ExProgramError(ProgramError);

/// Address of the token program, `TokenkegQfeZyiNwAJbNbGKPFXCWuBvf9Ss623VQ5DA`.
pub const TOKEN_PROGRAM_ID: [u8; 32] = [
    6, 221, 246, 225, 215, 101, 161, 147, 217, 203, 225, 70, 206, 235, 121, 172, 28, 180, 133,
    237, 95, 91, 55, 145, 58, 140, 245, 133, 126, 255, 0, 169,
];

/// Length of a token account record.
pub const TOKEN_ACCOUNT_LEN: usize = 165;

/// Offset of the balance in a token account record.
pub const TOKEN_AMOUNT_OFFSET: usize = 64;

/// Offset of the account state byte in a token account record.
pub const TOKEN_STATE_OFFSET: usize = 108;

/// The four-byte option tag at `at` reads as none (`[0, 0, 0, 0]`) or some (`[1, 0, 0, 0]`).
pub open spec fn option_tag_valid(record: Seq<u8>, at: int) -> bool {
    &&& record[at] == 0 || record[at] == 1
    &&& record[at + 1] == 0
    &&& record[at + 2] == 0
    &&& record[at + 3] == 0
}

/// The token program's record format accepts `record` as an initialized token
/// account: the length is right, the state is initialized (1) or frozen (2), and
/// the delegate, native-reserve and close-authority option tags are well formed.
pub open spec fn token_record_valid(record: Seq<u8>) -> bool {
    &&& record.len() == TOKEN_ACCOUNT_LEN
    &&& record[TOKEN_STATE_OFFSET as int] == 1 || record[TOKEN_STATE_OFFSET as int] == 2
    &&& option_tag_valid(record, 72)
    &&& option_tag_valid(record, 109)
    &&& option_tag_valid(record, 129)
}

/// The balance held in a token account record, or `None` where the record
/// format refuses the bytes.
pub open spec fn token_record_balance(record: Seq<u8>) -> Option<u64> {
    if token_record_valid(record) {
        Some(
            spec_u64_from_le_bytes(
                record.subrange(TOKEN_AMOUNT_OFFSET as int, TOKEN_AMOUNT_OFFSET + 8),
            ),
        )
    } else {
        None
    }
}

/// Relies on `spl_token::state::Account::unpack` (`Pack::unpack`): it refuses a
/// record of any length but 165, an uninitialized or unknown state byte and a
/// malformed option tag, and otherwise reads the balance as the little-endian
/// `u64` at offsets 64..72.
#[verifier::external_body]
pub(crate) fn unpack_token_balance(record: &[u8]) -> (r: Result<u64, ProgramError>)
    ensures
        r is Ok <==> token_record_balance(record@) is Some,
        r is Ok ==> r->Ok_0 == token_record_balance(record@)->Some_0,
{
    spl_token::state::Account::unpack(record).map(|account| account.amount)
}

/// Tag byte of the token program's transfer instruction.
pub const TOKEN_TRANSFER_TAG: u8 = 3;

/// One account named by an instruction, with the access it asks for.
#[derive(Clone, Copy, Debug, PartialEq, Eq)]
pub struct InstructionAccount {
    pub key: [u8; 32],
    pub is_signer: bool,
    pub is_writable: bool,
}

/// The parts of an instruction as plain values.
#[derive(Clone, Debug, PartialEq, Eq)]
pub struct InstructionView {
    pub program_id: [u8; 32],
    pub accounts: Vec<InstructionAccount>,
    pub data: Vec<u8>,
}

/// `view` is a token program transfer of `amount` from `source` to `destination`,
/// signed by `authority` alone, addressed to `token_program`.
pub open spec fn is_token_transfer(
    view: InstructionView,
    token_program: [u8; 32],
    source: [u8; 32],
    destination: [u8; 32],
    authority: [u8; 32],
    amount: u64,
) -> bool {
    &&& view.program_id == token_program
    &&& view.accounts@ == seq![
        InstructionAccount { key: source, is_signer: false, is_writable: true },
        InstructionAccount { key: destination, is_signer: false, is_writable: true },
        InstructionAccount { key: authority, is_signer: true, is_writable: false },
    ]
    &&& view.data@ == seq![TOKEN_TRANSFER_TAG] + spec_u64_to_le_bytes(amount)
}

/// Relies on `spl_token::instruction::transfer`: it refuses every program id but
/// the token program's, and otherwise builds a transfer of `amount` from `source`
/// (writable) to `destination` (writable) under `authority` (signer, read-only),
/// with no further signers, and data `[3]` followed by `amount` in little-endian.
/// The instruction comes back together with its parts as plain values.
#[verifier::external_body]
pub(crate) fn token_transfer_instruction(
    token_program: &[u8; 32],
    source: &[u8; 32],
    destination: &[u8; 32],
    authority: &[u8; 32],
    amount: u64,
) -> (r: Result<(Instruction, InstructionView), ProgramError>)
    ensures
        r is Ok <==> *token_program == TOKEN_PROGRAM_ID,
        r is Ok ==> is_token_transfer(
            r->Ok_0.1,
            *token_program,
            *source,
            *destination,
            *authority,
            amount,
        ),
{
    let ix = spl_token::instruction::transfer(
        &Pubkey::new_from_array(*token_program),
        &Pubkey::new_from_array(*source),
        &Pubkey::new_from_array(*destination),
        &Pubkey::new_from_array(*authority),
        &[],
        amount,
    )?;
    let accounts = ix.accounts.iter().map(|m| InstructionAccount {
        key: m.pubkey.to_bytes(), is_signer: m.is_signer, is_writable: m.is_writable,
    }).collect();
    let view = InstructionView { program_id: ix.program_id.to_bytes(), accounts, data: ix.data.clone() };
    Ok((ix, view))
}

} // verus!
