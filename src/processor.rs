use solana_program::instruction::Instruction;
use vstd::prelude::*;

use crate::error::SwapError;
use crate::instruction::{decode_instruction, decode_spec, SwapCommand};
use crate::token::{
    is_token_transfer, token_record_balance, token_transfer_instruction, unpack_token_balance,
    InstructionView, TOKEN_PROGRAM_ID,
};

verus! {

/// What the handler reads of one account that the host supplies.
pub struct AccountInput {
    pub key: [u8; 32],
    pub is_signer: bool,
    pub data: Vec<u8>,
}

/// One transfer for the token program to perform.
#[derive(Clone, Copy, Debug)]
pub struct TransferRequest {
    pub token_program: [u8; 32],
    pub source: [u8; 32],
    pub destination: [u8; 32],
    pub authority: [u8; 32],
    pub amount: u64,
}

/// The outcome of validation: the decoded command, the one transfer it asks for,
/// and the amount the destination is meant to receive at the given rate (which
/// the transfer itself does not move).
#[derive(Clone, Copy, Debug)]
pub struct SwapPlan {
    pub command: SwapCommand,
    pub transfer: TransferRequest,
    pub destination_amount: u64,
}

/// A validated swap together with the token program instruction that performs it,
/// and that instruction's parts as plain values.
pub struct SwapInvocation {
    pub plan: SwapPlan,
    pub instruction: Instruction,
    pub instruction_view: InstructionView,
}

/// `view` performs exactly the transfer `t` asks for.
pub open spec fn performs_transfer(view: InstructionView, t: TransferRequest) -> bool {
    is_token_transfer(view, t.token_program, t.source, t.destination, t.authority, t.amount)
}

/// The number of accounts a swap binds: initiator, source, destination, token program.
pub const SWAP_ACCOUNT_COUNT: usize = 4;

/// What validation yields for the given accounts and payload. Checks run in this
/// order: account count, payload, signer, source record, destination record,
/// balance, and the destination amount's range. The destination record is only
/// required to parse; its mint and owner are not compared with the source's.
pub open spec fn plan_spec(accounts: Seq<AccountInput>, data: Seq<u8>) -> Result<SwapPlan, SwapError> {
    if accounts.len() < SWAP_ACCOUNT_COUNT {
        Err(SwapError::MissingAccount)
    } else {
        match decode_spec(data) {
            Err(e) => Err(e),
            Ok(command) => {
                let source = token_record_balance(accounts[1].data@);
                let destination = token_record_balance(accounts[2].data@);
                if !accounts[0].is_signer {
                    Err(SwapError::Unauthorized)
                } else if source is None || destination is None {
                    Err(SwapError::InvalidAccountData)
                } else if source->Some_0 < command.amount {
                    Err(SwapError::InsufficientFunds)
                } else if command.amount * command.exchange_rate > u64::MAX {
                    Err(SwapError::ArithmeticOverflow)
                } else {
                    Ok(
                        SwapPlan {
                            command,
                            transfer: TransferRequest {
                                token_program: accounts[3].key,
                                source: accounts[1].key,
                                destination: accounts[2].key,
                                authority: accounts[0].key,
                                amount: command.amount,
                            },
                            destination_amount: (command.amount * command.exchange_rate) as u64,
                        },
                    )
                }
            },
        }
    }
}

/// Binds the accounts, decodes the payload and checks authority and funds.
pub fn plan_swap(accounts: &[AccountInput], data: &[u8]) -> (r: Result<SwapPlan, SwapError>)
    ensures
        r == plan_spec(accounts@, data@),
{
    if accounts.len() < SWAP_ACCOUNT_COUNT {
        return Err(SwapError::MissingAccount);
    }
    let initiator = &accounts[0];
    let source = &accounts[1];
    let destination = &accounts[2];
    let token_program = &accounts[3];
    let command = match decode_instruction(data) {
        Ok(c) => c,
        Err(e) => return Err(e),
    };
    if !initiator.is_signer {
        return Err(SwapError::Unauthorized);
    }
    let balance = match unpack_token_balance(source.data.as_slice()) {
        Ok(b) => b,
        Err(_) => return Err(SwapError::InvalidAccountData),
    };
    if unpack_token_balance(destination.data.as_slice()).is_err() {
        return Err(SwapError::InvalidAccountData);
    }
    if balance < command.amount {
        return Err(SwapError::InsufficientFunds);
    }
    let destination_amount = match command.amount.checked_mul(command.exchange_rate) {
        Some(v) => v,
        None => return Err(SwapError::ArithmeticOverflow),
    };
    Ok(
        SwapPlan {
            command,
            transfer: TransferRequest {
                token_program: token_program.key,
                source: source.key,
                destination: destination.key,
                authority: initiator.key,
                amount: command.amount,
            },
            destination_amount,
        },
    )
}

/// Validates a swap and builds the token program instruction for its one
/// transfer. `_program_id` is the handler's own address, which the host passes
/// and the swap does not use. A token program account other than the token
/// program's own address makes the request fail.
pub fn process_instruction(
    _program_id: &[u8; 32],
    accounts: &[AccountInput],
    instruction_data: &[u8],
) -> (r: Result<SwapInvocation, SwapError>)
    ensures
        match plan_spec(accounts@, instruction_data@) {
            Err(e) => r is Err && r->Err_0 == e,
            Ok(plan) => if plan.transfer.token_program == TOKEN_PROGRAM_ID {
                r is Ok && r->Ok_0.plan == plan && performs_transfer(
                    r->Ok_0.instruction_view,
                    plan.transfer,
                )
            } else {
                r is Err && r->Err_0 == SwapError::DelegatedTransferFailed
            },
        },
{
    let plan = match plan_swap(accounts, instruction_data) {
        Ok(p) => p,
        Err(e) => return Err(e),
    };
    let t = &plan.transfer;
    match token_transfer_instruction(&t.token_program, &t.source, &t.destination, &t.authority, t.amount) {
        Ok((instruction, instruction_view)) => Ok(SwapInvocation { plan, instruction, instruction_view }),
        Err(_) => Err(SwapError::DelegatedTransferFailed),
    }
}

/// With all four accounts present, a payload that does not decode is refused with
/// the decoder's error, whatever the signer flag and the account records.
pub proof fn lemma_payload_checked_before_accounts(accounts: Seq<AccountInput>, data: Seq<u8>)
    requires
        accounts.len() >= SWAP_ACCOUNT_COUNT,
        decode_spec(data) is Err,
    ensures
        plan_spec(accounts, data) == Err::<SwapPlan, SwapError>(decode_spec(data)->Err_0),
{
}

/// An initiator without signer authority is refused, for any payload that
/// decodes, before any record is read or any transfer is prepared.
pub proof fn lemma_unsigned_initiator_is_refused(accounts: Seq<AccountInput>, data: Seq<u8>)
    requires
        accounts.len() >= SWAP_ACCOUNT_COUNT,
        decode_spec(data) is Ok,
        !accounts[0].is_signer,
    ensures
        plan_spec(accounts, data) == Err::<SwapPlan, SwapError>(SwapError::Unauthorized),
{
}

/// When every earlier check passes and the source holds less than the requested
/// amount, the swap fails with `InsufficientFunds` and no transfer is prepared.
pub proof fn lemma_short_balance_is_refused(accounts: Seq<AccountInput>, data: Seq<u8>)
    ensures
        ({
            let command = decode_spec(data)->Ok_0;
            let source = token_record_balance(accounts[1].data@);
            &&& accounts.len() >= SWAP_ACCOUNT_COUNT
            &&& accounts[0].is_signer
            &&& decode_spec(data) is Ok
            &&& source is Some
            &&& token_record_balance(accounts[2].data@) is Some
            &&& source->Some_0 < command.amount
        }) ==> plan_spec(accounts, data) == Err::<SwapPlan, SwapError>(
            SwapError::InsufficientFunds,
        ),
{
}

/// When every check passes, exactly one transfer is prepared: of the requested
/// amount (not the amount times the rate), from the source to the destination,
/// under the initiator's authority, through the supplied token program.
pub proof fn lemma_funded_swap_transfers_amount(accounts: Seq<AccountInput>, data: Seq<u8>)
    ensures
        ({
            let command = decode_spec(data)->Ok_0;
            let source = token_record_balance(accounts[1].data@);
            &&& accounts.len() >= SWAP_ACCOUNT_COUNT
            &&& accounts[0].is_signer
            &&& decode_spec(data) is Ok
            &&& source is Some
            &&& token_record_balance(accounts[2].data@) is Some
            &&& source->Some_0 >= command.amount
            &&& command.amount * command.exchange_rate <= u64::MAX
        }) ==> ({
            let command = decode_spec(data)->Ok_0;
            &&& plan_spec(accounts, data) is Ok
            &&& plan_spec(accounts, data)->Ok_0.command == command
            &&& plan_spec(accounts, data)->Ok_0.transfer == (TransferRequest {
                token_program: accounts[3].key,
                source: accounts[1].key,
                destination: accounts[2].key,
                authority: accounts[0].key,
                amount: command.amount,
            })
        }),
{
}

} // verus!
