//! A single-transfer token exchange handler: it binds four accounts, decodes a
//! fixed-layout swap instruction, checks signer authority and the source balance,
//! and prepares exactly one transfer request for the token program.
pub mod error;
pub mod instruction;
pub mod processor;
pub mod token;

pub use error::SwapError;
pub use instruction::{decode_instruction, encode_swap, SwapCommand, SWAP_OPCODE, SWAP_PAYLOAD_LEN};
pub use processor::{
    plan_swap, process_instruction, AccountInput, SwapInvocation, SwapPlan, TransferRequest,
    SWAP_ACCOUNT_COUNT,
};
pub use token::{InstructionAccount, InstructionView, TOKEN_ACCOUNT_LEN, TOKEN_PROGRAM_ID};
