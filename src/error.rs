use vstd::prelude::*;

verus! {

/// Every way in which one swap invocation can fail.
#[derive(Clone, Copy, Debug, PartialEq, Eq, Structural)]
pub enum SwapError {
    /// Fewer than four accounts were supplied.
    MissingAccount,
    /// The initiator did not sign the invocation.
    Unauthorized,
    /// The payload is empty, or its fields are truncated or followed by extra bytes.
    MalformedInstruction,
    /// The opcode is not the swap opcode.
    UnsupportedOperation,
    /// The source or destination bytes are not a valid token account record.
    InvalidAccountData,
    /// The source balance is below the requested amount.
    InsufficientFunds,
    /// The requested amount times the exchange rate does not fit in 64 bits.
    ArithmeticOverflow,
    /// The token program refused the transfer request.
    DelegatedTransferFailed,
}

} // verus!
