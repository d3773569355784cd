use vstd::bytes::{
    lemma_auto_spec_u64_to_from_le_bytes, spec_u64_from_le_bytes, spec_u64_to_le_bytes,
    u64_from_le_bytes, u64_to_le_bytes,
};
use vstd::prelude::*;
use vstd::slice::slice_subrange;

use crate::error::SwapError;

verus! {

/// The one operation this handler defines.
pub const SWAP_OPCODE: u8 = 0;

/// Length of a swap payload: the opcode, then two little-endian `u64` fields.
pub const SWAP_PAYLOAD_LEN: usize = 17;

/// A decoded swap instruction.
#[derive(Clone, Copy, Debug, PartialEq, Eq, Structural)]
pub struct SwapCommand {
    pub opcode: u8,
    pub amount: u64,
    pub exchange_rate: u64,
}

/// The bytes of a swap instruction for `amount` at `exchange_rate`.
pub open spec fn swap_payload(amount: u64, exchange_rate: u64) -> Seq<u8> {
    seq![SWAP_OPCODE] + spec_u64_to_le_bytes(amount) + spec_u64_to_le_bytes(exchange_rate)
}

/// What decoding `data` yields: the opcode is checked before the length.
pub open spec fn decode_spec(data: Seq<u8>) -> Result<SwapCommand, SwapError> {
    if data.len() == 0 {
        Err(SwapError::MalformedInstruction)
    } else if data[0] != SWAP_OPCODE {
        Err(SwapError::UnsupportedOperation)
    } else if data.len() != SWAP_PAYLOAD_LEN {
        Err(SwapError::MalformedInstruction)
    } else {
        Ok(
            SwapCommand {
                opcode: SWAP_OPCODE,
                amount: spec_u64_from_le_bytes(data.subrange(1, 9)),
                exchange_rate: spec_u64_from_le_bytes(data.subrange(9, 17)),
            },
        )
    }
}

/// Decodes a swap instruction payload.
pub fn decode_instruction(data: &[u8]) -> (r: Result<SwapCommand, SwapError>)
    ensures
        r == decode_spec(data@),
{
    if data.len() == 0 {
        return Err(SwapError::MalformedInstruction);
    }
    if data[0] != SWAP_OPCODE {
        return Err(SwapError::UnsupportedOperation);
    }
    if data.len() != SWAP_PAYLOAD_LEN {
        return Err(SwapError::MalformedInstruction);
    }
    let amount = u64_from_le_bytes(slice_subrange(data, 1, 9));
    let exchange_rate = u64_from_le_bytes(slice_subrange(data, 9, 17));
    Ok(SwapCommand { opcode: SWAP_OPCODE, amount, exchange_rate })
}

/// Builds the payload of a swap instruction.
pub fn encode_swap(amount: u64, exchange_rate: u64) -> (r: Vec<u8>)
    ensures
        r@ == swap_payload(amount, exchange_rate),
{
    let mut r: Vec<u8> = vec![SWAP_OPCODE];
    let mut a = u64_to_le_bytes(amount);
    let mut e = u64_to_le_bytes(exchange_rate);
    r.append(&mut a);
    r.append(&mut e);
    r
}

/// Encoding an amount and a rate and decoding the bytes gives them back.
pub proof fn lemma_swap_payload_round_trip(amount: u64, exchange_rate: u64)
    ensures
        decode_spec(swap_payload(amount, exchange_rate)) == Ok::<SwapCommand, SwapError>(
            SwapCommand { opcode: SWAP_OPCODE, amount, exchange_rate },
        ),
{
    lemma_auto_spec_u64_to_from_le_bytes();
    let p = swap_payload(amount, exchange_rate);
    assert(p.subrange(1, 9) =~= spec_u64_to_le_bytes(amount));
    assert(p.subrange(9, 17) =~= spec_u64_to_le_bytes(exchange_rate));
}

/// Every 17-byte payload that starts with the swap opcode decodes, and its
/// fields encode back to exactly those bytes.
pub proof fn lemma_valid_payload_decodes(data: Seq<u8>)
    requires
        data.len() == SWAP_PAYLOAD_LEN,
        data[0] == SWAP_OPCODE,
    ensures
        decode_spec(data) is Ok,
        swap_payload(decode_spec(data)->Ok_0.amount, decode_spec(data)->Ok_0.exchange_rate)
            == data,
{
    lemma_auto_spec_u64_to_from_le_bytes();
    let a = data.subrange(1, 9);
    let e = data.subrange(9, 17);
    assert(spec_u64_to_le_bytes(spec_u64_from_le_bytes(a)) == a);
    assert(spec_u64_to_le_bytes(spec_u64_from_le_bytes(e)) == e);
    assert(swap_payload(spec_u64_from_le_bytes(a), spec_u64_from_le_bytes(e)) =~= data);
}

/// An empty payload, or one with the swap opcode and any length but 17, is malformed.
pub proof fn lemma_wrong_length_is_malformed(data: Seq<u8>)
    requires
        data.len() == 0 || (data[0] == SWAP_OPCODE && data.len() != SWAP_PAYLOAD_LEN),
    ensures
        decode_spec(data) == Err::<SwapCommand, SwapError>(SwapError::MalformedInstruction),
{
}

/// A non-empty payload whose opcode is not the swap opcode is unsupported.
pub proof fn lemma_other_opcode_is_unsupported(data: Seq<u8>)
    requires
        data.len() > 0,
        data[0] != SWAP_OPCODE,
    ensures
        decode_spec(data) == Err::<SwapCommand, SwapError>(SwapError::UnsupportedOperation),
{
}

} // verus!
