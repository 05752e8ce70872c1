use vstd::prelude::*;
use vstd::bytes::*;
use vstd::slice::slice_subrange;

use crate::error::{DecodeErrorKind, EscrowError};
use crate::state::read_description;

verus! {

/// Length of an Initialize instruction: opcode, amount, release time, description.
pub const INITIALIZE_LEN: usize = 117;

/// The operation selected by the leading byte of the instruction data.
#[derive(Debug, Clone, Copy, PartialEq, Eq, Structural)]
pub enum WillEscrowInstruction {
    InitializeJob,
    ApplyForJob,
    ReleaseFunds,
}

/// The payload of an Initialize instruction.
#[derive(Debug, Clone, Copy, PartialEq, Eq)]
pub struct InitializeJobArgs {
    pub amount: u64,
    pub release_time: i64,
    pub description: [u8; 100],
}

/// The operation that the instruction data `d` selects, or why it selects none.
pub open spec fn decode_instruction_spec(d: Seq<u8>) -> Result<WillEscrowInstruction, EscrowError> {
    if d.len() == 0 {
        Err(EscrowError::Decoding(DecodeErrorKind::Empty))
    } else if d[0] == 0 {
        if d.len() < INITIALIZE_LEN {
            Err(EscrowError::Decoding(DecodeErrorKind::Truncated))
        } else {
            Ok(WillEscrowInstruction::InitializeJob)
        }
    } else if d[0] == 1 {
        Ok(WillEscrowInstruction::ApplyForJob)
    } else if d[0] == 2 {
        Ok(WillEscrowInstruction::ReleaseFunds)
    } else {
        Err(EscrowError::Decoding(DecodeErrorKind::UnknownOpcode))
    }
}

/// The amount at bytes 1..9 of an Initialize instruction, little-endian.
pub open spec fn args_amount(d: Seq<u8>) -> u64 {
    spec_u64_from_le_bytes(d.subrange(1, 9))
}

/// The release time at bytes 9..17 of an Initialize instruction, little-endian.
pub open spec fn args_release_time(d: Seq<u8>) -> i64 {
    spec_u64_from_le_bytes(d.subrange(9, 17)) as i64
}

/// The description at bytes 17..117 of an Initialize instruction.
pub open spec fn args_description(d: Seq<u8>) -> Seq<u8> {
    d.subrange(17, 117)
}

impl WillEscrowInstruction {
    /// Selects the operation from the leading byte; an Initialize instruction
    /// must also carry its whole payload.
    pub fn decode(data: &[u8]) -> (r: Result<WillEscrowInstruction, EscrowError>)
        ensures
            r == decode_instruction_spec(data@),
    {
        if data.len() == 0 {
            return Err(EscrowError::Decoding(DecodeErrorKind::Empty));
        }
        match data[0] {
            0 => {
                if data.len() < INITIALIZE_LEN {
                    Err(EscrowError::Decoding(DecodeErrorKind::Truncated))
                } else {
                    Ok(WillEscrowInstruction::InitializeJob)
                }
            },
            1 => Ok(WillEscrowInstruction::ApplyForJob),
            2 => Ok(WillEscrowInstruction::ReleaseFunds),
            _ => Err(EscrowError::Decoding(DecodeErrorKind::UnknownOpcode)),
        }
    }
}

impl InitializeJobArgs {
    /// Reads the Initialize payload from its fixed offsets after the opcode byte.
    pub fn unpack(data: &[u8]) -> (r: Result<InitializeJobArgs, EscrowError>)
        ensures
            data@.len() < INITIALIZE_LEN ==> r == Err::<InitializeJobArgs, EscrowError>(
                EscrowError::Decoding(DecodeErrorKind::Truncated),
            ),
            data@.len() >= INITIALIZE_LEN ==> (r matches Ok(a) && a.amount == args_amount(data@)
                && a.release_time == args_release_time(data@)
                && a.description@ == args_description(data@)),
    {
        if data.len() < INITIALIZE_LEN {
            return Err(EscrowError::Decoding(DecodeErrorKind::Truncated));
        }
        let amount = u64_from_le_bytes(slice_subrange(data, 1, 9));
        let release_time = u64_from_le_bytes(slice_subrange(data, 9, 17)) as i64;
        let description = read_description(data, 17);
        Ok(InitializeJobArgs { amount, release_time, description })
    }
}

} // verus!
