//! The instruction wire format: a discriminant byte, then the variant's payload.

use vstd::prelude::*;

use crate::codec::{decode_spec, le_value};
use crate::error::CounterError;

verus! {

/// The instructions this program carries out.
#[derive(Debug, Clone, Copy, PartialEq, Eq, Structural)]
pub enum CounterInstruction {
    /// Discriminant 0, then the starting count as eight little-endian bytes.
    InitializeCounter { initial_value: u64 },
    /// Discriminant 1; anything after it is ignored.
    IncrementCounter,
}

/// What an instruction buffer decodes to.
pub open spec fn unpack_spec(b: Seq<u8>) -> Result<CounterInstruction, CounterError> {
    if b.len() == 0 {
        Err(CounterError::MissingInstructionData)
    } else if b[0] == 0 {
        if b.len() == 9 {
            Ok(CounterInstruction::InitializeCounter { initial_value: le_value(b.subrange(1, 9)) })
        } else {
            Err(CounterError::MalformedInstructionData)
        }
    } else if b[0] == 1 {
        Ok(CounterInstruction::IncrementCounter)
    } else {
        Err(CounterError::UnknownInstruction)
    }
}

impl CounterInstruction {
    /// Decodes an instruction buffer.
    pub fn unpack(input: &[u8]) -> (r: Result<CounterInstruction, CounterError>)
        ensures
            r == unpack_spec(input@),
    {
        if input.len() == 0 {
            return Err(CounterError::MissingInstructionData);
        }
        let variant = input[0];
        if variant == 0 {
            if input.len() != 9 {
                return Err(CounterError::MalformedInstructionData);
            }
            let initial_value: u64 = (input[1] as u64) | ((input[2] as u64) << 8u64) | ((
            input[3] as u64) << 16u64) | ((input[4] as u64) << 24u64) | ((input[5] as u64)
                << 32u64) | ((input[6] as u64) << 40u64) | ((input[7] as u64) << 48u64) | ((
            input[8] as u64) << 56u64);
            let ghost rest = input@.subrange(1, 9);
            assert(rest[0] == input@[1] && rest[1] == input@[2] && rest[2] == input@[3] && rest[3]
                == input@[4] && rest[4] == input@[5] && rest[5] == input@[6] && rest[6]
                == input@[7] && rest[7] == input@[8]);
            Ok(CounterInstruction::InitializeCounter { initial_value })
        } else if variant == 1 {
            Ok(CounterInstruction::IncrementCounter)
        } else {
            Err(CounterError::UnknownInstruction)
        }
    }
}

/// Wrong lengths are refused: an account buffer of other than eight bytes
/// never decodes, and an initialize instruction whose payload is not eight
/// bytes is malformed.
pub proof fn wrong_lengths_refused(data: Seq<u8>, instruction: Seq<u8>)
    ensures
        data.len() != 8 ==> decode_spec(data) is None,
        instruction.len() > 0 && instruction[0] == 0 && instruction.len() - 1 != 8 ==> unpack_spec(
            instruction,
        ) == Err::<CounterInstruction, CounterError>(CounterError::MalformedInstructionData),
{
}

} // verus!
