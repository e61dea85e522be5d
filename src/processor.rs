//! The state transitions, and the dispatcher that routes an instruction to them.

use vstd::prelude::*;

use crate::codec::{decode_spec, le_bytes, lemma_decode_encode, CounterAccount, COUNTER_SIZE};
use crate::error::CounterError;
use crate::instruction::{unpack_spec, CounterInstruction};

verus! {

/// A host-managed account as this program sees it.
pub struct AccountHandle {
    /// The account's address.
    pub key: [u8; 32],
    /// The identity of the program allowed to change the account.
    pub owner: [u8; 32],
    /// The account's state; its length is fixed by the host.
    pub data: Vec<u8>,
}

/// The account buffer after an increment, or why there is none.
pub open spec fn increment_spec(program_id: Seq<u8>, owner: Seq<u8>, data: Seq<u8>) -> Result<
    Seq<u8>,
    CounterError,
> {
    if owner != program_id {
        Err(CounterError::IncorrectOwner)
    } else {
        match decode_spec(data) {
            None => Err(CounterError::MalformedAccountData),
            Some(c) => if c == u64::MAX {
                Err(CounterError::ArithmeticOverflow)
            } else {
                Ok(le_bytes((c + 1) as u64))
            },
        }
    }
}

/// Checks that an account is owned by the expected program.
pub fn validate_ownership(owner: &[u8; 32], expected: &[u8; 32]) -> (r: Result<(), CounterError>)
    ensures
        owner@ == expected@ ==> r is Ok,
        owner@ != expected@ ==> r == Err::<(), CounterError>(CounterError::IncorrectOwner),
{
    assert(owner@.len() == 32 && expected@.len() == 32);
    let mut i: usize = 0;
    while i < 32
        invariant
            i <= 32,
            owner@.len() == 32,
            expected@.len() == 32,
            forall|k: int| 0 <= k < i ==> owner@[k] == expected@[k],
        decreases 32 - i,
    {
        if owner[i] != expected[i] {
            return Err(CounterError::IncorrectOwner);
        }
        i = i + 1;
    }
    assert(owner@ =~= expected@);
    Ok(())
}

/// Adds one to the count held by the first account handle, in place.
pub fn process_increment_counter(program_id: &[u8; 32], accounts: &mut Vec<AccountHandle>) -> (r:
    Result<(), CounterError>)
    ensures
        old(accounts)@.len() == 0 ==> r == Err::<(), CounterError>(CounterError::MissingAccount)
            && final(accounts)@ == old(accounts)@,
        old(accounts)@.len() > 0 ==> match increment_spec(
            program_id@,
            old(accounts)@[0].owner@,
            old(accounts)@[0].data@,
        ) {
            Err(e) => r == Err::<(), CounterError>(e) && final(accounts)@ == old(accounts)@,
            Ok(b) => r is Ok && final(accounts)@.len() == old(accounts)@.len()
                && final(accounts)@[0].key == old(accounts)@[0].key
                && final(accounts)@[0].owner == old(accounts)@[0].owner
                && final(accounts)@[0].data@ == b
                && forall|i: int|
                0 < i < old(accounts)@.len() ==> #[trigger] final(accounts)@[i] == old(accounts)@[i],
        },
{
    if accounts.len() == 0 {
        return Err(CounterError::MissingAccount);
    }
    match validate_ownership(&accounts[0].owner, program_id) {
        Ok(()) => {},
        Err(e) => return Err(e),
    }
    let state = match CounterAccount::decode(accounts[0].data.as_slice()) {
        Ok(s) => s,
        Err(e) => return Err(e),
    };
    let next = match state.count().checked_add(1) {
        Some(c) => c,
        None => return Err(CounterError::ArithmeticOverflow),
    };
    CounterAccount::new(next).encode_into(&mut accounts[0].data)
}

/// What the host is asked to do once an instruction has been accepted.
#[derive(Debug, Clone, Copy, PartialEq, Eq, Structural)]
pub enum Action {
    /// The instruction is carried out; nothing is left to do.
    Done,
    /// Allocate `space` bytes for the counter account (the first handle),
    /// funded by the payer (the second handle) through the system allocator
    /// (the third handle) and owned by this program; once that succeeded,
    /// write the state with `finish_initialize`.
    CreateAccount { space: u64, initial_value: u64 },
}

/// The buffer of a freshly created counter account once it is written, or why
/// it cannot be.
pub open spec fn initialize_spec(data: Seq<u8>, initial_value: u64) -> Result<Seq<u8>, CounterError> {
    if data.len() == COUNTER_SIZE {
        Ok(le_bytes(initial_value))
    } else {
        Err(CounterError::MalformedAccountData)
    }
}

/// First half of creating a counter: checks the handles and says what the
/// host must allocate.
pub fn process_initialize_counter(accounts: &Vec<AccountHandle>, initial_value: u64) -> (r: Result<
    Action,
    CounterError,
>)
    ensures
        accounts@.len() < 3 ==> r == Err::<Action, CounterError>(CounterError::MissingAccount),
        accounts@.len() >= 3 ==> r == Ok::<Action, CounterError>(
            Action::CreateAccount { space: COUNTER_SIZE as u64, initial_value },
        ),
{
    if accounts.len() < 3 {
        return Err(CounterError::MissingAccount);
    }
    Ok(Action::CreateAccount { space: COUNTER_SIZE as u64, initial_value })
}

/// Second half of creating a counter: writes the starting count into the
/// buffer that the host allocated.
pub fn finish_initialize(data: &mut Vec<u8>, initial_value: u64) -> (r: Result<(), CounterError>)
    ensures
        match initialize_spec(old(data)@, initial_value) {
            Ok(b) => r is Ok && final(data)@ == b,
            Err(e) => r == Err::<(), CounterError>(e) && final(data)@ == old(data)@,
        },
{
    CounterAccount::new(initial_value).encode_into(data)
}

/// Decodes an instruction and carries it out as far as this program can: an
/// increment completely, a creation up to the allocation that the host makes.
/// A buffer that does not decode leaves every account untouched.
pub fn process_instruction(
    program_id: &[u8; 32],
    accounts: &mut Vec<AccountHandle>,
    instruction_data: &[u8],
) -> (r: Result<Action, CounterError>)
    ensures
        match unpack_spec(instruction_data@) {
            Err(e) => r == Err::<Action, CounterError>(e) && final(accounts)@ == old(accounts)@,
            Ok(CounterInstruction::InitializeCounter { initial_value }) => final(accounts)@ == old(
                accounts,
            )@ && if old(accounts)@.len() < 3 {
                r == Err::<Action, CounterError>(CounterError::MissingAccount)
            } else {
                r == Ok::<Action, CounterError>(
                    Action::CreateAccount { space: COUNTER_SIZE as u64, initial_value },
                )
            },
            Ok(CounterInstruction::IncrementCounter) => if old(accounts)@.len() == 0 {
                r == Err::<Action, CounterError>(CounterError::MissingAccount) && final(accounts)@
                    == old(accounts)@
            } else {
                match increment_spec(program_id@, old(accounts)@[0].owner@, old(accounts)@[0].data@) {
                    Err(e) => r == Err::<Action, CounterError>(e) && final(accounts)@ == old(
                        accounts,
                    )@,
                    Ok(b) => r == Ok::<Action, CounterError>(Action::Done) && final(accounts)@.len()
                        == old(accounts)@.len() && final(accounts)@[0].key == old(accounts)@[0].key
                        && final(accounts)@[0].owner == old(accounts)@[0].owner
                        && final(accounts)@[0].data@ == b && forall|i: int|
                        0 < i < old(accounts)@.len() ==> #[trigger] final(accounts)@[i] == old(
                            accounts,
                        )@[i],
                }
            },
        },
{
    let instruction = match CounterInstruction::unpack(instruction_data) {
        Ok(i) => i,
        Err(e) => return Err(e),
    };
    match instruction {
        CounterInstruction::InitializeCounter { initial_value } => process_initialize_counter(
            accounts,
            initial_value,
        ),
        CounterInstruction::IncrementCounter => match process_increment_counter(
            program_id,
            accounts,
        ) {
            Ok(()) => Ok(Action::Done),
            Err(e) => Err(e),
        },
    }
}

/// Writing a fresh counter and then decoding its buffer gives back exactly the
/// starting count.
pub proof fn initialize_then_decode(data: Seq<u8>, initial_value: u64)
    requires
        data.len() == COUNTER_SIZE,
    ensures
        initialize_spec(data, initial_value) is Ok,
        decode_spec(initialize_spec(data, initial_value)->Ok_0) == Some(initial_value),
{
    lemma_decode_encode(initial_value);
}

/// An increment of an owned counter below the largest count stores the count
/// plus one.
pub proof fn increment_adds_one(program_id: Seq<u8>, owner: Seq<u8>, data: Seq<u8>, count: u64)
    requires
        owner == program_id,
        decode_spec(data) == Some(count),
        count < u64::MAX,
    ensures
        increment_spec(program_id, owner, data) == Ok::<Seq<u8>, CounterError>(
            le_bytes((count + 1) as u64),
        ),
        decode_spec(increment_spec(program_id, owner, data)->Ok_0) == Some((count + 1) as u64),
{
    lemma_decode_encode((count + 1) as u64);
}

/// An increment of an owned counter at the largest count fails with an
/// overflow; the handler then leaves the buffer as it was.
pub proof fn increment_at_max_overflows(program_id: Seq<u8>, owner: Seq<u8>, data: Seq<u8>)
    requires
        owner == program_id,
        decode_spec(data) == Some(u64::MAX),
    ensures
        increment_spec(program_id, owner, data) == Err::<Seq<u8>, CounterError>(
            CounterError::ArithmeticOverflow,
        ),
{
}

/// An increment of an account that this program does not own fails with an
/// ownership error, whatever the buffer holds; the handler then leaves the
/// buffer as it was.
pub proof fn increment_needs_owner(program_id: Seq<u8>, owner: Seq<u8>, data: Seq<u8>)
    requires
        owner != program_id,
    ensures
        increment_spec(program_id, owner, data) == Err::<Seq<u8>, CounterError>(
            CounterError::IncorrectOwner,
        ),
{
}

} // verus!
