//! The persisted counter state: exactly eight bytes, the count little-endian.

use vstd::prelude::*;

use borsh::BorshDeserialize;

use crate::error::CounterError;

verus! {

/// Number of bytes of an encoded counter.
pub const COUNTER_SIZE: usize = 8;

/// The eight little-endian bytes of `v`.
pub open spec fn le_bytes(v: u64) -> Seq<u8> {
    seq![
        v as u8,
        (v >> 8u64) as u8,
        (v >> 16u64) as u8,
        (v >> 24u64) as u8,
        (v >> 32u64) as u8,
        (v >> 40u64) as u8,
        (v >> 48u64) as u8,
        (v >> 56u64) as u8,
    ]
}

/// The integer whose little-endian bytes are the first eight of `b`.
pub open spec fn le_value(b: Seq<u8>) -> u64
    recommends
        b.len() >= 8,
{
    (b[0] as u64) | ((b[1] as u64) << 8u64) | ((b[2] as u64) << 16u64) | ((b[3] as u64) << 24u64)
        | ((b[4] as u64) << 32u64) | ((b[5] as u64) << 40u64) | ((b[6] as u64) << 48u64) | ((
    b[7] as u64) << 56u64)
}

/// What a buffer decodes to: its count when it holds exactly eight bytes.
pub open spec fn decode_spec(b: Seq<u8>) -> Option<u64> {
    if b.len() == 8 {
        Some(le_value(b))
    } else {
        None
    }
}

/// Decoding the encoding of a count gives the count back.
pub proof fn lemma_decode_encode(v: u64)
    ensures
        le_bytes(v).len() == 8,
        le_value(le_bytes(v)) == v,
        decode_spec(le_bytes(v)) == Some(v),
{
    let s = le_bytes(v);
    assert(((v as u8) as u64) | ((((v >> 8u64) as u8) as u64) << 8u64) | ((((v >> 16u64) as u8)
        as u64) << 16u64) | ((((v >> 24u64) as u8) as u64) << 24u64) | ((((v >> 32u64) as u8)
        as u64) << 32u64) | ((((v >> 40u64) as u8) as u64) << 40u64) | ((((v >> 48u64) as u8)
        as u64) << 48u64) | ((((v >> 56u64) as u8) as u64) << 56u64) == v) by (bit_vector);
}

/// Relies on `borsh::to_vec` for a `u64`: the serializer writes the eight
/// little-endian bytes into a fresh `Vec`, and writing into a `Vec` never fails.
#[verifier::external_body]
fn borsh_to_vec(v: &u64) -> (r: Option<Vec<u8>>)
    ensures
        match r {
            Some(b) => b@ == le_bytes(*v),
            None => false,
        },
{
    borsh::to_vec(v).ok()
}

/// Relies on `BorshDeserialize::try_from_slice` for a `u64`: it reads eight
/// little-endian bytes and fails when fewer are there or any are left over.
#[verifier::external_body]
fn borsh_try_from_slice(b: &[u8]) -> (r: Option<u64>)
    ensures
        r == decode_spec(b@),
{
    <u64 as BorshDeserialize>::try_from_slice(b).ok()
}

/// The state held in a counter account.
pub struct CounterAccount {
    count: u64,
}

impl View for CounterAccount {
    type V = u64;

    closed spec fn view(&self) -> u64 {
        self.count
    }
}

impl CounterAccount {
    pub fn new(count: u64) -> (r: CounterAccount)
        ensures
            r@ == count,
    {
        CounterAccount { count }
    }

    pub fn count(&self) -> (r: u64)
        ensures
            r == self@,
    {
        self.count
    }

    /// Reads the state from an account buffer, which must hold exactly eight bytes.
    pub fn decode(data: &[u8]) -> (r: Result<CounterAccount, CounterError>)
        ensures
            match decode_spec(data@) {
                Some(v) => r is Ok && r->Ok_0@ == v,
                None => r == Err::<CounterAccount, CounterError>(
                    CounterError::MalformedAccountData,
                ),
            },
    {
        match borsh_try_from_slice(data) {
            Some(count) => Ok(CounterAccount { count }),
            None => Err(CounterError::MalformedAccountData),
        }
    }

    /// The eight bytes that stand for this state.
    pub fn encode(&self) -> (r: Vec<u8>)
        ensures
            r@ == le_bytes(self@),
            r@.len() == COUNTER_SIZE,
    {
        proof {
            lemma_decode_encode(self.count);
        }
        match borsh_to_vec(&self.count) {
            Some(b) => b,
            None => Vec::new(),
        }
    }

    /// Overwrites an eight-byte account buffer with this state, in place. A
    /// buffer of another length is refused and left as it was.
    pub fn encode_into(&self, buf: &mut Vec<u8>) -> (r: Result<(), CounterError>)
        ensures
            old(buf)@.len() == COUNTER_SIZE ==> r is Ok && final(buf)@ == le_bytes(self@),
            old(buf)@.len() != COUNTER_SIZE ==> r == Err::<(), CounterError>(
                CounterError::MalformedAccountData,
            ) && final(buf)@ == old(buf)@,
    {
        if buf.len() != COUNTER_SIZE {
            return Err(CounterError::MalformedAccountData);
        }
        let bytes = self.encode();
        let mut i: usize = 0;
        while i < COUNTER_SIZE
            invariant
                i <= COUNTER_SIZE,
                bytes@.len() == COUNTER_SIZE,
                buf@.len() == COUNTER_SIZE,
                forall|k: int| 0 <= k < i ==> buf@[k] == bytes@[k],
            decreases COUNTER_SIZE - i,
        {
            buf[i] = bytes[i];
            i = i + 1;
        }
        assert(buf@ =~= le_bytes(self@));
        Ok(())
    }
}

} // verus!
