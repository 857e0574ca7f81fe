use vstd::prelude::*;

verus! {

/// Length in bytes of an encoded [`GreetingAccount`].
pub const GREETING_ACCOUNT_LEN: usize = 4;

/// The state that a greeted account would hold.
#[derive(Debug, Clone, Copy, PartialEq, Eq, Structural)]
pub struct GreetingAccount {
    /// number of transactions
    pub counter: u32,
}

/// Why a byte string is not the encoding of a [`GreetingAccount`].
#[derive(Debug, Clone, Copy, PartialEq, Eq, Structural)]
pub enum DecodeError {
    /// The input ends before the fourth byte.
    UnexpectedLength,
    /// The input goes on after the fourth byte.
    NotAllBytesRead,
}

/// The four bytes that stand for `value`, least significant first.
pub open spec fn le_bytes(value: u32) -> Seq<u8> {
    seq![
        (value % 0x100) as u8,
        (value / 0x100 % 0x100) as u8,
        (value / 0x1_0000 % 0x100) as u8,
        (value / 0x100_0000) as u8,
    ]
}

/// The number that the first four bytes of `bytes` stand for, least
/// significant first.
pub open spec fn le_value(bytes: Seq<u8>) -> int {
    bytes[0] + 0x100 * bytes[1] + 0x1_0000 * bytes[2] + 0x100_0000 * bytes[3]
}

impl GreetingAccount {
    /// The encoding of the record: its counter in four little-endian bytes.
    pub open spec fn encoding(self) -> Seq<u8> {
        le_bytes(self.counter)
    }

    /// The record that four bytes encode.
    pub open spec fn decoded(bytes: Seq<u8>) -> GreetingAccount {
        GreetingAccount { counter: le_value(bytes) as u32 }
    }

    /// Encodes the record.
    pub fn to_bytes(&self) -> (bytes: Vec<u8>)
        ensures
            bytes@ == self.encoding(),
    {
        let counter = self.counter;
        let mut bytes: Vec<u8> = Vec::with_capacity(GREETING_ACCOUNT_LEN);
        bytes.push((counter % 0x100) as u8);
        bytes.push((counter / 0x100 % 0x100) as u8);
        bytes.push((counter / 0x1_0000 % 0x100) as u8);
        bytes.push((counter / 0x100_0000) as u8);
        bytes
    }

    /// Decodes a record from exactly four bytes. Input that ends before the
    /// fourth byte and input that goes on after it are both refused.
    pub fn try_from_slice(bytes: &[u8]) -> (r: Result<GreetingAccount, DecodeError>)
        ensures
            bytes@.len() < GREETING_ACCOUNT_LEN ==> r == Err::<GreetingAccount, DecodeError>(
                DecodeError::UnexpectedLength,
            ),
            bytes@.len() > GREETING_ACCOUNT_LEN ==> r == Err::<GreetingAccount, DecodeError>(
                DecodeError::NotAllBytesRead,
            ),
            bytes@.len() == GREETING_ACCOUNT_LEN ==> r == Ok::<GreetingAccount, DecodeError>(
                GreetingAccount::decoded(bytes@),
            ),
    {
        if bytes.len() < GREETING_ACCOUNT_LEN {
            return Err(DecodeError::UnexpectedLength);
        }
        if bytes.len() > GREETING_ACCOUNT_LEN {
            return Err(DecodeError::NotAllBytesRead);
        }
        let b0: u32 = bytes[0] as u32;
        let b1: u32 = bytes[1] as u32;
        let b2: u32 = bytes[2] as u32;
        let b3: u32 = bytes[3] as u32;
        Ok(GreetingAccount { counter: b0 + 0x100 * b1 + 0x1_0000 * b2 + 0x100_0000 * b3 })
    }
}

/// Decoding gives back the record that was encoded.
pub proof fn decoding_inverts_encoding(greeting: GreetingAccount)
    ensures
        greeting.encoding().len() == GREETING_ACCOUNT_LEN,
        GreetingAccount::decoded(greeting.encoding()) == greeting,
{
}

/// Four bytes always stand for a number that a counter can hold, and
/// encoding gives back the four bytes that were decoded.
pub proof fn encoding_inverts_decoding(bytes: Seq<u8>)
    requires
        bytes.len() == GREETING_ACCOUNT_LEN,
    ensures
        0 <= le_value(bytes) <= u32::MAX,
        GreetingAccount::decoded(bytes).encoding() == bytes,
{
    let value = le_value(bytes) as u32;
    assert(value / 0x100 == bytes[1] + 0x100 * bytes[2] + 0x1_0000 * bytes[3]);
    assert(value / 0x1_0000 == bytes[2] + 0x100 * bytes[3]);
    assert(le_bytes(value) =~= bytes);
}

} // verus!
