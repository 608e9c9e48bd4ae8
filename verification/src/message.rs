//! Message hashes and the (message, slot) pairs that proofs attest to.

use vstd::prelude::*;
use crate::error::InputError;

verus! {

/// Length in bytes of a message hash.
pub const MESSAGE_LENGTH: usize = 32;

/// A message hash together with the slot it is signed for.
#[derive(Debug, Clone, Copy)]
pub struct MessageBinding {
    pub message: [u8; MESSAGE_LENGTH],
    pub slot: u32,
}

/// Two bindings name the same message and the same slot.
pub open spec fn same_binding(a: MessageBinding, b: MessageBinding) -> bool {
    a.message@ == b.message@ && a.slot == b.slot
}

/// Whether two message hashes are equal, byte for byte.
pub fn messages_equal(a: &[u8; MESSAGE_LENGTH], b: &[u8; MESSAGE_LENGTH]) -> (res: bool)
    ensures
        res == (a@ == b@),
{
    let mut i: usize = 0;
    while i < MESSAGE_LENGTH
        invariant
            i <= MESSAGE_LENGTH,
            a@.len() == MESSAGE_LENGTH,
            b@.len() == MESSAGE_LENGTH,
            forall|j: int| 0 <= j < i ==> a@[j] == b@[j],
        decreases MESSAGE_LENGTH - i,
    {
        if a[i] != b[i] {
            return false;
        }
        i += 1;
    }
    assert(a@ =~= b@);
    true
}

/// Copies a byte string of exactly `MESSAGE_LENGTH` bytes into a message hash.
fn message_from_slice(bytes: &[u8]) -> (res: Result<[u8; MESSAGE_LENGTH], InputError>)
    ensures
        bytes@.len() == MESSAGE_LENGTH ==> (res matches Ok(a) && a@ == bytes@),
        bytes@.len() != MESSAGE_LENGTH ==> res == Err::<[u8; MESSAGE_LENGTH], InputError>(
            InputError::MessageLength { length: bytes@.len() as usize },
        ),
{
    if bytes.len() != MESSAGE_LENGTH {
        return Err(InputError::MessageLength { length: bytes.len() });
    }
    let mut arr = [0u8; MESSAGE_LENGTH];
    let mut i: usize = 0;
    while i < MESSAGE_LENGTH
        invariant
            i <= MESSAGE_LENGTH,
            bytes@.len() == MESSAGE_LENGTH,
            arr@.len() == MESSAGE_LENGTH,
            forall|j: int| 0 <= j < i ==> arr@[j] == bytes@[j],
        decreases MESSAGE_LENGTH - i,
    {
        arr[i] = bytes[i];
        i += 1;
    }
    assert(arr@ =~= bytes@);
    Ok(arr)
}

/// Turns a message hash given as bytes into a fixed-size hash; it must be
/// exactly `MESSAGE_LENGTH` bytes long.
pub fn message_to_array(message_hash: Vec<u8>) -> (res: Result<[u8; MESSAGE_LENGTH], InputError>)
    ensures
        message_hash@.len() == MESSAGE_LENGTH ==> (res matches Ok(a) && a@ == message_hash@),
        message_hash@.len() != MESSAGE_LENGTH ==> res == Err::<[u8; MESSAGE_LENGTH], InputError>(
            InputError::MessageLength { length: message_hash@.len() as usize },
        ),
{
    message_from_slice(message_hash.as_slice())
}

} // verus!
