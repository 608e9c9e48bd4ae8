//! The ways in which the arguments of a binding call can be refused.

use vstd::prelude::*;

verus! {

/// An argument refused by the checks that surround aggregation and verification.
#[derive(Debug, Clone, Copy, PartialEq, Eq)]
pub enum InputError {
    /// The numbers of public keys and of raw signatures differ.
    KeySignatureCountMismatch { pub_keys: usize, signatures: usize },
    /// A message hash does not have the required length; `length` is its length.
    MessageLength { length: usize },
    /// The proof attests to another message than the one given.
    MessageMismatch,
    /// The proof attests to another slot than the one given.
    SlotMismatch,
    /// A merge was asked for with no single-message proof at all.
    NoEntries,
    /// The numbers of public-key lists and of expected messages differ.
    ExpectedMessageCountMismatch { pub_key_lists: usize, expected_messages: usize },
    /// The proof has another number of components than messages were expected.
    ComponentCountMismatch { components: usize, expected_messages: usize },
    /// Component `component` attests to another message than the expected one.
    ComponentMessageMismatch { component: usize },
    /// Component `component` attests to slot `got` where `expected` was expected.
    ComponentSlotMismatch { component: usize, expected: u32, got: u32 },
}

} // verus!
