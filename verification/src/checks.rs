//! The decisions that surround aggregation, merging and verification: which
//! arguments are refused, with which error, before and after the prover or
//! verifier runs.

use vstd::prelude::*;
use crate::error::InputError;
use crate::message::{
    MessageBinding, MESSAGE_LENGTH, same_binding, messages_equal, message_to_array,
};

verus! {

/// Validates the arguments of a single-message aggregation: there must be
/// one public key per raw signature, then the message hash must have the
/// right length. Gives the message hash as a fixed-size array.
pub fn check_aggregate_inputs(n_pub_keys: usize, n_signatures: usize, message_hash: Vec<u8>) -> (res:
    Result<[u8; MESSAGE_LENGTH], InputError>)
    ensures
        n_pub_keys != n_signatures ==> res == Err::<[u8; MESSAGE_LENGTH], InputError>(
            InputError::KeySignatureCountMismatch { pub_keys: n_pub_keys, signatures: n_signatures },
        ),
        n_pub_keys == n_signatures && message_hash@.len() == MESSAGE_LENGTH ==> (res matches Ok(a)
            && a@ == message_hash@),
        n_pub_keys == n_signatures && message_hash@.len() != MESSAGE_LENGTH ==> res == Err::<
            [u8; MESSAGE_LENGTH],
            InputError,
        >(InputError::MessageLength { length: message_hash@.len() as usize }),
{
    if n_pub_keys != n_signatures {
        return Err(InputError::KeySignatureCountMismatch { pub_keys: n_pub_keys, signatures: n_signatures });
    }
    message_to_array(message_hash)
}

/// Checks that a single-message proof attests to the given message and slot;
/// the message is compared first.
pub fn check_single_message_binding(signed: &MessageBinding, expected: &MessageBinding) -> (res:
    Result<(), InputError>)
    ensures
        signed.message@ != expected.message@ ==> res == Err::<(), InputError>(
            InputError::MessageMismatch,
        ),
        signed.message@ == expected.message@ && signed.slot != expected.slot ==> res == Err::<
            (),
            InputError,
        >(InputError::SlotMismatch),
        same_binding(*signed, *expected) ==> res == Ok::<(), InputError>(()),
{
    if !messages_equal(&signed.message, &expected.message) {
        return Err(InputError::MessageMismatch);
    }
    if signed.slot != expected.slot {
        return Err(InputError::SlotMismatch);
    }
    Ok(())
}

/// A merge needs at least one single-message proof.
pub fn check_merge_entry_count(n_entries: usize) -> (res: Result<(), InputError>)
    ensures
        n_entries == 0 ==> res == Err::<(), InputError>(InputError::NoEntries),
        n_entries > 0 ==> res == Ok::<(), InputError>(()),
{
    if n_entries == 0 {
        Err(InputError::NoEntries)
    } else {
        Ok(())
    }
}

/// The first `n` components agree with the first `n` expected bindings.
pub open spec fn bindings_agree_before(
    components: Seq<MessageBinding>,
    expected: Seq<MessageBinding>,
    n: int,
) -> bool {
    forall|j: int| 0 <= j < n ==> #[trigger] same_binding(components[j], expected[j])
}

/// The first `n` expected messages have the right length.
pub open spec fn messages_well_sized_before(expected: Seq<(Vec<u8>, u32)>, n: int) -> bool {
    forall|j: int| 0 <= j < n ==> (#[trigger] expected[j]).0@.len() == MESSAGE_LENGTH
}

/// Validates the expected (message hash, slot) pairs of a multi-message
/// verification: one per public-key list, each hash of the right length.
/// Gives them as bindings, in the same order.
pub fn parse_expected_messages(n_pub_key_lists: usize, expected_messages: Vec<(Vec<u8>, u32)>) -> (res:
    Result<Vec<MessageBinding>, InputError>)
    ensures
        n_pub_key_lists != expected_messages@.len() ==> res == Err::<Vec<MessageBinding>, InputError>(
            InputError::ExpectedMessageCountMismatch {
                pub_key_lists: n_pub_key_lists,
                expected_messages: expected_messages@.len() as usize,
            },
        ),
        n_pub_key_lists == expected_messages@.len() ==> (res is Ok <==> messages_well_sized_before(
            expected_messages@,
            expected_messages@.len() as int,
        )),
        res matches Ok(v) ==> v@.len() == expected_messages@.len() && forall|i: int|
            0 <= i < v@.len() ==> (#[trigger] v@[i]).message@ == expected_messages@[i].0@ && v@[i].slot
                == expected_messages@[i].1,
        res matches Err(e) ==> (e is ExpectedMessageCountMismatch || e is MessageLength),
        res matches Err(InputError::ExpectedMessageCountMismatch { .. }) ==> n_pub_key_lists
            != expected_messages@.len(),
        res matches Err(InputError::MessageLength { length }) ==> exists|i: int|
            0 <= i < expected_messages@.len() && messages_well_sized_before(expected_messages@, i)
                && #[trigger] expected_messages@[i].0@.len() != MESSAGE_LENGTH && length
                == expected_messages@[i].0@.len(),
{
    let n = expected_messages.len();
    if n_pub_key_lists != n {
        return Err(InputError::ExpectedMessageCountMismatch {
            pub_key_lists: n_pub_key_lists,
            expected_messages: n,
        });
    }
    let mut parsed: Vec<MessageBinding> = Vec::new();
    let mut i: usize = 0;
    while i < n
        invariant
            n == expected_messages@.len(),
            n == n_pub_key_lists,
            i <= n,
            parsed@.len() == i,
            messages_well_sized_before(expected_messages@, i as int),
            forall|k: int|
                0 <= k < i ==> (#[trigger] parsed@[k]).message@ == expected_messages@[k].0@
                    && parsed@[k].slot == expected_messages@[k].1,
        decreases n - i,
    {
        let message = expected_messages[i].0.clone();
        let slot = expected_messages[i].1;
        match message_to_array(message) {
            Ok(arr) => {
                parsed.push(MessageBinding { message: arr, slot });
            },
            Err(e) => {
                assert(expected_messages@[i as int].0@.len() != MESSAGE_LENGTH);
                assert(!messages_well_sized_before(expected_messages@, n as int));
                return Err(e);
            },
        }
        i += 1;
    }
    Ok(parsed)
}

/// Checks that component `i` of a multi-message proof attests to the `i`-th
/// expected binding, for every `i`. The numbers must agree first; then the
/// first disagreeing component is reported, its message before its slot.
pub fn check_components_match(components: &Vec<MessageBinding>, expected: &Vec<MessageBinding>) -> (res:
    Result<(), InputError>)
    ensures
        components@.len() != expected@.len() ==> res == Err::<(), InputError>(
            InputError::ComponentCountMismatch {
                components: components@.len() as usize,
                expected_messages: expected@.len() as usize,
            },
        ),
        components@.len() == expected@.len() ==> (res is Ok <==> bindings_agree_before(
            components@,
            expected@,
            components@.len() as int,
        )),
        res matches Err(e) ==> (e is ComponentCountMismatch || e is ComponentMessageMismatch
            || e is ComponentSlotMismatch),
        res matches Err(InputError::ComponentCountMismatch { .. }) ==> components@.len()
            != expected@.len(),
        res matches Err(InputError::ComponentMessageMismatch { component }) ==> {
            &&& component < components@.len()
            &&& bindings_agree_before(components@, expected@, component as int)
            &&& components@[component as int].message@ != expected@[component as int].message@
        },
        res matches Err(InputError::ComponentSlotMismatch { component, expected: want, got }) ==> {
            &&& component < components@.len()
            &&& bindings_agree_before(components@, expected@, component as int)
            &&& components@[component as int].message@ == expected@[component as int].message@
            &&& want == expected@[component as int].slot
            &&& got == components@[component as int].slot
            &&& want != got
        },
{
    let n = components.len();
    if n != expected.len() {
        return Err(InputError::ComponentCountMismatch {
            components: n,
            expected_messages: expected.len(),
        });
    }
    let mut i: usize = 0;
    while i < n
        invariant
            n == components@.len(),
            n == expected@.len(),
            i <= n,
            bindings_agree_before(components@, expected@, i as int),
        decreases n - i,
    {
        let c = &components[i];
        let e = &expected[i];
        if !messages_equal(&c.message, &e.message) {
            assert(!same_binding(components@[i as int], expected@[i as int]));
            return Err(InputError::ComponentMessageMismatch { component: i });
        }
        if c.slot != e.slot {
            assert(!same_binding(components@[i as int], expected@[i as int]));
            return Err(InputError::ComponentSlotMismatch { component: i, expected: e.slot, got: c.slot });
        }
        assert(same_binding(components@[i as int], expected@[i as int]));
        i += 1;
    }
    Ok(())
}

/// Once the expected (message hash, slot) pairs are parsed into bindings, a
/// proof whose components attest, in order, to exactly those pairs passes the
/// component check, and one that differs from them anywhere does not.
pub proof fn lemma_parsed_bindings_decide_match(
    components: Seq<MessageBinding>,
    expected_messages: Seq<(Vec<u8>, u32)>,
    parsed: Seq<MessageBinding>,
)
    requires
        parsed.len() == expected_messages.len(),
        forall|i: int|
            0 <= i < parsed.len() ==> (#[trigger] parsed[i]).message@ == expected_messages[i].0@
                && parsed[i].slot == expected_messages[i].1,
        components.len() == expected_messages.len(),
    ensures
        bindings_agree_before(components, parsed, components.len() as int) <==> forall|i: int|
            0 <= i < components.len() ==> (#[trigger] components[i]).message@
                == expected_messages[i].0@ && components[i].slot == expected_messages[i].1,
{
    if bindings_agree_before(components, parsed, components.len() as int) {
        assert forall|i: int| 0 <= i < components.len() implies (#[trigger] components[i]).message@
            == expected_messages[i].0@ && components[i].slot == expected_messages[i].1 by {
            assert(same_binding(components[i], parsed[i]));
        }
    }
    if forall|i: int|
        0 <= i < components.len() ==> (#[trigger] components[i]).message@ == expected_messages[i].0@
            && components[i].slot == expected_messages[i].1 {
        assert forall|j: int| 0 <= j < components.len() implies #[trigger] same_binding(
            components[j],
            parsed[j],
        ) by {
            assert(components[j].message@ == expected_messages[j].0@);
            assert(parsed[j].message@ == expected_messages[j].0@);
        }
    }
}

/// The first `n` items were decoded.
pub open spec fn decoded_before<T>(items: Seq<Option<T>>, n: int) -> bool {
    forall|j: int| 0 <= j < n ==> (#[trigger] items[j]) is Some
}

/// Gathers the outcomes of decoding a list item by item: all of the decoded
/// values, in order, when every item decoded, else the index of the first
/// item that did not.
pub fn collect_decoded<T>(items: Vec<Option<T>>) -> (res: Result<Vec<T>, usize>)
    ensures
        res is Ok <==> decoded_before(items@, items@.len() as int),
        res matches Ok(v) ==> v@.len() == items@.len() && forall|i: int|
            0 <= i < v@.len() ==> Some(#[trigger] v@[i]) == items@[i],
        res matches Err(i) ==> {
            &&& i < items@.len()
            &&& decoded_before(items@, i as int)
            &&& items@[i as int] is None
        },
{
    let ghost orig = items@;
    let n = items.len();
    assert(orig.len() == n);
    let mut out: Vec<T> = Vec::new();
    let mut index: usize = 0;
    for item in it: items.into_iter()
        invariant
            it.seq() == orig,
            orig.len() <= usize::MAX,
            index == it.index(),
            index <= orig.len(),
            out@.len() == index,
            decoded_before(orig, index as int),
            forall|k: int| 0 <= k < index ==> Some(#[trigger] out@[k]) == orig[k],
    {
        match item {
            Some(value) => {
                out.push(value);
            },
            None => {
                return Err(index);
            },
        }
        index += 1;
    }
    Ok(out)
}

} // verus!
