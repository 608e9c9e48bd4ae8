use lean_multisig_py::checks::{
    check_aggregate_inputs, check_components_match, check_merge_entry_count,
    check_single_message_binding, collect_decoded, parse_expected_messages,
};
use lean_multisig_py::error::InputError;
use lean_multisig_py::message::{message_to_array, messages_equal, MessageBinding, MESSAGE_LENGTH};

fn binding(fill: u8, slot: u32) -> MessageBinding {
    MessageBinding { message: [fill; MESSAGE_LENGTH], slot }
}

#[test]
fn message_to_array_accepts_exact_length() {
    let bytes: Vec<u8> = (0..32u8).collect();
    let arr = message_to_array(bytes.clone()).unwrap();
    assert_eq!(arr.to_vec(), bytes);
}

#[test]
fn message_to_array_refuses_other_lengths() {
    assert_eq!(message_to_array(vec![0; 31]), Err(InputError::MessageLength { length: 31 }));
    assert_eq!(message_to_array(vec![0; 33]), Err(InputError::MessageLength { length: 33 }));
    assert_eq!(message_to_array(vec![]), Err(InputError::MessageLength { length: 0 }));
}

#[test]
fn messages_equal_compares_every_byte() {
    let a = [3u8; MESSAGE_LENGTH];
    let mut b = a;
    assert!(messages_equal(&a, &b));
    b[31] = 4;
    assert!(!messages_equal(&a, &b));
}

#[test]
fn aggregate_inputs_count_checked_first() {
    assert_eq!(
        check_aggregate_inputs(3, 2, vec![0; 5]),
        Err(InputError::KeySignatureCountMismatch { pub_keys: 3, signatures: 2 })
    );
    assert_eq!(check_aggregate_inputs(2, 2, vec![0; 5]), Err(InputError::MessageLength { length: 5 }));
    assert_eq!(check_aggregate_inputs(0, 0, vec![7; 32]), Ok([7u8; 32]));
}

#[test]
fn single_binding_message_before_slot() {
    assert_eq!(check_single_message_binding(&binding(1, 5), &binding(1, 5)), Ok(()));
    assert_eq!(
        check_single_message_binding(&binding(1, 5), &binding(2, 6)),
        Err(InputError::MessageMismatch)
    );
    assert_eq!(check_single_message_binding(&binding(1, 5), &binding(1, 6)), Err(InputError::SlotMismatch));
}

#[test]
fn merge_needs_an_entry() {
    assert_eq!(check_merge_entry_count(0), Err(InputError::NoEntries));
    assert_eq!(check_merge_entry_count(1), Ok(()));
}

#[test]
fn expected_messages_count_and_lengths() {
    assert_eq!(
        parse_expected_messages(2, vec![(vec![0; 32], 1)]).unwrap_err(),
        InputError::ExpectedMessageCountMismatch { pub_key_lists: 2, expected_messages: 1 }
    );
    assert_eq!(
        parse_expected_messages(3, vec![(vec![0; 32], 1), (vec![0; 3], 2), (vec![0; 4], 3)]).unwrap_err(),
        InputError::MessageLength { length: 3 }
    );
    let parsed = parse_expected_messages(2, vec![(vec![1; 32], 10), (vec![2; 32], 20)]).unwrap();
    assert_eq!(parsed.len(), 2);
    assert_eq!(parsed[0].message, [1u8; 32]);
    assert_eq!(parsed[0].slot, 10);
    assert_eq!(parsed[1].message, [2u8; 32]);
    assert_eq!(parsed[1].slot, 20);
    assert_eq!(parse_expected_messages(0, vec![]).unwrap().len(), 0);
}

#[test]
fn components_match_in_order() {
    let expected = vec![binding(1, 10), binding(2, 20)];
    assert_eq!(check_components_match(&vec![binding(1, 10), binding(2, 20)], &expected), Ok(()));
    assert_eq!(
        check_components_match(&vec![binding(1, 10)], &expected),
        Err(InputError::ComponentCountMismatch { components: 1, expected_messages: 2 })
    );
    assert_eq!(
        check_components_match(&vec![binding(2, 20), binding(1, 10)], &expected),
        Err(InputError::ComponentMessageMismatch { component: 0 })
    );
    assert_eq!(
        check_components_match(&vec![binding(1, 10), binding(2, 21)], &expected),
        Err(InputError::ComponentSlotMismatch { component: 1, expected: 20, got: 21 })
    );
    // the first disagreeing component is reported, message before slot
    assert_eq!(
        check_components_match(&vec![binding(1, 11), binding(3, 20)], &expected),
        Err(InputError::ComponentSlotMismatch { component: 0, expected: 10, got: 11 })
    );
}

#[test]
fn parsed_expected_messages_bind_components() {
    let parsed = parse_expected_messages(1, vec![(vec![5; 32], 42)]).unwrap();
    assert_eq!(check_components_match(&vec![binding(5, 42)], &parsed), Ok(()));
    assert!(check_components_match(&vec![binding(5, 43)], &parsed).is_err());
}

#[test]
fn collect_decoded_reports_first_failure() {
    assert_eq!(collect_decoded(vec![Some(1), Some(2), Some(3)]), Ok(vec![1, 2, 3]));
    assert_eq!(collect_decoded(vec![Some(1), None, Some(3), None]), Err(1));
    assert_eq!(collect_decoded::<u8>(vec![None]), Err(0));
    assert_eq!(collect_decoded::<String>(vec![]), Ok(vec![]));
}

#[test]
fn short_expected_hash_gives_length_error() {
    assert_eq!(
        parse_expected_messages(1, vec![(vec![0u8; 31], 5)]).unwrap_err(),
        InputError::MessageLength { length: 31 }
    );
}
