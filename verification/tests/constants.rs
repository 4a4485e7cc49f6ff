use basis::constants::{
    is_valid_scs_message, message_name, SCS_MESSAGE_IDS, TOTAL_MESSAGE_TYPES,
};

#[test]
fn test_message_ids_valid_range() {
    for &id in SCS_MESSAGE_IDS.iter() {
        assert!(is_valid_scs_message(id), "ID 0x{:03X} should be valid", id);
    }
}

#[test]
fn test_message_ids_count() {
    assert_eq!(SCS_MESSAGE_IDS.len(), TOTAL_MESSAGE_TYPES);
}

#[test]
fn test_all_message_ids_sequential() {
    for i in 0..TOTAL_MESSAGE_TYPES {
        assert_eq!(
            SCS_MESSAGE_IDS[i],
            0x300 + (i as u32),
            "Message IDs should be sequential from 0x300"
        );
    }
}

#[test]
fn ids_outside_the_range_are_not_scs() {
    assert!(!is_valid_scs_message(0x2FF));
    assert!(!is_valid_scs_message(0x311));
    assert!(!is_valid_scs_message(0));
    assert!(is_valid_scs_message(0x300));
    assert!(is_valid_scs_message(0x310));
}

#[test]
fn message_names() {
    assert_eq!(message_name(0x300), "Engine Control");
    assert_eq!(message_name(0x307), "Barometric Pressure & Boost Control");
    assert_eq!(message_name(0x30D), "Crank Counter & Learn Values");
    assert_eq!(message_name(0x310), "Knock Retard");
    assert_eq!(message_name(0x311), "Unknown");
    assert_eq!(message_name(0x520), "Unknown");
}

#[test]
fn message_names_are_distinct_and_unknown_only_outside_the_range() {
    for &a in SCS_MESSAGE_IDS.iter() {
        assert_ne!(message_name(a), "Unknown");
        for &b in SCS_MESSAGE_IDS.iter() {
            if a != b {
                assert_ne!(message_name(a), message_name(b), "0x{:03X} 0x{:03X}", a, b);
            }
        }
    }
    assert_eq!(message_name(0x30A), "Scaled Throttle & Pedal");
    for id in [0u32, 0x2FF, 0x311, 0x520, u32::MAX] {
        assert_eq!(message_name(id), "Unknown");
    }
}
