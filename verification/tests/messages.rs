use rust_hello::messages::{struct_ack_msg, struct_acc_msg, struct_version_msg};

#[test]
fn acc_advances_by_one_two_three() {
    let mut acc = struct_acc_msg { x: 1, y: 2, z: 3 };
    assert!(acc.advance());
    assert_eq!(acc, struct_acc_msg { x: 2, y: 4, z: 6 });
    assert!(acc.advance());
    assert_eq!(acc, struct_acc_msg { x: 3, y: 6, z: 9 });
}

#[test]
fn acc_at_limit_is_left_unchanged() {
    let start = struct_acc_msg { x: 0, y: i32::MAX - 1, z: 0 };
    let mut acc = start;
    assert!(!acc.advance());
    assert_eq!(acc, start);
    let mut edge = struct_acc_msg { x: i32::MAX - 1, y: i32::MAX - 2, z: i32::MAX - 3 };
    assert!(edge.advance());
    assert_eq!(edge, struct_acc_msg { x: i32::MAX, y: i32::MAX, z: i32::MAX });
    assert!(!edge.advance());
}

#[test]
fn message_defaults_are_zero() {
    assert_eq!(struct_version_msg::default(), struct_version_msg { major: 0, minor: 0, build: 0 });
    assert_eq!(struct_ack_msg::default().sequence, 0);
}
