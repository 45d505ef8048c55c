use std::cmp::Ordering;
use uda_member::UdaMember;

#[test]
fn equal() {
    let member_1 = UdaMember::new(
        1,
        None,
        "John".to_string(),
        "Doe".to_string(),
        "john.doe@email.com".to_string(),
        None,
        true,
    );
    let member_2 = UdaMember::new(
        1,
        None,
        "John".to_string(),
        "Doe".to_string(),
        "john.doe@email.com".to_string(),
        None,
        true,
    );

    assert_eq!(member_1, member_2);
}

#[test]
fn greater_by_last_name() {
    let member_1 = UdaMember::new(
        1,
        None,
        "John".to_string(),
        "Doe".to_string(),
        "john.doe@email.com".to_string(),
        None,
        true,
    );
    let member_2 = UdaMember::new(
        1,
        None,
        "John".to_string(),
        "Jacques".to_string(),
        "john.doe@email.com".to_string(),
        None,
        true,
    );

    assert!(member_1 < member_2);
}

#[test]
fn greater_by_first_name() {
    let member_1 = UdaMember::new(
        1,
        None,
        "John".to_string(),
        "Doe".to_string(),
        "john.doe@email.com".to_string(),
        None,
        true,
    );
    let member_2 = UdaMember::new(
        1,
        None,
        "William".to_string(),
        "Doe".to_string(),
        "john.doe@email.com".to_string(),
        None,
        true,
    );

    assert!(member_1 < member_2);
}

#[test]
fn greater_by_membership_number() {
    let member_1 = UdaMember::new(
        1,
        Some("123456".to_string()),
        "John".to_string(),
        "Doe".to_string(),
        "john.doe@email.com".to_string(),
        None,
        true,
    );
    let member_2 = UdaMember::new(
        1,
        Some("789123".to_string()),
        "John".to_string(),
        "Doe".to_string(),
        "john.doe@email.com".to_string(),
        None,
        true,
    );

    assert!(member_1 < member_2);
}

#[test]
fn absent_membership_number_sorts_before_present() {
    let member_1 = UdaMember::new(
        1,
        None,
        "John".to_string(),
        "Doe".to_string(),
        "john.doe@email.com".to_string(),
        None,
        true,
    );
    let member_2 = UdaMember::new(
        1,
        Some("000001".to_string()),
        "John".to_string(),
        "Doe".to_string(),
        "john.doe@email.com".to_string(),
        None,
        true,
    );

    assert!(member_1 < member_2);
}

#[test]
fn order_equivalent_records_need_not_be_equal() {
    let member_1 = UdaMember::new(
        1,
        Some("123456".to_string()),
        "John".to_string(),
        "Doe".to_string(),
        "john.doe@email.com".to_string(),
        Some("Skating Club".to_string()),
        true,
    );
    let member_2 = UdaMember::new(
        2,
        Some("123456".to_string()),
        "John".to_string(),
        "Doe".to_string(),
        "other@email.com".to_string(),
        None,
        false,
    );

    assert_eq!(member_1.cmp(&member_2), Ordering::Equal);
    assert!(!(member_1 < member_2));
    assert!(!(member_2 < member_1));
    assert_ne!(member_1, member_2);
}

#[test]
fn equality_compares_every_field() {
    let member_1 = UdaMember::new(
        1,
        Some("123456".to_string()),
        "John".to_string(),
        "Doe".to_string(),
        "john.doe@email.com".to_string(),
        Some("Skating Club".to_string()),
        true,
    );
    let member_2 = UdaMember::new(
        1,
        Some("123456".to_string()),
        "John".to_string(),
        "Doe".to_string(),
        "john.doe@email.com".to_string(),
        Some("Skating Club".to_string()),
        true,
    );
    let member_3 = UdaMember::new(
        1,
        Some("123456".to_string()),
        "John".to_string(),
        "Doe".to_string(),
        "john.doe@email.com".to_string(),
        Some("Skating Club".to_string()),
        false,
    );

    assert_eq!(member_1, member_2);
    assert_ne!(member_1, member_3);
}

#[test]
fn accessors_return_the_constructed_fields() {
    let member = UdaMember::new(
        42,
        Some("123456".to_string()),
        "John".to_string(),
        "Doe".to_string(),
        "john.doe@email.com".to_string(),
        Some("Skating Club".to_string()),
        false,
    );

    assert_eq!(member.id(), 42);
    assert_eq!(member.membership_number(), &Some("123456".to_string()));
    assert_eq!(member.first_name(), "John");
    assert_eq!(member.last_name(), "Doe");
    assert_eq!(member.email(), "john.doe@email.com");
    assert_eq!(member.club(), &Some("Skating Club".to_string()));
    assert!(!member.confirmed());
}

#[test]
fn sorting_uses_the_three_keys() {
    let anna = UdaMember::new(
        3,
        None,
        "Anna".to_string(),
        "Doe".to_string(),
        "anna@email.com".to_string(),
        None,
        false,
    );
    let john_no_number = UdaMember::new(
        1,
        None,
        "John".to_string(),
        "Doe".to_string(),
        "john@email.com".to_string(),
        None,
        true,
    );
    let john_with_number = UdaMember::new(
        2,
        Some("123456".to_string()),
        "John".to_string(),
        "Doe".to_string(),
        "john@email.com".to_string(),
        None,
        true,
    );
    let zoe = UdaMember::new(
        4,
        None,
        "Zoe".to_string(),
        "Adams".to_string(),
        "zoe@email.com".to_string(),
        None,
        true,
    );

    let mut members = vec![
        john_with_number.clone(),
        anna.clone(),
        zoe.clone(),
        john_no_number.clone(),
    ];
    members.sort_by(|a, b| a.cmp(b));

    assert_eq!(members[0], zoe);
    assert_eq!(members[1], anna);
    assert_eq!(members[2], john_no_number);
    assert_eq!(members[3], john_with_number);
}
