use uda_member::codec::{decode, encode, DecodeError, EncodedField, EncodedValue, FieldKey};
use uda_member::UdaMember;

#[test]
fn round_trip_with_all_fields_present() {
    let member = UdaMember::new(
        7,
        Some("123456".to_string()),
        "John".to_string(),
        "Doe".to_string(),
        "john.doe@email.com".to_string(),
        Some("Skating Club".to_string()),
        true,
    );

    let encoded = encode(&member);
    let decoded = decode(&encoded).expect("a canonical encoding must decode");

    assert_eq!(decoded, member);
}

#[test]
fn round_trip_with_absent_optional_fields() {
    let member = UdaMember::new(
        0,
        None,
        "John".to_string(),
        "Doe".to_string(),
        "john.doe@email.com".to_string(),
        None,
        false,
    );

    let encoded = encode(&member);
    let decoded = decode(&encoded).expect("a canonical encoding must decode");

    assert_eq!(decoded, member);
}

#[test]
fn encoding_is_field_named() {
    let member = UdaMember::new(
        7,
        None,
        "John".to_string(),
        "Doe".to_string(),
        "john.doe@email.com".to_string(),
        None,
        true,
    );

    let encoded = encode(&member);
    let names: Vec<&str> = encoded.iter().map(|f| f.name.as_str()).collect();

    assert_eq!(
        names,
        vec![
            "id",
            "membership_number",
            "first_name",
            "last_name",
            "email",
            "club",
            "confirmed"
        ]
    );
}

#[test]
fn decode_accepts_fields_in_any_order() {
    let member = UdaMember::new(
        7,
        Some("123456".to_string()),
        "John".to_string(),
        "Doe".to_string(),
        "john.doe@email.com".to_string(),
        None,
        true,
    );

    let mut encoded = encode(&member);
    encoded.reverse();
    let decoded = decode(&encoded).expect("field order must not matter");

    assert_eq!(decoded, member);
}

#[test]
fn decode_ignores_unknown_fields() {
    let member = UdaMember::new(
        7,
        None,
        "John".to_string(),
        "Doe".to_string(),
        "john.doe@email.com".to_string(),
        None,
        true,
    );

    let mut encoded = encode(&member);
    encoded.push(EncodedField {
        name: "country".to_string(),
        value: EncodedValue::Text("France".to_string()),
    });
    let decoded = decode(&encoded).expect("unknown fields are ignored");

    assert_eq!(decoded, member);
}

#[test]
fn decode_fails_on_missing_last_name() {
    let member = UdaMember::new(
        7,
        None,
        "John".to_string(),
        "Doe".to_string(),
        "john.doe@email.com".to_string(),
        None,
        true,
    );

    let encoded: Vec<EncodedField> = encode(&member)
        .into_iter()
        .filter(|f| f.name != "last_name")
        .collect();

    assert_eq!(
        decode(&encoded),
        Err(DecodeError::MissingField(FieldKey::LastName))
    );
}

#[test]
fn decode_fails_on_confirmed_encoded_as_text() {
    let member = UdaMember::new(
        7,
        None,
        "John".to_string(),
        "Doe".to_string(),
        "john.doe@email.com".to_string(),
        None,
        true,
    );

    let encoded: Vec<EncodedField> = encode(&member)
        .into_iter()
        .map(|f| {
            if f.name == "confirmed" {
                EncodedField {
                    name: f.name,
                    value: EncodedValue::Text("true".to_string()),
                }
            } else {
                f
            }
        })
        .collect();

    assert_eq!(
        decode(&encoded),
        Err(DecodeError::WrongType(FieldKey::Confirmed))
    );
}

#[test]
fn decode_fails_on_id_encoded_as_text() {
    let member = UdaMember::new(
        7,
        None,
        "John".to_string(),
        "Doe".to_string(),
        "john.doe@email.com".to_string(),
        None,
        true,
    );

    let encoded: Vec<EncodedField> = encode(&member)
        .into_iter()
        .map(|f| {
            if f.name == "id" {
                EncodedField {
                    name: f.name,
                    value: EncodedValue::Text("7".to_string()),
                }
            } else {
                f
            }
        })
        .collect();

    assert_eq!(decode(&encoded), Err(DecodeError::WrongType(FieldKey::Id)));
}

#[test]
fn decode_fails_on_malformed_optional_club() {
    let member = UdaMember::new(
        7,
        None,
        "John".to_string(),
        "Doe".to_string(),
        "john.doe@email.com".to_string(),
        None,
        true,
    );

    let encoded: Vec<EncodedField> = encode(&member)
        .into_iter()
        .map(|f| {
            if f.name == "club" {
                EncodedField {
                    name: f.name,
                    value: EncodedValue::Flag(false),
                }
            } else {
                f
            }
        })
        .collect();

    assert_eq!(
        decode(&encoded),
        Err(DecodeError::MalformedOptional(FieldKey::Club))
    );
}

#[test]
fn decode_of_empty_representation_misses_id_first() {
    let encoded: Vec<EncodedField> = Vec::new();

    assert_eq!(
        decode(&encoded),
        Err(DecodeError::MissingField(FieldKey::Id))
    );
}

#[test]
fn first_occurrence_of_a_field_wins() {
    let member = UdaMember::new(
        7,
        None,
        "John".to_string(),
        "Doe".to_string(),
        "john.doe@email.com".to_string(),
        None,
        true,
    );

    let mut encoded = encode(&member);
    encoded.push(EncodedField {
        name: "first_name".to_string(),
        value: EncodedValue::Text("Jane".to_string()),
    });
    let decoded = decode(&encoded).expect("duplicate names keep the first value");

    assert_eq!(decoded.first_name(), "John");
}
