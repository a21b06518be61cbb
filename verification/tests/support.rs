use api_ads::enum_codec::{
    deserialize_enum_or_unknown, serialize_enum_or_unknown, EnumEncoding, EnumField, EnumToken,
};
use api_ads::env::{has_content, present_value, redis_url};
use api_ads::errors::{DatabaseError, SchemaError};
use api_ads::interface::{MutationType, Params};

#[test]
fn blank_values_are_absent() {
    assert_eq!(present_value(None), None);
    assert_eq!(present_value(Some("".to_string())), None);
    assert_eq!(present_value(Some(" \t\n".to_string())), None);
    assert_eq!(present_value(Some(" x ".to_string())), Some(" x ".to_string()));
    assert!(has_content("8080"));
    assert!(!has_content("\u{3000}"));
}

#[test]
fn redis_urls() {
    assert_eq!(redis_url("localhost", "6379", None, None), "redis://localhost:6379");
    assert_eq!(redis_url("h", "1", Some("2"), Some("pw")), "redis://pw@h:1/2");
}

#[test]
fn enum_fields_round_trip() {
    let e = serialize_enum_or_unknown(Some(EnumField::Known { number: 2, name: "TWO".to_string() }));
    assert!(matches!(&e, EnumEncoding::Name(n) if n == "TWO"));
    assert!(matches!(serialize_enum_or_unknown(Some(EnumField::Unknown(9))), EnumEncoding::Number(9)));
    assert!(matches!(serialize_enum_or_unknown(None), EnumEncoding::Unit));
    assert_eq!(deserialize_enum_or_unknown(EnumToken::Str("TWO".to_string()), Some(2)), Ok(Some(2)));
    assert_eq!(
        deserialize_enum_or_unknown(EnumToken::Str("SIX".to_string()), None),
        Err("unknown enum value: SIX".to_string())
    );
    assert_eq!(deserialize_enum_or_unknown(EnumToken::Int(9), None), Ok(Some(9)));
    assert_eq!(deserialize_enum_or_unknown(EnumToken::Unit, None), Ok(None));
}

#[test]
fn error_messages() {
    assert_eq!(DatabaseError::Unknown.to_string(), "unknown error");
    assert_eq!(SchemaError::Unknown.to_string(), "unknown schema error");
    assert_eq!(
        SchemaError::from(DatabaseError::Unknown).to_string(),
        "could not establish database connection"
    );
}

#[test]
fn params_keep_arguments() {
    let p = Params::new(Some("a".to_string()), None, Some(2), None);
    assert_eq!(p.after, Some("a".to_string()));
    assert_eq!(p.before, None);
    assert_eq!(p.first, Some(2));
    assert_eq!(p.last, None);
    assert!(MutationType::Created != MutationType::Deleted);
}
