use sim_circuit::llsd::{Date, Scalar, ScalarType, Value};
use sim_circuit::types::Uuid;
use std::collections::HashMap;

fn text(s: &str) -> Scalar {
    Scalar::String(s.to_string())
}

fn id() -> Uuid {
    Uuid {
        bytes: [
            0x67, 0xe5, 0x50, 0x44, 0x10, 0xb1, 0x42, 0x6f, 0x92, 0x47, 0xbb, 0x68, 0x0e, 0x5f,
            0xe0, 0xc8,
        ],
    }
}

#[test]
fn nil_uuid_is_all_zero() {
    assert_eq!(Uuid::nil(), Uuid { bytes: [0; 16] });
    assert!(Uuid::nil().is_nil());
    assert!(!id().is_nil());
    let mut last = [0u8; 16];
    last[15] = 1;
    assert!(!Uuid { bytes: last }.is_nil());
}

#[test]
fn as_bool_of_each_kind() {
    assert_eq!(Scalar::Boolean(true).as_bool(), Some(true));
    assert_eq!(Scalar::Boolean(false).as_bool(), Some(false));
    assert_eq!(Scalar::Integer(0).as_bool(), Some(false));
    assert_eq!(Scalar::Integer(-3).as_bool(), Some(true));
    assert_eq!(Scalar::Real(0f64.to_bits()).as_bool(), Some(false));
    assert_eq!(Scalar::Real((-0f64).to_bits()).as_bool(), Some(false));
    assert_eq!(Scalar::Real(0.5f64.to_bits()).as_bool(), Some(true));
    assert_eq!(Scalar::Real(f64::NAN.to_bits()).as_bool(), Some(true));
    assert_eq!(Scalar::Real(f64::MIN_POSITIVE.to_bits()).as_bool(), Some(true));
    assert_eq!(Scalar::Uuid(Uuid::nil()).as_bool(), Some(false));
    assert_eq!(Scalar::Uuid(id()).as_bool(), Some(true));
    assert_eq!(text("1").as_bool(), Some(true));
    assert_eq!(text("true").as_bool(), Some(true));
    assert_eq!(text("TRUE").as_bool(), Some(false));
    assert_eq!(text("").as_bool(), Some(false));
    assert_eq!(Scalar::Date(Date { secs: 1, nanos: 0 }).as_bool(), None);
    assert_eq!(Scalar::Uri("1".to_string()).as_bool(), None);
    assert_eq!(Scalar::Binary(vec![]).as_bool(), Some(false));
    assert_eq!(Scalar::Binary(vec![0]).as_bool(), Some(true));
    assert_eq!(Scalar::Undefined.as_bool(), None);
}

#[test]
fn as_int_of_each_kind() {
    assert_eq!(Scalar::Boolean(true).as_int(), Some(1));
    assert_eq!(Scalar::Boolean(false).as_int(), Some(0));
    assert_eq!(Scalar::Integer(-17).as_int(), Some(-17));
    assert_eq!(Scalar::Uuid(id()).as_int(), None);
    assert_eq!(Scalar::Uri("12".to_string()).as_int(), None);
    assert_eq!(Scalar::Undefined.as_int(), None);
    assert_eq!(Scalar::Date(Date { secs: 1_500_000_000, nanos: 5 }).as_int(), Some(1_500_000_000));
    assert_eq!(Scalar::Date(Date { secs: -1, nanos: 0 }).as_int(), Some(-1));
    // Seconds beyond 32 bits are cut to their low 32 bits.
    assert_eq!(Scalar::Date(Date { secs: 0x1_0000_0005, nanos: 0 }).as_int(), Some(5));
    assert_eq!(Scalar::Date(Date { secs: 0x8000_0000, nanos: 0 }).as_int(), Some(i32::MIN));
}

#[test]
fn as_int_finds_the_first_number_in_a_text() {
    assert_eq!(text("42").as_int(), Some(42));
    assert_eq!(text("abc -42 and 7").as_int(), Some(-42));
    assert_eq!(text("x12y34").as_int(), Some(12));
    assert_eq!(text("3.9").as_int(), Some(3));
    assert_eq!(text("--5").as_int(), Some(-5));
    assert_eq!(text("2147483647").as_int(), Some(i32::MAX));
    assert_eq!(text("-2147483648").as_int(), Some(i32::MIN));
    assert_eq!(text("none").as_int(), None);
    assert_eq!(text("").as_int(), None);
    assert_eq!(text("-").as_int(), None);
}

#[test]
fn as_int_reads_big_endian_from_binary() {
    assert_eq!(Scalar::Binary(vec![0, 0, 1, 2]).as_int(), Some(258));
    assert_eq!(Scalar::Binary(vec![0xff, 0xff, 0xff, 0xfe, 9, 9]).as_int(), Some(-2));
    assert_eq!(Scalar::Binary(vec![0x80, 0, 0, 0]).as_int(), Some(i32::MIN));
    assert_eq!(Scalar::Binary(vec![0x7f, 0xff, 0xff, 0xff]).as_int(), Some(i32::MAX));
    assert_eq!(Scalar::Binary(vec![1, 2, 3]).as_int(), None);
    assert_eq!(Scalar::Binary(vec![]).as_int(), None);
}

#[test]
fn checked_as_int_says_where_nothing_is_computed() {
    assert_eq!(Scalar::Real(1.5f64.to_bits()).checked_as_int(), None);
    assert_eq!(text("99999999999").checked_as_int(), None);
    assert_eq!(text("-99999999999 1").checked_as_int(), None);
    assert_eq!(text("2147483648").checked_as_int(), None);
    assert_eq!(text("17").checked_as_int(), Some(Some(17)));
    assert_eq!(text("no number").checked_as_int(), Some(None));
    assert_eq!(Scalar::Integer(3).checked_as_int(), Some(Some(3)));
    assert_eq!(Scalar::Undefined.checked_as_int(), Some(None));
    assert_eq!(Scalar::Binary(vec![0, 0, 0, 9]).checked_as_int(), Some(Some(9)));
}

#[test]
fn as_uuid_of_each_kind() {
    assert_eq!(Scalar::Uuid(id()).as_uuid(), Some(id()));
    assert_eq!(text("67e55044-10b1-426f-9247-bb680e5fe0c8").as_uuid(), Some(id()));
    assert_eq!(text("67e5504410b1426f9247bb680e5fe0c8").as_uuid(), Some(id()));
    assert_eq!(text("67e55044").as_uuid(), None);
    assert_eq!(text("").as_uuid(), None);
    let mut bytes = id().bytes.to_vec();
    assert_eq!(Scalar::Binary(bytes.clone()).as_uuid(), Some(id()));
    bytes.push(0xff);
    assert_eq!(Scalar::Binary(bytes).as_uuid(), Some(id()));
    assert_eq!(Scalar::Binary(vec![1; 15]).as_uuid(), None);
    assert_eq!(Scalar::Boolean(true).as_uuid(), None);
    assert_eq!(Scalar::Integer(1).as_uuid(), None);
    assert_eq!(Scalar::Real(0).as_uuid(), None);
    assert_eq!(Scalar::Date(Date { secs: 0, nanos: 0 }).as_uuid(), None);
    assert_eq!(Scalar::Uri("67e55044-10b1-426f-9247-bb680e5fe0c8".to_string()).as_uuid(), None);
    assert_eq!(Scalar::Undefined.as_uuid(), None);
}

#[test]
fn as_string_of_each_kind() {
    assert_eq!(Scalar::Boolean(true).as_string(), Some("true".to_string()));
    assert_eq!(Scalar::Boolean(false).as_string(), Some("false".to_string()));
    assert_eq!(Scalar::Integer(-120).as_string(), Some("-120".to_string()));
    assert_eq!(Scalar::Integer(0).as_string(), Some("0".to_string()));
    assert_eq!(
        Scalar::Uuid(id()).as_string(),
        Some("67e55044-10b1-426f-9247-bb680e5fe0c8".to_string())
    );
    assert_eq!(text("hello").as_string(), Some("hello".to_string()));
    assert_eq!(
        Scalar::Date(Date { secs: 1_431_648_000, nanos: 0 }).as_string(),
        Some("2015-05-15T00:00:00+00:00".to_string())
    );
    assert_eq!(
        Scalar::Date(Date { secs: 0, nanos: 500_000_000 }).as_string(),
        Some("1970-01-01T00:00:00.500+00:00".to_string())
    );
    assert_eq!(Scalar::Date(Date { secs: i64::MAX, nanos: 0 }).as_string(), None);
    assert_eq!(Scalar::Uri("a:b".to_string()).as_string(), Some("a:b".to_string()));
    assert_eq!(Scalar::Binary(vec![b'h', b'i']).as_string(), Some("hi".to_string()));
    assert_eq!(
        Scalar::Binary(vec![b'h', 0xff, b'i']).as_string(),
        Some("h\u{fffd}i".to_string())
    );
    assert_eq!(Scalar::Undefined.as_string(), None);
}

#[test]
fn as_date_of_each_kind() {
    assert_eq!(Scalar::Integer(86_400).as_date(), Some(Date { secs: 86_400, nanos: 0 }));
    assert_eq!(Scalar::Integer(-1).as_date(), Some(Date { secs: -1, nanos: 0 }));
    assert_eq!(
        text("2015-05-15T00:00:00Z").as_date(),
        Some(Date { secs: 1_431_648_000, nanos: 0 })
    );
    assert_eq!(
        text("1970-01-01T01:00:00.25+01:00").as_date(),
        Some(Date { secs: 0, nanos: 250_000_000 })
    );
    assert_eq!(text("yesterday").as_date(), None);
    let d = Date { secs: 12, nanos: 34 };
    assert_eq!(Scalar::Date(d).as_date(), Some(d));
    assert_eq!(Scalar::Boolean(true).as_date(), None);
    assert_eq!(Scalar::Uuid(id()).as_date(), None);
    assert_eq!(Scalar::Uri("2015-05-15T00:00:00Z".to_string()).as_date(), None);
    assert_eq!(Scalar::Binary(vec![0, 0, 0, 1]).as_date(), None);
    assert_eq!(Scalar::Undefined.as_date(), None);
}

#[test]
fn as_uri_of_each_kind() {
    assert_eq!(text("http://a").as_uri(), Some("http://a".to_string()));
    assert_eq!(Scalar::Uri("http://b".to_string()).as_uri(), Some("http://b".to_string()));
    assert_eq!(Scalar::Binary(b"http://c".to_vec()).as_uri(), Some("http://c".to_string()));
    assert_eq!(Scalar::Boolean(true).as_uri(), None);
    assert_eq!(Scalar::Integer(1).as_uri(), None);
    assert_eq!(Scalar::Real(1).as_uri(), None);
    assert_eq!(Scalar::Uuid(id()).as_uri(), None);
    assert_eq!(Scalar::Date(Date { secs: 0, nanos: 0 }).as_uri(), None);
    assert_eq!(Scalar::Undefined.as_uri(), None);
}

#[test]
fn as_binary_of_each_kind() {
    assert_eq!(Scalar::Boolean(true).as_binary(), Some(vec![1]));
    assert_eq!(Scalar::Boolean(false).as_binary(), Some(vec![0]));
    assert_eq!(Scalar::Uuid(id()).as_binary(), Some(id().bytes.to_vec()));
    assert_eq!(text("h\u{e9}").as_binary(), Some(vec![b'h', 0xc3, 0xa9]));
    assert_eq!(Scalar::Binary(vec![3, 2, 1]).as_binary(), Some(vec![3, 2, 1]));
    assert_eq!(Scalar::Date(Date { secs: 0, nanos: 0 }).as_binary(), None);
    assert_eq!(Scalar::Uri("u".to_string()).as_binary(), None);
    assert_eq!(Scalar::Undefined.as_binary(), None);
}

#[test]
fn parse_scalar_of_each_kind() {
    assert_eq!(ScalarType::Boolean.parse_scalar(b"true"), Some(Scalar::Boolean(true)));
    assert_eq!(ScalarType::Boolean.parse_scalar(b"0"), Some(Scalar::Boolean(false)));
    assert_eq!(ScalarType::Integer.parse_scalar(b"-12"), Some(Scalar::Integer(-12)));
    assert_eq!(ScalarType::Integer.parse_scalar(b"twelve"), None);
    assert_eq!(
        ScalarType::Uuid.parse_scalar(b"67e55044-10b1-426f-9247-bb680e5fe0c8"),
        Some(Scalar::Uuid(id()))
    );
    assert_eq!(ScalarType::Uuid.parse_scalar(b"nope"), None);
    assert_eq!(ScalarType::String.parse_scalar(b"abc"), Some(text("abc")));
    assert_eq!(
        ScalarType::String.parse_scalar(&[b'a', 0xff]),
        Some(text("a\u{fffd}"))
    );
    assert_eq!(
        ScalarType::Date.parse_scalar(b"2015-05-15T00:00:00Z"),
        Some(Scalar::Date(Date { secs: 1_431_648_000, nanos: 0 }))
    );
    assert_eq!(ScalarType::Date.parse_scalar(b"soon"), None);
    assert_eq!(
        ScalarType::Uri.parse_scalar(b"http://a"),
        Some(Scalar::Uri("http://a".to_string()))
    );
    assert_eq!(ScalarType::Binary.parse_scalar(b"abc"), None);
    assert_eq!(ScalarType::Undefined.parse_scalar(b"abc"), None);
}

#[test]
fn checked_parse_scalar_says_where_nothing_is_computed() {
    assert_eq!(ScalarType::Real.checked_parse_scalar(b"1.5"), None);
    assert_eq!(ScalarType::Integer.checked_parse_scalar(b"99999999999"), None);
    assert_eq!(
        ScalarType::Integer.checked_parse_scalar(b"15"),
        Some(Some(Scalar::Integer(15)))
    );
    assert_eq!(ScalarType::Integer.checked_parse_scalar(b"x"), Some(None));
    assert_eq!(
        ScalarType::Boolean.checked_parse_scalar(b"1"),
        Some(Some(Scalar::Boolean(true)))
    );
    assert_eq!(ScalarType::Binary.checked_parse_scalar(b"1"), Some(None));
}

#[test]
fn value_hands_out_what_it_holds() {
    let s = Value::new_integer(5);
    assert_eq!(s.scalar_ref(), Some(&Scalar::Integer(5)));
    assert_eq!(s.map_ref(), None);
    assert_eq!(s.array_ref(), None);
    assert_eq!(s.scalar(), Some(Scalar::Integer(5)));

    let mut m = HashMap::new();
    m.insert("k".to_string(), Value::new_boolean(true));
    let v = Value::Mapping(m);
    assert!(v.scalar_ref().is_none());
    assert!(v.array_ref().is_none());
    assert_eq!(v.map_ref().unwrap().get("k"), Some(&Value::new_boolean(true)));
    assert_eq!(v.map().unwrap().len(), 1);

    let v = Value::Array(vec![Value::new_integer(1), Value::new_integer(2)]);
    assert!(v.scalar_ref().is_none());
    assert!(v.map_ref().is_none());
    assert_eq!(v.array_ref().unwrap().len(), 2);
    assert_eq!(v.array(), Some(vec![Value::new_integer(1), Value::new_integer(2)]));
    assert_eq!(Value::new_integer(1).map(), None);
    assert_eq!(Value::new_integer(1).array(), None);
    assert_eq!(Value::Array(vec![]).scalar(), None);
}

#[test]
fn value_constructors_wrap_scalars() {
    assert_eq!(Value::new_boolean(true), Value::Scalar(Scalar::Boolean(true)));
    assert_eq!(Value::new_integer(-1), Value::Scalar(Scalar::Integer(-1)));
    assert_eq!(
        Value::new_real(2.5f64.to_bits()),
        Value::Scalar(Scalar::Real(0x4004_0000_0000_0000))
    );
    assert_eq!(Value::new_uuid(id()), Value::Scalar(Scalar::Uuid(id())));
    assert_eq!(Value::new_string("s"), Value::Scalar(text("s")));
    assert_eq!(Value::new_string("s".to_string()), Value::Scalar(text("s")));
    let d = Date { secs: 3, nanos: 4 };
    assert_eq!(Value::new_date(d), Value::Scalar(Scalar::Date(d)));
    assert_eq!(Value::new_uri("u"), Value::Scalar(Scalar::Uri("u".to_string())));
    assert_eq!(Value::new_binary(vec![1]), Value::Scalar(Scalar::Binary(vec![1])));
}
