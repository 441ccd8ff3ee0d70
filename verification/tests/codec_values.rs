//! Round trips of the individual AVP value codecs.

use diameter::avp::address::{Address, Value};
use diameter::avp::enumerated::Enumerated;
use diameter::avp::float32::Float32;
use diameter::avp::float64::Float64;
use diameter::avp::identity::Identity;
use diameter::avp::integer32::Integer32;
use diameter::avp::integer64::Integer64;
use diameter::avp::ipv4::IPv4;
use diameter::avp::ipv6::IPv6;
use diameter::avp::octetstring::OctetString;
use diameter::avp::time::Time;
use diameter::avp::unsigned32::Unsigned32;
use diameter::avp::unsigned64::Unsigned64;
use diameter::avp::utf8string::UTF8String;
use diameter::bytes::Cursor;
use diameter::error::Error;

#[test]
fn enumerated_test_encode_decode() {
    let avp = Enumerated::new(1234567890);
    let mut encoded = Vec::new();
    avp.encode_to(&mut encoded).unwrap();
    let mut cursor = Cursor::new(encoded);
    let avp = Enumerated::decode_from(&mut cursor).unwrap();
    assert_eq!(avp.value(), 1234567890);
}

#[test]
fn integer32_test_encode_decode() {
    let avp = Integer32::new(1234567890);
    let mut encoded = Vec::new();
    avp.encode_to(&mut encoded).unwrap();
    let mut cursor = Cursor::new(encoded);
    let avp = Integer32::decode_from(&mut cursor).unwrap();
    assert_eq!(avp.value(), 1234567890);
}

#[test]
fn integer64_test_encode_decode() {
    let avp = Integer64::new(123456789000000000);
    let mut encoded = Vec::new();
    avp.encode_to(&mut encoded).unwrap();
    let mut cursor = Cursor::new(encoded);
    let avp = Integer64::decode_from(&mut cursor).unwrap();
    assert_eq!(avp.value(), 123456789000000000);
}

#[test]
fn unsigned32_test_encode_decode() {
    let avp = Unsigned32::new(1234567890);
    let mut encoded = Vec::new();
    avp.encode_to(&mut encoded).unwrap();
    let mut cursor = Cursor::new(encoded);
    let avp = Unsigned32::decode_from(&mut cursor).unwrap();
    assert_eq!(avp.value(), 1234567890);
}

#[test]
fn unsigned64_test_encode_decode() {
    let avp = Unsigned64::new(123456789000000000);
    let mut encoded = Vec::new();
    avp.encode_to(&mut encoded).unwrap();
    let mut cursor = Cursor::new(encoded);
    let avp = Unsigned64::decode_from(&mut cursor).unwrap();
    assert_eq!(avp.value(), 123456789000000000);
}

#[test]
fn float32_test_encode_decode() {
    let avp = Float32::new((-3.142_f32).to_bits());
    let mut encoded = Vec::new();
    avp.encode_to(&mut encoded).unwrap();
    let mut cursor = Cursor::new(encoded);
    let avp = Float32::decode_from(&mut cursor).unwrap();
    assert_eq!(f32::from_bits(avp.value()), -3.142);
}

#[test]
fn float64_test_encode_decode() {
    let avp = Float64::new((-3.142_f64).to_bits());
    let mut encoded = Vec::new();
    avp.encode_to(&mut encoded).unwrap();
    let mut cursor = Cursor::new(encoded);
    let avp = Float64::decode_from(&mut cursor).unwrap();
    assert_eq!(f64::from_bits(avp.value()), -3.142);
}

#[test]
fn identity_test_encode_decode_ascii() {
    let avp = Identity::new("example.com");
    let mut encoded = Vec::new();
    avp.encode_to(&mut encoded).unwrap();
    let len = encoded.len();
    let mut cursor = Cursor::new(encoded);
    let avp = Identity::decode_from(&mut cursor, len).unwrap();
    assert_eq!(avp.value(), "example.com");
}

#[test]
fn octetstring_test_encode_decode_ascii() {
    let bytes = b"Hello World";
    let avp = OctetString::new(bytes.to_vec());
    let mut encoded = Vec::new();
    avp.encode_to(&mut encoded).unwrap();
    let mut cursor = Cursor::new(encoded);
    let avp = OctetString::decode_from(&mut cursor, bytes.len()).unwrap();
    assert_eq!(avp.value(), bytes);
}

#[test]
fn octetstring_test_encode_decode_utf8() {
    let bytes = "世界,你好".as_bytes();
    let avp = OctetString::new(bytes.to_vec());
    let mut encoded = Vec::new();
    avp.encode_to(&mut encoded).unwrap();
    let mut cursor = Cursor::new(encoded);
    let avp = OctetString::decode_from(&mut cursor, bytes.len()).unwrap();
    assert_eq!(avp.value(), bytes);
}

#[test]
fn octetstring_test_decode_invalid_utf8() {
    let bytes = vec![0x61, 0x62, 0x63, 0x64, 0x80];
    let avp = OctetString::new(bytes.to_vec());
    let mut encoded = Vec::new();
    avp.encode_to(&mut encoded).unwrap();
    let mut cursor = Cursor::new(encoded);
    let avp = OctetString::decode_from(&mut cursor, bytes.len()).unwrap();
    assert_eq!(avp.value(), bytes);
}

#[test]
fn utf8string_test_encode_decode_ascii() {
    let str = "Hello World";
    let avp = UTF8String::new(str);
    let mut encoded = Vec::new();
    avp.encode_to(&mut encoded).unwrap();
    let mut cursor = Cursor::new(encoded);
    let avp = UTF8String::decode_from(&mut cursor, str.len()).unwrap();
    assert_eq!(avp.value(), str);
}

#[test]
fn utf8string_test_encode_decode_utf8() {
    let str = "世界,你好";
    let avp = UTF8String::new(str);
    let mut encoded = Vec::new();
    avp.encode_to(&mut encoded).unwrap();
    let mut cursor = Cursor::new(encoded);
    let avp = UTF8String::decode_from(&mut cursor, str.len()).unwrap();
    assert_eq!(avp.value(), str);
}

#[test]
fn utf8string_test_decode_invalid_utf8() {
    let bytes = vec![0x61, 0x62, 0x63, 0x64, 0x80];
    let mut cursor = Cursor::new(bytes);
    match UTF8String::decode_from(&mut cursor, 5) {
        Err(Error::DecodeError(msg)) => {
            assert_eq!(
                msg,
                "invalid UTF8String: invalid utf-8 sequence of 1 bytes from index 4"
            );
        }
        Err(_) => panic!("Expected a DecodeError, but got a different error"),
        Ok(_) => panic!("Expected an error, but got Ok"),
    }
}

#[test]
fn ipv4_test_encode_decode() {
    let avp = IPv4::new([127, 0, 0, 1]);
    let mut encoded = Vec::new();
    avp.encode_to(&mut encoded).unwrap();
    let mut cursor = Cursor::new(encoded);
    let avp = IPv4::decode_from(&mut cursor).unwrap();
    assert_eq!(avp.value(), &[127, 0, 0, 1]);
}

#[test]
fn ipv6_test_encode_decode() {
    let avp = IPv6::new([
        0x66, 0x4f, 0x0c, 0x54, 0x57, 0x29, 0xf3, 0x08, 0x56, 0x9f, 0xb6, 0x82, 0x80, 0xb6, 0x01,
        0x40,
    ]);
    let mut encoded = Vec::new();
    avp.encode_to(&mut encoded).unwrap();
    let mut cursor = Cursor::new(encoded);
    let decoded = IPv6::decode_from(&mut cursor).unwrap();
    assert_eq!(decoded, avp);
}

#[test]
fn test_encode_decode_ipv4() {
    let avp = Address::new(Value::IPv4([127, 0, 0, 1]));
    let mut encoded = Vec::new();
    avp.encode_to(&mut encoded).unwrap();
    let mut cursor = Cursor::new(encoded);
    let avp = Address::decode_from(&mut cursor, 6).unwrap();
    assert_eq!(avp.display(), "127.0.0.1");
}

#[test]
fn test_encode_decode_ipv6() {
    let avp = Address::new(Value::IPv6([0, 0, 0, 0, 0, 0, 0, 0, 0, 0, 0, 0, 0, 0, 0, 1]));
    let mut encoded = Vec::new();
    avp.encode_to(&mut encoded).unwrap();
    let mut cursor = Cursor::new(encoded);
    let avp = Address::decode_from(&mut cursor, 18).unwrap();
    assert_eq!(avp.display(), "::1");
}

#[test]
fn test_encode_decode_e164() {
    let avp = Address::new(Value::E164("359898000135".to_string()));
    let mut encoded = Vec::new();
    avp.encode_to(&mut encoded).unwrap();
    let mut cursor = Cursor::new(encoded);
    let avp = Address::decode_from(&mut cursor, 14).unwrap();
    assert_eq!(avp.display(), "359898000135");
}

#[test]
fn time_test_encode_decode() {
    // 2024-01-10 10:35:58 UTC as seconds since the Unix epoch.
    let now: i64 = 1704882958;
    let avp = Time::new(now);
    let mut encoded = Vec::new();
    avp.encode_to(&mut encoded).unwrap();
    let mut cursor = Cursor::new(encoded);
    let avp = Time::decode_from(&mut cursor).unwrap();
    assert_eq!(avp.value(), now);
}
