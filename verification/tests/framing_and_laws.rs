//! Boundary cases of the framing rules, the frame-size ceiling, the
//! error variants, and concrete instances of the stated laws.

use std::sync::Arc;

use diameter::avp::address::{Address, Value};
use diameter::avp::octetstring::OctetString;
use diameter::avp::time::Time;
use diameter::avp::utf8string::UTF8String;
use diameter::avp::{Avp, AvpValue, AVP_FLAG_MANDATORY};
use diameter::bytes::Cursor;
use diameter::diameter::{ApplicationId, CommandCode, DiameterMessage, FLAG_REQUEST};
use diameter::dictionary::{default_dict_xml, Dictionary};
use diameter::error::Error;
use diameter::multiplexer::Multiplexer;
use diameter::transport::Codec;

fn default_dictionary() -> Arc<Dictionary> {
    let xml = default_dict_xml();
    Arc::new(Dictionary::new(&[xml.as_str()]))
}

#[test]
fn test_padding_law() {
    // a 10-byte value pads to the next 32-bit boundary with 2 bytes
    let avp = Avp::new(
        263,
        None,
        0,
        AvpValue::UTF8String(UTF8String::new("ses;123456")),
    );
    assert_eq!(avp.get_length(), 8 + 10);
    assert_eq!(avp.get_padding(), 2);
    assert_eq!((avp.get_length() + avp.get_padding() as u32) % 4, 0);

    // an 11-byte value pads with 1, a 12-byte value with 0
    let avp = Avp::new(
        263,
        None,
        0,
        AvpValue::UTF8String(UTF8String::new("ses;1234567")),
    );
    assert_eq!(avp.get_padding(), 1);
    let avp = Avp::new(
        263,
        None,
        0,
        AvpValue::UTF8String(UTF8String::new("ses;12345678")),
    );
    assert_eq!(avp.get_padding(), 0);
}

#[test]
fn test_zero_length_values() {
    // zero-length OctetString and UTF8String values need no padding
    let dict = default_dictionary();
    let os = Avp::new(44, None, 0, AvpValue::OctetString(OctetString::new(vec![])));
    assert_eq!(os.get_length(), 8);
    assert_eq!(os.get_padding(), 0);
    let us = Avp::new(263, None, 0, AvpValue::UTF8String(UTF8String::new("")));
    assert_eq!(us.get_length(), 8);
    assert_eq!(us.get_padding(), 0);

    let mut msg = DiameterMessage::new(
        CommandCode::Accounting,
        ApplicationId::Accounting,
        FLAG_REQUEST,
        7,
        8,
        Arc::clone(&dict),
    );
    msg.add_avp(os);
    msg.add_avp(us);
    let mut encoded = Vec::new();
    msg.encode_to(&mut encoded).unwrap();
    assert_eq!(encoded.len(), 20 + 8 + 8);
    let mut cursor = Cursor::new(encoded);
    let decoded = DiameterMessage::decode_from(&mut cursor, dict).unwrap();
    assert_eq!(decoded.get_avps().len(), 2);
}

#[test]
fn test_flag_correspondence() {
    let plain = Avp::new(263, None, 0, AvpValue::UTF8String(UTF8String::new("x")));
    assert!(!plain.get_flags().vendor);
    assert_eq!(plain.get_vendor_id(), None);
    assert_eq!(plain.get_length(), 8 + 1);

    let vendor = Avp::new(
        874,
        Some(10415),
        AVP_FLAG_MANDATORY,
        AvpValue::UTF8String(UTF8String::new("x")),
    );
    assert!(vendor.get_flags().vendor);
    assert_eq!(vendor.get_vendor_id(), Some(10415));
    assert_eq!(vendor.get_length(), 12 + 1);
}

#[test]
fn test_length_accounting() {
    let dict = default_dictionary();
    let mut msg = DiameterMessage::new(
        CommandCode::CreditControl,
        ApplicationId::CreditControl,
        FLAG_REQUEST,
        1,
        2,
        dict,
    );
    assert_eq!(msg.get_length(), 20);
    let mut expected: u32 = 20;
    for s in ["a", "ab", "abc", "abcd", "ses;12345888"] {
        let avp = Avp::new(263, None, 0, AvpValue::UTF8String(UTF8String::new(s)));
        expected += avp.get_length() + avp.get_padding() as u32;
        msg.add_avp(avp);
        assert_eq!(msg.get_length(), expected);
    }
}

#[test]
fn test_avp_ends_message_exactly() {
    // decoding stops exactly at the stored length; a trailing AVP that
    // meets the boundary is accepted, any shortfall is rejected
    let dict = default_dictionary();
    let mut msg = DiameterMessage::new(
        CommandCode::CreditControl,
        ApplicationId::CreditControl,
        FLAG_REQUEST,
        1,
        2,
        Arc::clone(&dict),
    );
    msg.add_avp(Avp::new(
        263,
        None,
        0,
        AvpValue::UTF8String(UTF8String::new("ses;1")),
    ));
    let mut encoded = Vec::new();
    msg.encode_to(&mut encoded).unwrap();
    let mut cursor = Cursor::new(encoded.clone());
    assert!(DiameterMessage::decode_from(&mut cursor, Arc::clone(&dict)).is_ok());

    // corrupt the message length so the last AVP overshoots it
    let mut bad = encoded.clone();
    bad[3] -= 4;
    let mut cursor = Cursor::new(bad);
    match DiameterMessage::decode_from(&mut cursor, dict) {
        Err(Error::DecodeError(_)) => {}
        other => panic!("expected a decode failure, got {:?}", other.is_ok()),
    }
}

#[test]
fn test_frame_ceiling() {
    // 1 MiB exactly is accepted, one byte more is rejected
    let at_limit = [0x01, 0x10, 0x00, 0x00];
    assert_eq!(Codec::frame_length(&at_limit).unwrap(), 0x100000);
    let over_limit = [0x01, 0x10, 0x00, 0x01];
    match Codec::frame_length(&over_limit) {
        Err(Error::ClientError(msg)) => assert_eq!(msg, "Message too large to read"),
        other => panic!("expected rejection, got {:?}", other.is_ok()),
    }
}

#[test]
fn test_codec_encode_decode() {
    let dict = default_dictionary();
    let mut msg = DiameterMessage::new(
        CommandCode::DeviceWatchdog,
        ApplicationId::Common,
        0,
        11,
        12,
        Arc::clone(&dict),
    );
    msg.add_avp(Avp::new(
        264,
        None,
        AVP_FLAG_MANDATORY,
        AvpValue::Identity(diameter::avp::identity::Identity::new("host.example.com")),
    ));
    let buf = Codec::encode(&msg).unwrap();
    assert_eq!(buf.len() as u32, msg.get_length());
    let decoded = Codec::decode(buf, dict).unwrap();
    assert_eq!(decoded.get_hop_by_hop_id(), 11);
    assert_eq!(decoded.get_avps().len(), 1);
}

#[test]
fn test_unknown_avp_code_rejected() {
    let dict = default_dictionary();
    // AVP code 59999 is not in the bundled dictionary
    let data = vec![
        0x01, 0x00, 0x00, 0x20, // version, length 32
        0x80, 0x00, 0x01, 0x10, // flags, code
        0x00, 0x00, 0x00, 0x04, // application_id
        0x00, 0x00, 0x00, 0x03, // hop_by_hop_id
        0x00, 0x00, 0x00, 0x04, // end_to_end_id
        0x00, 0x00, 0xEA, 0x5F, // avp code 59999
        0x40, 0x00, 0x00, 0x0C, // flags, length
        0x00, 0x00, 0x04, 0xB0, // value
    ];
    let mut cursor = Cursor::new(data);
    match DiameterMessage::decode_from(&mut cursor, dict) {
        Err(Error::UnknownAvpCode(code)) => assert_eq!(code, 59999),
        other => panic!("expected UnknownAvpCode, got {:?}", other.is_ok()),
    }
}

#[test]
fn test_unknown_command_rejected() {
    let dict = default_dictionary();
    let data = vec![
        0x01, 0x00, 0x00, 0x14, // version, length
        0x80, 0x00, 0x01, 0x11, // flags, unknown code 273
        0x00, 0x00, 0x00, 0x04, // application_id
        0x00, 0x00, 0x00, 0x03, // hop_by_hop_id
        0x00, 0x00, 0x00, 0x04, // end_to_end_id
    ];
    let mut cursor = Cursor::new(data);
    match DiameterMessage::decode_from(&mut cursor, dict) {
        Err(Error::DecodeError(msg)) => assert_eq!(msg, "unknown command code: 273"),
        other => panic!("expected a decode failure, got {:?}", other.is_ok()),
    }
}

#[test]
fn test_time_overflow_is_encode_error() {
    // a timestamp beyond 2036-02-07 cannot be written in 32 bits
    let too_late = Time::new(i64::MAX - 3_000_000_000);
    let mut out = Vec::new();
    match too_late.encode_to(&mut out) {
        Err(Error::EncodeError(_)) => {}
        other => panic!("expected an encode failure, got {:?}", other.is_ok()),
    }
    assert!(out.is_empty());
}

#[test]
fn test_address_wrong_length_rejected() {
    // an IPv4 address framed with any length other than 6 fails
    let avp = Address::new(Value::IPv4([127, 0, 0, 1]));
    let mut encoded = Vec::new();
    avp.encode_to(&mut encoded).unwrap();
    assert_eq!(encoded, vec![0x00, 0x01, 0x7F, 0x00, 0x00, 0x01]);
    encoded.push(0);
    let mut cursor = Cursor::new(encoded);
    match Address::decode_from(&mut cursor, 7) {
        Err(Error::DecodeError(_)) => {}
        other => panic!("expected a decode failure, got {:?}", other.is_ok()),
    }
}

#[test]
fn test_address_ipv6_bytes() {
    let avp = Address::new(Value::IPv6([0, 0, 0, 0, 0, 0, 0, 0, 0, 0, 0, 0, 0, 0, 0, 1]));
    let mut encoded = Vec::new();
    avp.encode_to(&mut encoded).unwrap();
    assert_eq!(encoded.len(), 18);
    assert_eq!(&encoded[0..2], &[0x00, 0x02]);
    assert_eq!(encoded[17], 1);
}

#[test]
fn test_multiplex_pairing() {
    // three requests in flight; answers delivered out of order each
    // reach exactly the slot registered under their own id
    let mut mux = Multiplexer::new();
    let h1 = mux.next_seq();
    let h2 = mux.next_seq();
    let h3 = mux.next_seq();
    assert_eq!((h1, h2, h3), (1, 2, 3));
    mux.register(h1, 101);
    mux.register(h2, 102);
    mux.register(h3, 103);
    assert_eq!(mux.len(), 3);

    assert_eq!(mux.take(h2), Some(102));
    assert_eq!(mux.take(h3), Some(103));
    assert_eq!(mux.take(h1), Some(101));
    assert_eq!(mux.take(h1), None);
    assert_eq!(mux.len(), 0);
}

#[test]
fn test_multiplex_overwrite() {
    // reusing an id with a request outstanding claims the slot anew
    let mut mux = Multiplexer::new();
    mux.register(9, 500);
    mux.register(9, 501);
    assert_eq!(mux.len(), 1);
    assert_eq!(mux.take(9), Some(501));
}

#[test]
fn test_error_messages() {
    assert_eq!(
        Error::UnknownAvpCode(59999).message(),
        "Unknown AVP code: 59999"
    );
    assert_eq!(
        Error::UnknownAvpName("No-Such-Avp".to_string()).message(),
        "Unknown AVP name: No-Such-Avp"
    );
    assert_eq!(Error::DecodeError("bad".to_string()).message(), "bad");
}
