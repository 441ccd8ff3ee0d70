//! Whole-message framing: headers, byte-exact decode and re-encode,
//! nested groups and name-based building.

use std::sync::Arc;

use diameter::avp::enumerated::Enumerated;
use diameter::avp::group::Grouped;
use diameter::avp::identity::Identity;
use diameter::avp::integer32::Integer32;
use diameter::avp::unsigned32::Unsigned32;
use diameter::avp::utf8string::UTF8String;
use diameter::avp::{Avp, AvpValue, AVP_FLAG_MANDATORY};
use diameter::bytes::Cursor;
use diameter::diameter::{
    ApplicationId, CommandCode, DiameterHeader, DiameterMessage, FLAG_PROXYABLE, FLAG_REQUEST,
};
use diameter::dictionary::{default_dict_xml, Dictionary};

fn default_dictionary() -> Arc<Dictionary> {
    let xml = default_dict_xml();
    Arc::new(Dictionary::new(&[xml.as_str()]))
}

#[test]
fn diameter_test_decode_encode_header() {
    let data = vec![
        0x01, 0x00, 0x00, 0x14, // version, length
        0x80, 0x00, 0x01, 0x10, // flags, code
        0x00, 0x00, 0x00, 0x04, // application_id
        0x00, 0x00, 0x00, 0x03, // hop_by_hop_id
        0x00, 0x00, 0x00, 0x04, // end_to_end_id
    ];

    let mut cursor = Cursor::new(data.clone());
    let header = DiameterHeader::decode_from(&mut cursor).unwrap();

    assert_eq!(header.version, 1);
    assert_eq!(header.length, 20);
    assert_eq!(header.flags, FLAG_REQUEST);
    assert_eq!(header.code, CommandCode::CreditControl);
    assert_eq!(header.application_id, ApplicationId::CreditControl);
    assert_eq!(header.hop_by_hop_id, 3);
    assert_eq!(header.end_to_end_id, 4);

    let mut encoded = Vec::new();
    header.encode_to(&mut encoded).unwrap();
    assert_eq!(encoded, data);
}

#[test]
fn test_header_only_cer() {
    let mut msg = DiameterMessage::new(
        CommandCode::CapabilitiesExchange,
        ApplicationId::Common,
        FLAG_REQUEST,
        3,
        4,
        default_dictionary(),
    );
    let mut encoded = Vec::new();
    msg.encode_to(&mut encoded).unwrap();
    assert_eq!(
        encoded,
        vec![
            0x01, 0x00, 0x00, 0x14, 0x80, 0x00, 0x01, 0x01, 0x00, 0x00, 0x00, 0x00, 0x00, 0x00,
            0x00, 0x03, 0x00, 0x00, 0x00, 0x04,
        ]
    );
    let mut cursor = Cursor::new(encoded);
    let decoded = DiameterMessage::decode_from(&mut cursor, default_dictionary()).unwrap();
    assert_eq!(decoded.get_command_code(), CommandCode::CapabilitiesExchange);
    assert_eq!(decoded.get_application_id(), ApplicationId::Common);
    assert_eq!(decoded.get_flags(), FLAG_REQUEST);
    assert_eq!(decoded.get_hop_by_hop_id(), 3);
    assert_eq!(decoded.get_end_to_end_id(), 4);
    assert_eq!(decoded.get_length(), 20);
    // appending one AVP grows the stored length by its framed size
    msg.add_avp(Avp::new(
        263,
        None,
        0,
        AvpValue::UTF8String(UTF8String::new("s")),
    ));
    assert_eq!(msg.get_length(), 20 + 12);
}

#[test]
fn test_decode_encode_diameter_message() {
    let dict = default_dictionary();

    let data = vec![
        0x01, 0x00, 0x00, 0x34, // version, length
        0x80, 0x00, 0x01, 0x10, // flags, code
        0x00, 0x00, 0x00, 0x04, // application_id
        0x00, 0x00, 0x00, 0x03, // hop_by_hop_id
        0x00, 0x00, 0x00, 0x04, // end_to_end_id
        0x00, 0x00, 0x01, 0x9F, // avp code
        0x40, 0x00, 0x00, 0x0C, // flags, length
        0x00, 0x00, 0x04, 0xB0, // value
        0x00, 0x00, 0x00, 0x1E, // avp code
        0x00, 0x00, 0x00, 0x12, // flags, length
        0x66, 0x6F, 0x6F, 0x62, // value
        0x61, 0x72, 0x31, 0x32, // value
        0x33, 0x34, 0x00, 0x00,
    ];

    let mut cursor = Cursor::new(data.clone());
    let message = DiameterMessage::decode_from(&mut cursor, dict).unwrap();
    println!("diameter message: {}", message.fmt());

    let avps = message.get_avps();
    assert_eq!(avps.len(), 2);
    let avp0 = &avps[0];
    assert_eq!(avp0.get_code(), 415);
    assert_eq!(avp0.get_length(), 12);
    assert_eq!(avp0.get_flags().vendor, false);
    assert_eq!(avp0.get_flags().mandatory, true);
    assert_eq!(avp0.get_flags().private, false);
    assert_eq!(avp0.get_vendor_id(), None);
    match avp0.get_value() {
        AvpValue::Unsigned32(ref v) => assert_eq!(v.value(), 1200),
        _ => panic!("unexpected avp type"),
    }
    let avp1 = &avps[1];
    assert_eq!(avp1.get_code(), 30);
    assert_eq!(avp1.get_length(), 18);
    assert_eq!(avp1.get_flags().vendor, false);
    assert_eq!(avp1.get_flags().mandatory, false);
    assert_eq!(avp1.get_flags().private, false);
    assert_eq!(avp1.get_vendor_id(), None);
    match avp1.get_value() {
        AvpValue::UTF8String(ref v) => assert_eq!(v.value(), "foobar1234"),
        _ => panic!("unexpected avp type"),
    }

    let mut encoded = Vec::new();
    message.encode_to(&mut encoded).unwrap();
    assert_eq!(encoded, data);
}

#[test]
fn diameter_test_diameter_struct() {
    let dict = default_dictionary();

    let mut message = DiameterMessage::new(
        CommandCode::CreditControl,
        ApplicationId::CreditControl,
        FLAG_REQUEST | FLAG_PROXYABLE,
        1123158610,
        3102381851,
        Arc::clone(&dict),
    );

    let m = AVP_FLAG_MANDATORY;
    message.add_avp(Avp::new(
        264,
        None,
        m,
        AvpValue::Identity(Identity::new("host.example.com")),
    ));
    message.add_avp(Avp::new(
        296,
        None,
        m,
        AvpValue::Identity(Identity::new("realm.example.com")),
    ));
    message.add_avp(Avp::new(
        263,
        None,
        m,
        AvpValue::UTF8String(UTF8String::new("ses;12345888")),
    ));
    message.add_avp(Avp::new(
        268,
        None,
        m,
        AvpValue::Unsigned32(Unsigned32::new(2001)),
    ));
    message.add_avp(Avp::new(
        416,
        None,
        m,
        AvpValue::Enumerated(Enumerated::new(1)),
    ));
    message.add_avp(Avp::new(
        415,
        None,
        m,
        AvpValue::Unsigned32(Unsigned32::new(1000)),
    ));
    message.add_avp(Avp::new(
        873,
        Some(10415),
        m,
        AvpValue::Grouped(Grouped::new(vec![Avp::new(
            874,
            Some(10415),
            m,
            AvpValue::Grouped(Grouped::new(vec![Avp::new(
                30,
                None,
                m,
                AvpValue::UTF8String(UTF8String::new("10999")),
            )])),
        )])),
    ));

    // encode
    let mut encoded = Vec::new();
    message.encode_to(&mut encoded).unwrap();
    assert_eq!(encoded.len() as u32, message.get_length());

    // decode
    let mut cursor = Cursor::new(encoded.clone());
    let message = DiameterMessage::decode_from(&mut cursor, dict).unwrap();

    println!("decoded message:\n{}", message.fmt());

    // the nested group survives the round trip byte for byte
    let mut again = Vec::new();
    message.encode_to(&mut again).unwrap();
    assert_eq!(again, encoded);

    let outer = message.get_avp(873).unwrap();
    let inner = outer.get_grouped().unwrap().avps()[0].get_code();
    assert_eq!(inner, 874);
}

#[test]
fn test_decode_ccr() {
    let dict = default_dictionary();

    let data = vec![
        0x01, 0x00, 0x00, 0x54, 0x00, 0x00, 0x01, 0x10, 0x00, 0x00, 0x00, 0x04, 0x00, 0x00, 0x00,
        0x00, 0x00, 0x00, 0x00, 0x00, 0x00, 0x00, 0x01, 0x08, 0x40, 0x00, 0x00, 0x0E, 0x73, 0x65,
        0x72, 0x76, 0x65, 0x72, 0x00, 0x00, 0x00, 0x00, 0x01, 0x28, 0x40, 0x00, 0x00, 0x13, 0x73,
        0x65, 0x72, 0x76, 0x65, 0x72, 0x52, 0x65, 0x61, 0x6C, 0x6D, 0x00, 0x00, 0x00, 0x01, 0x0C,
        0x40, 0x00, 0x00, 0x0C, 0x00, 0x00, 0x07, 0xD1, 0x00, 0x00, 0x01, 0x07, 0x40, 0x00, 0x00,
        0x0F, 0x73, 0x65, 0x73, 0x3B, 0x31, 0x32, 0x33, 0x00,
    ];

    let mut cursor = Cursor::new(data);
    let message = DiameterMessage::decode_from(&mut cursor, dict).unwrap();
    println!("diameter message: {}", message.fmt());
}

#[test]
fn test_add_avp_by_name() {
    let dict = default_dictionary();

    let mut message = DiameterMessage::new(
        CommandCode::CreditControl,
        ApplicationId::CreditControl,
        FLAG_REQUEST,
        1234,
        5678,
        dict,
    );

    assert_eq!(
        message
            .add_avp_by_name(
                "Origin-Host",
                AvpValue::Identity(Identity::new("host.example.com"))
            )
            .is_some(),
        true
    );

    assert_eq!(
        message
            .add_avp_by_name(
                "Origin-Realm",
                AvpValue::Identity(Identity::new("realm.example.com"))
            )
            .is_some(),
        true
    );

    assert_eq!(
        message
            .add_avp_by_name(
                "Session-Id",
                AvpValue::UTF8String(UTF8String::new("ses;12345888"))
            )
            .is_some(),
        true
    );

    assert_eq!(
        message
            .add_avp_by_name(
                "Service-Context-Id",
                AvpValue::Unsigned32(Unsigned32::new(2001))
            )
            .is_some(),
        true
    );

    assert_eq!(
        message
            .add_avp_by_name("Does-Not-Exist", AvpValue::Integer32(Integer32::new(1234)))
            .is_none(),
        true
    );

    assert_eq!(message.get_avp(264).is_some(), true);
    assert_eq!(message.get_avp(296).is_some(), true);
    assert_eq!(message.get_avp(263).is_some(), true);
    assert_eq!(message.get_avp(415).is_none(), true);
}

#[test]
fn test_command_code_numbers() {
    let pairs = [
        (0u32, CommandCode::Error),
        (257, CommandCode::CapabilitiesExchange),
        (258, CommandCode::ReAuth),
        (265, CommandCode::AA),
        (271, CommandCode::Accounting),
        (272, CommandCode::CreditControl),
        (274, CommandCode::AbortSession),
        (275, CommandCode::SessionTerminate),
        (280, CommandCode::DeviceWatchdog),
        (282, CommandCode::DisconnectPeer),
        (8388635, CommandCode::SpendingLimit),
        (8388636, CommandCode::SpendingStatusNotification),
    ];
    for (num, code) in pairs {
        assert_eq!(CommandCode::from_u32(num), Some(code));
        assert_eq!(code.to_u32(), num);
    }
    assert_eq!(CommandCode::from_u32(1), None);
}

#[test]
fn test_application_id_numbers() {
    let pairs = [
        (0u32, ApplicationId::Common),
        (3, ApplicationId::Accounting),
        (4, ApplicationId::CreditControl),
        (16777236, ApplicationId::Rx),
        (16777238, ApplicationId::Gx),
        (16777302, ApplicationId::Sy),
    ];
    for (num, id) in pairs {
        assert_eq!(ApplicationId::from_u32(num), Some(id));
        assert_eq!(id.to_u32(), num);
    }
    assert_eq!(ApplicationId::from_u32(5), None);
}
