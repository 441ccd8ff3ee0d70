//! Rendering messages and values for display.

use std::sync::Arc;

use diameter::avp::identity::Identity;
use diameter::avp::octetstring::OctetString;
use diameter::avp::unsigned32::Unsigned32;
use diameter::avp::utf8string::UTF8String;
use diameter::avp::{get_bool_unicode, Avp, AvpValue, AVP_FLAG_MANDATORY};
use diameter::diameter::{ApplicationId, CommandCode, DiameterMessage, FLAG_REQUEST};
use diameter::dictionary::{default_dict_xml, Dictionary};

fn default_dictionary() -> Arc<Dictionary> {
    let xml = default_dict_xml();
    Arc::new(Dictionary::new(&[xml.as_str()]))
}

#[test]
fn display_test_diameter_struct() {
    let dict = default_dictionary();
    let mut message = DiameterMessage::new(
        CommandCode::CreditControl,
        ApplicationId::CreditControl,
        FLAG_REQUEST,
        1123158610,
        3102381851,
        Arc::clone(&dict),
    );
    message.add_avp(Avp::new(
        296,
        None,
        AVP_FLAG_MANDATORY,
        AvpValue::Unsigned32(Unsigned32::new(123456)),
    ));
    message.add_avp(Avp::new(
        264,
        None,
        0,
        AvpValue::Identity(Identity::new("example.com")),
    ));
    message.add_avp(Avp::new(
        263,
        None,
        AVP_FLAG_MANDATORY,
        AvpValue::UTF8String(UTF8String::new("ses;12345888")),
    ));
    println!("diameter message: {}", message.fmt());
    let rendered = message.fmt();
    assert!(rendered.contains("CreditControl(272)"));
    assert!(rendered.contains("Request"));
    assert!(rendered.contains("1123158610, 3102381851"));
    assert!(rendered.contains("Origin-Host"));
    assert!(rendered.contains("ses;12345888"));
}

#[test]
fn test_header_line() {
    let dict = default_dictionary();
    let message = DiameterMessage::new(
        CommandCode::DeviceWatchdog,
        ApplicationId::Common,
        0,
        5,
        6,
        dict,
    );
    let line = message.fmt();
    assert!(line.starts_with("1 DeviceWatchdog(280) Common(0) Answer 5, 6\n"));
}

#[test]
fn test_octetstring_hex_rendering() {
    let dict = default_dictionary();
    // Accounting-Session-Id (44) is an OctetString in the dictionary
    let avp = Avp::new(
        44,
        None,
        0,
        AvpValue::OctetString(OctetString::new(vec![0xDE, 0xAD, 0x01])),
    );
    let line = avp.fmt(&dict, 0);
    assert!(line.contains("de ad 01"));
    assert!(line.contains("Accounting-Session-Id"));
}

#[test]
fn test_bool_glyphs() {
    assert_eq!(get_bool_unicode(true), "\u{2713}");
    assert_eq!(get_bool_unicode(false), "\u{2717}");
}
