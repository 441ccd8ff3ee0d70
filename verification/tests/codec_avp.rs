//! AVP header framing and grouped AVPs.

use diameter::avp::enumerated::Enumerated;
use diameter::avp::group::Grouped;
use diameter::avp::unsigned32::Unsigned32;
use diameter::avp::{Avp, AvpHeader, AvpValue};
use diameter::bytes::Cursor;
use diameter::dictionary::{default_dict_xml, Dictionary};

fn default_dictionary() -> Dictionary {
    let xml = default_dict_xml();
    Dictionary::new(&[xml.as_str()])
}

#[test]
fn mod_test_decode_encode_header() {
    let data = vec![
        0x00, 0x00, 0x00, 0x64, // command code
        0x40, 0x00, 0x00, 0x0C, // flags, length
    ];

    let mut cursor = Cursor::new(data.clone());
    let header = AvpHeader::decode_from(&mut cursor).unwrap();

    assert_eq!(header.code, 100);
    assert_eq!(header.length, 12);
    assert_eq!(header.flags.vendor, false);
    assert_eq!(header.flags.mandatory, true);
    assert_eq!(header.flags.private, false);
    assert_eq!(header.vendor_id, None);

    let mut encoded = Vec::new();
    header.encode_to(&mut encoded).unwrap();
    assert_eq!(encoded, data);
}

#[test]
fn test_decode_encode_header_with_vendor() {
    let data = vec![
        0x00, 0x00, 0x00, 0x64, // command code
        0x80, 0x00, 0x00, 0x0C, // flags, length
        0x00, 0x00, 0x00, 0xC8, // vendor_id
    ];

    let mut cursor = Cursor::new(data.clone());
    let header = AvpHeader::decode_from(&mut cursor).unwrap();

    assert_eq!(header.code, 100);
    assert_eq!(header.length, 12);
    assert_eq!(header.flags.vendor, true);
    assert_eq!(header.flags.mandatory, false);
    assert_eq!(header.flags.private, false);
    assert_eq!(header.vendor_id, Some(200));

    let mut encoded = Vec::new();
    header.encode_to(&mut encoded).unwrap();
    assert_eq!(encoded, data);
}

#[test]
fn test_new_grouped_avp() {
    let mut grouped_avp = Grouped::new(vec![]);
    grouped_avp.add_avp(416, None, 0, AvpValue::Enumerated(Enumerated::new(1)));
    grouped_avp.add_avp(415, None, 0, AvpValue::Unsigned32(Unsigned32::new(1000)));

    assert_eq!(grouped_avp.avps().len(), 2);
    assert_eq!(grouped_avp.avps()[0].get_code(), 416);
    assert_eq!(grouped_avp.avps()[1].get_code(), 415);
}

#[test]
fn group_test_encode_decode() {
    let dict = default_dictionary();

    let avp = Grouped::new(vec![
        Avp::new(416, None, 0, AvpValue::Enumerated(Enumerated::new(1))),
        Avp::new(415, None, 0, AvpValue::Unsigned32(Unsigned32::new(1000))),
    ]);
    assert_eq!(avp.avps().len(), 2);
    let mut encoded = Vec::new();
    avp.encode_to(&mut encoded).unwrap();
    let len = encoded.len();
    let mut cursor = Cursor::new(encoded);
    let avp = Grouped::decode_from(&mut cursor, len, &dict).unwrap();
    assert_eq!(avp.avps().len(), 2);
    assert_eq!(avp.avps()[0].get_code(), 416);
    assert_eq!(avp.avps()[1].get_code(), 415);

    match avp.avps()[0].get_value() {
        AvpValue::Enumerated(v) => assert_eq!(v.value(), 1),
        _ => panic!("invalid value, expected Enumerated"),
    }
    match avp.avps()[1].get_value() {
        AvpValue::Unsigned32(v) => assert_eq!(v.value(), 1000),
        _ => panic!("invalid value, expected Unsigned32"),
    }
}
