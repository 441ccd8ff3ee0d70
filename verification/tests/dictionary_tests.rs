//! The bundled dictionary and the XML catalog builder.

use diameter::avp::AvpType;
use diameter::dictionary::{default_dict_xml, AvpDefinition, Definition, Dictionary};

#[test]
fn test_default_dict() {
    let xml = default_dict_xml();
    let dict = Dictionary::new(&[xml.as_str()]);
    assert_eq!(dict.get_avp(416, None).unwrap().name, "CC-Request-Type");
    assert_eq!(dict.get_avp(264, None).unwrap().name, "Origin-Host");
    assert_eq!(dict.get_avp(263, None).unwrap().name, "Session-Id");
    assert_eq!(dict.get_avp(1, None).unwrap().name, "User-Name");
    assert_eq!(dict.get_avp(258, None).unwrap().name, "Auth-Application-Id");

    println!("Total AVP definitions {}", dict.len());
}

#[test]
fn test_default_dict_types() {
    let xml = default_dict_xml();
    let dict = Dictionary::new(&[xml.as_str()]);
    assert_eq!(dict.get_avp_type(416, None), Some(AvpType::Enumerated));
    assert_eq!(dict.get_avp_type(264, None), Some(AvpType::Identity));
    assert_eq!(dict.get_avp_type(263, None), Some(AvpType::UTF8String));
    assert_eq!(dict.get_avp_type(415, None), Some(AvpType::Unsigned32));
    assert_eq!(
        dict.get_avp_type(873, Some(10415)),
        Some(AvpType::Grouped)
    );
    assert_eq!(dict.get_avp_type(999999, None), None);
}

#[test]
fn test_dict_by_name() {
    let xml = default_dict_xml();
    let dict = Dictionary::new(&[xml.as_str()]);
    let d = dict.get_avp_by_name("CC-Request-Number").unwrap();
    assert_eq!(d.code, 415);
    assert_eq!(d.vendor_id, None);
    assert_eq!(d.m_flag, true);
    assert!(dict.get_avp_by_name("Does-Not-Exist").is_none());
}

#[test]
fn test_parse_vendor_and_must() {
    let xml = r#"
<diameter>
    <application id="4" name="Charging">
        <avp name="Example-One" code="7001" must="M" may="P">
            <data type="Unsigned32"/>
        </avp>
        <avp name="Example-Two" code="7002" vendor-id="10415" must="-">
            <data type="UTF8String"/>
        </avp>
        <avp name="Example-Odd" code="7003" must="V,M">
            <data type="NoSuchType"/>
        </avp>
    </application>
</diameter>
"#;
    let def = diameter::dictionary::parse(xml);
    let one = def.get_avp(7001, None).unwrap();
    assert_eq!(one.name, "Example-One");
    assert_eq!(one.avp_type, AvpType::Unsigned32);
    assert_eq!(one.m_flag, true);
    let two = def.get_avp(7002, Some(10415)).unwrap();
    assert_eq!(two.name, "Example-Two");
    assert_eq!(two.avp_type, AvpType::UTF8String);
    assert_eq!(two.m_flag, false);
    assert!(def.get_avp(7002, None).is_none());
    let odd = def.get_avp(7003, None).unwrap();
    assert_eq!(odd.avp_type, AvpType::Unknown);
    assert_eq!(odd.m_flag, true);
}

#[test]
fn test_merge_last_wins() {
    let first = r#"
<diameter>
    <application id="0" name="Base">
        <avp name="Original-Name" code="7100" must="M">
            <data type="Unsigned32"/>
        </avp>
    </application>
</diameter>
"#;
    let second = r#"
<diameter>
    <application id="0" name="Base">
        <avp name="Replacement-Name" code="7100" must="-">
            <data type="UTF8String"/>
        </avp>
    </application>
</diameter>
"#;
    let dict = Dictionary::new(&[first, second]);
    let d = dict.get_avp(7100, None).unwrap();
    assert_eq!(d.name, "Replacement-Name");
    assert_eq!(d.avp_type, AvpType::UTF8String);
    assert_eq!(d.m_flag, false);
}

#[test]
fn test_definition_add_and_lookup() {
    let mut def = Definition::new();
    def.add_avp(AvpDefinition {
        code: 7200,
        vendor_id: None,
        name: "Example-Entry".to_string(),
        avp_type: AvpType::Integer32,
        m_flag: true,
    });
    assert_eq!(def.len(), 1);
    assert_eq!(def.get_avp(7200, None).unwrap().name, "Example-Entry");
    assert_eq!(def.get_avp_type(7200, None), Some(AvpType::Integer32));
    assert_eq!(def.get_avp_name(7200, None), Some("Example-Entry"));
    assert_eq!(def.get_avp_by_name("Example-Entry").unwrap().code, 7200);
    assert!(def.get_avp(7200, Some(9)).is_none());
}
