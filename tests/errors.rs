use rudocx::decode::decode_events;
use rudocx::error::{RudocxError, RudocxStyleError};
use rudocx::events::{XmlAttribute, XmlEvent, XmlTag};
use rudocx::run_properties::check_installed;
use rudocx::xml_io::parse;

fn tag(name: &str, attrs: &[(&str, &str)]) -> XmlTag {
    XmlTag {
        name: name.to_string(),
        attributes: attrs
            .iter()
            .map(|(k, v)| XmlAttribute { key: k.to_string(), value: v.to_string() })
            .collect(),
    }
}

#[test]
fn number_parse_error_names_the_text() {
    let xml = r#"<w:p><w:r><w:rPr><w:sz w:val="big"/></w:rPr><w:t>x</w:t></w:r></w:p>"#;
    match parse(xml) {
        Err(RudocxError::NumParseError(s)) => assert_eq!(s, "big"),
        other => panic!("expected a number error, got {:?}", other),
    }
}

#[test]
fn indentation_parse_error() {
    let xml = r#"<w:p><w:pPr><w:ind w:left="ten"/></w:pPr></w:p>"#;
    assert!(matches!(parse(xml), Err(RudocxError::NumParseError(_))));
}

#[test]
fn malformed_xml_is_an_xml_error() {
    let xml = r#"<w:p><w:r></w:p>"#;
    assert!(matches!(parse(xml), Err(RudocxError::XmlError(_))));
}

#[test]
fn malformed_shading_is_a_property_error() {
    let xml = r#"<w:p><w:pPr><w:shd w:val="pctX"/></w:pPr></w:p>"#;
    assert!(matches!(
        parse(xml),
        Err(RudocxError::RunPropertyError(RudocxStyleError::InvalidShading(_)))
    ));
}

#[test]
fn decoding_events_directly() {
    let events = vec![
        XmlEvent::Start(tag("w:p", &[])),
        XmlEvent::Start(tag("w:pPr", &[])),
        XmlEvent::Empty(tag("w:keepNext", &[])),
        XmlEvent::Start(tag("w:rPr", &[])),
        XmlEvent::Empty(tag("w:b", &[])),
        XmlEvent::End("w:rPr".to_string()),
        XmlEvent::End("w:pPr".to_string()),
        XmlEvent::Start(tag("w:r", &[])),
        XmlEvent::Start(tag("w:rPr", &[])),
        XmlEvent::Empty(tag("w:color", &[("w:val", "00FF00")])),
        XmlEvent::End("w:rPr".to_string()),
        XmlEvent::Text("ab".to_string()),
        XmlEvent::Text("c".to_string()),
    ];
    let doc = decode_events(&events).unwrap();
    assert_eq!(doc.paragraphs.len(), 1);
    let p = &doc.paragraphs[0];
    assert!(p.properties.keep_next);
    assert!(p.properties.default_run_properties.as_ref().unwrap().bold);
    match &p.children[0] {
        rudocx::model::ParagraphChild::Run(r) => {
            assert_eq!(r.text, "abc");
            assert_eq!(r.properties.color.as_ref().unwrap().value(), "00FF00");
            assert!(!r.properties.bold);
        }
        _ => panic!("expected a run"),
    }
}

#[test]
fn installed_fonts() {
    let none: Vec<String> = vec![];
    assert!(matches!(check_installed("Arial", &none), Err(RudocxStyleError::SystemFontsNotFound)));
    let fonts = vec!["Arial".to_string(), "Noto".to_string()];
    assert!(check_installed("Noto", &fonts).is_ok());
    match check_installed("Comic", &fonts) {
        Err(RudocxStyleError::FontNotInstalled(s)) => assert_eq!(s, "Comic"),
        _ => panic!("expected FontNotInstalled"),
    }
}
