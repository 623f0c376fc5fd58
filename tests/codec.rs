use rudocx::color::HexColor;
use rudocx::decode::decode_events;
use rudocx::encode::document_events;
use rudocx::events::{XmlEvent, XmlTag};
use rudocx::model::{Document, Hyperlink, Paragraph, ParagraphChild, Run};
use rudocx::paragraph_properties::{
    ParagraphIndentation, ParagraphJustification, ParagraphJustificationValues, ParagraphProperties,
};
use rudocx::rels::RelationshipManager;
use rudocx::run_properties::RunProperties;
use rudocx::xml_io::{generate, parse};

#[test]
fn test_parse_simple_doc() {
    let xml_input = r#"
            <w:document xmlns:w="http://schemas.openxmlformats.org/wordprocessingml/2006/main">
                <w:body>
                    <w:p>
                        <w:r><w:t>This is plain text.</w:t></w:r>
                    </w:p>
                    <w:p>
                        <w:r><w:rPr><w:b/></w:rPr><w:t>This is bold.</w:t></w:r>
                        <w:r><w:t xml:space="preserve"> </w:t></w:r>
                        <w:r><w:rPr><w:i/></w:rPr><w:t>This is italic.</w:t></w:r>
                    </w:p>
                    <w:p>
                        <w:r><w:rPr><w:b/><w:i/></w:rPr><w:t>Bold and Italic.</w:t></w:r>
                    </w:p>
                    <w:p>
                        <w:hyperlink r:id="rId1">
                            <w:r><w:rPr><w:i/></w:rPr><w:t>www.github.com/cmgsk/rudocx</w:t></w:r>
                        </w:hyperlink>
                        <w:r><w:t> That was hyperlink.</w:t></w:r>
                    </w:p>
                </w:body>
            </w:document>
        "#;

    let result = parse(xml_input);
    assert!(result.is_ok());
    let doc = result.unwrap();

    assert_eq!(doc.paragraphs.len(), 4);

    assert_eq!(doc.paragraphs[0].children.len(), 1);
    if let Some(p) = doc.paragraphs.iter().nth(0) {
        if let Some(ParagraphChild::Run(r)) = p.children.iter().nth(0) {
            assert_eq!(r.text, "This is plain text.");
            assert!(!r.properties.bold);
            assert!(!r.properties.italic);
        } else {
            assert!(false);
        }
    }

    assert_eq!(doc.paragraphs[1].children.len(), 3);
    if let Some(p) = doc.paragraphs.iter().nth(1) {
        if let Some(ParagraphChild::Run(r)) = p.children.iter().nth(0) {
            assert_eq!(r.text, "This is bold.");
            assert!(r.properties.bold);
            assert!(!r.properties.italic);
        } else {
            assert!(false);
        }
        if let Some(ParagraphChild::Run(r)) = p.children.iter().nth(1) {
            assert_eq!(r.text, " ");
            assert!(!r.properties.bold);
            assert!(!r.properties.italic);
        } else {
            assert!(false);
        }
        if let Some(ParagraphChild::Run(r)) = p.children.iter().nth(2) {
            assert_eq!(r.text, "This is italic.");
            assert!(!r.properties.bold);
            assert!(r.properties.italic);
        } else {
            assert!(false);
        }
    }

    assert_eq!(doc.paragraphs[2].children.len(), 1);
    if let Some(p) = doc.paragraphs.iter().nth(2) {
        if let Some(ParagraphChild::Run(r)) = p.children.iter().nth(0) {
            assert_eq!(r.text, "Bold and Italic.");
            assert!(r.properties.bold);
            assert!(r.properties.italic);
        } else {
            assert!(false);
        }
    }

    assert_eq!(doc.paragraphs[3].children.len(), 2);
    if let Some(p) = doc.paragraphs.iter().nth(3) {
        if let Some(ParagraphChild::Hyperlink(h)) = p.children.iter().nth(0) {
            assert_eq!(h.id, "rId1");
            assert_eq!(h.runs.len(), 1);
            assert_eq!(h.runs[0].text, "www.github.com/cmgsk/rudocx");
            assert!(!h.runs[0].properties.bold);
            assert!(h.runs[0].properties.italic);
        } else {
            assert!(false);
        }
        if let Some(ParagraphChild::Run(r)) = p.children.iter().nth(1) {
            assert_eq!(r.text, " That was hyperlink.");
            assert!(!r.properties.bold);
            assert!(!r.properties.italic);
        } else {
            assert!(false);
        }
    }
}

fn run(text: &str, bold: bool, italic: bool) -> Run {
    let mut props = RunProperties::default();
    props.bold = bold;
    props.italic = italic;
    Run::new(props, text.to_string(), false)
}

fn paragraph(children: Vec<ParagraphChild>) -> Paragraph {
    Paragraph { properties: ParagraphProperties::default(), children }
}

#[test]
fn round_trip_three_paragraphs() {
    let doc = Document {
        paragraphs: vec![
            paragraph(vec![ParagraphChild::Run(run("Hello world", false, false))]),
            paragraph(vec![
                ParagraphChild::Run(run("Bold", true, false)),
                ParagraphChild::Run(run(" ", false, false)),
                ParagraphChild::Run(run("Italic", false, true)),
            ]),
            paragraph(vec![ParagraphChild::Run(run("Both", true, true))]),
        ],
    };
    let text = generate(&doc).unwrap();
    let back = parse(&text).unwrap();
    assert_eq!(back, doc);
}

#[test]
fn whitespace_run_keeps_its_space() {
    let r = Run::new(RunProperties::default(), " ".to_string(), true);
    let doc = Document { paragraphs: vec![paragraph(vec![ParagraphChild::Run(r)])] };
    let text = generate(&doc).unwrap();
    assert!(text.contains("xml:space=\"preserve\""));
    let back = parse(&text).unwrap();
    match &back.paragraphs[0].children[0] {
        ParagraphChild::Run(r) => {
            assert_eq!(r.text, " ");
            assert!(r.space_preserve);
        }
        _ => panic!("expected a run"),
    }
    assert_eq!(back, doc);
}

#[test]
fn hyperlink_then_run_are_siblings() {
    let xml = r#"<w:document><w:body><w:p><w:hyperlink r:id="rId1"><w:r><w:t>link</w:t></w:r></w:hyperlink><w:r><w:t>plain</w:t></w:r></w:p></w:body></w:document>"#;
    let doc = parse(xml).unwrap();
    assert_eq!(doc.paragraphs.len(), 1);
    let children = &doc.paragraphs[0].children;
    assert_eq!(children.len(), 2);
    match (&children[0], &children[1]) {
        (ParagraphChild::Hyperlink(h), ParagraphChild::Run(r)) => {
            assert_eq!(h.id, "rId1");
            assert_eq!(h.runs[0].text, "link");
            assert_eq!(r.text, "plain");
        }
        _ => panic!("expected a hyperlink, then a run"),
    }
}

#[test]
fn default_properties_are_not_written() {
    let plain = Document { paragraphs: vec![paragraph(vec![ParagraphChild::Run(run("x", false, false))])] };
    let text = generate(&plain).unwrap();
    assert!(!text.contains("w:rPr"));
    assert!(!text.contains("w:pPr"));

    let bold = Document { paragraphs: vec![paragraph(vec![ParagraphChild::Run(run("x", true, false))])] };
    let text = generate(&bold).unwrap();
    assert!(text.contains("<w:rPr><w:b/></w:rPr>"));

    let mut props = ParagraphProperties::default();
    assert!(!props.has_formatting());
    props.keep_next = true;
    assert!(props.has_formatting());
    let kept = Document {
        paragraphs: vec![Paragraph { properties: props, children: vec![] }],
    };
    let text = generate(&kept).unwrap();
    assert!(text.contains("<w:pPr><w:keepNext/></w:pPr>"));
    assert!(!RunProperties::default().has_formatting());
}

#[test]
fn encoder_emits_document_body_and_paragraph() {
    let doc = Document { paragraphs: vec![paragraph(vec![])] };
    let events = document_events(&doc);
    assert_eq!(events.len(), 6);
    match &events[2] {
        XmlEvent::Start(t) => assert_eq!(t.name, "w:p"),
        _ => panic!("expected a paragraph"),
    }
}

#[test]
fn formatted_paragraph_round_trips() {
    let mut rels = RelationshipManager::new();
    let link = Hyperlink::new("https://example.com", &mut rels);
    let mut rp = RunProperties::default();
    rp.color = Some(HexColor::new("FF0000"));
    rp.size = Some(24);
    rp.strike = true;
    let props = ParagraphProperties::builder()
        .keep_lines(true)
        .jc(Some(ParagraphJustification::new(ParagraphJustificationValues::Center)))
        .ind(Some(ParagraphIndentation::new(Some(-120), None, Some(40), None, None, None, Some(360), None).unwrap()))
        .outline_level(Some(3))
        .build();
    let doc = Document {
        paragraphs: vec![Paragraph {
            properties: props,
            children: vec![
                ParagraphChild::Hyperlink(link),
                ParagraphChild::Run(Run::new(rp, "tail & <end>".to_string(), false)),
            ],
        }],
    };
    let text = generate(&doc).unwrap();
    let back = parse(&text).unwrap();
    assert_eq!(back, doc);
}

#[test]
fn non_numeric_size_fails() {
    let xml = r#"<w:p><w:r><w:rPr><w:sz w:val="big"/></w:rPr><w:t>x</w:t></w:r></w:p>"#;
    assert!(parse(xml).is_err());
}

#[test]
fn non_numeric_outline_level_is_zero() {
    let xml = r#"<w:p><w:pPr><w:outlineLvl w:val="x"/></w:pPr></w:p>"#;
    let doc = parse(xml).unwrap();
    assert_eq!(doc.paragraphs[0].properties.outline_level, Some(0));
}

#[test]
fn boolean_marker_off_values() {
    let xml = r#"<w:p><w:pPr><w:keepNext w:val="0"/><w:keepLines/><w:bidi w:val="off"/></w:pPr></w:p>"#;
    let doc = parse(xml).unwrap();
    let p = &doc.paragraphs[0].properties;
    assert!(!p.keep_next);
    assert!(p.keep_lines);
    assert!(!p.bidi);
}

#[test]
fn text_outside_run_is_dropped_and_eof_flushes() {
    let start = |n: &str| XmlEvent::Start(XmlTag { name: n.to_string(), attributes: vec![] });
    let events = vec![
        start("w:p"),
        XmlEvent::Text("loose".to_string()),
        start("w:hyperlink"),
        start("w:r"),
        XmlEvent::Text("kept".to_string()),
    ];
    let doc = decode_events(&events).unwrap();
    assert_eq!(doc.paragraphs.len(), 1);
    let children = &doc.paragraphs[0].children;
    assert_eq!(children.len(), 1);
    match &children[0] {
        ParagraphChild::Hyperlink(h) => {
            assert_eq!(h.id, "");
            assert_eq!(h.runs.len(), 1);
            assert_eq!(h.runs[0].text, "kept");
        }
        _ => panic!("expected a hyperlink"),
    }
}
