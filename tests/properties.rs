use rudocx::color::{HLColor, HexColor, HighlightPalette, PercentFill, StripePatternValues};
use rudocx::error::RudocxStyleError;
use rudocx::paragraph_properties::{ParagraphIndentation, ParagraphShadingValues};
use rudocx::run_properties::{FontSet, FontType, Underline, UnderlineStyle};
use rudocx::text::{format_i32, format_u32, parse_i32_str, parse_unsigned_str};

#[test]
fn hex_color_keeps_valid_code() {
    assert_eq!(HexColor::new("FF00FF").value(), "FF00FF");
}

#[test]
fn hex_color_falls_back_on_invalid_code() {
    assert_eq!(HexColor::new("zzz").value(), "FFFFFF");
    assert_eq!(HexColor::new("FF00FF00").value(), "FFFFFF");
}

#[test]
fn hex_color_change_to_invalid_fails_and_keeps_value() {
    let mut c = HexColor::new("00FF00");
    match c.change_value("zzz") {
        Err(RudocxStyleError::InvalidHex(s)) => assert_eq!(s, "zzz"),
        _ => panic!("expected InvalidHex"),
    }
    assert_eq!(c.value(), "00FF00");
    assert!(c.change_value("abcdef").is_ok());
    assert_eq!(c.value(), "abcdef");
}

#[test]
fn indentation_hanging_and_first_line_exclude_each_other() {
    let both = ParagraphIndentation::new(None, None, None, None, Some(10), None, Some(20), None);
    assert!(matches!(both, Err(RudocxStyleError::MutuallyExclusive(_, _))));
    let one = ParagraphIndentation::new(None, None, None, None, Some(10), None, None, None);
    assert!(one.is_ok());
    let mut ind = one.unwrap();
    assert!(ind.change_hanging(Some(5)).is_err());
    assert_eq!(ind.hanging, None);
    assert!(ind.change_first_line(None).is_ok());
    assert!(ind.change_hanging(Some(5)).is_ok());
    assert_eq!(ind.hanging, Some(5));
}

#[test]
fn percent_fill_clamps_and_rejects() {
    assert_eq!(PercentFill::new(50).value(), "pct50");
    assert_eq!(PercentFill::new(150).value(), "pct100");
    let mut p = PercentFill::new(5);
    assert!(matches!(p.change_value(101), Err(RudocxStyleError::InvalidPercentage(101))));
    assert_eq!(p.value(), "pct5");
}

#[test]
fn shading_values_from_markup() {
    assert!(matches!(ParagraphShadingValues::from_wire("clear"), Ok(ParagraphShadingValues::Clear)));
    match ParagraphShadingValues::from_wire("pct25") {
        Ok(ParagraphShadingValues::Percentage(p)) => assert_eq!(p.value(), "pct25"),
        _ => panic!("expected a percentage"),
    }
    assert!(matches!(
        ParagraphShadingValues::from_wire("pctx"),
        Err(RudocxStyleError::InvalidShading(_))
    ));
    match ParagraphShadingValues::from_wire("horzCross") {
        Ok(ParagraphShadingValues::Pattern(s)) => assert_eq!(s.pattern, StripePatternValues::HorizontalCross),
        _ => panic!("expected a pattern"),
    }
}

#[test]
fn font_set_resolves_its_hint() {
    let mut f = FontSet::new("Arial".to_string(), FontType::Ascii).unwrap();
    assert!(matches!(f.get_hint(), Err(RudocxStyleError::Undefined(_))));
    f.set_hint_value(FontType::Ascii).unwrap();
    assert_eq!(f.get_hint().unwrap(), "Arial");
    f.set_hint_value(FontType::Cs).unwrap();
    assert!(matches!(f.get_hint(), Err(RudocxStyleError::HintPointsNone(FontType::Cs))));
    assert!(matches!(FontSet::default().value(), Err(RudocxStyleError::EmptyFontSet)));
    assert!(FontSet::new("x".to_string(), FontType::Default).is_err());
    let mut empty = FontSet::default();
    assert!(matches!(
        empty.change_value(Some("A".to_string()), FontType::Ascii),
        Err(RudocxStyleError::PropertyNotSet(_))
    ));
    assert!(f.change_value(Some("Noto".to_string()), FontType::Cs).is_ok());
    assert_eq!(f.value().unwrap(), "Noto");
}

#[test]
fn wire_names_read_back() {
    assert_eq!(UnderlineStyle::from_wire(UnderlineStyle::DotDash.wire()), UnderlineStyle::DotDash);
    assert_eq!(UnderlineStyle::from_wire("nonsense"), UnderlineStyle::Single);
    assert_eq!(Underline::default().value(), "None");
    assert_eq!(HLColor::new(HighlightPalette::DarkRed).value(), "darkRed");
    assert_eq!(FontType::from_wire("hAnsi"), FontType::HiAnsi);
}

#[test]
fn decimal_numbers() {
    assert_eq!(format_u32(0), "0");
    assert_eq!(format_u32(4294967295), "4294967295");
    assert_eq!(format_i32(-2147483648), "-2147483648");
    assert_eq!(parse_unsigned_str("+42", 100), Some(42));
    assert_eq!(parse_unsigned_str("101", 100), None);
    assert_eq!(parse_unsigned_str("", 100), None);
    assert_eq!(parse_i32_str("-17"), Some(-17));
    assert_eq!(parse_i32_str("2147483648"), None);
    assert_eq!(parse_i32_str("-"), None);
}

#[test]
fn emptying_the_last_font_fails_and_keeps_the_set() {
    let mut f = FontSet::new("Arial".to_string(), FontType::Ascii).unwrap();
    assert!(matches!(f.change_value(None, FontType::Ascii), Err(RudocxStyleError::EmptyFontSet)));
    assert_eq!(f.ascii, Some("Arial".to_string()));
    assert!(f.change_value(Some("Noto".to_string()), FontType::CsTheme).is_ok());
    assert_eq!(f.cs_theme, Some("Noto".to_string()));
    assert!(f.change_value(None, FontType::Ascii).is_ok());
    assert_eq!(f.ascii, None);
}

#[test]
fn indentation_change_names_both_fields() {
    let mut ind = ParagraphIndentation::new(None, None, None, None, Some(1), None, None, None).unwrap();
    match ind.change_hanging(Some(2)) {
        Err(RudocxStyleError::MutuallyExclusive(a, b)) => {
            assert_eq!(a, "hanging");
            assert_eq!(b, "firstLine");
        }
        _ => panic!("expected MutuallyExclusive"),
    }
}
