//! The errors of the library.

use vstd::prelude::*;

verus! {

/// Why a formatting property could not be set or read.
#[derive(Debug, Clone, PartialEq)]
pub enum RudocxStyleError {
    /// The text is not six hexadecimal digits.
    InvalidHex(String),
    /// The property holds no value.
    PropertyNotSet(String),
    /// The hint of a font set names a slot that holds no font.
    HintPointsNone(crate::run_properties::FontType),
    SystemFontsNotFound,
    FontNotInstalled(String),
    /// A font set with no font at all.
    EmptyFontSet,
    DefaultHintIsUnmodifiable,
    /// The value is left to the consumer's environment.
    Undefined(String),
    /// A percentage above one hundred.
    InvalidPercentage(u8),
    /// Two fields that may not both be set were both set.
    MutuallyExclusive(String, String),
    /// A shading value that names no pattern and no percentage.
    InvalidShading(String),
}

/// Why a document could not be read or written.
#[derive(Debug)]
pub enum RudocxError {
    /// The XML reader rejected the text.
    XmlError(quick_xml::Error),
    /// An attribute of an element is malformed.
    XmlAttributeError(quick_xml::events::attributes::AttrError),
    /// Writing the XML failed.
    IoError(std::io::Error),
    /// The written bytes are not UTF-8.
    Utf8Error(std::string::FromUtf8Error),
    /// A part that a package must hold is absent.
    MissingPart(String),
    LoadContentMismatch(String),
    Unsupported(String),
    /// A property value is invalid.
    RunPropertyError(RudocxStyleError),
    /// An attribute that must be a number is not one; it holds the text read.
    NumParseError(String),
}

} // verus!
