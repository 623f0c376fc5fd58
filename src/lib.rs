//! Reading and writing word-processing documents.
//!
//! The crate models a document as paragraphs of runs and hyperlinks with their
//! formatting records, decodes the main document part from a stream of XML events
//! and encodes a model back into that stream.

pub mod error;
pub mod text;
pub mod color;
pub mod run_properties;
pub mod paragraph_properties;
pub mod rels;
pub mod model;
pub mod events;
pub mod decode;
pub mod encode;
pub mod xml_io;
pub mod round_trip;
