//! A document object model for word-processing documents and the
//! WordprocessingML text that each of its parts renders to.
pub mod doc_props;
pub mod document;
pub mod lemmas;
pub mod docx;
pub mod paragraph;
pub mod paragraph_property;
pub mod parts;
pub mod run;
pub mod types;
pub mod xml;

pub use doc_props::{DocProps, XMLDocProps};
pub use document::Document;
pub use docx::{Docx, XMLDocx};
pub use paragraph::Paragraph;
pub use paragraph_property::ParagraphProperty;
pub use parts::{ContentTypes, Rels, Styles};
pub use run::{Run, RunProperty};
pub use types::{AlignmentType, SpecialIndentType};
