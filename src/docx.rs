//! The root package model: the document with its sibling parts.
use vstd::prelude::*;
use vstd::utf8::encode_utf8;
use crate::doc_props::{app_xml, core_xml, DocProps, XMLDocProps};
use crate::document::{document_xml, Document};
use crate::paragraph::{Paragraph, ParagraphView};
use crate::parts::{content_types_xml, rels_xml, styles_xml, ContentTypes, Rels, Styles};

verus! {

/// What a package holds that its parts render from.
pub struct DocxView {
    pub paragraphs: Seq<ParagraphView>,
    pub title: Option<Seq<char>>,
    pub subject: Option<Seq<char>>,
}

/// Each part of a package, rendered on its own.
pub struct XMLDocx {
    pub content_type: Vec<u8>,
    pub rels: Vec<u8>,
    pub doc_props: XMLDocProps,
    pub styles: Vec<u8>,
    pub document: Vec<u8>,
}

/// A package: the document and the parts rendered beside it.
pub struct Docx {
    content_type: ContentTypes,
    rels: Rels,
    doc_props: DocProps,
    styles: Styles,
    document: Document,
}

impl View for Docx {
    type V = DocxView;

    closed spec fn view(&self) -> DocxView {
        DocxView { paragraphs: self.document@, title: self.doc_props@.0, subject: self.doc_props@.1 }
    }
}

/// What rendering a package gives for each part.
pub open spec fn built(x: XMLDocx, d: DocxView) -> bool {
    &&& x.content_type@ == encode_utf8(content_types_xml())
    &&& x.rels@ == encode_utf8(rels_xml())
    &&& x.doc_props.app@ == encode_utf8(app_xml())
    &&& x.doc_props.core@ == encode_utf8(core_xml(d.title, d.subject))
    &&& x.styles@ == encode_utf8(styles_xml())
    &&& x.document@ == encode_utf8(document_xml(d.paragraphs))
}

impl Default for Docx {
    fn default() -> (r: Docx)
        ensures
            r@ == (DocxView { paragraphs: Seq::empty(), title: None, subject: None }),
    {
        let content_type = ContentTypes::new();
        let rels = Rels::new();
        let doc_props = DocProps::new(None, None);
        let styles = Styles::new();
        let document = Document::new();
        Docx { content_type, rels, doc_props, styles, document }
    }
}

impl Docx {
    /// A package with an empty document and default parts.
    pub fn new() -> (r: Docx)
        ensures
            r@ == (DocxView { paragraphs: Seq::empty(), title: None, subject: None }),
    {
        Docx::default()
    }

    /// Appends a paragraph at the end of the document.
    pub fn add_paragraph(self, p: Paragraph) -> (r: Docx)
        ensures
            r@ == (DocxView { paragraphs: self@.paragraphs.push(p@), ..self@ }),
    {
        Docx { document: self.document.add_paragraph(p), ..self }
    }

    /// Renders every part on its own.
    pub fn build(&self) -> (r: XMLDocx)
        ensures
            built(r, self@),
    {
        XMLDocx {
            content_type: self.content_type.build(),
            rels: self.rels.build(),
            doc_props: self.doc_props.build(),
            styles: self.styles.build(),
            document: self.document.build(),
        }
    }
}

} // verus!
