//! The package parts rendered beside the document: content types,
//! relationships and the styles table.
use vstd::prelude::*;
use vstd::utf8::encode_utf8;
use crate::xml::{attr_text, declaration, element, empty_str, push_attr, push_declaration, push_element, to_bytes};

verus! {

/// An element with two attributes and no content.
pub open spec fn entry_xml(
    tag: Seq<char>,
    k1: Seq<char>,
    v1: Seq<char>,
    k2: Seq<char>,
    v2: Seq<char>,
) -> Seq<char> {
    element(tag, attr_text(k1, v1) + attr_text(k2, v2), Seq::empty())
}

fn push_entry(out: &mut String, tag: &str, k1: &str, v1: &str, k2: &str, v2: &str)
    ensures
        final(out)@ == old(out)@ + entry_xml(tag@, k1@, v1@, k2@, v2@),
{
    let mut a = String::new();
    push_attr(&mut a, k1, v1);
    push_attr(&mut a, k2, v2);
    push_element(out, tag, a.as_str(), empty_str());
}

/// The content types of the parts that a package holds.
pub open spec fn content_types_xml() -> Seq<char> {
    declaration() + element(
        "Types"@,
        attr_text("xmlns"@, "http://schemas.openxmlformats.org/package/2006/content-types"@),
        entry_xml(
            "Default"@,
            "Extension"@,
            "rels"@,
            "ContentType"@,
            "application/vnd.openxmlformats-package.relationships+xml"@,
        ) + entry_xml("Default"@, "Extension"@, "xml"@, "ContentType"@, "application/xml"@)
            + entry_xml(
            "Override"@,
            "PartName"@,
            "/word/document.xml"@,
            "ContentType"@,
            "application/vnd.openxmlformats-officedocument.wordprocessingml.document.main+xml"@,
        ) + entry_xml(
            "Override"@,
            "PartName"@,
            "/word/styles.xml"@,
            "ContentType"@,
            "application/vnd.openxmlformats-officedocument.wordprocessingml.styles+xml"@,
        ) + entry_xml(
            "Override"@,
            "PartName"@,
            "/docProps/core.xml"@,
            "ContentType"@,
            "application/vnd.openxmlformats-package.core-properties+xml"@,
        ) + entry_xml(
            "Override"@,
            "PartName"@,
            "/docProps/app.xml"@,
            "ContentType"@,
            "application/vnd.openxmlformats-officedocument.extended-properties+xml"@,
        ),
    )
}

/// The content types part, listing the default parts.
#[derive(Debug, Clone)]
pub struct ContentTypes {}

impl ContentTypes {
    pub fn new() -> (r: ContentTypes) {
        ContentTypes {  }
    }

    pub fn build_into(&self, out: &mut String)
        ensures
            final(out)@ == old(out)@ + content_types_xml(),
    {
        let ghost start = out@;
        let mut c = String::new();
        push_entry(
            &mut c,
            "Default",
            "Extension",
            "rels",
            "ContentType",
            "application/vnd.openxmlformats-package.relationships+xml",
        );
        push_entry(&mut c, "Default", "Extension", "xml", "ContentType", "application/xml");
        push_entry(
            &mut c,
            "Override",
            "PartName",
            "/word/document.xml",
            "ContentType",
            "application/vnd.openxmlformats-officedocument.wordprocessingml.document.main+xml",
        );
        push_entry(
            &mut c,
            "Override",
            "PartName",
            "/word/styles.xml",
            "ContentType",
            "application/vnd.openxmlformats-officedocument.wordprocessingml.styles+xml",
        );
        push_entry(
            &mut c,
            "Override",
            "PartName",
            "/docProps/core.xml",
            "ContentType",
            "application/vnd.openxmlformats-package.core-properties+xml",
        );
        push_entry(
            &mut c,
            "Override",
            "PartName",
            "/docProps/app.xml",
            "ContentType",
            "application/vnd.openxmlformats-officedocument.extended-properties+xml",
        );
        let mut a = String::new();
        push_attr(&mut a, "xmlns", "http://schemas.openxmlformats.org/package/2006/content-types");
        push_declaration(out);
        push_element(out, "Types", a.as_str(), c.as_str());
        assert(out@ =~= start + content_types_xml());
    }

    pub fn build(&self) -> (r: Vec<u8>)
        ensures
            r@ == encode_utf8(content_types_xml()),
    {
        let mut s = String::new();
        self.build_into(&mut s);
        to_bytes(&s)
    }
}

/// The package relationships, none by default.
pub open spec fn rels_xml() -> Seq<char> {
    declaration() + element(
        "Relationships"@,
        attr_text("xmlns"@, "http://schemas.openxmlformats.org/package/2006/relationships"@),
        Seq::empty(),
    )
}

/// The relationships part, empty.
#[derive(Debug, Clone)]
pub struct Rels {}

impl Rels {
    pub fn new() -> (r: Rels) {
        Rels {  }
    }

    pub fn build_into(&self, out: &mut String)
        ensures
            final(out)@ == old(out)@ + rels_xml(),
    {
        let ghost start = out@;
        let mut a = String::new();
        push_attr(&mut a, "xmlns", "http://schemas.openxmlformats.org/package/2006/relationships");
        push_declaration(out);
        push_element(out, "Relationships", a.as_str(), empty_str());
        assert(out@ =~= start + rels_xml());
    }

    pub fn build(&self) -> (r: Vec<u8>)
        ensures
            r@ == encode_utf8(rels_xml()),
    {
        let mut s = String::new();
        self.build_into(&mut s);
        to_bytes(&s)
    }
}

/// The styles table, empty.
pub open spec fn styles_xml() -> Seq<char> {
    declaration() + element(
        "w:styles"@,
        attr_text("xmlns:w"@, "http://schemas.openxmlformats.org/wordprocessingml/2006/main"@),
        Seq::empty(),
    )
}

/// The styles part, with an empty styles table.
#[derive(Debug, Clone)]
pub struct Styles {}

impl Styles {
    pub fn new() -> (r: Styles) {
        Styles {  }
    }

    pub fn build_into(&self, out: &mut String)
        ensures
            final(out)@ == old(out)@ + styles_xml(),
    {
        let ghost start = out@;
        let mut a = String::new();
        push_attr(&mut a, "xmlns:w", "http://schemas.openxmlformats.org/wordprocessingml/2006/main");
        push_declaration(out);
        push_element(out, "w:styles", a.as_str(), empty_str());
        assert(out@ =~= start + styles_xml());
    }

    pub fn build(&self) -> (r: Vec<u8>)
        ensures
            r@ == encode_utf8(styles_xml()),
    {
        let mut s = String::new();
        self.build_into(&mut s);
        to_bytes(&s)
    }
}

} // verus!
