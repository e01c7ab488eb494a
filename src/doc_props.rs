//! The document properties parts: application and core properties.
use vstd::prelude::*;
use vstd::utf8::encode_utf8;
use crate::xml::{attr_text, declaration, element, empty_str, escape, push_attr, push_declaration, push_element, push_escaped, to_bytes};

verus! {

/// An optional element of text content; nothing when the value is unset.
pub open spec fn optional_text_xml(tag: Seq<char>, value: Option<Seq<char>>) -> Seq<char> {
    match value {
        Some(v) => element(tag, Seq::empty(), escape(v)),
        None => Seq::empty(),
    }
}

/// The application properties part.
pub open spec fn app_xml() -> Seq<char> {
    declaration() + element(
        "Properties"@,
        attr_text(
            "xmlns"@,
            "http://schemas.openxmlformats.org/officeDocument/2006/extended-properties"@,
        ),
        Seq::empty(),
    )
}

/// The core properties part, with the title and subject that are set.
pub open spec fn core_xml(title: Option<Seq<char>>, subject: Option<Seq<char>>) -> Seq<char> {
    declaration() + element(
        "cp:coreProperties"@,
        attr_text(
            "xmlns:cp"@,
            "http://schemas.openxmlformats.org/package/2006/metadata/core-properties"@,
        ) + attr_text("xmlns:dc"@, "http://purl.org/dc/elements/1.1/"@),
        optional_text_xml("dc:title"@, title) + optional_text_xml("dc:subject"@, subject),
    )
}

/// The model of an optional string.
pub open spec fn optional_view(s: Option<String>) -> Option<Seq<char>> {
    match s {
        Some(v) => Some(v@),
        None => None,
    }
}

fn push_optional_text(out: &mut String, tag: &str, value: &Option<String>)
    ensures
        final(out)@ == old(out)@ + optional_text_xml(tag@, optional_view(*value)),
{
    match value {
        Some(v) => {
            let mut t = String::new();
            push_escaped(&mut t, v.as_str());
            push_element(out, tag, empty_str(), t.as_str());
        },
        None => {
            assert(out@ =~= old(out)@ + optional_text_xml(tag@, optional_view(*value)));
        },
    }
}

/// The two document properties parts, rendered.
pub struct XMLDocProps {
    pub app: Vec<u8>,
    pub core: Vec<u8>,
}

/// Document properties: an optional title and subject.
#[derive(Debug, Clone)]
pub struct DocProps {
    title: Option<String>,
    subject: Option<String>,
}

impl View for DocProps {
    type V = (Option<Seq<char>>, Option<Seq<char>>);

    closed spec fn view(&self) -> (Option<Seq<char>>, Option<Seq<char>>) {
        (optional_view(self.title), optional_view(self.subject))
    }
}

impl DocProps {
    pub fn new(title: Option<String>, subject: Option<String>) -> (r: DocProps)
        ensures
            r@ == (optional_view(title), optional_view(subject)),
    {
        DocProps { title, subject }
    }

    pub fn build_app_into(&self, out: &mut String)
        ensures
            final(out)@ == old(out)@ + app_xml(),
    {
        let ghost start = out@;
        let mut a = String::new();
        push_attr(
            &mut a,
            "xmlns",
            "http://schemas.openxmlformats.org/officeDocument/2006/extended-properties",
        );
        push_declaration(out);
        push_element(out, "Properties", a.as_str(), empty_str());
        assert(out@ =~= start + app_xml());
    }

    pub fn build_core_into(&self, out: &mut String)
        ensures
            final(out)@ == old(out)@ + core_xml(self@.0, self@.1),
    {
        let ghost start = out@;
        let mut c = String::new();
        push_optional_text(&mut c, "dc:title", &self.title);
        push_optional_text(&mut c, "dc:subject", &self.subject);
        let mut a = String::new();
        push_attr(
            &mut a,
            "xmlns:cp",
            "http://schemas.openxmlformats.org/package/2006/metadata/core-properties",
        );
        push_attr(&mut a, "xmlns:dc", "http://purl.org/dc/elements/1.1/");
        push_declaration(out);
        push_element(out, "cp:coreProperties", a.as_str(), c.as_str());
        assert(out@ =~= start + core_xml(self@.0, self@.1));
    }

    pub fn build(&self) -> (r: XMLDocProps)
        ensures
            r.app@ == encode_utf8(app_xml()),
            r.core@ == encode_utf8(core_xml(self@.0, self@.1)),
    {
        let mut app = String::new();
        self.build_app_into(&mut app);
        let mut core = String::new();
        self.build_core_into(&mut core);
        XMLDocProps { app: to_bytes(&app), core: to_bytes(&core) }
    }
}

} // verus!
