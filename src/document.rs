//! The document part: the body and its paragraphs.
use vstd::prelude::*;
use vstd::utf8::encode_utf8;
use crate::paragraph::{paragraph_xml, Paragraph, ParagraphView};
use crate::xml::{attr_text, declaration, element, empty_str, push_attr, push_declaration, push_element, to_bytes};

verus! {

/// The namespace of WordprocessingML elements.
pub open spec fn main_namespace() -> Seq<char> {
    "http://schemas.openxmlformats.org/wordprocessingml/2006/main"@
}

/// The paragraphs, in reading order.
pub open spec fn paragraphs_xml(ps: Seq<ParagraphView>) -> Seq<char>
    decreases ps.len(),
{
    if ps.len() == 0 {
        Seq::empty()
    } else {
        paragraphs_xml(ps.drop_last()) + paragraph_xml(ps.last())
    }
}

/// The document part: the root element, the body, then each paragraph.
pub open spec fn document_xml(ps: Seq<ParagraphView>) -> Seq<char> {
    declaration() + element(
        "w:document"@,
        attr_text("xmlns:w"@, main_namespace()),
        element("w:body"@, Seq::empty(), paragraphs_xml(ps)),
    )
}

/// The models of a sequence of paragraphs.
pub open spec fn paragraph_views(ps: Seq<Paragraph>) -> Seq<ParagraphView> {
    ps.map_values(|p: Paragraph| p@)
}

/// The document body: paragraphs in reading order.
#[derive(Debug, Clone)]
pub struct Document {
    children: Vec<Paragraph>,
}

impl View for Document {
    type V = Seq<ParagraphView>;

    closed spec fn view(&self) -> Seq<ParagraphView> {
        paragraph_views(self.children@)
    }
}

impl Document {
    pub fn new() -> (r: Document)
        ensures
            r@ == Seq::<ParagraphView>::empty(),
    {
        let r = Document { children: Vec::new() };
        assert(r@ =~= Seq::<ParagraphView>::empty());
        r
    }

    /// Appends a paragraph at the end of the body.
    pub fn add_paragraph(self, p: Paragraph) -> (r: Document)
        ensures
            r@ == self@.push(p@),
    {
        let mut children = self.children;
        children.push(p);
        let r = Document { children };
        assert(r@ =~= self@.push(p@));
        r
    }

    pub fn build_into(&self, out: &mut String)
        ensures
            final(out)@ == old(out)@ + document_xml(self@),
    {
        let ghost start = out@;
        let ghost ps = self@;
        let mut body = String::new();
        let mut i: usize = 0;
        while i < self.children.len()
            invariant
                i <= ps.len(),
                ps == paragraph_views(self.children@),
                body@ == paragraphs_xml(ps.subrange(0, i as int)),
            decreases ps.len() - i,
        {
            self.children[i].build_into(&mut body);
            proof {
                assert(ps.subrange(0, i + 1).drop_last() =~= ps.subrange(0, i as int));
                assert(body@ =~= paragraphs_xml(ps.subrange(0, i + 1)));
            }
            i += 1;
        }
        assert(ps.subrange(0, i as int) =~= ps);
        let mut content = String::new();
        push_element(&mut content, "w:body", empty_str(), body.as_str());
        let mut a = String::new();
        push_attr(&mut a, "xmlns:w", "http://schemas.openxmlformats.org/wordprocessingml/2006/main");
        push_declaration(out);
        push_element(out, "w:document", a.as_str(), content.as_str());
        assert(out@ =~= start + document_xml(self@));
    }

    pub fn build(&self) -> (r: Vec<u8>)
        ensures
            r@ == encode_utf8(document_xml(self@)),
    {
        let mut s = String::new();
        self.build_into(&mut s);
        to_bytes(&s)
    }
}

} // verus!
