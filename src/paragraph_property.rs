//! The paragraph property block: style, alignment and indentation.
use vstd::prelude::*;
use vstd::utf8::encode_utf8;
use crate::run::{run_property_xml, RunProperty};
use crate::types::{alignment_name, AlignmentType, SpecialIndentType};
use crate::xml::{attr_text, decimal, element, empty_str, push_attr, push_decimal, push_element, to_bytes};

verus! {

/// The style that a paragraph without an explicit style refers to.
pub open spec fn default_style() -> Seq<char> {
    "Normal"@
}

/// What a paragraph property block holds.
pub struct ParagraphPropertyView {
    /// The style reference, when one was set.
    pub style: Option<Seq<char>>,
    pub alignment: Option<AlignmentType>,
    /// The left indentation and the special indentation of the first line.
    pub indent: Option<(usize, Option<SpecialIndentType>)>,
    /// The font size of the paragraph mark.
    pub run_property: Option<usize>,
}

/// The style reference; an unset style resolves to the default one here.
pub open spec fn style_xml(style: Option<Seq<char>>) -> Seq<char> {
    let id = match style {
        Some(s) => s,
        None => default_style(),
    };
    element("w:pStyle"@, attr_text("w:val"@, id), Seq::empty())
}

pub open spec fn alignment_xml(alignment: Option<AlignmentType>) -> Seq<char> {
    match alignment {
        Some(a) => element("w:jc"@, attr_text("w:val"@, alignment_name(a)), Seq::empty()),
        None => Seq::empty(),
    }
}

pub open spec fn special_indent_attr(special: Option<SpecialIndentType>) -> Seq<char> {
    match special {
        Some(SpecialIndentType::FirstLine(v)) => attr_text("w:firstLine"@, decimal(v as nat)),
        Some(SpecialIndentType::Hanging(v)) => attr_text("w:hanging"@, decimal(v as nat)),
        None => Seq::empty(),
    }
}

pub open spec fn indent_xml(indent: Option<(usize, Option<SpecialIndentType>)>) -> Seq<char> {
    match indent {
        Some((left, special)) => element(
            "w:ind"@,
            attr_text("w:left"@, decimal(left as nat)) + special_indent_attr(special),
            Seq::empty(),
        ),
        None => Seq::empty(),
    }
}

/// The block in schema order: style, alignment, indentation, then the run
/// properties of the paragraph mark.
pub open spec fn paragraph_property_xml(p: ParagraphPropertyView) -> Seq<char> {
    element(
        "w:pPr"@,
        Seq::empty(),
        style_xml(p.style) + alignment_xml(p.alignment) + indent_xml(p.indent) + run_property_xml(
            p.run_property,
        ),
    )
}

/// Paragraph-level formatting.
#[derive(Debug, Clone)]
pub struct ParagraphProperty {
    style: Option<String>,
    alignment: Option<AlignmentType>,
    indent: Option<(usize, Option<SpecialIndentType>)>,
    run_property: RunProperty,
}

impl View for ParagraphProperty {
    type V = ParagraphPropertyView;

    closed spec fn view(&self) -> ParagraphPropertyView {
        ParagraphPropertyView {
            style: match self.style {
                Some(s) => Some(s@),
                None => None,
            },
            alignment: self.alignment,
            indent: self.indent,
            run_property: self.run_property@,
        }
    }
}

impl ParagraphProperty {
    pub fn new() -> (r: ParagraphProperty)
        ensures
            r@ == (ParagraphPropertyView {
                style: None,
                alignment: None,
                indent: None,
                run_property: None,
            }),
    {
        ParagraphProperty { style: None, alignment: None, indent: None, run_property: RunProperty::new() }
    }

    /// Sets the style reference, replacing any earlier one.
    pub fn style(self, style_id: &str) -> (r: ParagraphProperty)
        ensures
            r@ == (ParagraphPropertyView { style: Some(style_id@), ..self@ }),
    {
        ParagraphProperty { style: Some(style_id.to_owned()), ..self }
    }

    /// Sets the alignment, replacing any earlier one.
    pub fn align(self, alignment_type: AlignmentType) -> (r: ParagraphProperty)
        ensures
            r@ == (ParagraphPropertyView { alignment: Some(alignment_type), ..self@ }),
    {
        ParagraphProperty { alignment: Some(alignment_type), ..self }
    }

    /// Sets the indentation as a whole, replacing any earlier one.
    pub fn indent(self, left: usize, special_indent: Option<SpecialIndentType>) -> (r: ParagraphProperty)
        ensures
            r@ == (ParagraphPropertyView { indent: Some((left, special_indent)), ..self@ }),
    {
        ParagraphProperty { indent: Some((left, special_indent)), ..self }
    }

    pub fn build_into(&self, out: &mut String)
        ensures
            final(out)@ == old(out)@ + paragraph_property_xml(self@),
    {
        let ghost start = out@;
        let mut content = String::new();
        let mut a = String::new();
        match &self.style {
            Some(s) => push_attr(&mut a, "w:val", s.as_str()),
            None => push_attr(&mut a, "w:val", "Normal"),
        }
        push_element(&mut content, "w:pStyle", a.as_str(), empty_str());
        let ghost c1 = content@;
        match self.alignment {
            Some(al) => {
                let mut a = String::new();
                push_attr(&mut a, "w:val", al.as_str());
                push_element(&mut content, "w:jc", a.as_str(), empty_str());
            },
            None => {},
        }
        assert(content@ == c1 + alignment_xml(self@.alignment));
        let ghost c2 = content@;
        match self.indent {
            Some((left, special)) => {
                let mut v = String::new();
                push_decimal(&mut v, left);
                let mut a = String::new();
                push_attr(&mut a, "w:left", v.as_str());
                match special {
                    Some(SpecialIndentType::FirstLine(n)) => {
                        let mut w = String::new();
                        push_decimal(&mut w, n);
                        push_attr(&mut a, "w:firstLine", w.as_str());
                    },
                    Some(SpecialIndentType::Hanging(n)) => {
                        let mut w = String::new();
                        push_decimal(&mut w, n);
                        push_attr(&mut a, "w:hanging", w.as_str());
                    },
                    None => {},
                }
                push_element(&mut content, "w:ind", a.as_str(), empty_str());
            },
            None => {},
        }
        assert(content@ == c2 + indent_xml(self@.indent));
        self.run_property.build_into(&mut content);
        push_element(out, "w:pPr", empty_str(), content.as_str());
        assert(content@ =~= style_xml(self@.style) + alignment_xml(self@.alignment) + indent_xml(
            self@.indent,
        ) + run_property_xml(self@.run_property));
    }

    pub fn build(&self) -> (r: Vec<u8>)
        ensures
            r@ == encode_utf8(paragraph_property_xml(self@)),
    {
        let mut s = String::new();
        self.build_into(&mut s);
        to_bytes(&s)
    }
}

} // verus!
