//! Runs: text segments that share inline formatting.
use vstd::prelude::*;
use vstd::utf8::encode_utf8;
use crate::xml::{attr_text, decimal, element, empty_str, escape, push_attr, push_decimal, push_element, push_escaped, to_bytes};

verus! {

/// The size elements inside a run property block.
pub open spec fn size_xml(n: usize) -> Seq<char> {
    element("w:sz"@, attr_text("w:val"@, decimal(n as nat)), Seq::empty())
        + element("w:szCs"@, attr_text("w:val"@, decimal(n as nat)), Seq::empty())
}

/// A run property block; present, and self-closing, when no size is set.
pub open spec fn run_property_xml(size: Option<usize>) -> Seq<char> {
    element(
        "w:rPr"@,
        Seq::empty(),
        match size {
            Some(n) => size_xml(n),
            None => Seq::empty(),
        },
    )
}

/// One text segment, whitespace marked as preserved.
pub open spec fn text_xml(t: Seq<char>) -> Seq<char> {
    element("w:t"@, attr_text("xml:space"@, "preserve"@), escape(t))
}

/// The text segments, in order.
pub open spec fn texts_xml(ts: Seq<Seq<char>>) -> Seq<char>
    decreases ts.len(),
{
    if ts.len() == 0 {
        Seq::empty()
    } else {
        texts_xml(ts.drop_last()) + text_xml(ts.last())
    }
}

/// What a run holds: its text segments and its font size in half-points.
pub struct RunView {
    pub texts: Seq<Seq<char>>,
    pub size: Option<usize>,
}

/// A run: its property block, then each text segment.
pub open spec fn run_xml(r: RunView) -> Seq<char> {
    element("w:r"@, Seq::empty(), run_property_xml(r.size) + texts_xml(r.texts))
}

/// Inline formatting of a run.
#[derive(Debug, Clone)]
pub struct RunProperty {
    sz: Option<usize>,
}

impl View for RunProperty {
    type V = Option<usize>;

    closed spec fn view(&self) -> Option<usize> {
        self.sz
    }
}

impl RunProperty {
    pub fn new() -> (r: RunProperty)
        ensures
            r@ == None::<usize>,
    {
        RunProperty { sz: None }
    }

    /// Sets the font size in half-points; the last call wins.
    pub fn size(self, size: usize) -> (r: RunProperty)
        ensures
            r@ == Some(size),
    {
        RunProperty { sz: Some(size) }
    }

    pub fn build_into(&self, out: &mut String)
        ensures
            final(out)@ == old(out)@ + run_property_xml(self@),
    {
        let mut content = String::new();
        match self.sz {
            Some(n) => {
                let mut val = String::new();
                push_decimal(&mut val, n);
                let mut a = String::new();
                push_attr(&mut a, "w:val", val.as_str());
                push_element(&mut content, "w:sz", a.as_str(), empty_str());
                push_element(&mut content, "w:szCs", a.as_str(), empty_str());
            },
            None => {},
        }
        push_element(out, "w:rPr", empty_str(), content.as_str());
    }

    pub fn build(&self) -> (r: Vec<u8>)
        ensures
            r@ == encode_utf8(run_property_xml(self@)),
    {
        let mut s = String::new();
        self.build_into(&mut s);
        to_bytes(&s)
    }
}

/// A run of text with its inline formatting.
#[derive(Debug, Clone)]
pub struct Run {
    property: RunProperty,
    texts: Vec<String>,
}

impl View for Run {
    type V = RunView;

    closed spec fn view(&self) -> RunView {
        RunView { texts: self.texts@.map_values(|t: String| t@), size: self.property@ }
    }
}

impl Run {
    pub fn new() -> (r: Run)
        ensures
            r@ == (RunView { texts: Seq::empty(), size: None }),
    {
        let r = Run { property: RunProperty::new(), texts: Vec::new() };
        assert(r@.texts =~= Seq::empty());
        r
    }

    /// Appends a text segment.
    pub fn add_text(self, text: &str) -> (r: Run)
        ensures
            r@ == (RunView { texts: self@.texts.push(text@), ..self@ }),
    {
        let mut texts = self.texts;
        texts.push(text.to_owned());
        let r = Run { property: self.property, texts };
        assert(r@.texts =~= self@.texts.push(text@));
        r
    }

    /// Sets the font size in half-points; the last call wins.
    pub fn size(self, size: usize) -> (r: Run)
        ensures
            r@ == (RunView { size: Some(size), ..self@ }),
    {
        Run { property: self.property.size(size), texts: self.texts }
    }

    pub fn build_into(&self, out: &mut String)
        ensures
            final(out)@ == old(out)@ + run_xml(self@),
    {
        let mut content = String::new();
        self.property.build_into(&mut content);
        let ghost head = content@;
        let mut i: usize = 0;
        while i < self.texts.len()
            invariant
                i <= self@.texts.len(),
                self@.texts.len() == self.texts@.len(),
                content@ == head + texts_xml(self@.texts.subrange(0, i as int)),
            decreases self.texts@.len() - i,
        {
            let mut a = String::new();
            push_attr(&mut a, "xml:space", "preserve");
            let mut t = String::new();
            push_escaped(&mut t, self.texts[i].as_str());
            push_element(&mut content, "w:t", a.as_str(), t.as_str());
            proof {
                assert(self@.texts.subrange(0, i + 1).drop_last() =~= self@.texts.subrange(0, i as int));
                assert(content@ =~= head + texts_xml(self@.texts.subrange(0, i + 1)));
            }
            i += 1;
        }
        assert(self@.texts.subrange(0, i as int) =~= self@.texts);
        push_element(out, "w:r", empty_str(), content.as_str());
    }

    pub fn build(&self) -> (r: Vec<u8>)
        ensures
            r@ == encode_utf8(run_xml(self@)),
    {
        let mut s = String::new();
        self.build_into(&mut s);
        to_bytes(&s)
    }
}

} // verus!
