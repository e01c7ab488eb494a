//! Paragraphs: runs under paragraph-level formatting.
use vstd::prelude::*;
use vstd::utf8::encode_utf8;
use crate::paragraph_property::{paragraph_property_xml, ParagraphProperty, ParagraphPropertyView};
use crate::run::{run_xml, Run, RunView};
use crate::types::{AlignmentType, SpecialIndentType};
use crate::xml::{attrs_text, attrs_view, element, push_attrs, push_element, to_bytes};

verus! {

/// What a paragraph holds.
pub struct ParagraphView {
    pub runs: Seq<RunView>,
    pub property: ParagraphPropertyView,
    /// Attributes of the paragraph's own tag, in insertion order.
    pub attrs: Seq<(Seq<char>, Seq<char>)>,
}

/// The runs, in order.
pub open spec fn runs_xml(runs: Seq<RunView>) -> Seq<char>
    decreases runs.len(),
{
    if runs.len() == 0 {
        Seq::empty()
    } else {
        runs_xml(runs.drop_last()) + run_xml(runs.last())
    }
}

/// A paragraph: its own attributes on its tag, its property block, then its runs.
pub open spec fn paragraph_xml(p: ParagraphView) -> Seq<char> {
    element("w:p"@, attrs_text(p.attrs), paragraph_property_xml(p.property) + runs_xml(p.runs))
}

/// A paragraph with nothing set.
pub open spec fn empty_paragraph() -> ParagraphView {
    ParagraphView {
        runs: Seq::empty(),
        property: ParagraphPropertyView {
            style: None,
            alignment: None,
            indent: None,
            run_property: None,
        },
        attrs: Seq::empty(),
    }
}

/// A paragraph with one more run at its end.
pub open spec fn with_run(p: ParagraphView, r: RunView) -> ParagraphView {
    ParagraphView { runs: p.runs.push(r), ..p }
}

/// A run with its font size set.
pub open spec fn sized(r: RunView, size: usize) -> RunView {
    RunView { size: Some(size), ..r }
}

/// Each run with its font size set.
pub open spec fn sized_runs(runs: Seq<RunView>, size: usize) -> Seq<RunView> {
    runs.map_values(|r: RunView| sized(r, size))
}

/// A paragraph whose runs held so far all have their font size set.
pub open spec fn with_size(p: ParagraphView, size: usize) -> ParagraphView {
    ParagraphView { runs: sized_runs(p.runs, size), ..p }
}

/// The models of a sequence of runs.
pub open spec fn run_views(runs: Seq<Run>) -> Seq<RunView> {
    runs.map_values(|r: Run| r@)
}

/// A paragraph: ordered runs, a property block, and free-form attributes.
#[derive(Debug, Clone)]
pub struct Paragraph {
    runs: Vec<Run>,
    property: ParagraphProperty,
    attrs: Vec<(String, String)>,
}

impl View for Paragraph {
    type V = ParagraphView;

    closed spec fn view(&self) -> ParagraphView {
        ParagraphView {
            runs: run_views(self.runs@),
            property: self.property@,
            attrs: attrs_view(self.attrs@),
        }
    }
}

impl Default for Paragraph {
    fn default() -> (r: Paragraph)
        ensures
            r@ == empty_paragraph(),
    {
        let r = Paragraph { runs: Vec::new(), property: ParagraphProperty::new(), attrs: Vec::new() };
        assert(r@.runs =~= Seq::<RunView>::empty());
        assert(r@.attrs =~= Seq::<(Seq<char>, Seq<char>)>::empty());
        r
    }
}

impl Paragraph {
    pub fn new() -> (r: Paragraph)
        ensures
            r@ == empty_paragraph(),
    {
        Paragraph::default()
    }

    /// Appends a run; runs render in the order in which they were added.
    pub fn add_run(self, run: Run) -> (r: Paragraph)
        ensures
            r@ == with_run(self@, run@),
    {
        let mut runs = self.runs;
        runs.push(run);
        let r = Paragraph { runs, property: self.property, attrs: self.attrs };
        assert(r@.runs =~= self@.runs.push(run@));
        r
    }

    /// Appends an attribute of the paragraph's own tag; a repeated key is kept
    /// as a further attribute.
    pub fn add_attr(self, key: &str, val: &str) -> (r: Paragraph)
        ensures
            r@ == (ParagraphView { attrs: self@.attrs.push((key@, val@)), ..self@ }),
    {
        let mut attrs = self.attrs;
        attrs.push((key.to_owned(), val.to_owned()));
        let r = Paragraph { runs: self.runs, property: self.property, attrs };
        assert(r@.attrs =~= self@.attrs.push((key@, val@)));
        r
    }

    /// Sets the alignment, replacing any earlier one.
    pub fn align(self, alignment_type: AlignmentType) -> (r: Paragraph)
        ensures
            r@ == (ParagraphView {
                property: ParagraphPropertyView { alignment: Some(alignment_type), ..self@.property },
                ..self@
            }),
    {
        Paragraph { property: self.property.align(alignment_type), ..self }
    }

    /// Sets the font size of every run held now. Runs added later keep their
    /// own size: to size every run, call this after the last `add_run`.
    pub fn size(self, size: usize) -> (r: Paragraph)
        ensures
            r@ == with_size(self@, size),
    {
        let ghost orig = self@.runs;
        let mut rest = self.runs;
        let mut runs: Vec<Run> = Vec::new();
        while rest.len() > 0
            invariant
                runs@.len() <= orig.len(),
                run_views(rest@) == orig.subrange(runs@.len() as int, orig.len() as int),
                run_views(runs@) == sized_runs(orig.subrange(0, runs@.len() as int), size),
            decreases rest@.len(),
        {
            let ghost k: int = runs@.len() as int;
            let ghost before = rest@;
            proof {
                assert(run_views(before).len() == before.len());
                assert(orig.subrange(k, orig.len() as int)[0] == orig[k]);
                assert(run_views(before)[0] == orig[k]);
            }
            let ghost done = runs@;
            let run = rest.remove(0);
            assert(run@ == orig[k]);
            let resized = run.size(size);
            runs.push(resized);
            proof {
                assert(rest@ =~= before.subrange(1, before.len() as int));
                assert forall|i: int| 0 <= i < rest@.len() implies run_views(rest@)[i] == orig[k + 1
                    + i] by {
                    assert(rest@[i] == before[i + 1]);
                    assert(run_views(before)[i + 1] == orig.subrange(k, orig.len() as int)[i + 1]);
                }
                assert(run_views(rest@) =~= orig.subrange(k + 1, orig.len() as int));
                assert(runs@ == done.push(resized));
                assert(run_views(runs@) =~= run_views(done).push(sized(orig[k], size)));
                assert(sized_runs(orig.subrange(0, k + 1), size) =~= sized_runs(orig.subrange(0, k), size).push(
                    sized(orig[k], size),
                ));
                assert(run_views(runs@) =~= sized_runs(orig.subrange(0, k + 1), size));
            }
        }
        proof {
            assert(orig.subrange(runs@.len() as int, orig.len() as int).len() == 0);
            assert(orig.subrange(0, runs@.len() as int) =~= orig);
        }
        let r = Paragraph { runs, property: self.property, attrs: self.attrs };
        assert(r@.runs =~= with_size(self@, size).runs);
        r
    }

    /// Sets the style reference, replacing any earlier one.
    pub fn style(self, style_id: &str) -> (r: Paragraph)
        ensures
            r@ == (ParagraphView {
                property: ParagraphPropertyView { style: Some(style_id@), ..self@.property },
                ..self@
            }),
    {
        Paragraph { property: self.property.style(style_id), ..self }
    }

    /// Sets the indentation as a whole, replacing any earlier one.
    pub fn indent(self, left: usize, special_indent: Option<SpecialIndentType>) -> (r: Paragraph)
        ensures
            r@ == (ParagraphView {
                property: ParagraphPropertyView {
                    indent: Some((left, special_indent)),
                    ..self@.property
                },
                ..self@
            }),
    {
        Paragraph { property: self.property.indent(left, special_indent), ..self }
    }

    pub fn build_into(&self, out: &mut String)
        ensures
            final(out)@ == old(out)@ + paragraph_xml(self@),
    {
        let mut a = String::new();
        push_attrs(&mut a, &self.attrs);
        let mut content = String::new();
        self.property.build_into(&mut content);
        let ghost head = content@;
        let ghost runs = self@.runs;
        let mut i: usize = 0;
        while i < self.runs.len()
            invariant
                i <= runs.len(),
                runs == run_views(self.runs@),
                content@ == head + runs_xml(runs.subrange(0, i as int)),
            decreases runs.len() - i,
        {
            self.runs[i].build_into(&mut content);
            proof {
                assert(runs.subrange(0, i + 1).drop_last() =~= runs.subrange(0, i as int));
                assert(content@ =~= head + runs_xml(runs.subrange(0, i + 1)));
            }
            i += 1;
        }
        assert(runs.subrange(0, i as int) =~= runs);
        push_element(out, "w:p", a.as_str(), content.as_str());
    }

    pub fn build(&self) -> (r: Vec<u8>)
        ensures
            r@ == encode_utf8(paragraph_xml(self@)),
    {
        let mut s = String::new();
        self.build_into(&mut s);
        to_bytes(&s)
    }
}

} // verus!
