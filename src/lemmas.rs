//! Facts about rendering that hold of every model.
use vstd::prelude::*;
use crate::docx::{built, DocxView, XMLDocx};
use crate::paragraph::{paragraph_xml, runs_xml, sized, with_run, with_size, ParagraphView};
use crate::paragraph_property::{alignment_xml, indent_xml, paragraph_property_xml};
use crate::run::{run_property_xml, run_xml, texts_xml, RunView};
use crate::xml::{attrs_text, element};

verus! {

/// A paragraph after a sequence of `add_run` calls.
pub open spec fn add_runs(p: ParagraphView, rs: Seq<RunView>) -> ParagraphView
    decreases rs.len(),
{
    if rs.len() == 0 {
        p
    } else {
        with_run(add_runs(p, rs.drop_last()), rs.last())
    }
}

/// A paragraph with no style set renders the default style reference
/// `Normal` first in its property block.
pub proof fn lemma_default_style_rendered(p: ParagraphView)
    requires
        p.property.style is None,
    ensures
        paragraph_xml(p) == "<w:p"@ + attrs_text(p.attrs) + ">"@ + "<w:pPr>"@
            + "<w:pStyle w:val=\"Normal\" />"@ + alignment_xml(p.property.alignment) + indent_xml(
            p.property.indent,
        ) + run_property_xml(p.property.run_property) + "</w:pPr>"@ + runs_xml(p.runs)
            + "</w:p>"@,
{
    reveal_strlit("<");
    reveal_strlit(">");
    reveal_strlit("</");
    reveal_strlit("<w:p");
    reveal_strlit("w:p");
    reveal_strlit("<w:pPr>");
    reveal_strlit("w:pPr");
    reveal_strlit("</w:pPr>");
    reveal_strlit("</w:p>");
    reveal_strlit("w:pStyle");
    reveal_strlit("w:val");
    reveal_strlit("Normal");
    reveal_strlit(" ");
    reveal_strlit("=\"");
    reveal_strlit("\"");
    reveal_strlit(" />");
    reveal_strlit("<w:pStyle w:val=\"Normal\" />");
    let ppr = paragraph_property_xml(p.property);
    assert(ppr.len() > 0);
    assert(paragraph_xml(p) =~= "<w:p"@ + attrs_text(p.attrs) + ">"@ + "<w:pPr>"@
        + "<w:pStyle w:val=\"Normal\" />"@ + alignment_xml(p.property.alignment) + indent_xml(
        p.property.indent,
    ) + run_property_xml(p.property.run_property) + "</w:pPr>"@ + runs_xml(p.runs) + "</w:p>"@);
}

/// A run with no size set renders its property block, present and empty.
pub proof fn lemma_unsized_run_rendered(r: RunView)
    requires
        r.size is None,
    ensures
        run_xml(r) == "<w:r>"@ + "<w:rPr />"@ + texts_xml(r.texts) + "</w:r>"@,
{
    reveal_strlit("<");
    reveal_strlit(">");
    reveal_strlit("</");
    reveal_strlit(" />");
    reveal_strlit("w:r");
    reveal_strlit("w:rPr");
    reveal_strlit("<w:r>");
    reveal_strlit("<w:rPr />");
    reveal_strlit("</w:r>");
    assert(run_property_xml(r.size) =~= "<w:rPr />"@);
    assert(run_xml(r) =~= "<w:r>"@ + "<w:rPr />"@ + texts_xml(r.texts) + "</w:r>"@);
}

/// Rendering is a function of the model: two renderings of one package
/// are byte for byte the same.
pub proof fn lemma_build_deterministic(d: DocxView, x1: XMLDocx, x2: XMLDocx)
    requires
        built(x1, d),
        built(x2, d),
    ensures
        x1.content_type@ == x2.content_type@,
        x1.rels@ == x2.rels@,
        x1.doc_props.app@ == x2.doc_props.app@,
        x1.doc_props.core@ == x2.doc_props.core@,
        x1.styles@ == x2.styles@,
        x1.document@ == x2.document@,
{
}

/// Rendered runs of a concatenation are the two renderings, in order.
pub proof fn lemma_runs_xml_concat(a: Seq<RunView>, b: Seq<RunView>)
    ensures
        runs_xml(a + b) == runs_xml(a) + runs_xml(b),
    decreases b.len(),
{
    if b.len() == 0 {
        assert(a + b =~= a);
        assert(runs_xml(b) =~= Seq::empty());
        assert(runs_xml(a) + runs_xml(b) =~= runs_xml(a));
    } else {
        lemma_runs_xml_concat(a, b.drop_last());
        assert((a + b).drop_last() =~= a + b.drop_last());
        assert((a + b).last() == b.last());
        assert(runs_xml(a + b) =~= runs_xml(a) + runs_xml(b));
    }
}

/// A sequence of `add_run` calls appends the runs in the order of the calls.
pub proof fn lemma_add_runs_held(p: ParagraphView, rs: Seq<RunView>)
    ensures
        add_runs(p, rs).runs == p.runs + rs,
        add_runs(p, rs).property == p.property,
        add_runs(p, rs).attrs == p.attrs,
    decreases rs.len(),
{
    if rs.len() == 0 {
        assert(p.runs + rs =~= p.runs);
    } else {
        lemma_add_runs_held(p, rs.drop_last());
        assert(add_runs(p, rs).runs =~= p.runs + rs);
    }
}

/// Runs added one after another are rendered in the order of the calls,
/// after the runs held before.
pub proof fn lemma_add_runs_order(p: ParagraphView, rs: Seq<RunView>)
    ensures
        add_runs(p, rs).runs == p.runs + rs,
        paragraph_xml(add_runs(p, rs)) == element(
            "w:p"@,
            attrs_text(p.attrs),
            paragraph_property_xml(p.property) + runs_xml(p.runs) + runs_xml(rs),
        ),
{
    lemma_add_runs_held(p, rs);
    lemma_runs_xml_concat(p.runs, rs);
    let q = add_runs(p, rs);
    assert(paragraph_property_xml(q.property) + runs_xml(q.runs) =~= paragraph_property_xml(
        p.property,
    ) + runs_xml(p.runs) + runs_xml(rs));
}

/// `size` resizes exactly the runs held when it is called; a run added
/// afterwards keeps its own size.
pub proof fn lemma_size_then_add_run(p: ParagraphView, size: usize, r: RunView)
    ensures
        with_run(with_size(p, size), r).runs.len() == p.runs.len() + 1,
        forall|i: int|
            0 <= i < p.runs.len() ==> with_run(with_size(p, size), r).runs[i] == sized(
                p.runs[i],
                size,
            ),
        with_run(with_size(p, size), r).runs.last() == r,
        with_run(with_size(p, size), r).property == p.property,
        with_run(with_size(p, size), r).attrs == p.attrs,
{
}

} // verus!
