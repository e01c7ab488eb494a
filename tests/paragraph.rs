use docx_core::{AlignmentType, Paragraph, Run, SpecialIndentType};
use std::str;

#[test]
fn test_paragraph() {
    let b = Paragraph::new()
        .add_run(Run::new().add_text("Hello"))
        .build();
    assert_eq!(
        str::from_utf8(&b).unwrap(),
        r#"<w:p><w:pPr><w:pStyle w:val="Normal" /><w:rPr /></w:pPr><w:r><w:rPr /><w:t xml:space="preserve">Hello</w:t></w:r></w:p>"#
    );
}

#[test]
fn test_paragraph_size() {
    let b = Paragraph::new()
        .add_run(Run::new().add_text("Hello"))
        .size(60)
        .build();
    assert_eq!(
        str::from_utf8(&b).unwrap(),
        r#"<w:p><w:pPr><w:pStyle w:val="Normal" /><w:rPr /></w:pPr><w:r><w:rPr><w:sz w:val="60" /><w:szCs w:val="60" /></w:rPr><w:t xml:space="preserve">Hello</w:t></w:r></w:p>"#
    );
}

#[test]
fn test_custom_attr() {
    let b = Paragraph::new()
        .add_run(Run::new().add_text("Hello"))
        .add_attr("customId", "abcd-1234-567890")
        .build();
    assert_eq!(
        str::from_utf8(&b).unwrap(),
        r#"<w:p customId="abcd-1234-567890"><w:pPr><w:pStyle w:val="Normal" /><w:rPr /></w:pPr><w:r><w:rPr /><w:t xml:space="preserve">Hello</w:t></w:r></w:p>"#
    );
}

#[test]
fn empty_paragraph_still_has_default_style() {
    let b = Paragraph::new().build();
    assert_eq!(
        str::from_utf8(&b).unwrap(),
        r#"<w:p><w:pPr><w:pStyle w:val="Normal" /><w:rPr /></w:pPr></w:p>"#
    );
}

#[test]
fn explicit_style_replaces_default() {
    let b = Paragraph::new().style("Normal").style("Heading1").build();
    assert_eq!(
        str::from_utf8(&b).unwrap(),
        r#"<w:p><w:pPr><w:pStyle w:val="Heading1" /><w:rPr /></w:pPr></w:p>"#
    );
}

#[test]
fn property_children_in_schema_order() {
    let b = Paragraph::new()
        .indent(20, Some(SpecialIndentType::FirstLine(10)))
        .align(AlignmentType::Center)
        .style("Title")
        .build();
    assert_eq!(
        str::from_utf8(&b).unwrap(),
        r#"<w:p><w:pPr><w:pStyle w:val="Title" /><w:jc w:val="center" /><w:ind w:left="20" w:firstLine="10" /><w:rPr /></w:pPr></w:p>"#
    );
}

#[test]
fn alignment_names() {
    let right = Paragraph::new().align(AlignmentType::Left).align(AlignmentType::Right).build();
    assert_eq!(
        str::from_utf8(&right).unwrap(),
        r#"<w:p><w:pPr><w:pStyle w:val="Normal" /><w:jc w:val="right" /><w:rPr /></w:pPr></w:p>"#
    );
    let both = Paragraph::new().align(AlignmentType::Justified).build();
    assert_eq!(
        str::from_utf8(&both).unwrap(),
        r#"<w:p><w:pPr><w:pStyle w:val="Normal" /><w:jc w:val="both" /><w:rPr /></w:pPr></w:p>"#
    );
}

#[test]
fn indent_is_replaced_whole() {
    let b = Paragraph::new()
        .indent(720, Some(SpecialIndentType::Hanging(360)))
        .indent(0, None)
        .build();
    assert_eq!(
        str::from_utf8(&b).unwrap(),
        r#"<w:p><w:pPr><w:pStyle w:val="Normal" /><w:ind w:left="0" /><w:rPr /></w:pPr></w:p>"#
    );
    let h = Paragraph::new().indent(720, Some(SpecialIndentType::Hanging(360))).build();
    assert_eq!(
        str::from_utf8(&h).unwrap(),
        r#"<w:p><w:pPr><w:pStyle w:val="Normal" /><w:ind w:left="720" w:hanging="360" /><w:rPr /></w:pPr></w:p>"#
    );
}

#[test]
fn runs_render_in_call_order() {
    let b = Paragraph::new()
        .add_run(Run::new().add_text("one"))
        .add_run(Run::new().add_text("two"))
        .add_run(Run::new().add_text("three"))
        .build();
    assert_eq!(
        str::from_utf8(&b).unwrap(),
        r#"<w:p><w:pPr><w:pStyle w:val="Normal" /><w:rPr /></w:pPr><w:r><w:rPr /><w:t xml:space="preserve">one</w:t></w:r><w:r><w:rPr /><w:t xml:space="preserve">two</w:t></w:r><w:r><w:rPr /><w:t xml:space="preserve">three</w:t></w:r></w:p>"#
    );
}

#[test]
fn size_leaves_later_runs_alone() {
    let b = Paragraph::new()
        .add_run(Run::new().add_text("a"))
        .size(24)
        .add_run(Run::new().add_text("b"))
        .add_run(Run::new().add_text("c").size(8))
        .build();
    assert_eq!(
        str::from_utf8(&b).unwrap(),
        r#"<w:p><w:pPr><w:pStyle w:val="Normal" /><w:rPr /></w:pPr><w:r><w:rPr><w:sz w:val="24" /><w:szCs w:val="24" /></w:rPr><w:t xml:space="preserve">a</w:t></w:r><w:r><w:rPr /><w:t xml:space="preserve">b</w:t></w:r><w:r><w:rPr><w:sz w:val="8" /><w:szCs w:val="8" /></w:rPr><w:t xml:space="preserve">c</w:t></w:r></w:p>"#
    );
}

#[test]
fn size_overrides_run_size() {
    let b = Paragraph::new()
        .add_run(Run::new().add_text("x").size(10))
        .size(0)
        .build();
    assert_eq!(
        str::from_utf8(&b).unwrap(),
        r#"<w:p><w:pPr><w:pStyle w:val="Normal" /><w:rPr /></w:pPr><w:r><w:rPr><w:sz w:val="0" /><w:szCs w:val="0" /></w:rPr><w:t xml:space="preserve">x</w:t></w:r></w:p>"#
    );
}

#[test]
fn duplicate_attrs_kept_in_order() {
    let b = Paragraph::new().add_attr("k", "1").add_attr("j", "2").add_attr("k", "3").build();
    assert_eq!(
        str::from_utf8(&b).unwrap(),
        r#"<w:p k="1" j="2" k="3"><w:pPr><w:pStyle w:val="Normal" /><w:rPr /></w:pPr></w:p>"#
    );
}

#[test]
fn rendering_twice_is_identical() {
    let p = Paragraph::new()
        .add_run(Run::new().add_text("Hello").add_text(" world "))
        .size(60)
        .align(AlignmentType::Center)
        .add_attr("customId", "abc");
    assert_eq!(p.build(), p.build());
}
