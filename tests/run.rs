use docx_core::{Run, RunProperty};
use std::str;

#[test]
fn unsized_run_has_empty_property_block() {
    let b = Run::new().build();
    assert_eq!(str::from_utf8(&b).unwrap(), r#"<w:r><w:rPr /></w:r>"#);
    let p = RunProperty::new().build();
    assert_eq!(str::from_utf8(&p).unwrap(), r#"<w:rPr />"#);
}

#[test]
fn last_size_wins() {
    let b = RunProperty::new().size(12).size(1234567890).build();
    assert_eq!(
        str::from_utf8(&b).unwrap(),
        r#"<w:rPr><w:sz w:val="1234567890" /><w:szCs w:val="1234567890" /></w:rPr>"#
    );
}

#[test]
fn largest_size_renders_in_full() {
    let b = RunProperty::new().size(usize::MAX).build();
    let n = format!("{}", usize::MAX);
    assert_eq!(
        str::from_utf8(&b).unwrap(),
        format!(r#"<w:rPr><w:sz w:val="{}" /><w:szCs w:val="{}" /></w:rPr>"#, n, n)
    );
}

#[test]
fn text_segments_keep_whitespace_and_order() {
    let b = Run::new().add_text(" a ").add_text("").add_text("b").build();
    assert_eq!(
        str::from_utf8(&b).unwrap(),
        r#"<w:r><w:rPr /><w:t xml:space="preserve"> a </w:t><w:t xml:space="preserve" /><w:t xml:space="preserve">b</w:t></w:r>"#
    );
}

#[test]
fn text_is_escaped() {
    let b = Run::new().add_text("a<b & \"c\" > é").build();
    assert_eq!(
        str::from_utf8(&b).unwrap(),
        r#"<w:r><w:rPr /><w:t xml:space="preserve">a&lt;b &amp; &quot;c&quot; > é</w:t></w:r>"#
    );
}
