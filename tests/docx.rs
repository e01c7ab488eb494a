use docx_core::{ContentTypes, DocProps, Docx, Document, Paragraph, Rels, Run, Styles};
use std::str;

const DECL: &str = r#"<?xml version="1.0" encoding="UTF-8" standalone="yes"?>"#;

#[test]
fn empty_package_parts() {
    let x = Docx::new().build();
    assert_eq!(
        str::from_utf8(&x.document).unwrap(),
        format!(
            r#"{}<w:document xmlns:w="http://schemas.openxmlformats.org/wordprocessingml/2006/main"><w:body /></w:document>"#,
            DECL
        )
    );
    assert_eq!(
        str::from_utf8(&x.styles).unwrap(),
        format!(
            r#"{}<w:styles xmlns:w="http://schemas.openxmlformats.org/wordprocessingml/2006/main" />"#,
            DECL
        )
    );
    assert_eq!(
        str::from_utf8(&x.rels).unwrap(),
        format!(
            r#"{}<Relationships xmlns="http://schemas.openxmlformats.org/package/2006/relationships" />"#,
            DECL
        )
    );
    assert_eq!(
        str::from_utf8(&x.doc_props.app).unwrap(),
        format!(
            r#"{}<Properties xmlns="http://schemas.openxmlformats.org/officeDocument/2006/extended-properties" />"#,
            DECL
        )
    );
    assert_eq!(
        str::from_utf8(&x.doc_props.core).unwrap(),
        format!(
            r#"{}<cp:coreProperties xmlns:cp="http://schemas.openxmlformats.org/package/2006/metadata/core-properties" xmlns:dc="http://purl.org/dc/elements/1.1/" />"#,
            DECL
        )
    );
    assert_eq!(x.content_type, ContentTypes::new().build());
    assert_eq!(x.rels, Rels::new().build());
    assert_eq!(x.styles, Styles::new().build());
}

#[test]
fn content_types_list_parts() {
    let b = ContentTypes::new().build();
    assert_eq!(
        str::from_utf8(&b).unwrap(),
        format!(
            r#"{}<Types xmlns="http://schemas.openxmlformats.org/package/2006/content-types"><Default Extension="rels" ContentType="application/vnd.openxmlformats-package.relationships+xml" /><Default Extension="xml" ContentType="application/xml" /><Override PartName="/word/document.xml" ContentType="application/vnd.openxmlformats-officedocument.wordprocessingml.document.main+xml" /><Override PartName="/word/styles.xml" ContentType="application/vnd.openxmlformats-officedocument.wordprocessingml.styles+xml" /><Override PartName="/docProps/core.xml" ContentType="application/vnd.openxmlformats-package.core-properties+xml" /><Override PartName="/docProps/app.xml" ContentType="application/vnd.openxmlformats-officedocument.extended-properties+xml" /></Types>"#,
            DECL
        )
    );
}

#[test]
fn paragraphs_in_reading_order() {
    let x = Docx::new()
        .add_paragraph(Paragraph::new().add_run(Run::new().add_text("first")))
        .add_paragraph(Paragraph::new().style("Quote"))
        .build();
    assert_eq!(
        str::from_utf8(&x.document).unwrap(),
        format!(
            r#"{}<w:document xmlns:w="http://schemas.openxmlformats.org/wordprocessingml/2006/main"><w:body><w:p><w:pPr><w:pStyle w:val="Normal" /><w:rPr /></w:pPr><w:r><w:rPr /><w:t xml:space="preserve">first</w:t></w:r></w:p><w:p><w:pPr><w:pStyle w:val="Quote" /><w:rPr /></w:pPr></w:p></w:body></w:document>"#,
            DECL
        )
    );
    let d = Document::new().add_paragraph(Paragraph::new().add_run(Run::new().add_text("first"))).add_paragraph(Paragraph::new().style("Quote"));
    assert_eq!(d.build(), x.document);
}

#[test]
fn building_twice_is_identical() {
    let d = Docx::new().add_paragraph(Paragraph::new().add_run(Run::new().add_text("x")).size(4));
    let a = d.build();
    let b = d.build();
    assert_eq!(a.document, b.document);
    assert_eq!(a.styles, b.styles);
    assert_eq!(a.rels, b.rels);
    assert_eq!(a.content_type, b.content_type);
    assert_eq!(a.doc_props.app, b.doc_props.app);
    assert_eq!(a.doc_props.core, b.doc_props.core);
}

#[test]
fn core_properties_title_and_subject() {
    let p = DocProps::new(Some("A & B".to_string()), Some("Notes".to_string())).build();
    assert_eq!(
        str::from_utf8(&p.core).unwrap(),
        format!(
            r#"{}<cp:coreProperties xmlns:cp="http://schemas.openxmlformats.org/package/2006/metadata/core-properties" xmlns:dc="http://purl.org/dc/elements/1.1/"><dc:title>A &amp; B</dc:title><dc:subject>Notes</dc:subject></cp:coreProperties>"#,
            DECL
        )
    );
}
