use rlox::document::Document;

fn document() -> Document {
    let mut doc = Document::new();
    doc.add_line("Line1".to_string());
    doc.add_line("Line2".to_string());
    doc.add_line("Line3".to_string());
    doc
}

#[test]
fn document_is_empty_on_start() {
    let document = Document::new();
    assert_eq!(document.content(), &Vec::<String>::new());
}

#[test]
fn document_add_line() {
    let mut document = Document::new();
    document.add_line("Hello, world!".to_string());
    assert_eq!(document.content(), &vec!["Hello, world!"]);
}

#[test]
fn document_clear_content() {
    let mut document = Document::new();
    document.add_line("Hello, world!".to_string());
    document.add_line("Goodbye, world!".to_string());
    document.clear();
    assert_eq!(document.content(), &Vec::<String>::new());
}

#[test]
fn document_inserting_line() {
    let mut document = document();
    document.insert_line(1, "Inserted line".to_string());
    assert_eq!(
        document.content(),
        &vec!["Line1", "Inserted line", "Line2", "Line3"]
    );
}

#[test]
fn document_erase_a_line() {
    let mut document = document();
    document.erase_line(1);
    assert_eq!(document.content(), &vec!["Line1", "Line3"]);
}

#[test]
fn document_replace_text() {
    let mut document = document();
    document.replace_text("Line2", "Replaced line");
    assert_eq!(document.content(), &vec!["Line1", "Replaced line", "Line3"]);
}

#[test]
fn document_replace_text_in_every_line() {
    let mut document = document();
    document.replace_text("Line", "Row ");
    assert_eq!(document.content(), &vec!["Row 1", "Row 2", "Row 3"]);
}
