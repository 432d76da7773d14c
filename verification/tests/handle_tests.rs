use std::path::PathBuf;
use tantivy::schema::{Schema, INDEXED, STORED, TEXT};
use tempfile::TempDir;

use tantivy_bridge::{create_index, DocumentWriter, SessionError, WriterTable};

fn small_schema() -> Schema {
    let mut schema_builder = Schema::builder();
    schema_builder.add_i64_field("id", INDEXED | STORED);
    schema_builder.add_text_field("title", TEXT | STORED);
    schema_builder.build()
}

fn get_temp_path(index_name: &str) -> (TempDir, PathBuf) {
    let temp_dir = TempDir::new().expect("Failed to create temp dir");
    let index_path = temp_dir.path().join(index_name);
    (temp_dir, index_path)
}

fn path_str(p: &PathBuf) -> &str {
    p.to_str().expect("path is not valid UTF-8")
}

fn num_docs(path: &str) -> u64 {
    let index = tantivy::Index::open_in_dir(path).expect("Failed to reopen index");
    let reader = index.reader().expect("Failed to build reader");
    reader.searcher().num_docs()
}

#[test]
fn zero_handle_is_always_rejected() {
    let mut table = WriterTable::new();
    assert!(matches!(
        table.add_document(0, r#"{"id": 1}"#),
        Err(SessionError::InvalidHandle)
    ));
    assert!(matches!(table.commit(0), Err(SessionError::InvalidHandle)));
    // releasing handle zero is a silent no-op
    table.release(0);
    assert!(!table.contains(0));
}

#[test]
fn stale_handle_is_rejected_after_release() {
    let (_temp_dir, index_path) = get_temp_path("handle_index");
    create_index(path_str(&index_path), &small_schema()).expect("Failed to create index");
    let session = DocumentWriter::new(path_str(&index_path)).expect("Failed to open index");

    let mut table = WriterTable::new();
    let h = table.acquire(session);
    assert_ne!(h, 0);
    assert!(table.contains(h));

    table.release(h);
    assert!(!table.contains(h));
    assert!(matches!(
        table.add_document(h, r#"{"id": 1}"#),
        Err(SessionError::InvalidHandle)
    ));
    assert!(matches!(table.commit(h), Err(SessionError::InvalidHandle)));
    // a second release of the same handle is a no-op, not a fault
    table.release(h);
}

#[test]
fn handles_are_distinct_per_session() {
    let (_temp_dir, index_path) = get_temp_path("handle_index_a");
    let (_temp_dir_b, index_path_b) = get_temp_path("handle_index_b");
    create_index(path_str(&index_path), &small_schema()).expect("Failed to create index");
    create_index(path_str(&index_path_b), &small_schema()).expect("Failed to create index");

    let mut table = WriterTable::new();
    let h1 = table.acquire(DocumentWriter::new(path_str(&index_path)).unwrap());
    let h2 = table.acquire(DocumentWriter::new(path_str(&index_path_b)).unwrap());
    assert_ne!(h1, h2);
    assert!(h1 != 0 && h2 != 0);
    table.release(h1);
    assert!(!table.contains(h1));
    assert!(table.contains(h2));
    table.release(h2);
}

#[test]
fn oversized_document_is_rejected_before_parsing() {
    let (_temp_dir, index_path) = get_temp_path("handle_index_big");
    create_index(path_str(&index_path), &small_schema()).expect("Failed to create index");
    let session = DocumentWriter::new(path_str(&index_path)).expect("Failed to open index");

    let mut table = WriterTable::new();
    let h = table.acquire(session);

    let big = "a".repeat(10 * 1024 * 1024 + 1);
    assert!(matches!(
        table.add_document(h, &big),
        Err(SessionError::DocumentTooLarge)
    ));
    // the session is still usable afterwards
    table
        .add_document(h, r#"{"id": 1, "title": "still fine"}"#)
        .expect("Failed to add document");
    table.commit(h).expect("Failed to commit");
    table.release(h);
}

#[test]
fn committed_documents_survive_a_fresh_open() {
    let (_temp_dir, index_path) = get_temp_path("durability_index");
    create_index(path_str(&index_path), &small_schema()).expect("Failed to create index");

    let mut table = WriterTable::new();
    let h = table.acquire(DocumentWriter::new(path_str(&index_path)).unwrap());
    for i in 0..3 {
        let doc = format!(r#"{{"id": {}, "title": "doc"}}"#, i);
        table.add_document(h, &doc).expect("Failed to add document");
    }
    table.commit(h).expect("Failed to commit");
    table.release(h);

    assert_eq!(num_docs(path_str(&index_path)), 3);
}

#[test]
fn uncommitted_documents_are_not_visible_after_close() {
    let (_temp_dir, index_path) = get_temp_path("no_commit_index");
    create_index(path_str(&index_path), &small_schema()).expect("Failed to create index");

    let mut table = WriterTable::new();
    let h = table.acquire(DocumentWriter::new(path_str(&index_path)).unwrap());
    table
        .add_document(h, r#"{"id": 9, "title": "never committed"}"#)
        .expect("Failed to add document");
    table.release(h);

    assert_eq!(num_docs(path_str(&index_path)), 0);
}

#[test]
fn failed_adds_leave_the_buffer_unchanged() {
    let (_temp_dir, index_path) = get_temp_path("failed_add_index");
    create_index(path_str(&index_path), &small_schema()).expect("Failed to create index");

    let mut table = WriterTable::new();
    let h = table.acquire(DocumentWriter::new(path_str(&index_path)).unwrap());

    assert!(table.add_document(h, r#"{"id": 5, "title": "Bad"#).is_err());
    assert!(table.add_document(h, r#"{"unknown_field": 1}"#).is_err());
    table
        .add_document(h, r#"{"id": 1, "title": "good"}"#)
        .expect("Failed to add document");
    table.commit(h).expect("Failed to commit");
    table.release(h);

    assert_eq!(num_docs(path_str(&index_path)), 1);
}
