use std::path::PathBuf;
use tantivy::schema::{Schema, INDEXED, STORED, TEXT};
use tempfile::TempDir;

use tantivy_bridge::{create_index, DocumentWriter};

fn doc_test_schema() -> Schema {
    let mut schema_builder = Schema::builder();
    schema_builder.add_i64_field("id", INDEXED | STORED);
    schema_builder.add_i64_field("views", INDEXED | STORED);
    schema_builder.add_f64_field("rating", STORED);

    schema_builder.add_text_field("title", TEXT | STORED);
    schema_builder.add_text_field("content", TEXT);
    schema_builder.add_text_field("url", TEXT | STORED);

    schema_builder.add_bool_field("published", STORED);
    schema_builder.add_text_field("tags", TEXT | STORED);

    schema_builder.build()
}

fn get_temp_path(index_name: &str) -> (TempDir, PathBuf) {
    let temp_dir = TempDir::new().expect("Failed to create temp dir");
    let index_path = temp_dir.path().join(index_name);
    (temp_dir, index_path)
}

fn path_str(p: &PathBuf) -> &str {
    p.to_str().expect("path is not valid UTF-8")
}

#[test]
fn test_add_document_basic() {
    let (_temp_dir, index_path) = get_temp_path("test_index_basic");
    create_index(path_str(&index_path), &doc_test_schema()).expect("Failed to create index");

    let mut doc_writer = DocumentWriter::new(path_str(&index_path)).expect("Failed to open index");

    let doc_json = r#"{
            "id": 1,
            "title": "Test Document",
            "content": "This is a test.",
            "url": "https://example.com",
            "published": true
        }"#;

    doc_writer
        .add_document(doc_json)
        .expect("Failed to add document");
    doc_writer.commit().expect("Failed to commit");
}

#[test]
fn test_add_document_with_numbers_and_bool() {
    let (_temp_dir, index_path) = get_temp_path("test_index_numbers");
    create_index(path_str(&index_path), &doc_test_schema()).expect("Failed to create index");

    let mut doc_writer = DocumentWriter::new(path_str(&index_path)).expect("Failed to open index");

    let doc_json = r#"{
            "id": 2,
            "views": 123,
            "rating": 4.5,
            "published": false,
            "title": "Number and Bool Test",
            "content": "Testing numeric and boolean fields"
        }"#;

    doc_writer
        .add_document(doc_json)
        .expect("Failed to add document");
    doc_writer.commit().expect("Failed to commit");
}

#[test]
fn test_add_document_with_array_field() {
    let (_temp_dir, index_path) = get_temp_path("test_index_array");
    create_index(path_str(&index_path), &doc_test_schema()).expect("Failed to create index");

    let mut doc_writer = DocumentWriter::new(path_str(&index_path)).expect("Failed to open index");

    let doc_json = r#"{
            "id": 3,
            "title": "Array Field Test",
            "tags": ["rust", "tantivy", "serde"]
        }"#;

    doc_writer
        .add_document(doc_json)
        .expect("Failed to add document");
    doc_writer.commit().expect("Failed to commit");
}

#[test]
fn test_add_document_partial_fields() {
    let (_temp_dir, index_path) = get_temp_path("test_index_partial");
    create_index(path_str(&index_path), &doc_test_schema()).expect("Failed to create index");

    let mut doc_writer = DocumentWriter::new(path_str(&index_path)).expect("Failed to open index");

    let doc_json = r#"{
            "id": 4,
            "title": "Partial Fields Test"
        }"#;

    doc_writer
        .add_document(doc_json)
        .expect("Failed to add document");
    doc_writer.commit().expect("Failed to commit");
}

#[test]
fn test_add_document_invalid_json() {
    let (_temp_dir, index_path) = get_temp_path("test_index_invalid");
    create_index(path_str(&index_path), &doc_test_schema()).expect("Failed to create index");

    let mut doc_writer = DocumentWriter::new(path_str(&index_path)).expect("Failed to open index");

    let doc_json = r#"{"id": 5, "title": "Invalid JSON""#;

    let result = doc_writer.add_document(doc_json);
    assert!(result.is_err(), "Expected JSON parse error");
}

#[test]
fn test_commit_multiple_documents() {
    let (_temp_dir, index_path) = get_temp_path("test_index_multiple");
    create_index(path_str(&index_path), &doc_test_schema()).expect("Failed to create index");

    let mut doc_writer = DocumentWriter::new(path_str(&index_path)).expect("Failed to open index");

    let docs = vec![
        r#"{"id": 6, "title": "Doc 1", "content": "First"}"#,
        r#"{"id": 7, "title": "Doc 2", "content": "Second"}"#,
        r#"{"id": 8, "title": "Doc 3", "content": "Third"}"#,
    ];

    for doc in docs {
        doc_writer.add_document(doc).expect("Failed to add document");
    }

    doc_writer.commit().expect("Failed to commit");
}
