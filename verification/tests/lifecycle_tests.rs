use std::path::PathBuf;
use tantivy::schema::{Schema, INDEXED, STORED, TEXT};
use tempfile::TempDir;

use tantivy_bridge::engine::RemoveOutcome;
use tantivy_bridge::lifecycle::removal_result;
use tantivy_bridge::{
    create_index, create_index_from_json, delete_index, index_exists, index_exists_checked,
    open_index, open_index_checked, IndexError,
};

fn plain_schema() -> Schema {
    let mut schema_builder = Schema::builder();
    schema_builder.add_i64_field("id", INDEXED | STORED);
    schema_builder.add_text_field("title", TEXT | STORED);
    schema_builder.build()
}

fn get_temp_path(index_name: &str) -> (TempDir, PathBuf) {
    let temp_dir = TempDir::new().expect("Failed to create temp dir");
    let index_path = temp_dir.path().join(index_name);
    (temp_dir, index_path)
}

fn path_str(p: &PathBuf) -> &str {
    p.to_str().expect("path is not valid UTF-8")
}

#[test]
fn exists_probe_follows_the_metadata_marker() {
    let (temp_dir, index_path) = get_temp_path("exists_index");
    assert!(!index_exists(path_str(&index_path)));
    create_index(path_str(&index_path), &plain_schema()).expect("Failed to create index");
    assert!(index_exists(path_str(&index_path)));
    delete_index(path_str(&index_path)).expect("Failed to delete index");
    assert!(!index_exists(path_str(&index_path)));
    temp_dir.close().expect("Failed to close temp dir");
}

#[test]
fn create_twice_reports_already_exists() {
    let (temp_dir, index_path) = get_temp_path("twice_index");
    create_index(path_str(&index_path), &plain_schema()).expect("Failed to create index");
    match create_index(path_str(&index_path), &plain_schema()) {
        Err(IndexError::IndexAlreadyExists(p)) => assert_eq!(p, path_str(&index_path)),
        _ => panic!("expected IndexAlreadyExists"),
    }
    temp_dir.close().expect("Failed to close temp dir");
}

#[test]
fn open_missing_index_reports_not_found() {
    let (temp_dir, index_path) = get_temp_path("missing_index");
    match open_index(path_str(&index_path)) {
        Err(IndexError::NotFound(p)) => assert_eq!(p, path_str(&index_path)),
        _ => panic!("expected NotFound"),
    }
    assert!(!index_exists(path_str(&index_path)));
    temp_dir.close().expect("Failed to close temp dir");
}

#[test]
fn delete_is_idempotent() {
    let (temp_dir, index_path) = get_temp_path("idempotent_index");
    create_index(path_str(&index_path), &plain_schema()).expect("Failed to create index");
    delete_index(path_str(&index_path)).expect("Failed to delete index");
    delete_index(path_str(&index_path)).expect("Failed to delete index a second time");
    delete_index(path_str(&index_path)).expect("Failed to delete index a third time");
    temp_dir.close().expect("Failed to close temp dir");
}

#[test]
fn checked_exists_probe_raises_only_on_malformed_paths() {
    let (temp_dir, index_path) = get_temp_path("checked_exists_index");
    assert!(matches!(
        index_exists_checked(""),
        Err(IndexError::InvalidInput(_))
    ));
    assert_eq!(index_exists_checked(path_str(&index_path)).unwrap(), false);
    create_index(path_str(&index_path), &plain_schema()).expect("Failed to create index");
    assert_eq!(index_exists_checked(path_str(&index_path)).unwrap(), true);
    temp_dir.close().expect("Failed to close temp dir");
}

#[test]
fn removal_outcomes_follow_the_idempotence_rule() {
    assert!(removal_result(RemoveOutcome::Removed).is_ok());
    assert!(removal_result(RemoveOutcome::Missing).is_ok());
    match removal_result(RemoveOutcome::Failed("disk fault".to_string())) {
        Err(IndexError::Io(m)) => assert_eq!(m, "disk fault"),
        _ => panic!("expected an Io error"),
    }
}

#[test]
fn boundary_create_accepts_a_json_schema() {
    let (temp_dir, index_path) = get_temp_path("json_boundary_index");
    let schema_json = r#"[
        {
            "name": "title",
            "type": "text",
            "options": {
                "indexing": { "record": "position" },
                "stored": true
            }
        }
    ]"#;
    create_index_from_json(path_str(&index_path), schema_json)
        .expect("Failed to create index from JSON schema");
    assert!(index_path.join("meta.json").exists(), "meta.json was not created");
    match create_index_from_json(path_str(&index_path), schema_json) {
        Err(IndexError::IndexAlreadyExists(p)) => assert_eq!(p, path_str(&index_path)),
        _ => panic!("expected IndexAlreadyExists"),
    }
    temp_dir.close().expect("Failed to close temp dir");
}

#[test]
fn boundary_create_rejects_duplicate_field_names() {
    let schema_json = r#"[
        {
            "name": "title",
            "type": "text",
            "options": {
                "indexing": { "record": "position" },
                "stored": true
            }
        },
        {
            "name": "title",
            "type": "text",
            "options": {
                "indexing": { "record": "position" },
                "stored": false
            }
        }
    ]"#;
    match create_index_from_json("/tmp/never_created_duplicate", schema_json) {
        Err(IndexError::InvalidInput(m)) => {
            assert_eq!(m, "Invalid schema JSON: duplicate field name")
        }
        _ => panic!("expected InvalidInput for duplicate field names"),
    }
}

#[test]
fn boundary_open_validates_and_probes() {
    let (temp_dir, index_path) = get_temp_path("checked_open_index");
    assert!(matches!(
        open_index_checked("has/../traversal"),
        Err(IndexError::InvalidInput(_))
    ));
    assert!(matches!(
        open_index_checked(path_str(&index_path)),
        Err(IndexError::NotFound(_))
    ));
    create_index(path_str(&index_path), &plain_schema()).expect("Failed to create index");
    open_index_checked(path_str(&index_path)).expect("Failed to open existing index");
    temp_dir.close().expect("Failed to close temp dir");
}
