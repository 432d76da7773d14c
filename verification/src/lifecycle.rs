//! Lifecycle of on-disk indexes: create, open, probe, delete.
//!
//! An index is a directory holding the storage engine's structures; the
//! presence of its metadata marker file decides "an index already exists
//! here". Creation fails fast on that marker rather than silently
//! re-creating over existing data; deletion treats a missing target as
//! success so callers may delete speculatively; opening a missing path is
//! its own error category, distinct from engine failures, so the host can
//! react to each differently.

use vstd::prelude::*;
use vstd::string::StringSliceAdditionalSpecFns;

use crate::engine::{
    dir_entry_exists, engine_create_in_dir, engine_open_in_dir, engine_schema_from_json,
    fs_create_dir_all, fs_remove_dir_all, path_exists, schema_member_names, schema_names_of,
    str_concat, RemoveOutcome,
};
use crate::path_check::{path_ok, path_rejection, validate_path};
use crate::schema::{duplicate_field_name, has_duplicate_field_name};

verus! {

/// The name of the metadata marker file the storage engine keeps at the
/// root of every index directory.
pub const META_FILE_NAME: &'static str = "meta.json";

/// Largest accepted declarative schema description, in bytes.
pub const MAX_SCHEMA_LEN: usize = 1024 * 1024;

/// Why a lifecycle operation failed.
#[derive(Debug)]
pub enum IndexError {
    /// The storage engine refused; carries its message.
    Engine(String),
    /// A filesystem operation failed; carries its message.
    Io(String),
    /// An index already exists at the path; carries the path.
    IndexAlreadyExists(String),
    /// No index exists at the path; carries the path.
    NotFound(String),
    /// The input was rejected before any disk access; carries the
    /// reason.
    InvalidInput(String),
}

/// The human-readable message of a lifecycle error, as raised across the
/// boundary.
pub open spec fn spec_index_error_message(e: IndexError) -> Seq<char> {
    match e {
        IndexError::Engine(m) => m@,
        IndexError::Io(m) => m@,
        IndexError::IndexAlreadyExists(p) => "Index already exists at: "@ + p@,
        IndexError::NotFound(p) => "Index not found at path: "@ + p@,
        IndexError::InvalidInput(m) => m@,
    }
}

/// Renders a lifecycle error as the message the host sees, exactly as
/// `spec_index_error_message` says.
pub fn convert_index_error(err: &IndexError) -> (r: String)
    ensures
        r@ == spec_index_error_message(*err),
{
    match err {
        IndexError::Engine(m) => m.clone(),
        IndexError::Io(m) => m.clone(),
        IndexError::IndexAlreadyExists(p) => str_concat("Index already exists at: ", p.as_str()),
        IndexError::NotFound(p) => str_concat("Index not found at path: ", p.as_str()),
        IndexError::InvalidInput(m) => m.clone(),
    }
}

/// The idempotence rule of deletion: a removal outcome is a success
/// exactly when the directory was removed or was never there, and any
/// other failure surfaces as an I/O error with its message.
pub fn removal_result(outcome: RemoveOutcome) -> (r: Result<(), IndexError>)
    ensures
        match outcome {
            RemoveOutcome::Removed => r == Ok::<(), IndexError>(()),
            RemoveOutcome::Missing => r == Ok::<(), IndexError>(()),
            RemoveOutcome::Failed(m) => r == Err::<(), IndexError>(IndexError::Io(m)),
        },
{
    match outcome {
        RemoveOutcome::Removed => Ok(()),
        RemoveOutcome::Missing => Ok(()),
        RemoveOutcome::Failed(m) => Err(IndexError::Io(m)),
    }
}

/// Whether an index already exists at `path`: true only when both the
/// path itself and the metadata marker inside it exist on disk. Never
/// fails; the result reflects the state of the disk at the probe.
pub fn index_exists(path: &str) -> bool {
    path_exists(path) && dir_entry_exists(path, META_FILE_NAME)
}

/// The boundary's existence probe: a malformed path is the only failure,
/// rejected as `InvalidInput` before any disk access; every well-formed
/// path gets an answer, so "does not exist" is never itself a failure.
pub fn index_exists_checked(path: &str) -> (r: Result<bool, IndexError>)
    ensures
        r is Ok <==> path_ok(path),
        r matches Err(e) ==> (e matches IndexError::InvalidInput(m) && path_rejection(path, m@)),
{
    match validate_path(path) {
        Err(m) => Err(IndexError::InvalidInput(m)),
        Ok(()) => Ok(index_exists(path)),
    }
}

/// Creates a fresh index at `path` with the given engine schema: fails
/// with `IndexAlreadyExists` when the metadata marker is already there,
/// otherwise creates the directory (with parents) and initializes the
/// engine's structures. Creation never reports `NotFound` or
/// `InvalidInput`, and an `IndexAlreadyExists` error carries this path.
pub fn create_index(path: &str, schema: &tantivy::schema::Schema) -> (r: Result<(), IndexError>)
    ensures
        match r {
            Ok(()) => true,
            Err(IndexError::IndexAlreadyExists(p)) => p@ == path@,
            Err(IndexError::Io(_)) => true,
            Err(IndexError::Engine(_)) => true,
            Err(_) => false,
        },
{
    if dir_entry_exists(path, META_FILE_NAME) {
        return Err(IndexError::IndexAlreadyExists(path.to_owned()));
    }
    match fs_create_dir_all(path) {
        Err(m) => Err(IndexError::Io(m)),
        Ok(()) => match engine_create_in_dir(path, schema) {
            Err(m) => Err(IndexError::Engine(m)),
            Ok(()) => Ok(()),
        },
    }
}

/// Deletes the index directory at `path` recursively; a missing target
/// counts as success, so deletion is idempotent. Only an I/O failure is
/// an error.
pub fn delete_index(path: &str) -> (r: Result<(), IndexError>)
    ensures
        r is Ok || r matches Err(IndexError::Io(_)),
{
    removal_result(fs_remove_dir_all(path))
}

/// Opens the index at `path`: fails with `NotFound`, carrying the path,
/// when nothing exists there, and otherwise asks the engine to read its
/// structures. Opening never reports `IndexAlreadyExists`, `Io` or
/// `InvalidInput`.
pub fn open_index(path: &str) -> (r: Result<tantivy::Index, IndexError>)
    ensures
        match r {
            Ok(_) => true,
            Err(IndexError::NotFound(p)) => p@ == path@,
            Err(IndexError::Engine(_)) => true,
            Err(_) => false,
        },
{
    if !path_exists(path) {
        return Err(IndexError::NotFound(path.to_owned()));
    }
    match engine_open_in_dir(path) {
        Ok(i) => Ok(i),
        Err(m) => Err(IndexError::Engine(m)),
    }
}

/// The boundary's create operation: validates the path and the size of
/// the declarative schema description before anything touches the disk,
/// refuses a description whose entries repeat a field name, parses the
/// description, and creates the index. Each input-validation failure is
/// an `InvalidInput` with its own message, owed if and only if its check
/// is the first to fail, and all are raised before any mutating I/O is
/// attempted.
pub fn create_index_from_json(path: &str, schema_json: &str) -> (r: Result<(), IndexError>)
    ensures
        (r matches Err(IndexError::InvalidInput(m)) && path_rejection(path, m@)) <==> !path_ok(
            path,
        ),
        (r matches Err(IndexError::InvalidInput(m)) && m@ == "Schema JSON is too large (max 1MB)"@)
            <==> (path_ok(path) && schema_json.spec_bytes().len() > MAX_SCHEMA_LEN),
        path_ok(path) && schema_json.spec_bytes().len() <= MAX_SCHEMA_LEN && duplicate_field_name(
            schema_names_of(schema_json@),
        ) ==> (r matches Err(IndexError::InvalidInput(m)) && m@
            == "Invalid schema JSON: duplicate field name"@),
        path_ok(path) && schema_json.spec_bytes().len() <= MAX_SCHEMA_LEN ==> (r matches Err(
            IndexError::InvalidInput(m),
        ) ==> "Invalid schema JSON: "@.is_prefix_of(m@)),
        !(r matches Err(IndexError::NotFound(_))),
        r matches Err(IndexError::IndexAlreadyExists(p)) ==> p@ == path@,
{
    proof {
        reveal_strlit("Path cannot be empty");
        reveal_strlit("Path cannot contain '..' for security reasons");
        reveal_strlit("Path is too long (max 1024 characters)");
        reveal_strlit("Schema JSON is too large (max 1MB)");
        reveal_strlit("Invalid schema JSON: duplicate field name");
        reveal_strlit("Invalid schema JSON: ");
        assert("Path cannot be empty"@.len() == 20);
        assert("Path cannot contain '..' for security reasons"@.len() == 45);
        assert("Path is too long (max 1024 characters)"@.len() == 38);
        assert("Schema JSON is too large (max 1MB)"@.len() == 34);
        assert("Invalid schema JSON: duplicate field name"@.len() == 41);
        assert("Invalid schema JSON: "@.len() == 21);
    }
    match validate_path(path) {
        Err(m) => Err(IndexError::InvalidInput(m)),
        Ok(()) => {
            if schema_json.as_bytes().len() > MAX_SCHEMA_LEN {
                return Err(
                    IndexError::InvalidInput("Schema JSON is too large (max 1MB)".to_owned()),
                );
            }
            let names = schema_member_names(schema_json);
            if has_duplicate_field_name(&names) {
                proof {
                    assert(("Invalid schema JSON: "@).is_prefix_of(
                        "Invalid schema JSON: duplicate field name"@,
                    )) by {
                        assert(("Invalid schema JSON: duplicate field name"@).subrange(0, 21)
                            =~= "Invalid schema JSON: "@);
                    }
                }
                return Err(
                    IndexError::InvalidInput(
                        "Invalid schema JSON: duplicate field name".to_owned(),
                    ),
                );
            }
            match engine_schema_from_json(schema_json) {
                Err(m) => {
                    let msg = str_concat("Invalid schema JSON: ", m.as_str());
                    proof {
                        assert(("Invalid schema JSON: "@).is_prefix_of(msg@)) by {
                            assert(msg@.subrange(0, 21) =~= "Invalid schema JSON: "@);
                        }
                        assert(msg@[0] == 'I');
                    }
                    Err(IndexError::InvalidInput(msg))
                },
                Ok(schema) => create_index(path, &schema),
            }
        },
    }
}

/// The boundary's existence probe behind an opened handle: validates the
/// path, then opens the index and discards it, reporting only success or
/// failure. A rejected path surfaces as `InvalidInput` without touching
/// the disk.
pub fn open_index_checked(path: &str) -> (r: Result<(), IndexError>)
    ensures
        (r matches Err(IndexError::InvalidInput(_))) <==> !path_ok(path),
        match r {
            Ok(()) => true,
            Err(IndexError::NotFound(p)) => p@ == path@,
            Err(IndexError::Engine(_)) => true,
            Err(IndexError::InvalidInput(m)) => path_rejection(path, m@),
            Err(_) => false,
        },
{
    match validate_path(path) {
        Err(m) => Err(IndexError::InvalidInput(m)),
        Ok(()) => match open_index(path) {
            Ok(_) => Ok(()),
            Err(e) => Err(e),
        },
    }
}

} // verus!
