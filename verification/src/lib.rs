//! An embedded document-indexing engine behind a foreign-call boundary.
//!
//! The crate validates caller-supplied paths, manages the lifecycle of
//! on-disk indexes, maps JSON documents onto a fixed field schema, buffers
//! typed documents in a writer session, and hands live writer sessions to
//! the host as opaque integer handles.

pub mod engine;
pub mod handles;
pub mod json_input;
pub mod lifecycle;
pub mod mapper;
pub mod path_check;
pub mod schema;
pub mod writer;

pub use lifecycle::{IndexError, convert_index_error, create_index, create_index_from_json, delete_index, index_exists, index_exists_checked, open_index, open_index_checked};
pub use path_check::validate_path;
pub use schema::FieldSchema;
pub use writer::DocumentWriter;
pub use handles::{SessionError, WriterTable, session_error_message};
pub use mapper::{DocumentError, TypedDocument, TypedValue, document_error_message, map_entries, parse_document};
