//! The trusted boundary to the storage engine and the filesystem.
//!
//! Every call the crate makes into the outside world stands here, one
//! wrapper per outside operation, with the contract each caller relies
//! on. The storage engine's writer is modelled as two sequences of
//! typed-document contents: the documents buffered since the last commit
//! (`writer_pending`) and the documents already committed through this
//! writer (`writer_committed`). What a probe or a directory operation
//! returns depends on the state of the disk, so those wrappers promise
//! nothing about their results.

use vstd::prelude::*;

use crate::mapper::{TypedDocument, TypedValue};

verus! {

/// The storage engine's handle to one on-disk index.
#[verifier::external_type_specification]
#[verifier::external_body]
pub struct ExIndex(tantivy::Index);

/// The storage engine's own schema object, carried through this crate
/// opaquely.
#[verifier::external_type_specification]
#[verifier::external_body]
pub struct ExEngineSchema(tantivy::schema::Schema);

/// The documents buffered in a writer since its last commit, oldest
/// first, each as the contents of the typed document that was added.
pub uninterp spec fn writer_pending(w: EngineWriter) -> Seq<Seq<(int, TypedValue)>>;

/// The documents made durable through a writer, oldest first.
pub uninterp spec fn writer_committed(w: EngineWriter) -> Seq<Seq<(int, TypedValue)>>;

/// The storage engine's writer for one open index, holding the buffer of
/// pending documents. The engine's own writer type is generic in the
/// document representation it accepts, which Verus refuses to declare,
/// so this crate holds it in an opaque struct of its own.
#[verifier::external_body]
pub struct EngineWriter {
    inner: tantivy::IndexWriter,
}

/// Every field position of the document fits the engine's 32-bit field
/// identifier.
pub open spec fn doc_fields_fit(d: Seq<(int, TypedValue)>) -> bool {
    forall|i: int| 0 <= i < d.len() ==> 0 <= #[trigger] d[i].0 < 0x1_0000_0000
}

/// What removing an index directory reported.
pub enum RemoveOutcome {
    /// The directory existed and was removed.
    Removed,
    /// Nothing existed at the path.
    Missing,
    /// The filesystem refused; carries its message.
    Failed(String),
}

/// Relies on `str::to_owned` and `String::push_str`: the concatenation
/// of two string slices.
#[verifier::external_body]
pub(crate) fn str_concat(a: &str, b: &str) -> (r: String)
    ensures
        r@ == a@ + b@,
{
    let mut s = a.to_owned();
    s.push_str(b);
    s
}

/// Relies on `std::path::Path::exists`: whether anything exists at
/// `path` on disk. The result depends on the disk, so nothing is
/// promised of it.
#[verifier::external_body]
pub(crate) fn path_exists(path: &str) -> bool {
    std::path::Path::new(path).exists()
}

/// Relies on `std::path::Path::join` and `Path::exists`: whether the
/// entry `name` exists inside the directory `path`.
#[verifier::external_body]
pub(crate) fn dir_entry_exists(path: &str, name: &str) -> bool {
    std::path::Path::new(path).join(name).exists()
}

/// Relies on `fs_err::create_dir_all`: creates the directory and its
/// missing parents; an existing directory is not an error.
#[verifier::external_body]
pub(crate) fn fs_create_dir_all(path: &str) -> Result<(), String> {
    fs_err::create_dir_all(path).map_err(|e| e.to_string())
}

/// Relies on `fs_err::remove_dir_all`: removes the directory and its
/// contents, telling a missing target apart from any other failure by
/// the reported error kind.
#[verifier::external_body]
pub(crate) fn fs_remove_dir_all(path: &str) -> RemoveOutcome {
    match fs_err::remove_dir_all(path) {
        Ok(()) => RemoveOutcome::Removed,
        Err(e) => if e.kind() == std::io::ErrorKind::NotFound {
            RemoveOutcome::Missing
        } else {
            RemoveOutcome::Failed(e.to_string())
        },
    }
}

/// Relies on `tantivy::Index::create_in_dir`: initializes the engine's
/// on-disk structures in the (existing) directory with the given schema;
/// refuses a directory that already holds an index.
#[verifier::external_body]
pub(crate) fn engine_create_in_dir(path: &str, schema: &tantivy::schema::Schema) -> Result<
    (),
    String,
> {
    match tantivy::Index::create_in_dir(path, schema.clone()) {
        Ok(_) => Ok(()),
        Err(e) => Err(e.to_string()),
    }
}

/// Relies on `tantivy::Index::open_in_dir`: opens the index whose
/// on-disk structures live in the directory. Metadata the engine itself
/// wrote reads back cleanly; a hand-edited metadata file that repeats a
/// field name stops the engine and is outside this contract.
#[verifier::external_body]
pub(crate) fn engine_open_in_dir(path: &str) -> Result<tantivy::Index, String> {
    tantivy::Index::open_in_dir(path).map_err(|e| e.to_string())
}

/// The field names a declarative schema description lists: one entry
/// per member of its top-level array, holding the member's `"name"`
/// string where it has one. The extraction is a function of the text
/// alone; its value on given text is known only through
/// `schema_member_names`.
pub uninterp spec fn schema_names_of(s: Seq<char>) -> Seq<Option<String>>;

/// Relies on `serde_json::from_str` and `serde_json::Value::get`: reads
/// the `"name"` member of each entry of the description's top-level
/// array — the names the engine's schema deserializer would register.
/// Text that is not an array yields no names (the engine refuses such
/// text with an error of its own).
#[verifier::external_body]
pub(crate) fn schema_member_names(s: &str) -> (r: Vec<Option<String>>)
    ensures
        r@ == schema_names_of(s@),
{
    match serde_json::from_str::<serde_json::Value>(s) {
        Ok(serde_json::Value::Array(items)) => items.iter().map(|it| match it.get("name") {
            Some(serde_json::Value::String(n)) => Some(n.clone()),
            _ => None,
        }).collect(),
        _ => Vec::new(),
    }
}

/// Relies on `serde_json::from_str` and the engine schema's serde
/// support: parses a declarative JSON schema description. The engine's
/// deserializer stops the process on a description whose entries repeat
/// a field name, so such text is excluded here and callers must test
/// the listed names first.
#[verifier::external_body]
pub(crate) fn engine_schema_from_json(s: &str) -> Result<tantivy::schema::Schema, String>
    requires
        !crate::schema::duplicate_field_name(schema_names_of(s@)),
{
    serde_json::from_str::<tantivy::schema::Schema>(s).map_err(|e| e.to_string())
}

/// Relies on `tantivy::Index::schema` and `FieldSchema::fields`: reads the
/// field names of the index's schema, in field-identifier order. The
/// engine keeps field names unique and field identifiers 32-bit, which
/// is what the well-formedness promise states.
#[verifier::external_body]
pub(crate) fn engine_schema_names(index: &tantivy::Index) -> (r: crate::schema::FieldSchema)
    ensures
        r.wf(),
{
    crate::schema::FieldSchema { names: index.schema().fields().map(|(_, e)| e.name().to_string()).collect() }
}

/// Relies on `tantivy::Index::writer`: a fresh writer for the index,
/// bounded by the given memory budget, with nothing buffered and
/// nothing yet committed through it.
#[verifier::external_body]
pub(crate) fn engine_writer_for(index: &tantivy::Index, budget: usize) -> (r: Result<
    EngineWriter,
    String,
>)
    ensures
        r matches Ok(w) ==> writer_pending(w) == Seq::<Seq<(int, TypedValue)>>::empty()
            && writer_committed(w) == Seq::<Seq<(int, TypedValue)>>::empty(),
{
    match index.writer(budget) {
        Ok(w) => Ok(EngineWriter { inner: w }),
        Err(e) => Err(e.to_string()),
    }
}

/// Relies on `TantivyDocument`'s add methods and
/// `IndexWriter::add_document`: rebuilds the typed document in the
/// engine's representation, value by value in order, and queues it. On
/// success the document joins the pending buffer; on failure the buffer
/// is unchanged. Commits never happen here.
#[verifier::external_body]
pub(crate) fn engine_add_document(w: &mut EngineWriter, doc: &TypedDocument) -> (r: Result<
    (),
    String,
>)
    requires
        doc_fields_fit(doc@),
    ensures
        r is Ok ==> writer_pending(*final(w)) == writer_pending(*old(w)).push(doc@),
        r is Err ==> writer_pending(*final(w)) == writer_pending(*old(w)),
        writer_committed(*final(w)) == writer_committed(*old(w)),
{
    let mut d = tantivy::TantivyDocument::default();
    for (f, v) in doc.vals.iter() {
        let field = tantivy::schema::Field::from_field_id(*f as u32);
        match v {
            TypedValue::Str(s) => d.add_text(field, s),
            TypedValue::I64(i) => d.add_i64(field, *i),
            TypedValue::F64(n) => match n.as_f64() {
                Some(x) => d.add_f64(field, x),
                None => return Err("Invalid number".to_owned()),
            },
            TypedValue::Bool(b) => d.add_bool(field, *b),
        }
    }
    w.inner.add_document(d).map(|_| ()).map_err(|e| e.to_string())
}

/// Relies on `IndexWriter::commit`: flushes every pending document
/// durably. On success the pending documents, in order, join the
/// committed ones and the buffer is empty; a failed commit promises
/// nothing about the writer's state.
#[verifier::external_body]
pub(crate) fn engine_commit(w: &mut EngineWriter) -> (r: Result<u64, String>)
    ensures
        r is Ok ==> writer_committed(*final(w)) == writer_committed(*old(w)) + writer_pending(
            *old(w),
        ) && writer_pending(*final(w)) == Seq::<Seq<(int, TypedValue)>>::empty(),
{
    w.inner.commit().map_err(|e| e.to_string())
}

} // verus!
