//! The writer session: one open index's write channel.
//!
//! A session binds to the schema of an existing index and buffers added
//! documents until an explicit commit, the only durability boundary.
//! Its state is modelled by two sequences of typed-document contents:
//! what is pending since the last commit and what has been committed
//! through this session. A failed add leaves the session usable and its
//! buffer untouched; a successful commit moves the whole buffer, in call
//! order, to the committed side.

use vstd::prelude::*;

use crate::engine::{
    engine_add_document, engine_commit, engine_open_in_dir, engine_schema_names,
    engine_writer_for, writer_committed, writer_pending, EngineWriter,
};
use crate::json_input::{json_doc_of, JsonFailure};
use crate::mapper::{parse_document, spec_map_entries, DocumentError, TypedValue};
use crate::schema::{FieldSchema, MAX_FIELDS};

verus! {

/// Ceiling on buffered, uncommitted data held in memory before the
/// storage engine flushes internally, in bytes.
pub const MAX_MEMORY_LIMIT: usize = 50_000_000;

/// One open index's write channel, bound to that index's schema.
pub struct DocumentWriter {
    writer: EngineWriter,
    schema: FieldSchema,
}

/// What one `add_document` call did to a session: given the session
/// before (`w0`) and after (`w1`), the raw text, and the result, the
/// schema and the committed documents are untouched; the mapped document
/// joins the pending buffer exactly on success; and every failure leaves
/// the buffer unchanged and carries the mapping error, or an engine
/// error when mapping succeeded and only the engine refused.
pub open spec fn add_outcome(
    w0: DocumentWriter,
    w1: DocumentWriter,
    doc_json: Seq<char>,
    r: Result<(), DocumentError>,
) -> bool {
    &&& w1.wf()
    &&& w1.schema_names() == w0.schema_names()
    &&& w1.committed() == w0.committed()
    &&& match json_doc_of(doc_json) {
        Err(JsonFailure::Malformed(m)) => r == Err::<(), DocumentError>(DocumentError::JsonParse(m))
            && w1.pending() == w0.pending(),
        Err(JsonFailure::NotObject) => (r matches Err(DocumentError::JsonParse(m)) && m@
            == "Expected JSON object"@) && w1.pending() == w0.pending(),
        Ok(entries) => match spec_map_entries(w0.schema_names(), entries@) {
            Err(e) => r == Err::<(), DocumentError>(e) && w1.pending() == w0.pending(),
            Ok(m) => (r is Ok ==> w1.pending() == w0.pending().push(m)) && (r is Err ==> (
            w1.pending() == w0.pending() && r matches Err(DocumentError::Engine(_)))),
        },
    }
}

/// What one `commit` call did to a session: the schema is untouched; on
/// success everything pending, in call order, joins the committed
/// documents and the buffer empties; a failure carries the engine's
/// message and promises nothing else.
pub open spec fn commit_outcome(
    w0: DocumentWriter,
    w1: DocumentWriter,
    r: Result<(), DocumentError>,
) -> bool {
    &&& w1.wf()
    &&& w1.schema_names() == w0.schema_names()
    &&& r is Ok ==> (w1.committed() == w0.committed() + w0.pending() && w1.pending() == Seq::<
        Seq<(int, TypedValue)>,
    >::empty())
    &&& r is Err ==> (r matches Err(DocumentError::Engine(_)))
}

/// The commit barrier: a document added before a commit is durable after
/// it. A successful add followed by a successful commit leaves the mapped
/// document — behind everything that was pending before it, in call
/// order — at the end of the committed sequence, with nothing pending.
pub proof fn lemma_commit_barrier(
    w0: DocumentWriter,
    w1: DocumentWriter,
    w2: DocumentWriter,
    doc_json: Seq<char>,
    r_add: Result<(), DocumentError>,
    r_commit: Result<(), DocumentError>,
)
    requires
        add_outcome(w0, w1, doc_json, r_add),
        r_add is Ok,
        commit_outcome(w1, w2, r_commit),
        r_commit is Ok,
    ensures
        json_doc_of(doc_json) is Ok,
        spec_map_entries(w0.schema_names(), (json_doc_of(doc_json)->Ok_0)@) is Ok,
        w2.pending() == Seq::<Seq<(int, TypedValue)>>::empty(),
        w2.committed() == w0.committed() + w0.pending().push(
            spec_map_entries(w0.schema_names(), (json_doc_of(doc_json)->Ok_0)@)->Ok_0,
        ),
{
}

impl DocumentWriter {
    /// The field names the session maps against, in field order.
    pub closed spec fn schema_names(&self) -> Seq<Seq<char>> {
        self.schema@
    }

    /// The documents buffered since the last commit, oldest first.
    pub closed spec fn pending(&self) -> Seq<Seq<(int, TypedValue)>> {
        writer_pending(self.writer)
    }

    /// The documents committed through this session, oldest first.
    pub closed spec fn committed(&self) -> Seq<Seq<(int, TypedValue)>> {
        writer_committed(self.writer)
    }

    /// The session's bound schema is well-formed.
    pub closed spec fn wf(&self) -> bool {
        self.schema.wf()
    }

    /// Opens the index at `index_path`, binds to its existing schema,
    /// and allocates the write channel bounded by the fixed memory
    /// budget. A fresh session has nothing pending and nothing
    /// committed; every failure is an engine error.
    pub fn new(index_path: &str) -> (r: Result<DocumentWriter, DocumentError>)
        ensures
            r matches Ok(w) ==> w.wf() && w.pending() == Seq::<Seq<(int, TypedValue)>>::empty()
                && w.committed() == Seq::<Seq<(int, TypedValue)>>::empty(),
            r matches Err(e) ==> (e matches DocumentError::Engine(_)),
    {
        let index = match engine_open_in_dir(index_path) {
            Ok(i) => i,
            Err(m) => return Err(DocumentError::Engine(m)),
        };
        let writer = match engine_writer_for(&index, MAX_MEMORY_LIMIT) {
            Ok(w) => w,
            Err(m) => return Err(DocumentError::Engine(m)),
        };
        let schema = engine_schema_names(&index);
        Ok(DocumentWriter { writer, schema })
    }

    /// Maps one raw JSON document against the session's schema and
    /// hands the typed document to the storage engine, exactly as
    /// `add_outcome` says. A failure does not poison the session:
    /// subsequent calls remain valid on an unchanged buffer.
    pub fn add_document(&mut self, doc_json: &str) -> (r: Result<(), DocumentError>)
        requires
            old(self).wf(),
        ensures
            add_outcome(*old(self), *final(self), doc_json@, r),
    {
        let doc = match parse_document(&self.schema, doc_json) {
            Ok(d) => d,
            Err(e) => return Err(e),
        };
        proof {
            assert forall|k: int| 0 <= k < doc@.len() implies 0 <= (#[trigger] doc@[k]).0
                < 0x1_0000_0000 by {
                assert(doc@[k].0 < self.schema@.len());
                assert(self.schema@.len() <= MAX_FIELDS);
            }
        }
        match engine_add_document(&mut self.writer, &doc) {
            Ok(()) => Ok(()),
            Err(m) => Err(DocumentError::Engine(m)),
        }
    }

    /// Flushes all buffered documents durably, exactly as
    /// `commit_outcome` says: only after this are they guaranteed
    /// visible to subsequent opens.
    pub fn commit(&mut self) -> (r: Result<(), DocumentError>)
        requires
            old(self).wf(),
        ensures
            commit_outcome(*old(self), *final(self), r),
    {
        match engine_commit(&mut self.writer) {
            Ok(_) => Ok(()),
            Err(m) => Err(DocumentError::Engine(m)),
        }
    }
}

} // verus!
