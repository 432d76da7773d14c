//! The cross-boundary handle protocol.
//!
//! The host cannot hold a writer session itself, so a live session is
//! kept in this table and stands for itself outside the process as an
//! opaque non-zero integer. The table owns every live session: a handle
//! is allocated once, dereferenced only through the table's own
//! operations, and destroyed by an explicit release. Handle zero is
//! reserved: it never denotes a live session, every operation rejects it
//! without touching anything, and releasing it is a no-op. Releasing a
//! handle that is not live is equally a no-op, so a stale handle can
//! never reach a dead session.

use vstd::prelude::*;
use vstd::string::StringSliceAdditionalSpecFns;

use crate::mapper::{document_error_message, spec_document_error_message, DocumentError};
use crate::writer::{add_outcome, commit_outcome, DocumentWriter};

verus! {

/// Ceiling on one raw document crossing the boundary, in bytes,
/// enforced before mapping is attempted.
pub const MAX_DOCUMENT_LEN: usize = 10 * 1024 * 1024;

/// Why a handle operation failed.
#[derive(Debug)]
pub enum SessionError {
    /// The handle is zero or denotes no live session.
    InvalidHandle,
    /// The raw document is over the size ceiling; nothing was parsed.
    DocumentTooLarge,
    /// The live session refused the operation; carries its error.
    Document(DocumentError),
}

/// The human-readable message of a handle-operation error, as raised
/// across the boundary.
pub open spec fn spec_session_error_message(e: SessionError) -> Seq<char> {
    match e {
        SessionError::InvalidHandle => "Invalid writer handle (null)"@,
        SessionError::DocumentTooLarge => "Document is too large (max 10MB)"@,
        SessionError::Document(d) => spec_document_error_message(d),
    }
}

/// Renders a handle-operation error as the message the host sees,
/// exactly as `spec_session_error_message` says.
pub fn session_error_message(err: &SessionError) -> (r: String)
    ensures
        r@ == spec_session_error_message(*err),
{
    match err {
        SessionError::InvalidHandle => ("Invalid writer handle (null)").to_owned(),
        SessionError::DocumentTooLarge => ("Document is too large (max 10MB)").to_owned(),
        SessionError::Document(d) => document_error_message(d),
    }
}

/// The table of live writer sessions, keyed by their handles.
pub struct WriterTable {
    next_id: u64,
    entries: Vec<(u64, DocumentWriter)>,
}

impl View for WriterTable {
    type V = Seq<(u64, DocumentWriter)>;

    closed spec fn view(&self) -> Seq<(u64, DocumentWriter)> {
        self.entries@
    }
}

impl WriterTable {
    /// The next handle the table would allocate.
    pub closed spec fn spec_next(&self) -> u64 {
        self.next_id
    }

    /// Handles are non-zero, unique, and below the allocation counter,
    /// and every live session is well-formed.
    pub open spec fn wf(&self) -> bool {
        &&& 1 <= self.spec_next()
        &&& forall|i: int| 0 <= i < self@.len() ==> 0 < (#[trigger] self@[i]).0 < self.spec_next()
        &&& forall|i: int, j: int| 0 <= i < j < self@.len() ==> self@[i].0 != self@[j].0
        &&& forall|i: int| 0 <= i < self@.len() ==> (#[trigger] self@[i]).1.wf()
    }

    /// Whether `h` denotes a live session.
    pub open spec fn has_handle(&self, h: u64) -> bool {
        exists|i: int| 0 <= i < self@.len() && (#[trigger] self@[i]).0 == h
    }

    /// Whether a fresh handle can still be allocated.
    pub open spec fn can_allocate(&self) -> bool {
        self.spec_next() < u64::MAX
    }

    /// An empty table.
    pub fn new() -> (r: WriterTable)
        ensures
            r.wf(),
            r@ =~= Seq::<(u64, DocumentWriter)>::empty(),
            r.can_allocate(),
    {
        WriterTable { next_id: 1, entries: Vec::new() }
    }

    /// Whether `handle` denotes a live session.
    pub fn contains(&self, handle: u64) -> (r: bool)
        ensures
            r == self.has_handle(handle),
    {
        self.find(handle).is_some()
    }

    /// The position of `handle` in the table, if it is live.
    fn find(&self, handle: u64) -> (r: Option<usize>)
        ensures
            match r {
                Some(i) => i < self@.len() && self@[i as int].0 == handle,
                None => !self.has_handle(handle),
            },
    {
        let mut i: usize = 0;
        while i < self.entries.len()
            invariant
                i <= self@.len(),
                forall|j: int| 0 <= j < i ==> (#[trigger] self@[j]).0 != handle,
            decreases self@.len() - i,
        {
            if self.entries[i].0 == handle {
                return Some(i);
            }
            i = i + 1;
        }
        None
    }

    /// Transfers exclusive ownership of a fresh session into the table
    /// and returns its new handle, which is non-zero and was never live
    /// before. When the handle space is exhausted the session is
    /// dropped and zero is returned, the failure value the boundary
    /// already knows.
    pub fn acquire(&mut self, session: DocumentWriter) -> (h: u64)
        requires
            old(self).wf(),
            session.wf(),
        ensures
            final(self).wf(),
            old(self).can_allocate() ==> (h != 0 && !old(self).has_handle(h) && final(self)@
                == old(self)@.push((h, session)) && final(self).has_handle(h)),
            !old(self).can_allocate() ==> (h == 0 && final(self)@ == old(self)@),
    {
        if self.next_id == u64::MAX {
            return 0;
        }
        let ghost pre = self@;
        let ghost pre_next = self.next_id;
        let h = self.next_id;
        self.next_id = self.next_id + 1;
        self.entries.push((h, session));
        proof {
            assert(self@ =~= pre.push((h, session)));
            assert forall|i: int| 0 <= i < self@.len() implies 0 < (#[trigger] self@[i]).0
                < self.spec_next() by {
                if i < pre.len() {
                    assert(self@[i] == pre[i]);
                    assert(0 < pre[i].0 < pre_next);
                } else {
                    assert(self@[i] == (h, session));
                }
            }
            assert forall|i: int, j: int| 0 <= i < j < self@.len() implies self@[i].0
                != self@[j].0 by {
                if j < pre.len() {
                    assert(self@[i] == pre[i] && self@[j] == pre[j]);
                } else {
                    assert(self@[i] == pre[i] && pre[i].0 < pre_next);
                }
            }
            assert forall|i: int| 0 <= i < self@.len() implies (#[trigger] self@[i]).1.wf() by {
                if i < pre.len() {
                    assert(self@[i] == pre[i]);
                    assert(pre[i].1.wf());
                }
            }
            if old(self).has_handle(h) {
                let i = choose|i: int| 0 <= i < pre.len() && (#[trigger] pre[i]).0 == h;
                assert(pre[i].0 < pre_next);
            }
            assert(self@[pre.len() as int].0 == h);
        }
        h
    }

    /// Runs one add-document call against the session `handle` denotes.
    /// A zero or stale handle is rejected with `InvalidHandle` and an
    /// oversized document with `DocumentTooLarge`, in that order, both
    /// leaving every session untouched; otherwise the named session
    /// alone changes, exactly as `add_outcome` says, and the rest of
    /// the table is untouched.
    pub fn add_document(&mut self, handle: u64, doc_json: &str) -> (r: Result<(), SessionError>)
        requires
            old(self).wf(),
        ensures
            final(self).wf(),
            handle == 0 ==> r == Err::<(), SessionError>(SessionError::InvalidHandle) && final(self)@ == old(self)@,
            !old(self).has_handle(handle) ==> (r matches Err(SessionError::InvalidHandle)) && final(self)@ == old(self)@,
            handle != 0 && old(self).has_handle(handle) && doc_json.spec_bytes().len()
                > MAX_DOCUMENT_LEN ==> r == Err::<(), SessionError>(SessionError::DocumentTooLarge)
                && final(self)@ == old(self)@,
            final(self)@.len() == old(self)@.len(),
            forall|i: int|
                0 <= i < old(self)@.len() ==> (#[trigger] final(self)@[i]).0 == old(self)@[i].0,
            forall|i: int|
                0 <= i < old(self)@.len() && old(self)@[i].0 != handle ==> #[trigger] final(self)@[i] == old(self)@[i],
            handle != 0 && old(self).has_handle(handle) && doc_json.spec_bytes().len()
                <= MAX_DOCUMENT_LEN ==> (forall|i: int|
                0 <= i < old(self)@.len() && (#[trigger] old(self)@[i]).0 == handle
                    ==> add_outcome(
                    old(self)@[i].1,
                    final(self)@[i].1,
                    doc_json@,
                    match r {
                        Ok(()) => Ok(()),
                        Err(SessionError::Document(e)) => Err(e),
                        _ => arbitrary(),
                    },
                ) && (r is Ok || r matches Err(SessionError::Document(_)))),
    {
        if handle == 0 {
            return Err(SessionError::InvalidHandle);
        }
        let at = match self.find(handle) {
            None => return Err(SessionError::InvalidHandle),
            Some(i) => i,
        };
        if doc_json.as_bytes().len() > MAX_DOCUMENT_LEN {
            return Err(SessionError::DocumentTooLarge);
        }
        let ghost pre = self@;
        let (h, mut session) = self.entries.remove(at);
        let outcome = session.add_document(doc_json);
        self.entries.insert(at, (h, session));
        proof {
            assert(self@ =~= pre.update(at as int, (h, self@[at as int].1)));
            assert forall|i: int, j: int| 0 <= i < j < self@.len() implies self@[i].0
                != self@[j].0 by {
                assert(self@[i].0 == pre[i].0 && self@[j].0 == pre[j].0);
            }
        }
        match outcome {
            Ok(()) => Ok(()),
            Err(e) => Err(SessionError::Document(e)),
        }
    }

    /// Runs one commit against the session `handle` denotes. A zero or
    /// stale handle is rejected with `InvalidHandle`, leaving every
    /// session untouched; otherwise the named session alone changes,
    /// exactly as `commit_outcome` says.
    pub fn commit(&mut self, handle: u64) -> (r: Result<(), SessionError>)
        requires
            old(self).wf(),
        ensures
            final(self).wf(),
            handle == 0 ==> r == Err::<(), SessionError>(SessionError::InvalidHandle) && final(self)@ == old(self)@,
            !old(self).has_handle(handle) ==> (r matches Err(SessionError::InvalidHandle)) && final(self)@ == old(self)@,
            final(self)@.len() == old(self)@.len(),
            forall|i: int|
                0 <= i < old(self)@.len() ==> (#[trigger] final(self)@[i]).0 == old(self)@[i].0,
            forall|i: int|
                0 <= i < old(self)@.len() && old(self)@[i].0 != handle ==> #[trigger] final(self)@[i] == old(self)@[i],
            handle != 0 && old(self).has_handle(handle) ==> (forall|i: int|
                0 <= i < old(self)@.len() && (#[trigger] old(self)@[i]).0 == handle
                    ==> commit_outcome(
                    old(self)@[i].1,
                    final(self)@[i].1,
                    match r {
                        Ok(()) => Ok(()),
                        Err(SessionError::Document(e)) => Err(e),
                        _ => arbitrary(),
                    },
                ) && (r is Ok || r matches Err(SessionError::Document(_)))),
    {
        if handle == 0 {
            return Err(SessionError::InvalidHandle);
        }
        let at = match self.find(handle) {
            None => return Err(SessionError::InvalidHandle),
            Some(i) => i,
        };
        let ghost pre = self@;
        let (h, mut session) = self.entries.remove(at);
        let outcome = session.commit();
        self.entries.insert(at, (h, session));
        proof {
            assert(self@ =~= pre.update(at as int, (h, self@[at as int].1)));
            assert forall|i: int, j: int| 0 <= i < j < self@.len() implies self@[i].0
                != self@[j].0 by {
                assert(self@[i].0 == pre[i].0 && self@[j].0 == pre[j].0);
            }
        }
        match outcome {
            Ok(()) => Ok(()),
            Err(e) => Err(SessionError::Document(e)),
        }
    }

    /// Reclaims the session `handle` denotes and destroys it, running
    /// the engine's cleanup. Releasing handle zero, or a handle that is
    /// not live, is a no-op: nothing is touched, so a double release
    /// can never reach a dead session.
    pub fn release(&mut self, handle: u64)
        requires
            old(self).wf(),
        ensures
            final(self).wf(),
            handle == 0 ==> final(self)@ == old(self)@,
            !old(self).has_handle(handle) ==> final(self)@ == old(self)@,
            !final(self).has_handle(handle),
            handle != 0 && old(self).has_handle(handle) ==> exists|i: int|
                0 <= i < old(self)@.len() && (#[trigger] old(self)@[i]).0 == handle && final(self)@
                    == old(self)@.remove(i),
    {
        if handle == 0 {
            proof {
                if self.has_handle(0) {
                    let i = choose|i: int| 0 <= i < self@.len() && (#[trigger] self@[i]).0 == 0;
                    assert(self@[i].0 > 0);
                }
            }
            return ;
        }
        let at = match self.find(handle) {
            None => return ,
            Some(i) => i,
        };
        let ghost pre = self@;
        let _ = self.entries.remove(at);
        proof {
            assert(self@ =~= pre.remove(at as int));
            assert forall|i: int, j: int| 0 <= i < j < self@.len() implies self@[i].0
                != self@[j].0 by {
                let pi: int = if i < at as int {
                    i
                } else {
                    i + 1
                };
                let pj: int = if j < at as int {
                    j
                } else {
                    j + 1
                };
                assert(self@[i].0 == pre[pi].0 && self@[j].0 == pre[pj].0);
            }
            if self.has_handle(handle) {
                let i = choose|i: int| 0 <= i < self@.len() && (#[trigger] self@[i]).0 == handle;
                let pi: int = if i < at as int {
                    i
                } else {
                    i + 1
                };
                assert(pre[pi].0 == handle && pre[at as int].0 == handle);
            }
        }
    }
}

} // verus!
