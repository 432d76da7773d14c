//! The crate's own model of an index schema.
//!
//! An index is bound to an ordered set of named fields, fixed when the
//! index is created. The mapper resolves the keys of an incoming JSON
//! object against these names; each field's position in the order is the
//! field identifier under which mapped values are handed to the storage
//! engine. Per-field type and storage options live with the engine's own
//! schema object and are not consulted when mapping, so they are not
//! mirrored here.

use vstd::prelude::*;

verus! {

/// Field identifiers cross to the storage engine as 32-bit numbers, so a
/// schema never holds more fields than fit in one.
pub const MAX_FIELDS: usize = 0xFFFF_FFFF;

/// The ordered field names of one index, unique within the schema.
pub struct FieldSchema {
    pub(crate) names: Vec<String>,
}

impl View for FieldSchema {
    type V = Seq<Seq<char>>;

    closed spec fn view(&self) -> Seq<Seq<char>> {
        self.names@.map_values(|n: String| n@)
    }
}

/// Two entries of `names` carry the same name text.
pub open spec fn matching_names(names: Seq<Option<String>>, i: int, j: int) -> bool {
    match (names[i], names[j]) {
        (Some(a), Some(b)) => a@ == b@,
        _ => false,
    }
}

/// Holds when some field name occurs twice in the list; entries without
/// a name never match anything.
pub open spec fn duplicate_field_name(names: Seq<Option<String>>) -> bool {
    exists|i: int, j: int| 0 <= i < j < names.len() && #[trigger] matching_names(names, i, j)
}

/// Decides whether the name list holds a duplicate, exactly as
/// `duplicate_field_name` says.
pub fn has_duplicate_field_name(names: &Vec<Option<String>>) -> (r: bool)
    ensures
        r == duplicate_field_name(names@),
{
    let mut i: usize = 0;
    while i < names.len()
        invariant
            i <= names@.len(),
            forall|x: int, y: int|
                0 <= x < y < names@.len() && x < i ==> !(#[trigger] matching_names(names@, x, y)),
        decreases names@.len() - i,
    {
        let mut j = i + 1;
        while j < names.len()
            invariant
                i < names@.len(),
                i < j <= names@.len(),
                forall|y: int| i < y < j ==> !(#[trigger] matching_names(names@, i as int, y)),
                forall|x: int, y: int|
                    0 <= x < y < names@.len() && x < i ==> !(#[trigger] matching_names(
                        names@,
                        x,
                        y,
                    )),
            decreases names@.len() - j,
        {
            let hit = match (&names[i], &names[j]) {
                (Some(a), Some(b)) => *a == *b,
                _ => false,
            };
            if hit {
                proof {
                    assert(matching_names(names@, i as int, j as int));
                }
                return true;
            }
            j = j + 1;
        }
        i = i + 1;
    }
    false
}

/// Holds when `name` occurs among the field names `names`.
pub open spec fn schema_has_field(names: Seq<Seq<char>>, name: Seq<char>) -> bool {
    exists|i: int| 0 <= i < names.len() && names[i] == name
}

impl FieldSchema {
    /// Field names are unique, and the field count fits a 32-bit
    /// identifier.
    pub open spec fn wf(&self) -> bool {
        &&& forall|i: int, j: int|
            0 <= i < j < self@.len() ==> self@[i] != self@[j]
        &&& self@.len() <= MAX_FIELDS
    }

    /// An empty schema, to be grown with `add_field`.
    pub fn new() -> (r: FieldSchema)
        ensures
            r@ =~= Seq::<Seq<char>>::empty(),
            r.wf(),
    {
        FieldSchema { names: Vec::new() }
    }

    /// The number of fields.
    pub fn len(&self) -> (r: usize)
        ensures
            r == self@.len(),
    {
        self.names.len()
    }

    /// Appends a field of the given name and reports true, unless the name
    /// is already taken or the schema is full, in which case the schema is
    /// left unchanged and the result is false.
    pub fn add_field(&mut self, name: String) -> (r: bool)
        requires
            old(self).wf(),
        ensures
            final(self).wf(),
            r == (!schema_has_field(old(self)@, name@) && old(self)@.len() < MAX_FIELDS),
            r ==> final(self)@ =~= old(self)@.push(name@),
            !r ==> final(self)@ =~= old(self)@,
    {
        if self.names.len() >= MAX_FIELDS {
            return false;
        }
        match self.get_field(&name) {
            Some(_) => false,
            None => {
                proof {
                    let ghost pre = self@;
                    assert forall|i: int| 0 <= i < pre.len() implies pre[i] != name@ by {
                        assert(!schema_has_field(pre, name@));
                    }
                }
                self.names.push(name);
                proof {
                    assert(self@ =~= old(self)@.push(name@));
                }
                true
            },
        }
    }

    /// Resolves a field name to its position in the schema: `Some(i)`
    /// exactly when field `i` carries this name, `None` exactly when no
    /// field does.
    pub fn get_field(&self, name: &String) -> (r: Option<usize>)
        ensures
            match r {
                Some(i) => i < self@.len() && self@[i as int] == name@ && (forall|j: int|
                    0 <= j < i ==> self@[j] != name@),
                None => !schema_has_field(self@, name@),
            },
    {
        let mut i: usize = 0;
        while i < self.names.len()
            invariant
                i <= self@.len(),
                forall|j: int| 0 <= j < i ==> self@[j] != name@,
            decreases self@.len() - i,
        {
            if self.names[i] == *name {
                return Some(i);
            }
            i = i + 1;
        }
        None
    }
}

} // verus!
