//! The schema-driven document mapper.
//!
//! Mapping turns one raw JSON document into a typed document that conforms
//! to a schema: every key must name a schema field, arrays map their
//! elements independently onto the same field, strings become text values,
//! booleans boolean values, and numbers an integer value when they have an
//! exact 64-bit signed form and a floating-point value otherwise. The
//! first offending entry aborts the whole document. Mapping has no side
//! effects and is deterministic in the schema and the input text.

use vstd::prelude::*;

use crate::engine::str_concat;
use crate::json_input::{
    float_form, int_form, json_doc_of, num_has_float_form, parse_raw_document, JsonFailure,
    JsonScalar, JsonTop,
};
use crate::schema::{schema_has_field, FieldSchema};

verus! {

/// One mapped value, tagged with the kind the storage engine will record.
pub enum TypedValue {
    /// A text value.
    Str(String),
    /// A 64-bit signed integer value.
    I64(i64),
    /// A floating-point value, carried as the parser's opaque number.
    F64(serde_json::Number),
    /// A boolean value.
    Bool(bool),
}

/// Why a raw document could not be mapped.
#[derive(Debug)]
pub enum DocumentError {
    /// The input was not one well-formed JSON object; carries a message.
    JsonParse(String),
    /// A key of the document names no field of the schema; carries the
    /// key.
    FieldNotFound(String),
    /// A value in scalar position was null, an object, or a nested
    /// array.
    UnsupportedValue,
    /// A number the parser exposes neither as an integer nor as a
    /// floating-point value.
    InvalidNumber,
    /// The storage engine refused an operation; carries its message.
    Engine(String),
}

/// The human-readable message of a mapping error, as raised across the
/// boundary.
pub open spec fn spec_document_error_message(e: DocumentError) -> Seq<char> {
    match e {
        DocumentError::JsonParse(m) => "Schema error: "@ + m@,
        DocumentError::FieldNotFound(k) => "Field not found: "@ + k@,
        DocumentError::UnsupportedValue => "Error parsing field: Unsupported field value type"@,
        DocumentError::InvalidNumber => "Error parsing field: Invalid number"@,
        DocumentError::Engine(m) => "Tantivy error: "@ + m@,
    }
}

/// Renders a mapping error as the message the host sees, exactly as
/// `spec_document_error_message` says.
pub fn document_error_message(err: &DocumentError) -> (r: String)
    ensures
        r@ == spec_document_error_message(*err),
{
    match err {
        DocumentError::JsonParse(m) => str_concat("Schema error: ", m.as_str()),
        DocumentError::FieldNotFound(k) => str_concat("Field not found: ", k.as_str()),
        DocumentError::UnsupportedValue => (
        "Error parsing field: Unsupported field value type").to_owned(),
        DocumentError::InvalidNumber => ("Error parsing field: Invalid number").to_owned(),
        DocumentError::Engine(m) => str_concat("Tantivy error: ", m.as_str()),
    }
}

/// A schema-conformant document: the values to record, each against the
/// position of its field in the schema. This is the only form the crate
/// ever hands to the storage engine's add-document operation.
pub struct TypedDocument {
    pub(crate) vals: Vec<(usize, TypedValue)>,
}

/// The mathematical content of a list of mapped values: field positions
/// widened to `int`.
pub open spec fn doc_model(s: Seq<(usize, TypedValue)>) -> Seq<(int, TypedValue)> {
    s.map_values(|p: (usize, TypedValue)| (p.0 as int, p.1))
}

impl View for TypedDocument {
    type V = Seq<(int, TypedValue)>;

    closed spec fn view(&self) -> Seq<(int, TypedValue)> {
        doc_model(self.vals@)
    }
}

impl TypedDocument {
    /// The number of recorded values, over all fields together.
    pub fn len(&self) -> (r: usize)
        ensures
            r == self@.len(),
    {
        self.vals.len()
    }

    /// The value at position `i` of the document, with its field
    /// position, or nothing past the end.
    pub fn value_at(&self, i: usize) -> (r: Option<&(usize, TypedValue)>)
        ensures
            match r {
                Some(p) => i < self@.len() && p.0 as int == self@[i as int].0 && p.1 == self@[i as int].1,
                None => i >= self@.len(),
            },
    {
        if i < self.vals.len() {
            Some(&self.vals[i])
        } else {
            None
        }
    }

    /// How many values the document records against field `field`.
    pub open spec fn spec_count_for_field(&self, field: int) -> int {
        spec_count_values(self@, field)
    }

    /// Counts the values recorded against field `field`.
    pub fn count_for_field(&self, field: usize) -> (r: usize)
        ensures
            r == self.spec_count_for_field(field as int),
    {
        let mut i: usize = 0;
        let mut n: usize = 0;
        proof {
            reveal(Seq::filter);
            assert(self@.take(0) =~= Seq::<(int, TypedValue)>::empty());
        }
        while i < self.vals.len()
            invariant
                i <= self.vals@.len(),
                self@.len() == self.vals@.len(),
                n <= i,
                n == spec_count_values(self@.take(i as int), field as int),
            decreases self.vals@.len() - i,
        {
            proof {
                assert(self@.take(i + 1) =~= self@.take(i as int).push(self@[i as int]));
                lemma_count_values_push(self@.take(i as int), self@[i as int], field as int);
                assert(self@[i as int].0 == self.vals@[i as int].0 as int);
            }
            if self.vals[i].0 == field {
                n = n + 1;
            }
            i = i + 1;
        }
        proof {
            assert(self@.take(self.vals@.len() as int) =~= self@);
        }
        n
    }
}

/// How many of the mapped values `s` stand against field `field`.
pub open spec fn spec_count_values(s: Seq<(int, TypedValue)>, field: int) -> int {
    s.filter(|p: (int, TypedValue)| p.0 == field).len() as int
}

/// Appending one value raises the count for its own field by one and
/// leaves every other field's count unchanged.
pub proof fn lemma_count_values_push(s: Seq<(int, TypedValue)>, x: (int, TypedValue), field: int)
    ensures
        spec_count_values(s.push(x), field) == spec_count_values(s, field) + (if x.0 == field {
            1int
        } else {
            0int
        }),
{
    reveal(Seq::filter);
    assert(s.push(x).drop_last() =~= s);
    assert(s.push(x).last() == x);
}

/// Maps one scalar onto field `field`: the value-directed typing rule
/// of the mapper. A number becomes an integer value when it has an
/// exact 64-bit signed reading, a floating-point value otherwise when
/// the parser can read it as one, and an error when it has neither
/// reading.
pub open spec fn spec_map_scalar(field: int, s: JsonScalar) -> Result<
    (int, TypedValue),
    DocumentError,
> {
    match s {
        JsonScalar::Text(t) => Ok((field, TypedValue::Str(t))),
        JsonScalar::Num(n) => match int_form(n) {
            Some(i) => Ok((field, TypedValue::I64(i))),
            None => if float_form(n) {
                Ok((field, TypedValue::F64(n)))
            } else {
                Err(DocumentError::InvalidNumber)
            },
        },
        JsonScalar::Boolean(b) => Ok((field, TypedValue::Bool(b))),
        JsonScalar::Unsupported => Err(DocumentError::UnsupportedValue),
    }
}

/// Maps the elements of an array onto field `field`, in order; the first
/// offending element aborts the array.
pub open spec fn spec_map_array(field: int, items: Seq<JsonScalar>) -> Result<
    Seq<(int, TypedValue)>,
    DocumentError,
>
    decreases items.len(),
{
    if items.len() == 0 {
        Ok(Seq::empty())
    } else {
        match spec_map_scalar(field, items[0]) {
            Err(e) => Err(e),
            Ok(p) => match spec_map_array(field, items.drop_first()) {
                Err(e) => Err(e),
                Ok(rest) => Ok(seq![p] + rest),
            },
        }
    }
}

/// The position of the first field called `name`; meaningful only when
/// `schema_has_field(names, name)` holds.
pub open spec fn field_index(names: Seq<Seq<char>>, name: Seq<char>) -> int
    decreases names.len(),
{
    if names.len() == 0 {
        0
    } else if names[0] == name {
        0
    } else {
        1 + field_index(names.drop_first(), name)
    }
}

/// `field_index` is pinned down by a witness position whose predecessors
/// all miss.
pub proof fn lemma_field_index(names: Seq<Seq<char>>, name: Seq<char>, i: int)
    requires
        0 <= i < names.len(),
        names[i] == name,
        forall|j: int| 0 <= j < i ==> names[j] != name,
    ensures
        field_index(names, name) == i,
    decreases names.len(),
{
    if i > 0 {
        assert(names[0] != name);
        lemma_field_index(names.drop_first(), name, i - 1);
    }
}

/// Maps a list of key/value entries against the field names `names`, in
/// order; the first offending entry aborts the document.
pub open spec fn spec_map_entries(
    names: Seq<Seq<char>>,
    entries: Seq<(String, JsonTop)>,
) -> Result<Seq<(int, TypedValue)>, DocumentError>
    decreases entries.len(),
{
    if entries.len() == 0 {
        Ok(Seq::empty())
    } else if !schema_has_field(names, entries[0].0@) {
        Err(DocumentError::FieldNotFound(entries[0].0))
    } else {
        let f = field_index(names, entries[0].0@);
        let head = match entries[0].1 {
            JsonTop::One(s) => match spec_map_scalar(f, s) {
                Err(e) => Err(e),
                Ok(p) => Ok(seq![p]),
            },
            JsonTop::Many(items) => spec_map_array(f, items@),
        };
        match head {
            Err(e) => Err(e),
            Ok(h) => match spec_map_entries(names, entries.drop_first()) {
                Err(e) => Err(e),
                Ok(rest) => Ok(h + rest),
            },
        }
    }
}

/// Mapping distributes over splitting the array: a prefix that maps
/// cleanly contributes its values in front of whatever the remainder
/// yields, and the remainder's error, if any, is the whole array's error.
pub proof fn lemma_map_array_split(field: int, a: Seq<JsonScalar>, b: Seq<JsonScalar>)
    ensures
        spec_map_array(field, a + b) == (match spec_map_array(field, a) {
            Err(e) => Err::<Seq<(int, TypedValue)>, DocumentError>(e),
            Ok(d) => match spec_map_array(field, b) {
                Err(e) => Err(e),
                Ok(d2) => Ok(d + d2),
            },
        }),
    decreases a.len(),
{
    if a.len() == 0 {
        assert(a + b =~= b);
        match spec_map_array(field, b) {
            Ok(d2) => {
                assert(Seq::<(int, TypedValue)>::empty() + d2 =~= d2);
            },
            Err(_) => {},
        }
    } else {
        assert((a + b)[0] == a[0]);
        assert((a + b).drop_first() =~= a.drop_first() + b);
        lemma_map_array_split(field, a.drop_first(), b);
        match spec_map_scalar(field, a[0]) {
            Err(_) => {},
            Ok(p) => {
                match spec_map_array(field, a.drop_first()) {
                    Err(_) => {},
                    Ok(d) => {
                        match spec_map_array(field, b) {
                            Err(_) => {},
                            Ok(d2) => {
                                assert(seq![p] + (d + d2) =~= (seq![p] + d) + d2);
                            },
                        }
                    },
                }
            },
        }
    }
}

/// Mapping distributes over splitting the entry list, as for arrays.
pub proof fn lemma_map_entries_split(
    names: Seq<Seq<char>>,
    a: Seq<(String, JsonTop)>,
    b: Seq<(String, JsonTop)>,
)
    ensures
        spec_map_entries(names, a + b) == (match spec_map_entries(names, a) {
            Err(e) => Err::<Seq<(int, TypedValue)>, DocumentError>(e),
            Ok(d) => match spec_map_entries(names, b) {
                Err(e) => Err(e),
                Ok(d2) => Ok(d + d2),
            },
        }),
    decreases a.len(),
{
    if a.len() == 0 {
        assert(a + b =~= b);
        match spec_map_entries(names, b) {
            Ok(d2) => {
                assert(Seq::<(int, TypedValue)>::empty() + d2 =~= d2);
            },
            Err(_) => {},
        }
    } else {
        assert((a + b)[0] == a[0]);
        assert((a + b).drop_first() =~= a.drop_first() + b);
        lemma_map_entries_split(names, a.drop_first(), b);
        if schema_has_field(names, a[0].0@) {
            let f = field_index(names, a[0].0@);
            let head = match a[0].1 {
                JsonTop::One(s) => match spec_map_scalar(f, s) {
                    Err(e) => Err::<Seq<(int, TypedValue)>, DocumentError>(e),
                    Ok(p) => Ok(seq![p]),
                },
                JsonTop::Many(items) => spec_map_array(f, items@),
            };
            match head {
                Err(_) => {},
                Ok(h) => {
                    match spec_map_entries(names, a.drop_first()) {
                        Err(_) => {},
                        Ok(d) => {
                            match spec_map_entries(names, b) {
                                Err(_) => {},
                                Ok(d2) => {
                                    assert(h + (d + d2) =~= (h + d) + d2);
                                },
                            }
                        },
                    }
                },
            }
        }
    }
}

/// Maps one scalar onto field `field`, exactly as `spec_map_scalar`
/// says.
fn map_scalar(field: usize, s: JsonScalar) -> (r: Result<(usize, TypedValue), DocumentError>)
    ensures
        match (r, spec_map_scalar(field as int, s)) {
            (Ok(p), Ok(q)) => p.0 == q.0 && p.1 == q.1,
            (Err(e), Err(e2)) => e == e2,
            _ => false,
        },
{
    match s {
        JsonScalar::Text(t) => Ok((field, TypedValue::Str(t))),
        JsonScalar::Num(n) => match n.as_i64() {
            Some(i) => Ok((field, TypedValue::I64(i))),
            None => if num_has_float_form(&n) {
                Ok((field, TypedValue::F64(n)))
            } else {
                Err(DocumentError::InvalidNumber)
            },
        },
        JsonScalar::Boolean(b) => Ok((field, TypedValue::Bool(b))),
        JsonScalar::Unsupported => Err(DocumentError::UnsupportedValue),
    }
}

/// Maps every element of an array onto field `field`, exactly as
/// `spec_map_array` says.
fn map_array(field: usize, items: Vec<JsonScalar>) -> (r: Result<
    Vec<(usize, TypedValue)>,
    DocumentError,
>)
    ensures
        match (r, spec_map_array(field as int, items@)) {
            (Ok(d), Ok(m)) => doc_model(d@) == m,
            (Err(e), Err(e2)) => e == e2,
            _ => false,
        },
        r matches Ok(d) ==> forall|k: int|
            0 <= k < d@.len() ==> (#[trigger] d@[k]).0 == field as int,
{
    let ghost orig = items@;
    let mut rest = items;
    let mut out: Vec<(usize, TypedValue)> = Vec::new();
    let ghost mut done: Seq<JsonScalar> = Seq::empty();
    proof {
        assert(done + rest@ =~= orig);
        assert(doc_model(out@) =~= Seq::<(int, TypedValue)>::empty());
    }
    while rest.len() > 0
        invariant
            orig == items@,
            orig =~= done + rest@,
            spec_map_array(field as int, done) == Ok::<_, DocumentError>(doc_model(out@)),
            forall|k: int| 0 <= k < out@.len() ==> (#[trigger] out@[k]).0 == field,
        decreases rest@.len(),
    {
        let ghost pre_done = done;
        let s = rest.remove(0);
        proof {
            done = done.push(s);
            assert(done =~= pre_done + seq![s]);
            assert(orig =~= done + rest@);
        }
        match map_scalar(field, s) {
            Err(e) => {
                proof {
                    lemma_map_array_split(field as int, pre_done, seq![s] + rest@);
                    assert(pre_done + (seq![s] + rest@) =~= orig);
                    assert((seq![s] + rest@)[0] == s);
                    assert((seq![s] + rest@).drop_first() =~= rest@);
                    assert(spec_map_array(field as int, orig) == Err::<
                        Seq<(int, TypedValue)>,
                        DocumentError,
                    >(e));
                }
                return Err(e);
            },
            Ok(p) => {
                let ghost pre_out = out@;
                out.push(p);
                proof {
                    lemma_map_array_split(field as int, pre_done, seq![s]);
                    assert(spec_map_array(field as int, seq![s].drop_first()) == Ok::<
                        _,
                        DocumentError,
                    >(Seq::<(int, TypedValue)>::empty()));
                    let q = spec_map_scalar(field as int, s)->Ok_0;
                    assert(spec_map_array(field as int, seq![s]) == Ok::<_, DocumentError>(
                        seq![q] + Seq::<(int, TypedValue)>::empty(),
                    ));
                    assert(doc_model(out@) =~= doc_model(pre_out) + (seq![q] + Seq::<
                        (int, TypedValue),
                    >::empty()));
                }
            },
        }
    }
    proof {
        assert(done =~= orig);
    }
    Ok(out)
}

/// Maps a parsed raw document, given as key/value entries, against a
/// schema, exactly as `spec_map_entries` says: the typed document holds
/// one value per scalar entry and one per array element, in input order,
/// each against the position of its field, and the first unknown key or
/// unmappable value aborts the whole document with its error.
pub fn map_entries(schema: &FieldSchema, entries: Vec<(String, JsonTop)>) -> (r: Result<
    TypedDocument,
    DocumentError,
>)
    ensures
        match (r, spec_map_entries(schema@, entries@)) {
            (Ok(d), Ok(m)) => d@ == m,
            (Err(e), Err(e2)) => e == e2,
            _ => false,
        },
        r matches Ok(d) ==> forall|k: int|
            0 <= k < d@.len() ==> 0 <= (#[trigger] d@[k]).0 < schema@.len(),
{
    let ghost orig = entries@;
    let mut rest = entries;
    let mut out: Vec<(usize, TypedValue)> = Vec::new();
    let ghost mut done: Seq<(String, JsonTop)> = Seq::empty();
    proof {
        assert(done + rest@ =~= orig);
        assert(doc_model(out@) =~= Seq::<(int, TypedValue)>::empty());
    }
    while rest.len() > 0
        invariant
            orig == entries@,
            orig =~= done + rest@,
            spec_map_entries(schema@, done) == Ok::<_, DocumentError>(doc_model(out@)),
            forall|k: int| 0 <= k < out@.len() ==> 0 <= (#[trigger] out@[k]).0 < schema@.len(),
        decreases rest@.len(),
    {
        let ghost pre_done = done;
        let (k, v) = rest.remove(0);
        let ghost entry = (k, v);
        proof {
            done = done.push(entry);
            assert(done =~= pre_done + seq![entry]);
            assert(orig =~= done + rest@);
            lemma_map_entries_split(schema@, pre_done, seq![entry] + rest@);
            assert(pre_done + (seq![entry] + rest@) =~= orig);
            assert((seq![entry] + rest@)[0] == entry);
            assert((seq![entry] + rest@).drop_first() =~= rest@);
        }
        let field = match schema.get_field(&k) {
            None => {
                proof {
                    assert(spec_map_entries(schema@, orig) == Err::<
                        Seq<(int, TypedValue)>,
                        DocumentError,
                    >(DocumentError::FieldNotFound(entry.0)));
                }
                return Err(DocumentError::FieldNotFound(k));
            },
            Some(i) => {
                proof {
                    lemma_field_index(schema@, k@, i as int);
                }
                i
            },
        };
        let frag = match v {
            JsonTop::One(s) => {
                match map_scalar(field, s) {
                    Err(e) => {
                        proof {
                            assert(spec_map_entries(schema@, orig) == Err::<
                                Seq<(int, TypedValue)>,
                                DocumentError,
                            >(e));
                        }
                        return Err(e);
                    },
                    Ok(p) => {
                        let mut one: Vec<(usize, TypedValue)> = Vec::new();
                        one.push(p);
                        proof {
                            let q = spec_map_scalar(field as int, entry.1->One_0)->Ok_0;
                            assert(doc_model(one@) =~= seq![q]);
                        }
                        one
                    },
                }
            },
            JsonTop::Many(items) => {
                match map_array(field, items) {
                    Err(e) => {
                        proof {
                            assert(spec_map_entries(schema@, orig) == Err::<
                                Seq<(int, TypedValue)>,
                                DocumentError,
                            >(e));
                        }
                        return Err(e);
                    },
                    Ok(d) => d,
                }
            },
        };
        let ghost pre_out = out@;
        let ghost frag_view = frag@;
        let mut frag = frag;
        out.append(&mut frag);
        proof {
            assert forall|k: int| 0 <= k < out@.len() implies 0 <= (#[trigger] out@[k]).0
                < schema@.len() by {
                if k < pre_out.len() {
                    assert(out@[k] == pre_out[k]);
                } else {
                    assert(out@[k] == frag_view[k - pre_out.len()]);
                }
            }
            lemma_map_entries_split(schema@, pre_done, seq![entry]);
            assert(spec_map_entries(schema@, seq![entry].drop_first()) == Ok::<_, DocumentError>(
                Seq::<(int, TypedValue)>::empty(),
            ));
            let h = match entry.1 {
                JsonTop::One(s) => seq![spec_map_scalar(field as int, s)->Ok_0],
                JsonTop::Many(items) => spec_map_array(field as int, items@)->Ok_0,
            };
            assert(spec_map_entries(schema@, seq![entry]) == Ok::<_, DocumentError>(h + Seq::<
                (int, TypedValue),
            >::empty()));
            assert(doc_model(out@) =~= doc_model(pre_out) + (h + Seq::<(int, TypedValue)>::empty()));
        }
    }
    proof {
        assert(done =~= orig);
    }
    Ok(TypedDocument { vals: out })
}

/// Parses one raw JSON document and maps it against `schema`: the
/// composition of `parse_raw_document` and `map_entries`. A parse
/// failure surfaces as `JsonParse`, carrying the parser's message or,
/// for a well-formed value that is not an object, a fixed message.
pub fn parse_document(schema: &FieldSchema, json_doc: &str) -> (r: Result<TypedDocument, DocumentError>)
    ensures
        match json_doc_of(json_doc@) {
            Ok(entries) => match (r, spec_map_entries(schema@, entries@)) {
                (Ok(d), Ok(m)) => d@ == m,
                (Err(e), Err(e2)) => e == e2,
                _ => false,
            },
            Err(JsonFailure::Malformed(m)) => r == Err::<TypedDocument, _>(
                DocumentError::JsonParse(m),
            ),
            Err(JsonFailure::NotObject) => (r matches Err(DocumentError::JsonParse(m)) && m@
                == "Expected JSON object"@),
        },
        r matches Ok(d) ==> forall|k: int|
            0 <= k < d@.len() ==> 0 <= (#[trigger] d@[k]).0 < schema@.len(),
{
    match parse_raw_document(json_doc) {
        Ok(entries) => map_entries(schema, entries),
        Err(JsonFailure::Malformed(m)) => Err(DocumentError::JsonParse(m)),
        Err(JsonFailure::NotObject) => Err(
            DocumentError::JsonParse("Expected JSON object".to_owned()),
        ),
    }
}

} // verus!
