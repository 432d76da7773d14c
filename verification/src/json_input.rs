//! The JSON face of the document mapper.
//!
//! A raw document arrives as one JSON object whose values are scalars,
//! booleans, or arrays of those. Parsing is the JSON library's work; this
//! module calls it once per document and hands the mapper a flat list of
//! key/value entries in the order the parser yields them (the parser keeps
//! object members sorted by key). Everything the mapper later reads is a
//! plain value here, with one exception: a number is carried through as
//! the parser's opaque value, and the mapper asks its two named readings
//! — the exact 64-bit signed form, and whether a floating-point reading
//! exists — to type it.

use vstd::prelude::*;

verus! {

/// The JSON library's arbitrary-precision number type, carried through
/// this crate as an opaque value.
#[verifier::external_type_specification]
#[verifier::external_body]
pub struct ExNumber(serde_json::Number);

/// The JSON library's parsed value: only the conversion below looks
/// inside one.
#[verifier::external_type_specification]
#[verifier::external_body]
pub struct ExValue(serde_json::Value);

/// One scalar member of a raw document, reduced to what the mapper reads.
pub enum JsonScalar {
    /// A JSON string.
    Text(String),
    /// A JSON number, kept as the parser produced it.
    Num(serde_json::Number),
    /// A JSON boolean.
    Boolean(bool),
    /// Any other JSON value in scalar position: null, an object, or an
    /// array nested inside an array.
    Unsupported,
}

/// The exact 64-bit signed reading of a number, where it has one: what
/// `serde_json::Number::as_i64` returns, a function of the number alone.
pub uninterp spec fn int_form(n: serde_json::Number) -> Option<i64>;

/// Whether the parser can read the number as a floating-point value: a
/// function of the number alone.
pub uninterp spec fn float_form(n: serde_json::Number) -> bool;

/// Relies on `serde_json::Number::as_i64`: the number's exact 64-bit
/// signed reading, present exactly when the number is an integer in
/// signed 64-bit range, which is what `int_form` names.
pub assume_specification[ serde_json::Number::as_i64 ](n: &serde_json::Number) -> (r: Option<i64>)
    ensures
        r == int_form(*n),
;

/// Relies on `serde_json::Number::as_f64`: whether the number has a
/// floating-point reading, which is what `float_form` names. The
/// reading itself stays with the opaque number.
#[verifier::external_body]
pub(crate) fn num_has_float_form(n: &serde_json::Number) -> (r: bool)
    ensures
        r == float_form(*n),
{
    n.as_f64().is_some()
}

/// The value of one key of a raw document: a single scalar, or an array
/// of scalars for a multi-valued field.
pub enum JsonTop {
    One(JsonScalar),
    Many(Vec<JsonScalar>),
}

/// Why a raw document never reached the mapper.
pub enum JsonFailure {
    /// The text is not well-formed JSON; carries the parser's message.
    Malformed(String),
    /// The text is well-formed JSON but its top-level value is not an
    /// object.
    NotObject,
}

/// What parsing a raw document returns. Parsing is deterministic: the
/// same text always yields the same entries, in the same order, so the
/// result is a function of the text alone. Its value on given text is
/// known only through `parse_raw_document`.
pub uninterp spec fn json_doc_of(s: Seq<char>) -> Result<Vec<(String, JsonTop)>, JsonFailure>;

/// Reduces one JSON value in scalar position to a `JsonScalar`, exactly
/// one arm per parser variant, moving the value's contents and deciding
/// nothing. Serves only `parse_raw_document` below.
#[verifier::external_body]
fn scalar_of(v: serde_json::Value) -> JsonScalar {
    match v {
        serde_json::Value::String(s) => JsonScalar::Text(s),
        serde_json::Value::Bool(b) => JsonScalar::Boolean(b),
        serde_json::Value::Number(n) => JsonScalar::Num(n),
        _ => JsonScalar::Unsupported,
    }
}

/// Relies on `serde_json::from_str`: parses the text, requires the top
/// level to be an object, and flattens each member to an entry, arrays
/// element-wise. `serde_json`'s object is an ordered map (sorted by key),
/// so the entry order, like everything else here, is a function of the
/// text alone, which is what `json_doc_of` names.
#[verifier::external_body]
pub(crate) fn parse_raw_document(s: &str) -> (r: Result<Vec<(String, JsonTop)>, JsonFailure>)
    ensures
        r == json_doc_of(s@),
{
    let v: serde_json::Value = match serde_json::from_str(s) {
        Ok(v) => v,
        Err(e) => return Err(JsonFailure::Malformed(e.to_string())),
    };
    match v {
        serde_json::Value::Object(m) => Ok(m.into_iter().map(|(k, val)| (k, match val {
            serde_json::Value::Array(a) => JsonTop::Many(a.into_iter().map(scalar_of).collect()),
            one => JsonTop::One(scalar_of(one)),
        })).collect()),
        _ => Err(JsonFailure::NotObject),
    }
}

} // verus!
