//! Decoding of structured values into typed capture-source records.
//!
//! The broker reports each granted source as a loosely-typed two-element
//! structure: a numeric identifier and a dictionary of named attributes.
//! The decoder narrows that shape into a [`SelectedSource`] and fails closed
//! on mismatches instead of guessing; only the optional size attribute is
//! treated leniently, since it is non-essential metadata.

use vstd::prelude::*;
use vstd::string::StringExecFns;
use crate::value::{dict_get, dict_lookup, DictEntry, StructValue};

verus! {

/// One capture source granted by the user.
#[derive(Debug, Copy, Clone, PartialEq, Eq)]
pub struct SelectedSource {
    /// Broker-assigned identifier, unique within a session.
    pub id: u32,
    /// Which capture-source category this is.
    pub source_kind: u32,
    /// Fixed stream width, when the broker reports one.
    pub width: Option<i32>,
    /// Fixed stream height, when the broker reports one.
    pub height: Option<i32>,
}

impl SelectedSource {
    /// A source with no reported size.
    pub fn new(id: u32, source_kind: u32) -> (r: Self)
        ensures
            r == (SelectedSource { id, source_kind, width: None, height: None }),
    {
        SelectedSource { id, source_kind, width: None, height: None }
    }

    /// The size fields are both present or both absent, never one alone.
    pub open spec fn size_consistent(&self) -> bool {
        self.width is Some <==> self.height is Some
    }
}

/// Why a structured value could not be decoded.
#[derive(Debug, PartialEq, Eq)]
pub enum DecodeError {
    /// The value's shape did not match what was expected.
    UnexpectedShape,
    /// A required named attribute was absent.
    MissingAttribute(String),
}

/// Whether a value has the expected outer shape: a two-element structure of
/// a numeric identifier and a dictionary of attributes.
pub open spec fn source_shape_ok(v: StructValue) -> bool {
    &&& v matches StructValue::Structure(fields)
    &&& fields@.len() == 2
    &&& fields@[0] is U32
    &&& fields@[1] is Dict
}

/// The attribute dictionary of a well-shaped source value.
pub open spec fn source_attrs(v: StructValue) -> Seq<DictEntry>
    recommends
        source_shape_ok(v),
{
    match v {
        StructValue::Structure(fields) => match fields@[1] {
            StructValue::Dict(entries) => entries@,
            _ => Seq::empty(),
        },
        _ => Seq::empty(),
    }
}

/// The identifier of a well-shaped source value.
pub open spec fn source_id(v: StructValue) -> u32
    recommends
        source_shape_ok(v),
{
    match v {
        StructValue::Structure(fields) => match fields@[0] {
            StructValue::U32(id) => id,
            _ => 0,
        },
        _ => 0,
    }
}

/// Whether a well-shaped value carries a numeric `source_type` attribute.
pub open spec fn source_kind_ok(v: StructValue) -> bool {
    dict_lookup(source_attrs(v), "source_type"@) matches Some(t) && t is U32
}

/// The numeric `source_type` attribute of a value satisfying
/// [`source_kind_ok`].
pub open spec fn source_kind_of(v: StructValue) -> u32
    recommends
        source_kind_ok(v),
{
    match dict_lookup(source_attrs(v), "source_type"@) {
        Some(StructValue::U32(k)) => k,
        _ => 0,
    }
}

/// The size reported among the attributes, provided it is well formed:
/// a two-element structure of two signed integers. Any other reported
/// size counts as absent.
pub open spec fn spec_size(attrs: Seq<DictEntry>) -> Option<(i32, i32)> {
    match dict_lookup(attrs, "size"@) {
        Some(StructValue::Structure(f)) => if f@.len() == 2 {
            match (f@[0], f@[1]) {
                (StructValue::I32(w), StructValue::I32(h)) => Some((w, h)),
                _ => None,
            }
        } else {
            None
        },
        _ => None,
    }
}

/// Whether a value decodes successfully.
pub open spec fn decode_ok(v: StructValue) -> bool {
    source_shape_ok(v) && source_kind_ok(v)
}

/// The record a decodable value decodes to.
pub open spec fn spec_decoded_source(v: StructValue) -> SelectedSource
    recommends
        decode_ok(v),
{
    SelectedSource {
        id: source_id(v),
        source_kind: source_kind_of(v),
        width: match spec_size(source_attrs(v)) {
            Some(s) => Some(s.0),
            None => None,
        },
        height: match spec_size(source_attrs(v)) {
            Some(s) => Some(s.1),
            None => None,
        },
    }
}

/// The exact error an undecodable value is rejected with: a shape mismatch
/// anywhere but at the `source_type` attribute is `UnexpectedShape`; an
/// absent `source_type` is `MissingAttribute("source_type")`.
pub open spec fn decode_error_of(v: StructValue, e: DecodeError) -> bool {
    if !source_shape_ok(v) {
        e is UnexpectedShape
    } else {
        match dict_lookup(source_attrs(v), "source_type"@) {
            None => e matches DecodeError::MissingAttribute(a) && a@ == "source_type"@,
            Some(t) => !(t is U32) && e is UnexpectedShape,
        }
    }
}

/// Decode one structured value into a [`SelectedSource`].
///
/// Succeeds exactly on values of the expected shape that carry a numeric
/// `source_type` attribute; a malformed optional `size` attribute is
/// silently treated as absent rather than failing the record.
pub fn decode_source(v: &StructValue) -> (r: Result<SelectedSource, DecodeError>)
    ensures
        match r {
            Ok(s) => decode_ok(*v) && s == spec_decoded_source(*v),
            Err(e) => !decode_ok(*v) && decode_error_of(*v, e),
        },
{
    match v {
        StructValue::Structure(fields) => {
            if fields.len() != 2 {
                return Err(DecodeError::UnexpectedShape);
            }
            let id: u32 = match &fields[0] {
                StructValue::U32(id) => *id,
                _ => {
                    return Err(DecodeError::UnexpectedShape);
                },
            };
            let attrs: &Vec<DictEntry> = match &fields[1] {
                StructValue::Dict(entries) => entries,
                _ => {
                    return Err(DecodeError::UnexpectedShape);
                },
            };
            let kind_key = String::from_str("source_type");
            let kind: u32 = match dict_get(attrs, &kind_key) {
                Some(StructValue::U32(k)) => *k,
                Some(_) => {
                    return Err(DecodeError::UnexpectedShape);
                },
                None => {
                    return Err(DecodeError::MissingAttribute(String::from_str("source_type")));
                },
            };
            let mut result = SelectedSource::new(id, kind);
            let size_key = String::from_str("size");
            if let Some(StructValue::Structure(sf)) = dict_get(attrs, &size_key) {
                if sf.len() == 2 {
                    if let StructValue::I32(w) = &sf[0] {
                        if let StructValue::I32(h) = &sf[1] {
                            result.width = Some(*w);
                            result.height = Some(*h);
                        }
                    }
                }
            }
            Ok(result)
        },
        _ => Err(DecodeError::UnexpectedShape),
    }
}

/// Whether every element of a sequence decodes successfully.
pub open spec fn all_decode_ok(items: Seq<StructValue>) -> bool {
    forall|i: int| 0 <= i < items.len() ==> decode_ok(#[trigger] items[i])
}

/// The sequence of records a fully decodable sequence decodes to.
pub open spec fn spec_decoded_sources(items: Seq<StructValue>) -> Seq<SelectedSource> {
    items.map(|i: int, v: StructValue| spec_decoded_source(v))
}

/// Whether `e` is the error of the first element that does not decode.
pub open spec fn first_decode_failure(items: Seq<StructValue>, e: DecodeError) -> bool {
    exists|i: int|
        #![auto]
        {
            &&& 0 <= i < items.len()
            &&& !decode_ok(items[i])
            &&& decode_error_of(items[i], e)
            &&& forall|j: int| 0 <= j < i ==> decode_ok(items[j])
        }
}

/// Decode a whole array of granted sources, failing on the first element
/// that does not decode.
pub fn decode_sources(items: &Vec<StructValue>) -> (r: Result<
    Vec<SelectedSource>,
    DecodeError,
>)
    ensures
        match r {
            Ok(list) => all_decode_ok(items@) && list@ == spec_decoded_sources(items@),
            Err(e) => !all_decode_ok(items@) && first_decode_failure(items@, e),
        },
{
    let mut out: Vec<SelectedSource> = Vec::new();
    let n = items.len();
    for i in 0..n
        invariant
            n == items@.len(),
            out@.len() == i,
            forall|j: int| 0 <= j < i ==> decode_ok(#[trigger] items@[j]),
            forall|j: int| 0 <= j < i ==> out@[j] == spec_decoded_source(items@[j]),
    {
        match decode_source(&items[i]) {
            Ok(s) => out.push(s),
            Err(e) => {
                return Err(e);
            },
        }
    }
    proof {
        assert(out@ =~= spec_decoded_sources(items@));
    }
    Ok(out)
}

/// Every decoded source respects the size invariant: width and height are
/// both present or both absent.
pub proof fn lemma_decoded_size_consistent(v: StructValue)
    ensures
        decode_ok(v) ==> spec_decoded_source(v).size_consistent(),
{
}

} // verus!
