//! A generic self-describing structured value.
//!
//! The broker's replies arrive as loosely-typed values: scalars, arrays,
//! dictionaries of named attributes, and nested structures. This model holds
//! exactly what the protocol logic reads of such a value; the transport
//! layer converts its own wire representation into it.

use vstd::prelude::*;

verus! {

/// One tagged node of a structured value.
#[derive(Debug, PartialEq)]
pub enum StructValue {
    /// An unsigned 32-bit integer.
    U32(u32),
    /// A signed 32-bit integer.
    I32(i32),
    /// A boolean.
    Bool(bool),
    /// A text string.
    Str(String),
    /// A homogeneous array of values.
    Array(Vec<StructValue>),
    /// A fixed-arity tuple of values.
    Structure(Vec<StructValue>),
    /// A dictionary of named attributes.
    Dict(Vec<DictEntry>),
}

/// One named attribute of a dictionary value.
#[derive(Debug, PartialEq)]
pub struct DictEntry {
    /// The attribute's name.
    pub key: String,
    /// The attribute's value.
    pub value: StructValue,
}

/// The value of the first entry named `key`, if any.
pub open spec fn dict_lookup(entries: Seq<DictEntry>, key: Seq<char>) -> Option<StructValue>
    decreases entries.len(),
{
    if entries.len() == 0 {
        None
    } else if entries[0].key@ == key {
        Some(entries[0].value)
    } else {
        dict_lookup(entries.skip(1), key)
    }
}

/// Look an attribute up by name: the first entry with that name wins.
pub fn dict_get<'a>(entries: &'a Vec<DictEntry>, key: &String) -> (r: Option<&'a StructValue>)
    ensures
        match r {
            Some(v) => dict_lookup(entries@, key@) == Some(*v),
            None => dict_lookup(entries@, key@) is None,
        },
{
    let n = entries.len();
    proof {
        assert(entries@.skip(0) =~= entries@);
    }
    for i in 0..n
        invariant
            n == entries@.len(),
            dict_lookup(entries@, key@) == dict_lookup(entries@.skip(i as int), key@),
    {
        proof {
            assert(entries@.skip(i as int)[0] == entries@[i as int]);
            assert(entries@.skip(i as int).skip(1) =~= entries@.skip(i as int + 1));
        }
        if entries[i].key == *key {
            return Some(&entries[i].value);
        }
    }
    proof {
        assert(entries@.skip(n as int).len() == 0);
    }
    None
}

} // verus!
