//! Marker and capability traits shared by the entities and value types.

use vstd::prelude::*;

verus! {

/// A persistable aggregate, or an identifier standing in for one.
pub trait Entity {}

/// A validated wrapper around a single primitive field.
pub trait Value {
    type ValueType;

    fn value(&self) -> &Self::ValueType;
}

impl Entity for u32 {}

impl Entity for String {}

} // verus!
