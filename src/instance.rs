//! The build instance id: a UUID, held as its 128-bit big-endian value.
use crate::primitives::{hyphenated_text, random_uuid_bits, uuid_text};
use vstd::prelude::*;

verus! {

#[derive(Debug, Clone, Copy, PartialEq, Eq)]
pub struct InstanceId {
    pub value: u128,
}

impl InstanceId {
    /// The id's hyphenated lowercase text, as used in paths and flag derivation.
    pub open spec fn text_spec(&self) -> Seq<char> {
        hyphenated_text(self.value)
    }

    /// A fresh random (version 4) id.
    pub fn new_random() -> (r: InstanceId) {
        InstanceId { value: random_uuid_bits() }
    }

    pub fn from_u128(value: u128) -> (r: InstanceId)
        ensures
            r.value == value,
    {
        InstanceId { value }
    }

    pub fn text(&self) -> (r: String)
        ensures
            r@ == self.text_spec(),
    {
        uuid_text(self.value)
    }
}

} // verus!
