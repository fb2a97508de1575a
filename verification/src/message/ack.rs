//! The acknowledgment payload: empty on the wire.

use vstd::prelude::*;
use vstd::slice::slice_index_get;

use crate::serializable::{DeserializeError, Serializable};

verus! {

/// A zero-payload acknowledgment, required in reply to every command or
/// notification frame.
#[derive(Clone, Copy, Debug, PartialEq, Eq, Structural)]
pub struct Ack {}

impl Ack {
    /// Decode of an acknowledgment payload: it must be empty.
    pub open spec fn spec_deserialize(s: Seq<u8>) -> Result<Ack, DeserializeError> {
        if s.len() == 0 {
            Ok(Ack {  })
        } else {
            Err(DeserializeError::InvalidLength(s[0]))
        }
    }

    pub fn serialize(&self) -> (r: Vec<u8>)
        ensures
            r@ == Seq::<u8>::empty(),
    {
        let r: Vec<u8> = Vec::new();
        r
    }

    pub fn deserialize(bytes: &[u8]) -> (r: Result<Self, DeserializeError>)
        ensures
            r == Self::spec_deserialize(bytes@),
    {
        if bytes.len() == 0 {
            Ok(Ack {  })
        } else {
            Err(DeserializeError::InvalidLength(*slice_index_get(bytes, 0)))
        }
    }
}

impl Serializable for Ack {
    open spec fn serializable(&self) -> bool {
        true
    }

    fn serialize(&self) -> Vec<u8> {
        Ack::serialize(self)
    }

    fn deserialize(bytes: &[u8]) -> Result<Self, DeserializeError> {
        Ack::deserialize(bytes)
    }
}

} // verus!
