//! Raw world packets kept as evidence.
use vstd::prelude::*;

verus! {

/// A world packet kept without interpretation.
#[derive(Clone, Debug)]
pub struct RawObservation {
    pub opcode: u32,
    pub body: Vec<u8>,
}

/// Keep a packet as a raw observation.
pub fn raw(opcode: u32, body: Vec<u8>) -> (r: RawObservation)
    ensures
        r.opcode == opcode,
        r.body@ == body@,
{
    RawObservation { opcode, body }
}

} // verus!
