//! Register access for the XM family of serial-bus servos: the control-table
//! schema, little-endian codecs for register values, and the decoding of
//! synchronised multi-servo telemetry reads.
use vstd::prelude::*;

pub mod codec;
pub mod error;
pub mod register;
pub mod xm;

verus! {

} // verus!
