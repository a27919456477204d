//! Backend model of a typed, branch-aware operation library lowered to a
//! linear assembly: signatures, symbolic memory references, gas effects, a
//! concrete interpreter, invocation lowering and control-flow normalization.

pub mod extensions;
pub mod gas_station;
pub mod registry;
pub mod flow;
pub mod tuple_obj;
pub mod node;
pub mod interoperability;
pub mod libfuncs;
