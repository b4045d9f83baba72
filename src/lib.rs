use vstd::prelude::*;

pub mod emitter;
pub mod force_field;
pub mod particle;
pub mod trail;
pub mod tuning;

verus! {

} // verus!
