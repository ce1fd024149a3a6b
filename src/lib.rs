//! Webhook relay: turns an inbound webhook into a typed dispatch call on a
//! fixed upstream and hands the upstream's answer back unchanged.
use vstd::prelude::*;

pub mod envelope;
pub mod relay;
pub mod upstream;

verus! {

} // verus!
