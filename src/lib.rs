use vstd::prelude::*;

pub mod address_space;
pub mod attribute;
mod clock;
pub mod continuation_point;
pub mod node;
mod seq_filter;
pub mod session;
pub mod session_manager;
pub mod status;
pub mod subscriptions;

verus! {

} // verus!
