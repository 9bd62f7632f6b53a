use vstd::prelude::*;

pub mod text;
pub mod types;
pub mod ports;
pub mod intake;
pub mod policy;
pub mod summary;
pub mod fingerprint;
pub mod access;
pub mod store;
pub mod activity;
pub mod router;
pub mod host;
pub mod lifecycle;
pub mod control;
pub mod requests;
pub mod admission;
pub mod gates;
pub mod drive;
pub mod lanes;
pub mod schedule;

verus! {

} // verus!
