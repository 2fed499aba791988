//! Custody protocol of an ownable: a single owner, an optional binding to an
//! external token, and a lock flag that only a validated external event can
//! clear. Every operation works on an explicit [`state::OwnableState`] handle
//! and is verified against the state machine in [`model`].

pub mod address;
pub mod caip;
pub mod contract;
pub mod error;
pub mod model;
pub mod msg;
pub mod state;
pub mod text;
pub mod theorems;
