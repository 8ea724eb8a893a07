//! Bring-up and event handling decisions of a Bluetooth Low Energy peripheral on
//! the nRF5 SoftDevice: which SDK calls are made, with which arguments, in which
//! order, and what a failing status code does.
use vstd::prelude::*;

pub mod sdk;
pub mod procedure;
pub mod units;
pub mod config;
pub mod handlers;
pub mod bringup;

verus! {

/// Status code that the SDK returns on success.
pub const NRF_SUCCESS: u32 = 0;

/// System initialisation hook; this application needs none.
pub fn init_sys() {
}

} // verus!
