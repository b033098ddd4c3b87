//! Acquisition and polling of a kernel touch input device.
//!
//! The library holds the decisions: which devices qualify, which one a name
//! selects, when to retry after the device is lost, and how raw kernel events
//! become touch events. The host performs the device I/O that each step asks
//! for and hands the outcome back.
use vstd::prelude::*;

pub mod catalog;
pub mod engine;
pub mod event;

verus! {

} // verus!
