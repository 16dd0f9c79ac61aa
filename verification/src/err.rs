//! Fault taxonomy for bus accesses and start-up configuration.

use vstd::prelude::*;

verus! {

/// A fault produced by a single bus access.
///
/// `Access` means no device is mapped at the address, or the offset falls
/// outside the device's valid range. `Alignment` means a 16- or 32-bit access
/// started at an odd offset. `ReadOnly` means a write hit a read-only backing
/// store. All three surface as `Result` values and never unwind.
#[derive(Clone, Copy, Debug, PartialEq, Eq, Structural)]
pub enum BusError {
    Access,
    Alignment,
    ReadOnly,
}

/// A configuration-time failure, fatal at start-up only.
#[derive(Debug)]
pub enum SimError {
    Init(String),
}

} // verus!
