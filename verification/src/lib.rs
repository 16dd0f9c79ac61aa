//! Bus-and-peripheral core of a Tektronix 4404 workstation emulator.
//!
//! The crate models everything between the CPU core's memory callbacks and
//! the simulated hardware: the 24-bit address-space dispatcher ([`bus::Bus`]),
//! the memory and peripheral devices behind it, and the deadline-ordered
//! [`service::ServiceQueue`] that lets devices request deferred servicing.
//! The CPU core itself, the display front end and all socket I/O live outside
//! this crate; they drive it through the public entry points and plain values.

pub mod acia;
pub mod bus;
pub mod cal;
pub mod duart;
pub mod err;
pub mod fpu;
pub mod mem;
pub mod mmu;
pub mod mouse;
pub mod scsi;
pub mod service;
pub mod sound;
pub mod timer;
pub mod video;
