//! Memory management unit stub.
//!
//! The MMU register window and the page-table window both land here; every
//! access is accepted and reads as zero.

use vstd::prelude::*;

use crate::err::BusError;

verus! {

pub struct Mmu {}

impl Mmu {
    pub fn new() -> (m: Mmu) {
        Mmu {  }
    }

    pub fn read_8(&self, _address: usize) -> (r: Result<u8, BusError>)
        ensures
            r == Ok::<u8, BusError>(0),
    {
        Ok(0)
    }

    pub fn read_16(&self, _address: usize) -> (r: Result<u16, BusError>)
        ensures
            r == Ok::<u16, BusError>(0),
    {
        Ok(0)
    }

    pub fn read_32(&self, _address: usize) -> (r: Result<u32, BusError>)
        ensures
            r == Ok::<u32, BusError>(0),
    {
        Ok(0)
    }

    pub fn write_8(&mut self, _address: usize, _value: u8) -> (r: Result<(), BusError>)
        ensures
            r == Ok::<(), BusError>(()),
            *final(self) == *old(self),
    {
        Ok(())
    }

    pub fn write_16(&mut self, _address: usize, _value: u16) -> (r: Result<(), BusError>)
        ensures
            r == Ok::<(), BusError>(()),
            *final(self) == *old(self),
    {
        Ok(())
    }

    pub fn write_32(&mut self, _address: usize, _value: u32) -> (r: Result<(), BusError>)
        ensures
            r == Ok::<(), BusError>(()),
            *final(self) == *old(self),
    {
        Ok(())
    }
}

} // verus!
