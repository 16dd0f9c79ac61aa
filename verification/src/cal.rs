//! Calendar time chip stub: every access is accepted and reads as zero.

use vstd::prelude::*;

use crate::err::BusError;

verus! {

pub struct Calendar {}

impl Calendar {
    pub fn new() -> (c: Calendar) {
        Calendar {  }
    }

    pub fn read_8(&self, _address: usize) -> (r: Result<u8, BusError>)
        ensures
            r == Ok::<u8, BusError>(0),
    {
        Ok(0)
    }

    pub fn read_16(&self, _address: usize) -> (r: Result<u16, BusError>)
        ensures
            r == Ok::<u16, BusError>(0),
    {
        Ok(0)
    }

    pub fn read_32(&self, _address: usize) -> (r: Result<u32, BusError>)
        ensures
            r == Ok::<u32, BusError>(0),
    {
        Ok(0)
    }

    pub fn write_8(&mut self, _address: usize, _value: u8) -> (r: Result<(), BusError>)
        ensures
            r == Ok::<(), BusError>(()),
            *final(self) == *old(self),
    {
        Ok(())
    }

    pub fn write_16(&mut self, _address: usize, _value: u16) -> (r: Result<(), BusError>)
        ensures
            r == Ok::<(), BusError>(()),
            *final(self) == *old(self),
    {
        Ok(())
    }

    pub fn write_32(&mut self, _address: usize, _value: u32) -> (r: Result<(), BusError>)
        ensures
            r == Ok::<(), BusError>(()),
            *final(self) == *old(self),
    {
        Ok(())
    }

    pub fn load(&mut self, _data: &Vec<u8>)
        ensures
            *final(self) == *old(self),
    {
    }
}

} // verus!
