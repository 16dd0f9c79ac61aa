//! Sound device stub.
//!
//! On initialisation the system comes up with the boot ROM mapped over all
//! RAM and ROM locations. Any write to the sound chip un-maps the ROM from
//! RAM space; redundant writes are idempotent. Reads produce no meaningful
//! result (the device is write-only).

use vstd::prelude::*;

use crate::err::BusError;

verus! {

pub struct Sound {}

impl Sound {
    pub fn new() -> (s: Sound) {
        Sound {  }
    }

    /// Clears the boot-complete latch; harmless if already cleared.
    fn unmap_rom(&mut self, map_rom: &mut bool)
        ensures
            *final(map_rom) == false,
    {
        if *map_rom {
            *map_rom = false;
        }
    }

    pub fn read_8(&self, _address: usize) -> (r: Result<u8, BusError>)
        ensures
            r == Ok::<u8, BusError>(0),
    {
        Ok(0)
    }

    pub fn read_16(&self, _address: usize) -> (r: Result<u16, BusError>)
        ensures
            r == Ok::<u16, BusError>(0),
    {
        Ok(0)
    }

    pub fn read_32(&self, _address: usize) -> (r: Result<u32, BusError>)
        ensures
            r == Ok::<u32, BusError>(0),
    {
        Ok(0)
    }

    pub fn write_8(&mut self, map_rom: &mut bool, _address: usize, _value: u8) -> (r: Result<
        (),
        BusError,
    >)
        ensures
            *final(map_rom) == false,
            r == Ok::<(), BusError>(()),
    {
        self.unmap_rom(map_rom);
        Ok(())
    }

    pub fn write_16(&mut self, map_rom: &mut bool, _address: usize, _value: u16) -> (r: Result<
        (),
        BusError,
    >)
        ensures
            *final(map_rom) == false,
            r == Ok::<(), BusError>(()),
    {
        self.unmap_rom(map_rom);
        Ok(())
    }

    pub fn write_32(&mut self, map_rom: &mut bool, _address: usize, _value: u32) -> (r: Result<
        (),
        BusError,
    >)
        ensures
            *final(map_rom) == false,
            r == Ok::<(), BusError>(()),
    {
        self.unmap_rom(map_rom);
        Ok(())
    }
}

} // verus!
