//! Video controller stub and framebuffer expansion.
//!
//! The control registers accept every access and read as zero. Video RAM
//! itself is an ordinary [`crate::mem::Memory`]; `update_framebuffer`
//! expands its 1-bit-per-pixel contents into one grey-scale byte per pixel
//! for the display front end (a set bit paints black, a clear bit white).

use vstd::prelude::*;

use crate::err::BusError;
use crate::mem::Memory;

verus! {

/// Grey-scale byte for bit `b` (0 = most significant) of a video RAM byte.
pub open spec fn pixel_of(byte: u8, b: int) -> u8 {
    if (byte >> ((7 - b) as u8)) & 1 == 1 {
        0
    } else {
        255
    }
}

pub struct Video {}

impl Video {
    pub fn new() -> (v: Video) {
        Video {  }
    }

    pub fn read_8(&self, _address: usize) -> (r: Result<u8, BusError>)
        ensures
            r == Ok::<u8, BusError>(0),
    {
        Ok(0)
    }

    pub fn read_16(&self, _address: usize) -> (r: Result<u16, BusError>)
        ensures
            r == Ok::<u16, BusError>(0),
    {
        Ok(0)
    }

    pub fn read_32(&self, _address: usize) -> (r: Result<u32, BusError>)
        ensures
            r == Ok::<u32, BusError>(0),
    {
        Ok(0)
    }

    pub fn write_8(&mut self, _address: usize, _value: u8) -> (r: Result<(), BusError>)
        ensures
            r == Ok::<(), BusError>(()),
            *final(self) == *old(self),
    {
        Ok(())
    }

    pub fn write_16(&mut self, _address: usize, _value: u16) -> (r: Result<(), BusError>)
        ensures
            r == Ok::<(), BusError>(()),
            *final(self) == *old(self),
    {
        Ok(())
    }

    pub fn write_32(&mut self, _address: usize, _value: u32) -> (r: Result<(), BusError>)
        ensures
            r == Ok::<(), BusError>(()),
            *final(self) == *old(self),
    {
        Ok(())
    }
}

fn pixel(byte: u8, b: u8) -> (p: u8)
    requires
        b < 8,
    ensures
        p == pixel_of(byte, b as int),
{
    let sh: u8 = 7 - b;
    if (byte >> sh) & 1 == 1 {
        0
    } else {
        255
    }
}

/// Expands video RAM into the display framebuffer: pixel `8·i + b` of `fb`
/// shows bit `b` of byte `i` of the backing store.
pub fn update_framebuffer(vm: &Memory, fb: &mut Vec<u8>)
    requires
        old(fb)@.len() == 8 * vm.mem@.len(),
    ensures
        final(fb)@.len() == old(fb)@.len(),
        forall|i: int, b: int|
            0 <= i < vm.mem@.len() && 0 <= b < 8 ==> final(fb)@[8 * i + b] == pixel_of(
                vm.mem@[i],
                b,
            ),
{
    let n = vm.mem.len();
    let fb_len = fb.len();
    let mut i: usize = 0;
    let mut index: usize = 0;
    while i < n
        invariant
            n == vm.mem@.len(),
            fb@.len() == 8 * n,
            fb@.len() == fb_len,
            i <= n,
            index == 8 * i,
            forall|i2: int, b: int|
                0 <= i2 < i && 0 <= b < 8 ==> fb@[8 * i2 + b] == pixel_of(vm.mem@[i2], b),
        decreases n - i,
    {
        let byte = vm.mem[i];
        fb[index] = pixel(byte, 0);
        fb[index + 1] = pixel(byte, 1);
        fb[index + 2] = pixel(byte, 2);
        fb[index + 3] = pixel(byte, 3);
        fb[index + 4] = pixel(byte, 4);
        fb[index + 5] = pixel(byte, 5);
        fb[index + 6] = pixel(byte, 6);
        fb[index + 7] = pixel(byte, 7);
        index = index + 8;
        i = i + 1;
    }
}

} // verus!
