//! Memory (RAM and ROM) devices.
//!
//! A `Memory` backs one region of the 24-bit address space with a flat byte
//! vector. Multi-byte values are big-endian. A read-only instance rejects
//! every write with [`BusError::ReadOnly`]; while the boot latch still maps
//! ROM everywhere, a read-only instance resolves any address modulo its size
//! (mirroring) instead of range-checking it.

use vstd::prelude::*;

use crate::err::{BusError, SimError};

verus! {

/// Big-endian 16-bit value of two bytes.
pub open spec fn be16(hi: u8, lo: u8) -> u16 {
    (hi * 256 + lo) as u16
}

/// Big-endian 32-bit value of four bytes.
pub open spec fn be32(b0: u8, b1: u8, b2: u8, b3: u8) -> u32 {
    (b0 * 0x1000000 + b1 * 0x10000 + b2 * 0x100 + b3) as u32
}

/// High byte of a big-endian 16-bit value.
pub open spec fn be16_hi(v: u16) -> u8 {
    (v / 256) as u8
}

/// Low byte of a big-endian 16-bit value.
pub open spec fn be16_lo(v: u16) -> u8 {
    (v % 256) as u8
}

/// Byte `i` (0 = most significant) of a big-endian 32-bit value.
pub open spec fn be32_byte(v: u32, i: int) -> u8 {
    if i == 0 {
        (v / 0x1000000) as u8
    } else if i == 1 {
        ((v / 0x10000) % 256) as u8
    } else if i == 2 {
        ((v / 256) % 256) as u8
    } else {
        (v % 256) as u8
    }
}

/// A flat byte store bound to one address region.
pub struct Memory {
    pub read_only: bool,
    pub start_address: usize,
    pub end_address: usize,
    pub size: usize,
    pub mem: Vec<u8>,
}

impl Memory {
    /// The configured size matches the backing store and is non-zero, and
    /// the claimed region is a well-formed range.
    pub open spec fn wf(self) -> bool {
        &&& self.start_address <= self.end_address
        &&& self.size == self.mem@.len()
        &&& self.size > 0
    }

    /// Mirroring applies: a read-only store while the boot latch still maps
    /// ROM over all of low memory.
    pub open spec fn mirrors(self, map_rom: bool) -> bool {
        self.read_only && map_rom
    }

    /// The address lies inside the claimed region.
    pub open spec fn in_range(self, address: usize) -> bool {
        self.start_address <= address <= self.end_address
    }

    /// The access decodes to some offset (otherwise it faults with `Access`).
    pub open spec fn decodes(self, map_rom: bool, address: usize) -> bool {
        self.size > 0 && (self.mirrors(map_rom) || self.in_range(address))
    }

    /// The offset an access resolves to; meaningful only when `decodes`.
    pub open spec fn off(self, map_rom: bool, address: usize) -> int {
        if self.mirrors(map_rom) {
            address as int % self.size as int
        } else {
            (address - self.start_address) % self.size as int
        }
    }

    /// The single-byte access resolves to an offset inside the store.
    pub open spec fn valid8(self, map_rom: bool, address: usize) -> bool {
        self.decodes(map_rom, address) && self.off(map_rom, address) < self.mem@.len()
    }

    pub open spec fn read8_result(self, map_rom: bool, address: usize) -> Result<u8, BusError> {
        if self.valid8(map_rom, address) {
            Ok(self.mem@[self.off(map_rom, address)])
        } else {
            Err(BusError::Access)
        }
    }

    pub open spec fn read16_result(self, map_rom: bool, address: usize) -> Result<u16, BusError> {
        if !self.decodes(map_rom, address) {
            Err(BusError::Access)
        } else if self.off(map_rom, address) % 2 == 1 {
            Err(BusError::Alignment)
        } else if self.off(map_rom, address) + 1 < self.mem@.len() {
            Ok(be16(
                self.mem@[self.off(map_rom, address)],
                self.mem@[self.off(map_rom, address) + 1],
            ))
        } else {
            Err(BusError::Access)
        }
    }

    pub open spec fn read32_result(self, map_rom: bool, address: usize) -> Result<u32, BusError> {
        if !self.decodes(map_rom, address) {
            Err(BusError::Access)
        } else if self.off(map_rom, address) % 2 == 1 {
            Err(BusError::Alignment)
        } else if self.off(map_rom, address) + 3 < self.mem@.len() {
            Ok(be32(
                self.mem@[self.off(map_rom, address)],
                self.mem@[self.off(map_rom, address) + 1],
                self.mem@[self.off(map_rom, address) + 2],
                self.mem@[self.off(map_rom, address) + 3],
            ))
        } else {
            Err(BusError::Access)
        }
    }

    pub open spec fn write8_result(self, map_rom: bool, address: usize, value: u8) -> Result<
        (),
        BusError,
    > {
        if !self.decodes(map_rom, address) {
            Err(BusError::Access)
        } else if self.read_only {
            Err(BusError::ReadOnly)
        } else if self.off(map_rom, address) < self.mem@.len() {
            Ok(())
        } else {
            Err(BusError::Access)
        }
    }

    /// Contents of the store after an 8-bit write (unchanged on any fault).
    pub open spec fn write8_mem(self, map_rom: bool, address: usize, value: u8) -> Seq<u8> {
        if self.write8_result(map_rom, address, value) is Ok {
            self.mem@.update(self.off(map_rom, address), value)
        } else {
            self.mem@
        }
    }

    pub open spec fn write16_result(self, map_rom: bool, address: usize, value: u16) -> Result<
        (),
        BusError,
    > {
        if !self.decodes(map_rom, address) {
            Err(BusError::Access)
        } else if self.off(map_rom, address) % 2 == 1 {
            Err(BusError::Alignment)
        } else if self.read_only {
            Err(BusError::ReadOnly)
        } else if self.off(map_rom, address) + 1 < self.mem@.len() {
            Ok(())
        } else {
            Err(BusError::Access)
        }
    }

    /// Contents after a 16-bit write: both bytes placed big-endian, or the
    /// store untouched on any fault (a faulting write never partially
    /// mutates).
    pub open spec fn write16_mem(self, map_rom: bool, address: usize, value: u16) -> Seq<u8> {
        if self.write16_result(map_rom, address, value) is Ok {
            self.mem@.update(self.off(map_rom, address), be16_hi(value)).update(
                self.off(map_rom, address) + 1,
                be16_lo(value),
            )
        } else {
            self.mem@
        }
    }

    pub open spec fn write32_result(self, map_rom: bool, address: usize, value: u32) -> Result<
        (),
        BusError,
    > {
        if !self.decodes(map_rom, address) {
            Err(BusError::Access)
        } else if self.off(map_rom, address) % 2 == 1 {
            Err(BusError::Alignment)
        } else if self.read_only {
            Err(BusError::ReadOnly)
        } else if self.off(map_rom, address) + 3 < self.mem@.len() {
            Ok(())
        } else {
            Err(BusError::Access)
        }
    }

    /// Contents after a 32-bit write: all four bytes placed big-endian, or
    /// the store untouched on any fault.
    pub open spec fn write32_mem(self, map_rom: bool, address: usize, value: u32) -> Seq<u8> {
        if self.write32_result(map_rom, address, value) is Ok {
            self.mem@.update(self.off(map_rom, address), be32_byte(value, 0)).update(
                self.off(map_rom, address) + 1,
                be32_byte(value, 1),
            ).update(self.off(map_rom, address) + 2, be32_byte(value, 2)).update(
                self.off(map_rom, address) + 3,
                be32_byte(value, 3),
            )
        } else {
            self.mem@
        }
    }

    /// The configuration (everything but the stored bytes) is unchanged.
    pub open spec fn same_config(self, other: Memory) -> bool {
        &&& self.read_only == other.read_only
        &&& self.start_address == other.start_address
        &&& self.end_address == other.end_address
        &&& self.size == other.size
    }

    /// Creates a zero-filled store claiming `start_address..=end_address`.
    /// Rejects an inverted range; that is the only configuration fault.
    pub fn new(start_address: usize, end_address: usize, size: usize, read_only: bool) -> (r:
        Result<Memory, SimError>)
        ensures
            r is Ok <==> start_address <= end_address,
            r matches Ok(m) ==> {
                &&& m.read_only == read_only
                &&& m.start_address == start_address
                &&& m.end_address == end_address
                &&& m.size == size
                &&& m.mem@ == Seq::new(size as nat, |i: int| 0u8)
            },
    {
        if start_address > end_address {
            return Err(SimError::Init("Invalid memory range".to_owned()));
        }
        let mut mem: Vec<u8> = Vec::new();
        let mut i: usize = 0;
        while i < size
            invariant
                i <= size,
                mem@ == Seq::new(i as nat, |j: int| 0u8),
            decreases size - i,
        {
            mem.push(0);
            proof {
                assert(mem@ =~= Seq::new((i + 1) as nat, |j: int| 0u8));
            }
            i = i + 1;
        }
        Ok(Memory { read_only, start_address, end_address, size, mem })
    }

    fn get_offset(&self, map_rom: bool, address: usize) -> (r: Option<usize>)
        ensures
            r is Some <==> self.decodes(map_rom, address),
            self.decodes(map_rom, address) ==> r == Some(self.off(map_rom, address) as usize),
    {
        if self.size == 0 {
            None
        } else if self.read_only && map_rom {
            Some(address % self.size)
        } else if self.start_address <= address && address <= self.end_address {
            Some((address - self.start_address) % self.size)
        } else {
            None
        }
    }

    pub fn read_8(&self, map_rom: bool, address: usize) -> (r: Result<u8, BusError>)
        ensures
            r == self.read8_result(map_rom, address),
    {
        match self.get_offset(map_rom, address) {
            Some(offset) => {
                if offset < self.mem.len() {
                    Ok(self.mem[offset])
                } else {
                    Err(BusError::Access)
                }
            },
            None => Err(BusError::Access),
        }
    }

    pub fn read_16(&self, map_rom: bool, address: usize) -> (r: Result<u16, BusError>)
        ensures
            r == self.read16_result(map_rom, address),
    {
        match self.get_offset(map_rom, address) {
            Some(offset) => {
                if offset % 2 == 1 {
                    Err(BusError::Alignment)
                } else if self.mem.len() >= 2 && offset < self.mem.len() - 1 {
                    let hi = self.mem[offset];
                    let lo = self.mem[offset + 1];
                    Ok((hi as u16) * 256 + (lo as u16))
                } else {
                    Err(BusError::Access)
                }
            },
            None => Err(BusError::Access),
        }
    }

    pub fn read_32(&self, map_rom: bool, address: usize) -> (r: Result<u32, BusError>)
        ensures
            r == self.read32_result(map_rom, address),
    {
        match self.get_offset(map_rom, address) {
            Some(offset) => {
                if offset % 2 == 1 {
                    Err(BusError::Alignment)
                } else if self.mem.len() >= 4 && offset < self.mem.len() - 3 {
                    let b0 = self.mem[offset];
                    let b1 = self.mem[offset + 1];
                    let b2 = self.mem[offset + 2];
                    let b3 = self.mem[offset + 3];
                    Ok((b0 as u32) * 0x1000000 + (b1 as u32) * 0x10000 + (b2 as u32) * 0x100 + (
                    b3 as u32))
                } else {
                    Err(BusError::Access)
                }
            },
            None => Err(BusError::Access),
        }
    }

    pub fn write_8(&mut self, map_rom: bool, address: usize, value: u8) -> (r: Result<
        (),
        BusError,
    >)
        ensures
            r == old(self).write8_result(map_rom, address, value),
            final(self).mem@ == old(self).write8_mem(map_rom, address, value),
            final(self).same_config(*old(self)),
    {
        match self.get_offset(map_rom, address) {
            Some(offset) => {
                if self.read_only {
                    Err(BusError::ReadOnly)
                } else if offset < self.mem.len() {
                    self.mem[offset] = value;
                    Ok(())
                } else {
                    Err(BusError::Access)
                }
            },
            None => Err(BusError::Access),
        }
    }

    pub fn write_16(&mut self, map_rom: bool, address: usize, value: u16) -> (r: Result<
        (),
        BusError,
    >)
        ensures
            r == old(self).write16_result(map_rom, address, value),
            final(self).mem@ == old(self).write16_mem(map_rom, address, value),
            final(self).same_config(*old(self)),
    {
        match self.get_offset(map_rom, address) {
            Some(offset) => {
                if offset % 2 == 1 {
                    Err(BusError::Alignment)
                } else if self.read_only {
                    Err(BusError::ReadOnly)
                } else if self.mem.len() >= 2 && offset < self.mem.len() - 1 {
                    self.mem[offset] = (value / 256) as u8;
                    self.mem[offset + 1] = (value % 256) as u8;
                    Ok(())
                } else {
                    Err(BusError::Access)
                }
            },
            None => Err(BusError::Access),
        }
    }

    pub fn write_32(&mut self, map_rom: bool, address: usize, value: u32) -> (r: Result<
        (),
        BusError,
    >)
        ensures
            r == old(self).write32_result(map_rom, address, value),
            final(self).mem@ == old(self).write32_mem(map_rom, address, value),
            final(self).same_config(*old(self)),
    {
        match self.get_offset(map_rom, address) {
            Some(offset) => {
                if offset % 2 == 1 {
                    Err(BusError::Alignment)
                } else if self.read_only {
                    Err(BusError::ReadOnly)
                } else if self.mem.len() >= 4 && offset < self.mem.len() - 3 {
                    self.mem[offset] = (value / 0x1000000) as u8;
                    self.mem[offset + 1] = ((value / 0x10000) % 256) as u8;
                    self.mem[offset + 2] = ((value / 256) % 256) as u8;
                    self.mem[offset + 3] = (value % 256) as u8;
                    Ok(())
                } else {
                    Err(BusError::Access)
                }
            },
            None => Err(BusError::Access),
        }
    }

    /// Bulk-initialises the backing store (boot ROM content). The byte count
    /// must match the capacity; the embedder checks this before calling.
    pub fn load(&mut self, data: &Vec<u8>)
        requires
            data@.len() == old(self).mem@.len(),
        ensures
            final(self).mem@ == data@,
            final(self).same_config(*old(self)),
    {
        self.mem.clear();
        self.mem.extend_from_slice(data.as_slice());
        proof {
            assert(self.mem@ =~= data@);
        }
    }
}

/// Law: on a writable store, a write to a mapped address followed by a read
/// of the same address returns the value just written. `m2` is the store as
/// `write_8` leaves it (same configuration, contents `write8_mem`).
pub proof fn lemma_write_read_round_trip(
    m1: Memory,
    m2: Memory,
    map_rom: bool,
    address: usize,
    value: u8,
)
    requires
        !m1.read_only,
        m1.valid8(map_rom, address),
        m2.same_config(m1),
        m2.mem@ == m1.write8_mem(map_rom, address, value),
    ensures
        m1.write8_result(map_rom, address, value) == Ok::<(), BusError>(()),
        m2.read8_result(map_rom, address) == Ok::<u8, BusError>(value),
{
}

/// Law: on a read-only store, a write to any decoding address always faults,
/// with `ReadOnly` wherever alignment does not fault first, and the backing
/// store is unchanged.
pub proof fn lemma_read_only_write_faults(
    m: Memory,
    map_rom: bool,
    address: usize,
    v8: u8,
    v16: u16,
    v32: u32,
)
    requires
        m.read_only,
        m.decodes(map_rom, address),
    ensures
        m.write8_result(map_rom, address, v8) == Err::<(), BusError>(BusError::ReadOnly),
        m.write8_mem(map_rom, address, v8) == m.mem@,
        m.off(map_rom, address) % 2 == 0 ==> m.write16_result(map_rom, address, v16) == Err::<
            (),
            BusError,
        >(BusError::ReadOnly),
        m.write16_mem(map_rom, address, v16) == m.mem@,
        m.off(map_rom, address) % 2 == 0 ==> m.write32_result(map_rom, address, v32) == Err::<
            (),
            BusError,
        >(BusError::ReadOnly),
        m.write32_mem(map_rom, address, v32) == m.mem@,
{
}

/// Law: a 16- or 32-bit access at an odd offset always faults with
/// `Alignment`, and a faulting write never mutates the store, even in part.
pub proof fn lemma_odd_offset_alignment(
    m: Memory,
    map_rom: bool,
    address: usize,
    v16: u16,
    v32: u32,
)
    requires
        m.decodes(map_rom, address),
        m.off(map_rom, address) % 2 == 1,
    ensures
        m.read16_result(map_rom, address) == Err::<u16, BusError>(BusError::Alignment),
        m.read32_result(map_rom, address) == Err::<u32, BusError>(BusError::Alignment),
        m.write16_result(map_rom, address, v16) == Err::<(), BusError>(BusError::Alignment),
        m.write16_mem(map_rom, address, v16) == m.mem@,
        m.write32_result(map_rom, address, v32) == Err::<(), BusError>(BusError::Alignment),
        m.write32_mem(map_rom, address, v32) == m.mem@,
{
}

/// Law: a store of size S read at two addresses a whole number of S apart
/// resolves both to the same offset, so every read width returns the same
/// result (mirroring).
pub proof fn lemma_mirrored_reads_alias(m: Memory, map_rom: bool, a1: usize, a2: usize, k: nat)
    requires
        m.decodes(map_rom, a1),
        m.decodes(map_rom, a2),
        a2 == a1 + k * m.size,
    ensures
        m.read8_result(map_rom, a1) == m.read8_result(map_rom, a2),
        m.read16_result(map_rom, a1) == m.read16_result(map_rom, a2),
        m.read32_result(map_rom, a1) == m.read32_result(map_rom, a2),
{
    let s = m.size as int;
    vstd::arithmetic::mul::lemma_mul_is_commutative(k as int, s);
    if m.mirrors(map_rom) {
        vstd::arithmetic::div_mod::lemma_mod_multiples_vanish(k as int, a1 as int, s);
        assert(a2 as int == s * (k as int) + (a1 as int));
    } else {
        vstd::arithmetic::div_mod::lemma_mod_multiples_vanish(
            k as int,
            a1 - m.start_address,
            s,
        );
        assert(a2 - m.start_address == s * (k as int) + (a1 - m.start_address));
    }
    assert(m.off(map_rom, a1) == m.off(map_rom, a2));
}

/// Law: the 16-bit round trip. A big-endian word written to a writable
/// store at an even, in-bounds offset reads back unchanged.
pub proof fn lemma_write_read_round_trip_16(
    m1: Memory,
    m2: Memory,
    map_rom: bool,
    address: usize,
    value: u16,
)
    requires
        !m1.read_only,
        m1.decodes(map_rom, address),
        m1.off(map_rom, address) % 2 == 0,
        m1.off(map_rom, address) + 1 < m1.mem@.len(),
        m2.same_config(m1),
        m2.mem@ == m1.write16_mem(map_rom, address, value),
    ensures
        m1.write16_result(map_rom, address, value) == Ok::<(), BusError>(()),
        m2.read16_result(map_rom, address) == Ok::<u16, BusError>(value),
{
    vstd::arithmetic::div_mod::lemma_fundamental_div_mod(value as int, 256);
}

/// Law: the 32-bit round trip. A big-endian long word written to a
/// writable store at an even offset with room for four bytes reads back
/// unchanged.
pub proof fn lemma_write_read_round_trip_32(
    m1: Memory,
    m2: Memory,
    map_rom: bool,
    address: usize,
    value: u32,
)
    requires
        !m1.read_only,
        m1.decodes(map_rom, address),
        m1.off(map_rom, address) % 2 == 0,
        m1.off(map_rom, address) + 3 < m1.mem@.len(),
        m2.same_config(m1),
        m2.mem@ == m1.write32_mem(map_rom, address, value),
    ensures
        m1.write32_result(map_rom, address, value) == Ok::<(), BusError>(()),
        m2.read32_result(map_rom, address) == Ok::<u32, BusError>(value),
{
    vstd::arithmetic::div_mod::lemma_fundamental_div_mod(value as int, 256);
    vstd::arithmetic::div_mod::lemma_fundamental_div_mod(value as int, 0x10000);
    vstd::arithmetic::div_mod::lemma_fundamental_div_mod(value as int, 0x1000000);
    vstd::arithmetic::div_mod::lemma_fundamental_div_mod(value as int / 256, 256);
    vstd::arithmetic::div_mod::lemma_fundamental_div_mod(value as int / 0x10000, 256);
}

} // verus!
