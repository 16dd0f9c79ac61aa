//! Main memory map and address decoding.
//!
//! The bus partitions the 24-bit address space into fixed regions, each
//! bound to at most one device, and dispatches reads and writes of three
//! widths. Low memory aliases ROM until the first sound-device write clears
//! the `map_rom` latch; after that the same addresses resolve to RAM.
//! Faults surface as [`BusError`] values and never unwind. An interrupt
//! level a device asserts is recorded in `irq` for the embedder to collect
//! and hand to the CPU core.

use vstd::prelude::*;

use crate::acia::{Acia, acia_peek8, acia_read8_rel, acia_write8_rel};
use crate::cal::Calendar;
use crate::duart::{Duart, duart_peek8, duart_read8_rel, duart_write8_rel, MR12A};
use crate::err::BusError;
use crate::fpu::Fpu;
use crate::mem::Memory;
use crate::mmu::Mmu;
use crate::mouse::Mouse;
use crate::scsi::{Scsi, scsi_peek8, scsi_read8_rel, scsi_write8_rel, service_rel, SELECT_DELAY_NS};
use crate::service::{ServiceKey, ServiceQueue, ServiceRequest};
use crate::sound::Sound;
use crate::timer::Timer;
use crate::video::Video;

verus! {

pub const ROM_START: usize = 0x740000;

pub const ROM_END: usize = 0x74ffff;

pub const ROM_SIZE: usize = 0x8000;

pub const RAM_START: usize = 0;

pub const RAM_END: usize = 0x1fffff;

pub const RAM_SIZE: usize = 0x200000;

pub const DEBUG_RAM_START: usize = 0x760000;

pub const DEBUG_RAM_END: usize = 0x76ffff;

pub const DEBUG_RAM_SIZE: usize = 0x1000;

pub const SOUND_START: usize = 0x788000;

pub const SOUND_END: usize = 0x788fff;

pub const ACIA_START: usize = 0x78c000;

pub const ACIA_END: usize = 0x78c007;

pub const VIDEO_START: usize = 0x782000;

pub const VIDEO_END: usize = 0x785fff;

pub const VRAM_START: usize = 0x600000;

pub const VRAM_END: usize = 0x61ffff;

pub const VRAM_SIZE: usize = 0x20000;

pub const DUART_START: usize = 0x7b4000;

pub const DUART_END: usize = 0x7b5fff;

pub const DIAG_START: usize = 0x7b0000;

pub const DIAG_END: usize = 0x7b1fff;

pub const DIAG_SIZE: usize = 0x2000;

pub const FPU_START: usize = 0x78a000;

pub const FPU_END: usize = 0x78bfff;

pub const MMU_START: usize = 0x780000;

pub const MMU_END: usize = 0x7800ff;

// The page table is a 2K x 16 RAM addressed from 0x800000 to 0xffffff,
// accessible whenever virtual memory is off; the MMU stub claims it.
pub const PT_START: usize = 0x800000;

pub const PT_END: usize = 0xffffff;

pub const SCSI_START: usize = 0x7bc000;

pub const SCSI_END: usize = 0x7bffff;

pub const MOUSE_START: usize = 0x7b6000;

pub const MOUSE_END: usize = 0x7b7fff;

pub const TIMER_START: usize = 0x7b8000;

pub const TIMER_END: usize = 0x7b9fff;

pub const CAL_START: usize = 0x7ba000;

pub const CAL_END: usize = 0x7bbfff;

/// The fixed regions of the address space.
#[derive(Copy, Clone, PartialEq, Eq, Structural, Debug)]
pub enum Region {
    LowRam,
    Rom,
    Scsi,
    Mmu,
    DebugRam,
    Sound,
    Acia,
    Video,
    Vram,
    Duart,
    Fpu,
    Diag,
    PageTable,
    Mouse,
    Timer,
    Cal,
}

/// Which region an address decodes to, in the dispatcher's match order.
pub open spec fn spec_region_of(address: usize) -> Option<Region> {
    if RAM_START <= address <= RAM_END {
        Some(Region::LowRam)
    } else if ROM_START <= address <= ROM_END {
        Some(Region::Rom)
    } else if SCSI_START <= address <= SCSI_END {
        Some(Region::Scsi)
    } else if MMU_START <= address <= MMU_END {
        Some(Region::Mmu)
    } else if DEBUG_RAM_START <= address <= DEBUG_RAM_END {
        Some(Region::DebugRam)
    } else if SOUND_START <= address <= SOUND_END {
        Some(Region::Sound)
    } else if ACIA_START <= address <= ACIA_END {
        Some(Region::Acia)
    } else if VIDEO_START <= address <= VIDEO_END {
        Some(Region::Video)
    } else if VRAM_START <= address <= VRAM_END {
        Some(Region::Vram)
    } else if DUART_START <= address <= DUART_END {
        Some(Region::Duart)
    } else if FPU_START <= address <= FPU_END {
        Some(Region::Fpu)
    } else if DIAG_START <= address <= DIAG_END {
        Some(Region::Diag)
    } else if PT_START <= address <= PT_END {
        Some(Region::PageTable)
    } else if MOUSE_START <= address <= MOUSE_END {
        Some(Region::Mouse)
    } else if TIMER_START <= address <= TIMER_END {
        Some(Region::Timer)
    } else if CAL_START <= address <= CAL_END {
        Some(Region::Cal)
    } else {
        None
    }
}

/// Decodes an address to its region.
pub fn region_of(address: usize) -> (r: Option<Region>)
    ensures
        r == spec_region_of(address),
{
    if address <= RAM_END {
        Some(Region::LowRam)
    } else if ROM_START <= address && address <= ROM_END {
        Some(Region::Rom)
    } else if SCSI_START <= address && address <= SCSI_END {
        Some(Region::Scsi)
    } else if MMU_START <= address && address <= MMU_END {
        Some(Region::Mmu)
    } else if DEBUG_RAM_START <= address && address <= DEBUG_RAM_END {
        Some(Region::DebugRam)
    } else if SOUND_START <= address && address <= SOUND_END {
        Some(Region::Sound)
    } else if ACIA_START <= address && address <= ACIA_END {
        Some(Region::Acia)
    } else if VIDEO_START <= address && address <= VIDEO_END {
        Some(Region::Video)
    } else if VRAM_START <= address && address <= VRAM_END {
        Some(Region::Vram)
    } else if DUART_START <= address && address <= DUART_END {
        Some(Region::Duart)
    } else if FPU_START <= address && address <= FPU_END {
        Some(Region::Fpu)
    } else if DIAG_START <= address && address <= DIAG_END {
        Some(Region::Diag)
    } else if PT_START <= address && address <= PT_END {
        Some(Region::PageTable)
    } else if MOUSE_START <= address && address <= MOUSE_END {
        Some(Region::Mouse)
    } else if TIMER_START <= address && address <= TIMER_END {
        Some(Region::Timer)
    } else if CAL_START <= address && address <= CAL_END {
        Some(Region::Cal)
    } else {
        None
    }
}

/// The address-space dispatcher. A `None` device leaves its region
/// unpopulated; accessing it faults with `Access`.
pub struct Bus {
    pub map_rom: bool,
    /// The interrupt level most recently asserted towards the CPU core and
    /// not yet collected by the embedder.
    pub irq: Option<u8>,
    pub rom: Option<Memory>,
    pub ram: Option<Memory>,
    pub debug_ram: Option<Memory>,
    pub sound: Option<Sound>,
    pub acia: Option<Acia>,
    pub video: Option<Video>,
    pub video_ram: Option<Memory>,
    pub duart: Option<Duart>,
    pub diag: Option<Memory>,
    pub fpu: Option<Fpu>,
    pub mmu: Option<Mmu>,
    pub scsi: Option<Scsi>,
    pub mouse: Option<Mouse>,
    pub timer: Option<Timer>,
    pub cal: Option<Calendar>,
}

impl Bus {
    /// The byte an 8-bit read of `address` returns, with no side effect:
    /// the disassembly-support read path. Unmapped and unpopulated
    /// addresses fault with `Access`, exactly as a real read would.
    pub open spec fn bus_peek8(self, address: usize) -> Result<u8, BusError> {
        match spec_region_of(address) {
            None => Err(BusError::Access),
            Some(Region::LowRam) => if self.map_rom {
                match self.rom {
                    Some(m) => m.read8_result(true, address),
                    None => Err(BusError::Access),
                }
            } else {
                match self.ram {
                    Some(m) => m.read8_result(false, address),
                    None => Err(BusError::Access),
                }
            },
            Some(Region::Rom) => match self.rom {
                Some(m) => m.read8_result(self.map_rom, address),
                None => Err(BusError::Access),
            },
            Some(Region::Scsi) => match self.scsi {
                Some(s) => Ok(scsi_peek8(s, address)),
                None => Err(BusError::Access),
            },
            Some(Region::Mmu) | Some(Region::PageTable) => match self.mmu {
                Some(_) => Ok(0),
                None => Err(BusError::Access),
            },
            Some(Region::DebugRam) => match self.debug_ram {
                Some(m) => m.read8_result(self.map_rom, address),
                None => Err(BusError::Access),
            },
            Some(Region::Sound) => match self.sound {
                Some(_) => Ok(0),
                None => Err(BusError::Access),
            },
            Some(Region::Acia) => match self.acia {
                Some(a) => Ok(acia_peek8(a, address)),
                None => Err(BusError::Access),
            },
            Some(Region::Video) => match self.video {
                Some(_) => Ok(0),
                None => Err(BusError::Access),
            },
            Some(Region::Vram) => match self.video_ram {
                Some(m) => m.read8_result(self.map_rom, address),
                None => Err(BusError::Access),
            },
            Some(Region::Duart) => match self.duart {
                Some(d) => Ok(duart_peek8(d, address)),
                None => Err(BusError::Access),
            },
            Some(Region::Fpu) => match self.fpu {
                Some(_) => Ok(0),
                None => Err(BusError::Access),
            },
            Some(Region::Diag) => match self.diag {
                Some(m) => m.read8_result(self.map_rom, address),
                None => Err(BusError::Access),
            },
            Some(Region::Mouse) => match self.mouse {
                Some(_) => Ok(0),
                None => Err(BusError::Access),
            },
            Some(Region::Timer) => match self.timer {
                Some(_) => Ok(0),
                None => Err(BusError::Access),
            },
            Some(Region::Cal) => match self.cal {
                Some(_) => Ok(0),
                None => Err(BusError::Access),
            },
        }
    }
}

/// What an 8-bit bus read returns and changes. Reads of memory, of stubs
/// and of anything unmapped leave the machine untouched; reads of the
/// SCSI, ACIA and DUART windows change only that device, as its own
/// relation records.
pub open spec fn bus_read8_rel(pre: Bus, post: Bus, address: usize, r: Result<
    u8,
    BusError,
>) -> bool {
    match spec_region_of(address) {
        Some(Region::Scsi) => match pre.scsi {
            Some(s) => {
                &&& post.scsi is Some
                &&& r matches Ok(v) && scsi_read8_rel(s, post.scsi.unwrap(), address, v)
                &&& post == (Bus { scsi: post.scsi, ..pre })
            },
            None => r == Err::<u8, BusError>(BusError::Access) && post == pre,
        },
        Some(Region::Acia) => match pre.acia {
            Some(a) => {
                &&& post.acia is Some
                &&& r matches Ok(v) && acia_read8_rel(a, post.acia.unwrap(), address, v)
                &&& post == (Bus { acia: post.acia, ..pre })
            },
            None => r == Err::<u8, BusError>(BusError::Access) && post == pre,
        },
        Some(Region::Duart) => match pre.duart {
            Some(d) => {
                &&& post.duart is Some
                &&& r matches Ok(v) && duart_read8_rel(d, post.duart.unwrap(), address, v)
                &&& post == (Bus { duart: post.duart, ..pre })
            },
            None => r == Err::<u8, BusError>(BusError::Access) && post == pre,
        },
        _ => r == pre.bus_peek8(address) && post == pre,
    }
}

/// What an 8-bit bus write does, region by region: memory stores take the
/// byte (subject to their own validity, alignment and read-only rules), a
/// sound write clears the boot latch, the SCSI, ACIA and DUART windows
/// follow their own relations, the stubs accept and discard the byte, and
/// an unmapped or unpopulated address faults with `Access`. A SCSI command
/// can assert an interrupt level, recorded in `irq`.
pub open spec fn bus_write8_rel(
    pre: Bus,
    post: Bus,
    qpre: Seq<ServiceRequest>,
    qpost: Seq<ServiceRequest>,
    now: u64,
    address: usize,
    value: u8,
    r: Result<(), BusError>,
) -> bool {
    match spec_region_of(address) {
        None => r == Err::<(), BusError>(BusError::Access) && post == pre && qpost == qpre,
        Some(Region::LowRam) => {
            &&& qpost == qpre
            &&& (if pre.map_rom {
                match pre.rom {
                    Some(m) => {
                        &&& post.rom is Some
                        &&& r == m.write8_result(true, address, value)
                        &&& post.rom.unwrap().mem@ == m.write8_mem(true, address, value)
                        &&& post.rom.unwrap().same_config(m)
                        &&& post == (Bus { rom: post.rom, ..pre })
                    },
                    None => r == Err::<(), BusError>(BusError::Access) && post == pre,
                }
            } else {
                match pre.ram {
                    Some(m) => {
                        &&& post.ram is Some
                        &&& r == m.write8_result(false, address, value)
                        &&& post.ram.unwrap().mem@ == m.write8_mem(false, address, value)
                        &&& post.ram.unwrap().same_config(m)
                        &&& post == (Bus { ram: post.ram, ..pre })
                    },
                    None => r == Err::<(), BusError>(BusError::Access) && post == pre,
                }
            })
        },
        Some(Region::Rom) => {
            &&& qpost == qpre
            &&& match pre.rom {
                Some(m) => {
                    &&& post.rom is Some
                    &&& r == m.write8_result(pre.map_rom, address, value)
                    &&& post.rom.unwrap().mem@ == m.write8_mem(pre.map_rom, address, value)
                    &&& post.rom.unwrap().same_config(m)
                    &&& post == (Bus { rom: post.rom, ..pre })
                },
                None => r == Err::<(), BusError>(BusError::Access) && post == pre,
            }
        },
        Some(Region::DebugRam) => {
            &&& qpost == qpre
            &&& match pre.debug_ram {
                Some(m) => {
                    &&& post.debug_ram is Some
                    &&& r == m.write8_result(pre.map_rom, address, value)
                    &&& post.debug_ram.unwrap().mem@ == m.write8_mem(pre.map_rom, address, value)
                    &&& post.debug_ram.unwrap().same_config(m)
                    &&& post == (Bus { debug_ram: post.debug_ram, ..pre })
                },
                None => r == Err::<(), BusError>(BusError::Access) && post == pre,
            }
        },
        Some(Region::Vram) => {
            &&& qpost == qpre
            &&& match pre.video_ram {
                Some(m) => {
                    &&& post.video_ram is Some
                    &&& r == m.write8_result(pre.map_rom, address, value)
                    &&& post.video_ram.unwrap().mem@ == m.write8_mem(pre.map_rom, address, value)
                    &&& post.video_ram.unwrap().same_config(m)
                    &&& post == (Bus { video_ram: post.video_ram, ..pre })
                },
                None => r == Err::<(), BusError>(BusError::Access) && post == pre,
            }
        },
        Some(Region::Diag) => {
            &&& qpost == qpre
            &&& match pre.diag {
                Some(m) => {
                    &&& post.diag is Some
                    &&& r == m.write8_result(pre.map_rom, address, value)
                    &&& post.diag.unwrap().mem@ == m.write8_mem(pre.map_rom, address, value)
                    &&& post.diag.unwrap().same_config(m)
                    &&& post == (Bus { diag: post.diag, ..pre })
                },
                None => r == Err::<(), BusError>(BusError::Access) && post == pre,
            }
        },
        Some(Region::Sound) => {
            &&& qpost == qpre
            &&& match pre.sound {
                Some(_) => r == Ok::<(), BusError>(()) && post == (Bus {
                    map_rom: false,
                    ..pre
                }),
                None => r == Err::<(), BusError>(BusError::Access) && post == pre,
            }
        },
        Some(Region::Scsi) => match pre.scsi {
            Some(s) => {
                &&& post.scsi is Some
                &&& r == Ok::<(), BusError>(())
                &&& exists|irq: Option<u8>|
                    {
                        &&& #[trigger] scsi_write8_rel(
                            s,
                            post.scsi.unwrap(),
                            qpre,
                            qpost,
                            now,
                            address,
                            value,
                            irq,
                        )
                        &&& post == (Bus {
                            scsi: post.scsi,
                            irq: if irq is Some {
                                irq
                            } else {
                                pre.irq
                            },
                            ..pre
                        })
                    }
            },
            None => r == Err::<(), BusError>(BusError::Access) && post == pre && qpost == qpre,
        },
        Some(Region::Acia) => {
            &&& qpost == qpre
            &&& match pre.acia {
                Some(a) => {
                    &&& post.acia is Some
                    &&& r == Ok::<(), BusError>(())
                    &&& acia_write8_rel(a, post.acia.unwrap(), address, value)
                    &&& post == (Bus { acia: post.acia, ..pre })
                },
                None => r == Err::<(), BusError>(BusError::Access) && post == pre,
            }
        },
        Some(Region::Duart) => {
            &&& qpost == qpre
            &&& match pre.duart {
                Some(d) => {
                    &&& post.duart is Some
                    &&& r == Ok::<(), BusError>(())
                    &&& duart_write8_rel(d, post.duart.unwrap(), address, value)
                    &&& post == (Bus { duart: post.duart, ..pre })
                },
                None => r == Err::<(), BusError>(BusError::Access) && post == pre,
            }
        },
        Some(Region::Mmu) | Some(Region::PageTable) => {
            &&& qpost == qpre
            &&& match pre.mmu {
                Some(_) => r == Ok::<(), BusError>(()) && post == pre,
                None => r == Err::<(), BusError>(BusError::Access) && post == pre,
            }
        },
        Some(Region::Video) => {
            &&& qpost == qpre
            &&& match pre.video {
                Some(_) => r == Ok::<(), BusError>(()) && post == pre,
                None => r == Err::<(), BusError>(BusError::Access) && post == pre,
            }
        },
        Some(Region::Fpu) => {
            &&& qpost == qpre
            &&& match pre.fpu {
                Some(_) => r == Ok::<(), BusError>(()) && post == pre,
                None => r == Err::<(), BusError>(BusError::Access) && post == pre,
            }
        },
        Some(Region::Mouse) => {
            &&& qpost == qpre
            &&& match pre.mouse {
                Some(_) => r == Ok::<(), BusError>(()) && post == pre,
                None => r == Err::<(), BusError>(BusError::Access) && post == pre,
            }
        },
        Some(Region::Timer) => {
            &&& qpost == qpre
            &&& match pre.timer {
                Some(_) => r == Ok::<(), BusError>(()) && post == pre,
                None => r == Err::<(), BusError>(BusError::Access) && post == pre,
            }
        },
        Some(Region::Cal) => {
            &&& qpost == qpre
            &&& match pre.cal {
                Some(_) => r == Ok::<(), BusError>(()) && post == pre,
                None => r == Err::<(), BusError>(BusError::Access) && post == pre,
            }
        },
    }
}

impl Bus {
    /// A bus with the always-present devices populated and the boot latch
    /// set; ROM, RAM, video, DUART, SCSI and the debug port are attached
    /// by the embedder before execution starts.
    pub fn new() -> (b: Bus)
        ensures
            b.map_rom == true,
            b.irq is None,
            b.rom is None,
            b.ram is None,
            b.acia is None,
            b.video is None,
            b.video_ram is None,
            b.duart is None,
            b.scsi is None,
            b.debug_ram matches Some(m) && m.read_only == false && m.start_address
                == DEBUG_RAM_START && m.end_address == DEBUG_RAM_END && m.size == DEBUG_RAM_SIZE
                && m.mem@ == Seq::new(DEBUG_RAM_SIZE as nat, |i: int| 0u8),
            b.diag matches Some(m) && m.read_only == false && m.start_address == DIAG_START
                && m.end_address == DIAG_END && m.size == DIAG_SIZE && m.mem@ == Seq::new(
                DIAG_SIZE as nat,
                |i: int| 0u8,
            ),
            b.sound is Some,
            b.fpu is Some,
            b.mmu is Some,
            b.mouse is Some,
            b.timer is Some,
            b.cal is Some,
    {
        let debug_ram = Memory::new(DEBUG_RAM_START, DEBUG_RAM_END, DEBUG_RAM_SIZE, false).unwrap();
        let diag = Memory::new(DIAG_START, DIAG_END, DIAG_SIZE, false).unwrap();
        Bus {
            map_rom: true,
            irq: None,
            rom: None,
            ram: None,
            debug_ram: Some(debug_ram),
            sound: Some(Sound::new()),
            acia: None,
            video: None,
            video_ram: None,
            duart: None,
            diag: Some(diag),
            fpu: Some(Fpu::new()),
            mmu: Some(Mmu::new()),
            scsi: None,
            mouse: Some(Mouse::new()),
            timer: Some(Timer::new()),
            cal: Some(Calendar::new()),
        }
    }

    /// 8-bit read, dispatched by region.
    pub fn read_8(&mut self, address: usize) -> (r: Result<u8, BusError>)
        ensures
            bus_read8_rel(*old(self), *final(self), address, r),
    {
        match region_of(address) {
            None => Err(BusError::Access),
            Some(Region::LowRam) => {
                if self.map_rom {
                    match &self.rom {
                        Some(m) => m.read_8(true, address),
                        None => Err(BusError::Access),
                    }
                } else {
                    match &self.ram {
                        Some(m) => m.read_8(false, address),
                        None => Err(BusError::Access),
                    }
                }
            },
            Some(Region::Rom) => match &self.rom {
                Some(m) => m.read_8(self.map_rom, address),
                None => Err(BusError::Access),
            },
            Some(Region::Scsi) => match &mut self.scsi {
                Some(s) => s.read_8(address),
                None => Err(BusError::Access),
            },
            Some(Region::Mmu) => match &self.mmu {
                Some(m) => m.read_8(address),
                None => Err(BusError::Access),
            },
            Some(Region::DebugRam) => match &self.debug_ram {
                Some(m) => m.read_8(self.map_rom, address),
                None => Err(BusError::Access),
            },
            Some(Region::Sound) => match &self.sound {
                Some(s) => s.read_8(address),
                None => Err(BusError::Access),
            },
            Some(Region::Acia) => match &mut self.acia {
                Some(a) => a.read_8(address),
                None => Err(BusError::Access),
            },
            Some(Region::Video) => match &self.video {
                Some(v) => v.read_8(address),
                None => Err(BusError::Access),
            },
            Some(Region::Vram) => match &self.video_ram {
                Some(m) => m.read_8(self.map_rom, address),
                None => Err(BusError::Access),
            },
            Some(Region::Duart) => match &mut self.duart {
                Some(d) => d.read_8(address),
                None => Err(BusError::Access),
            },
            Some(Region::Fpu) => match &self.fpu {
                Some(_) => Ok(0),
                None => Err(BusError::Access),
            },
            Some(Region::Diag) => match &self.diag {
                Some(m) => m.read_8(self.map_rom, address),
                None => Err(BusError::Access),
            },
            Some(Region::PageTable) => match &self.mmu {
                Some(m) => m.read_8(address),
                None => Err(BusError::Access),
            },
            Some(Region::Mouse) => match &self.mouse {
                Some(_) => Ok(0),
                None => Err(BusError::Access),
            },
            Some(Region::Timer) => match &self.timer {
                Some(_) => Ok(0),
                None => Err(BusError::Access),
            },
            Some(Region::Cal) => match &self.cal {
                Some(c) => c.read_8(address),
                None => Err(BusError::Access),
            },
        }
    }

    /// 8-bit read with no side effect, for instruction tracing: it never
    /// drains a queue, advances a pointer or clears a flag.
    pub fn peek_8(&self, address: usize) -> (r: Result<u8, BusError>)
        ensures
            r == self.bus_peek8(address),
    {
        match region_of(address) {
            None => Err(BusError::Access),
            Some(Region::LowRam) => {
                if self.map_rom {
                    match &self.rom {
                        Some(m) => m.read_8(true, address),
                        None => Err(BusError::Access),
                    }
                } else {
                    match &self.ram {
                        Some(m) => m.read_8(false, address),
                        None => Err(BusError::Access),
                    }
                }
            },
            Some(Region::Rom) => match &self.rom {
                Some(m) => m.read_8(self.map_rom, address),
                None => Err(BusError::Access),
            },
            Some(Region::Scsi) => match &self.scsi {
                Some(s) => Ok(s.peek_8(address)),
                None => Err(BusError::Access),
            },
            Some(Region::Mmu) | Some(Region::PageTable) => match &self.mmu {
                Some(_) => Ok(0),
                None => Err(BusError::Access),
            },
            Some(Region::DebugRam) => match &self.debug_ram {
                Some(m) => m.read_8(self.map_rom, address),
                None => Err(BusError::Access),
            },
            Some(Region::Sound) => match &self.sound {
                Some(_) => Ok(0),
                None => Err(BusError::Access),
            },
            Some(Region::Acia) => match &self.acia {
                Some(a) => Ok(a.peek_8(address)),
                None => Err(BusError::Access),
            },
            Some(Region::Video) => match &self.video {
                Some(_) => Ok(0),
                None => Err(BusError::Access),
            },
            Some(Region::Vram) => match &self.video_ram {
                Some(m) => m.read_8(self.map_rom, address),
                None => Err(BusError::Access),
            },
            Some(Region::Duart) => match &self.duart {
                Some(d) => Ok(d.peek_8(address)),
                None => Err(BusError::Access),
            },
            Some(Region::Fpu) => match &self.fpu {
                Some(_) => Ok(0),
                None => Err(BusError::Access),
            },
            Some(Region::Diag) => match &self.diag {
                Some(m) => m.read_8(self.map_rom, address),
                None => Err(BusError::Access),
            },
            Some(Region::Mouse) => match &self.mouse {
                Some(_) => Ok(0),
                None => Err(BusError::Access),
            },
            Some(Region::Timer) => match &self.timer {
                Some(_) => Ok(0),
                None => Err(BusError::Access),
            },
            Some(Region::Cal) => match &self.cal {
                Some(_) => Ok(0),
                None => Err(BusError::Access),
            },
        }
    }

    /// 8-bit write, dispatched by region. `now` is the current simulator
    /// time in nanoseconds; a SCSI command may schedule a deferred service
    /// request against it.
    #[verifier::spinoff_prover]
    pub fn write_8(&mut self, queue: &mut ServiceQueue, now: u64, address: usize, value: u8) -> (r:
        Result<(), BusError>)
        requires
            now + SELECT_DELAY_NS <= u64::MAX,
        ensures
            bus_write8_rel(
                *old(self),
                *final(self),
                old(queue).queue@,
                final(queue).queue@,
                now,
                address,
                value,
                r,
            ),
    {
        match region_of(address) {
            None => Err(BusError::Access),
            Some(Region::LowRam) => {
                if self.map_rom {
                    match &mut self.rom {
                        Some(m) => m.write_8(true, address, value),
                        None => Err(BusError::Access),
                    }
                } else {
                    match &mut self.ram {
                        Some(m) => m.write_8(false, address, value),
                        None => Err(BusError::Access),
                    }
                }
            },
            Some(Region::Rom) => {
                let mr = self.map_rom;
                match &mut self.rom {
                    Some(m) => m.write_8(mr, address, value),
                    None => Err(BusError::Access),
                }
            },
            Some(Region::Scsi) => {
                let (res, irq_opt) = match &mut self.scsi {
                    Some(s) => s.write_8(queue, now, address, value),
                    None => (Err(BusError::Access), None),
                };
                if self.scsi.is_some() {
                    if irq_opt.is_some() {
                        self.irq = irq_opt;
                    }
                    proof {
                        assert(scsi_write8_rel(
                            old(self).scsi.unwrap(),
                            self.scsi.unwrap(),
                            old(queue).queue@,
                            queue.queue@,
                            now,
                            address,
                            value,
                            irq_opt,
                        ));
                    }
                }
                res
            },
            Some(Region::Mmu) => match &mut self.mmu {
                Some(m) => m.write_8(address, value),
                None => Err(BusError::Access),
            },
            Some(Region::DebugRam) => {
                let mr = self.map_rom;
                match &mut self.debug_ram {
                    Some(m) => m.write_8(mr, address, value),
                    None => Err(BusError::Access),
                }
            },
            Some(Region::Sound) => {
                if self.sound.is_some() {
                    let mut mr = self.map_rom;
                    let res = match &mut self.sound {
                        Some(s) => s.write_8(&mut mr, address, value),
                        None => Ok(()),
                    };
                    self.map_rom = mr;
                    res
                } else {
                    Err(BusError::Access)
                }
            },
            Some(Region::Acia) => match &mut self.acia {
                Some(a) => a.write_8(address, value),
                None => Err(BusError::Access),
            },
            Some(Region::Video) => match &mut self.video {
                Some(v) => v.write_8(address, value),
                None => Err(BusError::Access),
            },
            Some(Region::Vram) => {
                let mr = self.map_rom;
                match &mut self.video_ram {
                    Some(m) => m.write_8(mr, address, value),
                    None => Err(BusError::Access),
                }
            },
            Some(Region::Duart) => match &mut self.duart {
                Some(d) => d.write_8(address, value),
                None => Err(BusError::Access),
            },
            Some(Region::Fpu) => match &self.fpu {
                Some(_) => Ok(()),
                None => Err(BusError::Access),
            },
            Some(Region::Diag) => {
                let mr = self.map_rom;
                match &mut self.diag {
                    Some(m) => m.write_8(mr, address, value),
                    None => Err(BusError::Access),
                }
            },
            Some(Region::PageTable) => match &mut self.mmu {
                Some(m) => m.write_8(address, value),
                None => Err(BusError::Access),
            },
            Some(Region::Mouse) => match &self.mouse {
                Some(_) => Ok(()),
                None => Err(BusError::Access),
            },
            Some(Region::Timer) => match &self.timer {
                Some(_) => Ok(()),
                None => Err(BusError::Access),
            },
            Some(Region::Cal) => match &mut self.cal {
                Some(c) => c.write_8(address, value),
                None => Err(BusError::Access),
            },
        }
    }

    /// Drains one due service request's work: advances the SCSI handshake
    /// and records any interrupt level it asserts.
    pub fn service(&mut self, key: ServiceKey)
        ensures
            ({
                let pre = *old(self);
                let post = *final(self);
                match pre.scsi {
                    Some(s) => {
                        &&& post.scsi is Some
                        &&& exists|irq: Option<u8>|
                            {
                                &&& #[trigger] service_rel(s, post.scsi.unwrap(), irq)
                                &&& post == (Bus {
                                    scsi: post.scsi,
                                    irq: if irq is Some {
                                        irq
                                    } else {
                                        pre.irq
                                    },
                                    ..pre
                                })
                            }
                    },
                    None => post == pre,
                }
            }),
    {
        match key {
            ServiceKey::Scsi => {
                let irq_opt: Option<u8> = match &mut self.scsi {
                    Some(s) => s.service(),
                    None => None,
                };
                if self.scsi.is_some() {
                    if irq_opt.is_some() {
                        self.irq = irq_opt;
                    }
                    proof {
                        assert(service_rel(old(self).scsi.unwrap(), self.scsi.unwrap(), irq_opt));
                    }
                }
            },
        }
    }
}

/// What a 16-bit bus read returns and changes: memory regions read a
/// big-endian word under their alignment rules; the DUART reads its mode
/// register pair as a word, or any other register as its byte
/// zero-extended; every other populated region reads zero with no effect.
pub open spec fn bus_read16_rel(pre: Bus, post: Bus, address: usize, r: Result<
    u16,
    BusError,
>) -> bool {
    match spec_region_of(address) {
        None => r == Err::<u16, BusError>(BusError::Access) && post == pre,
        Some(Region::LowRam) => post == pre && r == (if pre.map_rom {
            match pre.rom {
                Some(m) => m.read16_result(true, address),
                None => Err(BusError::Access),
            }
        } else {
            match pre.ram {
                Some(m) => m.read16_result(false, address),
                None => Err(BusError::Access),
            }
        }),
        Some(Region::Rom) => post == pre && r == (match pre.rom {
            Some(m) => m.read16_result(pre.map_rom, address),
            None => Err(BusError::Access),
        }),
        Some(Region::DebugRam) => post == pre && r == (match pre.debug_ram {
            Some(m) => m.read16_result(pre.map_rom, address),
            None => Err(BusError::Access),
        }),
        Some(Region::Vram) => post == pre && r == (match pre.video_ram {
            Some(m) => m.read16_result(pre.map_rom, address),
            None => Err(BusError::Access),
        }),
        Some(Region::Diag) => post == pre && r == (match pre.diag {
            Some(m) => m.read16_result(pre.map_rom, address),
            None => Err(BusError::Access),
        }),
        Some(Region::Duart) => match pre.duart {
            Some(d) => if address == MR12A {
                &&& r == Ok::<u16, BusError>(
                    (d.port_a.mode@[1] * 256 + d.port_a.mode@[0]) as u16,
                )
                &&& post == pre
            } else {
                &&& post.duart is Some
                &&& r matches Ok(v) && v <= 0xff && duart_read8_rel(
                    d,
                    post.duart.unwrap(),
                    address,
                    (v & 0xffu16) as u8,
                )
                &&& post == (Bus { duart: post.duart, ..pre })
            },
            None => r == Err::<u16, BusError>(BusError::Access) && post == pre,
        },
        Some(Region::Scsi) => post == pre && r == (match pre.scsi {
            Some(_) => Ok::<u16, BusError>(0),
            None => Err::<u16, BusError>(BusError::Access),
        }),
        Some(Region::Acia) => post == pre && r == (match pre.acia {
            Some(_) => Ok::<u16, BusError>(0),
            None => Err::<u16, BusError>(BusError::Access),
        }),
        Some(Region::Mmu) | Some(Region::PageTable) => post == pre && r == (match pre.mmu {
            Some(_) => Ok::<u16, BusError>(0),
            None => Err::<u16, BusError>(BusError::Access),
        }),
        Some(Region::Sound) => post == pre && r == (match pre.sound {
            Some(_) => Ok::<u16, BusError>(0),
            None => Err::<u16, BusError>(BusError::Access),
        }),
        Some(Region::Video) => post == pre && r == (match pre.video {
            Some(_) => Ok::<u16, BusError>(0),
            None => Err::<u16, BusError>(BusError::Access),
        }),
        Some(Region::Fpu) => post == pre && r == (match pre.fpu {
            Some(_) => Ok::<u16, BusError>(0),
            None => Err::<u16, BusError>(BusError::Access),
        }),
        Some(Region::Mouse) => post == pre && r == (match pre.mouse {
            Some(_) => Ok::<u16, BusError>(0),
            None => Err::<u16, BusError>(BusError::Access),
        }),
        Some(Region::Timer) => post == pre && r == (match pre.timer {
            Some(_) => Ok::<u16, BusError>(0),
            None => Err::<u16, BusError>(BusError::Access),
        }),
        Some(Region::Cal) => post == pre && r == (match pre.cal {
            Some(_) => Ok::<u16, BusError>(0),
            None => Err::<u16, BusError>(BusError::Access),
        }),
    }
}

/// What a 32-bit bus read returns and changes: memory regions read a
/// big-endian long word under their alignment rules; every other
/// populated region reads zero with no effect.
pub open spec fn bus_read32_rel(pre: Bus, post: Bus, address: usize, r: Result<
    u32,
    BusError,
>) -> bool {
    &&& post == pre
    &&& r == (match spec_region_of(address) {
        None => Err::<u32, BusError>(BusError::Access),
        Some(Region::LowRam) => if pre.map_rom {
            match pre.rom {
                Some(m) => m.read32_result(true, address),
                None => Err(BusError::Access),
            }
        } else {
            match pre.ram {
                Some(m) => m.read32_result(false, address),
                None => Err(BusError::Access),
            }
        },
        Some(Region::Rom) => match pre.rom {
            Some(m) => m.read32_result(pre.map_rom, address),
            None => Err(BusError::Access),
        },
        Some(Region::DebugRam) => match pre.debug_ram {
            Some(m) => m.read32_result(pre.map_rom, address),
            None => Err(BusError::Access),
        },
        Some(Region::Vram) => match pre.video_ram {
            Some(m) => m.read32_result(pre.map_rom, address),
            None => Err(BusError::Access),
        },
        Some(Region::Diag) => match pre.diag {
            Some(m) => m.read32_result(pre.map_rom, address),
            None => Err(BusError::Access),
        },
        Some(Region::Duart) => match pre.duart {
            Some(_) => Ok::<u32, BusError>(0),
            None => Err::<u32, BusError>(BusError::Access),
        },
        Some(Region::Scsi) => match pre.scsi {
            Some(_) => Ok::<u32, BusError>(0),
            None => Err::<u32, BusError>(BusError::Access),
        },
        Some(Region::Acia) => match pre.acia {
            Some(_) => Ok::<u32, BusError>(0),
            None => Err::<u32, BusError>(BusError::Access),
        },
        Some(Region::Mmu) | Some(Region::PageTable) => match pre.mmu {
            Some(_) => Ok::<u32, BusError>(0),
            None => Err::<u32, BusError>(BusError::Access),
        },
        Some(Region::Sound) => match pre.sound {
            Some(_) => Ok::<u32, BusError>(0),
            None => Err::<u32, BusError>(BusError::Access),
        },
        Some(Region::Video) => match pre.video {
            Some(_) => Ok::<u32, BusError>(0),
            None => Err::<u32, BusError>(BusError::Access),
        },
        Some(Region::Fpu) => match pre.fpu {
            Some(_) => Ok::<u32, BusError>(0),
            None => Err::<u32, BusError>(BusError::Access),
        },
        Some(Region::Mouse) => match pre.mouse {
            Some(_) => Ok::<u32, BusError>(0),
            None => Err::<u32, BusError>(BusError::Access),
        },
        Some(Region::Timer) => match pre.timer {
            Some(_) => Ok::<u32, BusError>(0),
            None => Err::<u32, BusError>(BusError::Access),
        },
        Some(Region::Cal) => match pre.cal {
            Some(_) => Ok::<u32, BusError>(0),
            None => Err::<u32, BusError>(BusError::Access),
        },
    })
}

impl Bus {
    /// 16-bit read, dispatched by region.
    pub fn read_16(&mut self, address: usize) -> (r: Result<u16, BusError>)
        ensures
            bus_read16_rel(*old(self), *final(self), address, r),
    {
        match region_of(address) {
            None => Err(BusError::Access),
            Some(Region::LowRam) => {
                if self.map_rom {
                    match &self.rom {
                        Some(m) => m.read_16(true, address),
                        None => Err(BusError::Access),
                    }
                } else {
                    match &self.ram {
                        Some(m) => m.read_16(false, address),
                        None => Err(BusError::Access),
                    }
                }
            },
            Some(Region::Rom) => match &self.rom {
                Some(m) => m.read_16(self.map_rom, address),
                None => Err(BusError::Access),
            },
            Some(Region::DebugRam) => match &self.debug_ram {
                Some(m) => m.read_16(self.map_rom, address),
                None => Err(BusError::Access),
            },
            Some(Region::Vram) => match &self.video_ram {
                Some(m) => m.read_16(self.map_rom, address),
                None => Err(BusError::Access),
            },
            Some(Region::Diag) => match &self.diag {
                Some(m) => m.read_16(self.map_rom, address),
                None => Err(BusError::Access),
            },
            Some(Region::Duart) => match &mut self.duart {
                Some(d) => d.read_16(address),
                None => Err(BusError::Access),
            },
            Some(Region::Scsi) => match &self.scsi {
                Some(_) => Ok(0),
                None => Err(BusError::Access),
            },
            Some(Region::Acia) => match &self.acia {
                Some(_) => Ok(0),
                None => Err(BusError::Access),
            },
            Some(Region::Mmu) => match &self.mmu {
                Some(m) => m.read_16(address),
                None => Err(BusError::Access),
            },
            Some(Region::PageTable) => match &self.mmu {
                Some(m) => m.read_16(address),
                None => Err(BusError::Access),
            },
            Some(Region::Sound) => match &self.sound {
                Some(s) => s.read_16(address),
                None => Err(BusError::Access),
            },
            Some(Region::Video) => match &self.video {
                Some(v) => v.read_16(address),
                None => Err(BusError::Access),
            },
            Some(Region::Fpu) => match &self.fpu {
                Some(_) => Ok(0),
                None => Err(BusError::Access),
            },
            Some(Region::Mouse) => match &self.mouse {
                Some(_) => Ok(0),
                None => Err(BusError::Access),
            },
            Some(Region::Timer) => match &self.timer {
                Some(_) => Ok(0),
                None => Err(BusError::Access),
            },
            Some(Region::Cal) => match &self.cal {
                Some(c) => c.read_16(address),
                None => Err(BusError::Access),
            },
        }
    }

    /// 32-bit read, dispatched by region.
    pub fn read_32(&mut self, address: usize) -> (r: Result<u32, BusError>)
        ensures
            bus_read32_rel(*old(self), *final(self), address, r),
    {
        match region_of(address) {
            None => Err(BusError::Access),
            Some(Region::LowRam) => {
                if self.map_rom {
                    match &self.rom {
                        Some(m) => m.read_32(true, address),
                        None => Err(BusError::Access),
                    }
                } else {
                    match &self.ram {
                        Some(m) => m.read_32(false, address),
                        None => Err(BusError::Access),
                    }
                }
            },
            Some(Region::Rom) => match &self.rom {
                Some(m) => m.read_32(self.map_rom, address),
                None => Err(BusError::Access),
            },
            Some(Region::DebugRam) => match &self.debug_ram {
                Some(m) => m.read_32(self.map_rom, address),
                None => Err(BusError::Access),
            },
            Some(Region::Vram) => match &self.video_ram {
                Some(m) => m.read_32(self.map_rom, address),
                None => Err(BusError::Access),
            },
            Some(Region::Diag) => match &self.diag {
                Some(m) => m.read_32(self.map_rom, address),
                None => Err(BusError::Access),
            },
            Some(Region::Duart) => match &self.duart {
                Some(_) => Ok(0),
                None => Err(BusError::Access),
            },
            Some(Region::Scsi) => match &self.scsi {
                Some(_) => Ok(0),
                None => Err(BusError::Access),
            },
            Some(Region::Acia) => match &self.acia {
                Some(_) => Ok(0),
                None => Err(BusError::Access),
            },
            Some(Region::Mmu) => match &self.mmu {
                Some(m) => m.read_32(address),
                None => Err(BusError::Access),
            },
            Some(Region::PageTable) => match &self.mmu {
                Some(m) => m.read_32(address),
                None => Err(BusError::Access),
            },
            Some(Region::Sound) => match &self.sound {
                Some(s) => s.read_32(address),
                None => Err(BusError::Access),
            },
            Some(Region::Video) => match &self.video {
                Some(v) => v.read_32(address),
                None => Err(BusError::Access),
            },
            Some(Region::Fpu) => match &self.fpu {
                Some(_) => Ok(0),
                None => Err(BusError::Access),
            },
            Some(Region::Mouse) => match &self.mouse {
                Some(_) => Ok(0),
                None => Err(BusError::Access),
            },
            Some(Region::Timer) => match &self.timer {
                Some(_) => Ok(0),
                None => Err(BusError::Access),
            },
            Some(Region::Cal) => match &self.cal {
                Some(c) => c.read_32(address),
                None => Err(BusError::Access),
            },
        }
    }
}

/// What a 16-bit bus write does: memory stores take the big-endian word
/// under their validity, alignment and read-only rules; a sound write
/// clears the boot latch; every other populated region accepts and
/// discards the word (no device gives a 16-bit register meaning).
pub open spec fn bus_write16_rel(pre: Bus, post: Bus, address: usize, value: u16, r: Result<
    (),
    BusError,
>) -> bool {
    match spec_region_of(address) {
        None => r == Err::<(), BusError>(BusError::Access) && post == pre,
        Some(Region::LowRam) => if pre.map_rom {
            match pre.rom {
                Some(m) => {
                    &&& post.rom is Some
                    &&& r == m.write16_result(true, address, value)
                    &&& post.rom.unwrap().mem@ == m.write16_mem(true, address, value)
                    &&& post.rom.unwrap().same_config(m)
                    &&& post == (Bus { rom: post.rom, ..pre })
                },
                None => r == Err::<(), BusError>(BusError::Access) && post == pre,
            }
        } else {
            match pre.ram {
                Some(m) => {
                    &&& post.ram is Some
                    &&& r == m.write16_result(false, address, value)
                    &&& post.ram.unwrap().mem@ == m.write16_mem(false, address, value)
                    &&& post.ram.unwrap().same_config(m)
                    &&& post == (Bus { ram: post.ram, ..pre })
                },
                None => r == Err::<(), BusError>(BusError::Access) && post == pre,
            }
        },
        Some(Region::Rom) => match pre.rom {
            Some(m) => {
                &&& post.rom is Some
                &&& r == m.write16_result(pre.map_rom, address, value)
                &&& post.rom.unwrap().mem@ == m.write16_mem(pre.map_rom, address, value)
                &&& post.rom.unwrap().same_config(m)
                &&& post == (Bus { rom: post.rom, ..pre })
            },
            None => r == Err::<(), BusError>(BusError::Access) && post == pre,
        },
        Some(Region::DebugRam) => match pre.debug_ram {
            Some(m) => {
                &&& post.debug_ram is Some
                &&& r == m.write16_result(pre.map_rom, address, value)
                &&& post.debug_ram.unwrap().mem@ == m.write16_mem(pre.map_rom, address, value)
                &&& post.debug_ram.unwrap().same_config(m)
                &&& post == (Bus { debug_ram: post.debug_ram, ..pre })
            },
            None => r == Err::<(), BusError>(BusError::Access) && post == pre,
        },
        Some(Region::Vram) => match pre.video_ram {
            Some(m) => {
                &&& post.video_ram is Some
                &&& r == m.write16_result(pre.map_rom, address, value)
                &&& post.video_ram.unwrap().mem@ == m.write16_mem(pre.map_rom, address, value)
                &&& post.video_ram.unwrap().same_config(m)
                &&& post == (Bus { video_ram: post.video_ram, ..pre })
            },
            None => r == Err::<(), BusError>(BusError::Access) && post == pre,
        },
        Some(Region::Diag) => match pre.diag {
            Some(m) => {
                &&& post.diag is Some
                &&& r == m.write16_result(pre.map_rom, address, value)
                &&& post.diag.unwrap().mem@ == m.write16_mem(pre.map_rom, address, value)
                &&& post.diag.unwrap().same_config(m)
                &&& post == (Bus { diag: post.diag, ..pre })
            },
            None => r == Err::<(), BusError>(BusError::Access) && post == pre,
        },
        Some(Region::Sound) => match pre.sound {
            Some(_) => r == Ok::<(), BusError>(()) && post == (Bus { map_rom: false, ..pre }),
            None => r == Err::<(), BusError>(BusError::Access) && post == pre,
        },
        Some(Region::Scsi) => match pre.scsi {
            Some(_) => r == Ok::<(), BusError>(()) && post == pre,
            None => r == Err::<(), BusError>(BusError::Access) && post == pre,
        },
        Some(Region::Acia) => match pre.acia {
            Some(_) => r == Ok::<(), BusError>(()) && post == pre,
            None => r == Err::<(), BusError>(BusError::Access) && post == pre,
        },
        Some(Region::Duart) => match pre.duart {
            Some(_) => r == Ok::<(), BusError>(()) && post == pre,
            None => r == Err::<(), BusError>(BusError::Access) && post == pre,
        },
        Some(Region::Mmu) | Some(Region::PageTable) => match pre.mmu {
            Some(_) => r == Ok::<(), BusError>(()) && post == pre,
            None => r == Err::<(), BusError>(BusError::Access) && post == pre,
        },
        Some(Region::Video) => match pre.video {
            Some(_) => r == Ok::<(), BusError>(()) && post == pre,
            None => r == Err::<(), BusError>(BusError::Access) && post == pre,
        },
        Some(Region::Fpu) => match pre.fpu {
            Some(_) => r == Ok::<(), BusError>(()) && post == pre,
            None => r == Err::<(), BusError>(BusError::Access) && post == pre,
        },
        Some(Region::Mouse) => match pre.mouse {
            Some(_) => r == Ok::<(), BusError>(()) && post == pre,
            None => r == Err::<(), BusError>(BusError::Access) && post == pre,
        },
        Some(Region::Timer) => match pre.timer {
            Some(_) => r == Ok::<(), BusError>(()) && post == pre,
            None => r == Err::<(), BusError>(BusError::Access) && post == pre,
        },
        Some(Region::Cal) => match pre.cal {
            Some(_) => r == Ok::<(), BusError>(()) && post == pre,
            None => r == Err::<(), BusError>(BusError::Access) && post == pre,
        },
    }
}

/// What a 32-bit bus write does; it follows the 16-bit shape, with the
/// memory stores taking four bytes.
pub open spec fn bus_write32_rel(pre: Bus, post: Bus, address: usize, value: u32, r: Result<
    (),
    BusError,
>) -> bool {
    match spec_region_of(address) {
        None => r == Err::<(), BusError>(BusError::Access) && post == pre,
        Some(Region::LowRam) => if pre.map_rom {
            match pre.rom {
                Some(m) => {
                    &&& post.rom is Some
                    &&& r == m.write32_result(true, address, value)
                    &&& post.rom.unwrap().mem@ == m.write32_mem(true, address, value)
                    &&& post.rom.unwrap().same_config(m)
                    &&& post == (Bus { rom: post.rom, ..pre })
                },
                None => r == Err::<(), BusError>(BusError::Access) && post == pre,
            }
        } else {
            match pre.ram {
                Some(m) => {
                    &&& post.ram is Some
                    &&& r == m.write32_result(false, address, value)
                    &&& post.ram.unwrap().mem@ == m.write32_mem(false, address, value)
                    &&& post.ram.unwrap().same_config(m)
                    &&& post == (Bus { ram: post.ram, ..pre })
                },
                None => r == Err::<(), BusError>(BusError::Access) && post == pre,
            }
        },
        Some(Region::Rom) => match pre.rom {
            Some(m) => {
                &&& post.rom is Some
                &&& r == m.write32_result(pre.map_rom, address, value)
                &&& post.rom.unwrap().mem@ == m.write32_mem(pre.map_rom, address, value)
                &&& post.rom.unwrap().same_config(m)
                &&& post == (Bus { rom: post.rom, ..pre })
            },
            None => r == Err::<(), BusError>(BusError::Access) && post == pre,
        },
        Some(Region::DebugRam) => match pre.debug_ram {
            Some(m) => {
                &&& post.debug_ram is Some
                &&& r == m.write32_result(pre.map_rom, address, value)
                &&& post.debug_ram.unwrap().mem@ == m.write32_mem(pre.map_rom, address, value)
                &&& post.debug_ram.unwrap().same_config(m)
                &&& post == (Bus { debug_ram: post.debug_ram, ..pre })
            },
            None => r == Err::<(), BusError>(BusError::Access) && post == pre,
        },
        Some(Region::Vram) => match pre.video_ram {
            Some(m) => {
                &&& post.video_ram is Some
                &&& r == m.write32_result(pre.map_rom, address, value)
                &&& post.video_ram.unwrap().mem@ == m.write32_mem(pre.map_rom, address, value)
                &&& post.video_ram.unwrap().same_config(m)
                &&& post == (Bus { video_ram: post.video_ram, ..pre })
            },
            None => r == Err::<(), BusError>(BusError::Access) && post == pre,
        },
        Some(Region::Diag) => match pre.diag {
            Some(m) => {
                &&& post.diag is Some
                &&& r == m.write32_result(pre.map_rom, address, value)
                &&& post.diag.unwrap().mem@ == m.write32_mem(pre.map_rom, address, value)
                &&& post.diag.unwrap().same_config(m)
                &&& post == (Bus { diag: post.diag, ..pre })
            },
            None => r == Err::<(), BusError>(BusError::Access) && post == pre,
        },
        Some(Region::Sound) => match pre.sound {
            Some(_) => r == Ok::<(), BusError>(()) && post == (Bus { map_rom: false, ..pre }),
            None => r == Err::<(), BusError>(BusError::Access) && post == pre,
        },
        Some(Region::Scsi) => match pre.scsi {
            Some(_) => r == Ok::<(), BusError>(()) && post == pre,
            None => r == Err::<(), BusError>(BusError::Access) && post == pre,
        },
        Some(Region::Acia) => match pre.acia {
            Some(_) => r == Ok::<(), BusError>(()) && post == pre,
            None => r == Err::<(), BusError>(BusError::Access) && post == pre,
        },
        Some(Region::Duart) => match pre.duart {
            Some(_) => r == Ok::<(), BusError>(()) && post == pre,
            None => r == Err::<(), BusError>(BusError::Access) && post == pre,
        },
        Some(Region::Mmu) | Some(Region::PageTable) => match pre.mmu {
            Some(_) => r == Ok::<(), BusError>(()) && post == pre,
            None => r == Err::<(), BusError>(BusError::Access) && post == pre,
        },
        Some(Region::Video) => match pre.video {
            Some(_) => r == Ok::<(), BusError>(()) && post == pre,
            None => r == Err::<(), BusError>(BusError::Access) && post == pre,
        },
        Some(Region::Fpu) => match pre.fpu {
            Some(_) => r == Ok::<(), BusError>(()) && post == pre,
            None => r == Err::<(), BusError>(BusError::Access) && post == pre,
        },
        Some(Region::Mouse) => match pre.mouse {
            Some(_) => r == Ok::<(), BusError>(()) && post == pre,
            None => r == Err::<(), BusError>(BusError::Access) && post == pre,
        },
        Some(Region::Timer) => match pre.timer {
            Some(_) => r == Ok::<(), BusError>(()) && post == pre,
            None => r == Err::<(), BusError>(BusError::Access) && post == pre,
        },
        Some(Region::Cal) => match pre.cal {
            Some(_) => r == Ok::<(), BusError>(()) && post == pre,
            None => r == Err::<(), BusError>(BusError::Access) && post == pre,
        },
    }
}

impl Bus {
    /// 16-bit write, dispatched by region.
    pub fn write_16(&mut self, address: usize, value: u16) -> (r: Result<(), BusError>)
        ensures
            bus_write16_rel(*old(self), *final(self), address, value, r),
    {
        match region_of(address) {
            None => Err(BusError::Access),
            Some(Region::LowRam) => {
                if self.map_rom {
                    match &mut self.rom {
                        Some(m) => m.write_16(true, address, value),
                        None => Err(BusError::Access),
                    }
                } else {
                    match &mut self.ram {
                        Some(m) => m.write_16(false, address, value),
                        None => Err(BusError::Access),
                    }
                }
            },
            Some(Region::Rom) => {
                let mr = self.map_rom;
                match &mut self.rom {
                    Some(m) => m.write_16(mr, address, value),
                    None => Err(BusError::Access),
                }
            },
            Some(Region::DebugRam) => {
                let mr = self.map_rom;
                match &mut self.debug_ram {
                    Some(m) => m.write_16(mr, address, value),
                    None => Err(BusError::Access),
                }
            },
            Some(Region::Vram) => {
                let mr = self.map_rom;
                match &mut self.video_ram {
                    Some(m) => m.write_16(mr, address, value),
                    None => Err(BusError::Access),
                }
            },
            Some(Region::Diag) => {
                let mr = self.map_rom;
                match &mut self.diag {
                    Some(m) => m.write_16(mr, address, value),
                    None => Err(BusError::Access),
                }
            },
            Some(Region::Sound) => {
                if self.sound.is_some() {
                    let mut mr = self.map_rom;
                    let res = match &mut self.sound {
                        Some(s) => s.write_16(&mut mr, address, value),
                        None => Ok(()),
                    };
                    self.map_rom = mr;
                    res
                } else {
                    Err(BusError::Access)
                }
            },
            Some(Region::Scsi) => match &self.scsi {
                Some(_) => Ok(()),
                None => Err(BusError::Access),
            },
            Some(Region::Acia) => match &self.acia {
                Some(_) => Ok(()),
                None => Err(BusError::Access),
            },
            Some(Region::Duart) => match &self.duart {
                Some(_) => Ok(()),
                None => Err(BusError::Access),
            },
            Some(Region::Mmu) => match &mut self.mmu {
                Some(m) => m.write_16(address, value),
                None => Err(BusError::Access),
            },
            Some(Region::PageTable) => match &mut self.mmu {
                Some(m) => m.write_16(address, value),
                None => Err(BusError::Access),
            },
            Some(Region::Video) => match &mut self.video {
                Some(v) => v.write_16(address, value),
                None => Err(BusError::Access),
            },
            Some(Region::Fpu) => match &self.fpu {
                Some(_) => Ok(()),
                None => Err(BusError::Access),
            },
            Some(Region::Mouse) => match &self.mouse {
                Some(_) => Ok(()),
                None => Err(BusError::Access),
            },
            Some(Region::Timer) => match &self.timer {
                Some(_) => Ok(()),
                None => Err(BusError::Access),
            },
            Some(Region::Cal) => match &mut self.cal {
                Some(c) => c.write_16(address, value),
                None => Err(BusError::Access),
            },
        }
    }

    /// 32-bit write, dispatched by region.
    pub fn write_32(&mut self, address: usize, value: u32) -> (r: Result<(), BusError>)
        ensures
            bus_write32_rel(*old(self), *final(self), address, value, r),
    {
        match region_of(address) {
            None => Err(BusError::Access),
            Some(Region::LowRam) => {
                if self.map_rom {
                    match &mut self.rom {
                        Some(m) => m.write_32(true, address, value),
                        None => Err(BusError::Access),
                    }
                } else {
                    match &mut self.ram {
                        Some(m) => m.write_32(false, address, value),
                        None => Err(BusError::Access),
                    }
                }
            },
            Some(Region::Rom) => {
                let mr = self.map_rom;
                match &mut self.rom {
                    Some(m) => m.write_32(mr, address, value),
                    None => Err(BusError::Access),
                }
            },
            Some(Region::DebugRam) => {
                let mr = self.map_rom;
                match &mut self.debug_ram {
                    Some(m) => m.write_32(mr, address, value),
                    None => Err(BusError::Access),
                }
            },
            Some(Region::Vram) => {
                let mr = self.map_rom;
                match &mut self.video_ram {
                    Some(m) => m.write_32(mr, address, value),
                    None => Err(BusError::Access),
                }
            },
            Some(Region::Diag) => {
                let mr = self.map_rom;
                match &mut self.diag {
                    Some(m) => m.write_32(mr, address, value),
                    None => Err(BusError::Access),
                }
            },
            Some(Region::Sound) => {
                if self.sound.is_some() {
                    let mut mr = self.map_rom;
                    let res = match &mut self.sound {
                        Some(s) => s.write_32(&mut mr, address, value),
                        None => Ok(()),
                    };
                    self.map_rom = mr;
                    res
                } else {
                    Err(BusError::Access)
                }
            },
            Some(Region::Scsi) => match &self.scsi {
                Some(_) => Ok(()),
                None => Err(BusError::Access),
            },
            Some(Region::Acia) => match &self.acia {
                Some(_) => Ok(()),
                None => Err(BusError::Access),
            },
            Some(Region::Duart) => match &self.duart {
                Some(_) => Ok(()),
                None => Err(BusError::Access),
            },
            Some(Region::Mmu) => match &mut self.mmu {
                Some(m) => m.write_32(address, value),
                None => Err(BusError::Access),
            },
            Some(Region::PageTable) => match &mut self.mmu {
                Some(m) => m.write_32(address, value),
                None => Err(BusError::Access),
            },
            Some(Region::Video) => match &mut self.video {
                Some(v) => v.write_32(address, value),
                None => Err(BusError::Access),
            },
            Some(Region::Fpu) => match &self.fpu {
                Some(_) => Ok(()),
                None => Err(BusError::Access),
            },
            Some(Region::Mouse) => match &self.mouse {
                Some(_) => Ok(()),
                None => Err(BusError::Access),
            },
            Some(Region::Timer) => match &self.timer {
                Some(_) => Ok(()),
                None => Err(BusError::Access),
            },
            Some(Region::Cal) => match &mut self.cal {
                Some(c) => c.write_32(address, value),
                None => Err(BusError::Access),
            },
        }
    }
}

impl Bus {
    /// The word a 16-bit read returns, with no side effect.
    pub open spec fn bus_peek16(self, address: usize) -> Result<u16, BusError> {
        match spec_region_of(address) {
            None => Err(BusError::Access),
            Some(Region::LowRam) => if self.map_rom {
                match self.rom {
                    Some(m) => m.read16_result(true, address),
                    None => Err(BusError::Access),
                }
            } else {
                match self.ram {
                    Some(m) => m.read16_result(false, address),
                    None => Err(BusError::Access),
                }
            },
            Some(Region::Rom) => match self.rom {
                Some(m) => m.read16_result(self.map_rom, address),
                None => Err(BusError::Access),
            },
            Some(Region::DebugRam) => match self.debug_ram {
                Some(m) => m.read16_result(self.map_rom, address),
                None => Err(BusError::Access),
            },
            Some(Region::Vram) => match self.video_ram {
                Some(m) => m.read16_result(self.map_rom, address),
                None => Err(BusError::Access),
            },
            Some(Region::Diag) => match self.diag {
                Some(m) => m.read16_result(self.map_rom, address),
                None => Err(BusError::Access),
            },
            Some(Region::Duart) => match self.duart {
                Some(d) => if address == MR12A {
                    Ok((d.port_a.mode@[1] * 256 + d.port_a.mode@[0]) as u16)
                } else {
                    Ok(duart_peek8(d, address) as u16)
                },
                None => Err(BusError::Access),
            },
            Some(Region::Scsi) => match self.scsi {
                Some(_) => Ok(0),
                None => Err(BusError::Access),
            },
            Some(Region::Acia) => match self.acia {
                Some(_) => Ok(0),
                None => Err(BusError::Access),
            },
            Some(Region::Mmu) | Some(Region::PageTable) => match self.mmu {
                Some(_) => Ok(0),
                None => Err(BusError::Access),
            },
            Some(Region::Sound) => match self.sound {
                Some(_) => Ok(0),
                None => Err(BusError::Access),
            },
            Some(Region::Video) => match self.video {
                Some(_) => Ok(0),
                None => Err(BusError::Access),
            },
            Some(Region::Fpu) => match self.fpu {
                Some(_) => Ok(0),
                None => Err(BusError::Access),
            },
            Some(Region::Mouse) => match self.mouse {
                Some(_) => Ok(0),
                None => Err(BusError::Access),
            },
            Some(Region::Timer) => match self.timer {
                Some(_) => Ok(0),
                None => Err(BusError::Access),
            },
            Some(Region::Cal) => match self.cal {
                Some(_) => Ok(0),
                None => Err(BusError::Access),
            },
        }
    }

    /// The long word a 32-bit read returns, with no side effect.
    pub open spec fn bus_peek32(self, address: usize) -> Result<u32, BusError> {
        match spec_region_of(address) {
            None => Err(BusError::Access),
            Some(Region::LowRam) => if self.map_rom {
                match self.rom {
                    Some(m) => m.read32_result(true, address),
                    None => Err(BusError::Access),
                }
            } else {
                match self.ram {
                    Some(m) => m.read32_result(false, address),
                    None => Err(BusError::Access),
                }
            },
            Some(Region::Rom) => match self.rom {
                Some(m) => m.read32_result(self.map_rom, address),
                None => Err(BusError::Access),
            },
            Some(Region::DebugRam) => match self.debug_ram {
                Some(m) => m.read32_result(self.map_rom, address),
                None => Err(BusError::Access),
            },
            Some(Region::Vram) => match self.video_ram {
                Some(m) => m.read32_result(self.map_rom, address),
                None => Err(BusError::Access),
            },
            Some(Region::Diag) => match self.diag {
                Some(m) => m.read32_result(self.map_rom, address),
                None => Err(BusError::Access),
            },
            Some(Region::Duart) => match self.duart {
                Some(_) => Ok(0),
                None => Err(BusError::Access),
            },
            Some(Region::Scsi) => match self.scsi {
                Some(_) => Ok(0),
                None => Err(BusError::Access),
            },
            Some(Region::Acia) => match self.acia {
                Some(_) => Ok(0),
                None => Err(BusError::Access),
            },
            Some(Region::Mmu) | Some(Region::PageTable) => match self.mmu {
                Some(_) => Ok(0),
                None => Err(BusError::Access),
            },
            Some(Region::Sound) => match self.sound {
                Some(_) => Ok(0),
                None => Err(BusError::Access),
            },
            Some(Region::Video) => match self.video {
                Some(_) => Ok(0),
                None => Err(BusError::Access),
            },
            Some(Region::Fpu) => match self.fpu {
                Some(_) => Ok(0),
                None => Err(BusError::Access),
            },
            Some(Region::Mouse) => match self.mouse {
                Some(_) => Ok(0),
                None => Err(BusError::Access),
            },
            Some(Region::Timer) => match self.timer {
                Some(_) => Ok(0),
                None => Err(BusError::Access),
            },
            Some(Region::Cal) => match self.cal {
                Some(_) => Ok(0),
                None => Err(BusError::Access),
            },
        }
    }

    /// 16-bit read with no side effect, for instruction tracing.
    pub fn peek_16(&self, address: usize) -> (r: Result<u16, BusError>)
        ensures
            r == self.bus_peek16(address),
    {
        match region_of(address) {
            None => Err(BusError::Access),
            Some(Region::LowRam) => {
                if self.map_rom {
                    match &self.rom {
                        Some(m) => m.read_16(true, address),
                        None => Err(BusError::Access),
                    }
                } else {
                    match &self.ram {
                        Some(m) => m.read_16(false, address),
                        None => Err(BusError::Access),
                    }
                }
            },
            Some(Region::Rom) => match &self.rom {
                Some(m) => m.read_16(self.map_rom, address),
                None => Err(BusError::Access),
            },
            Some(Region::DebugRam) => match &self.debug_ram {
                Some(m) => m.read_16(self.map_rom, address),
                None => Err(BusError::Access),
            },
            Some(Region::Vram) => match &self.video_ram {
                Some(m) => m.read_16(self.map_rom, address),
                None => Err(BusError::Access),
            },
            Some(Region::Diag) => match &self.diag {
                Some(m) => m.read_16(self.map_rom, address),
                None => Err(BusError::Access),
            },
            Some(Region::Duart) => match &self.duart {
                Some(d) => {
                    if address == MR12A {
                        let lo: u16 = d.port_a.mode[0] as u16;
                        let hi: u16 = (d.port_a.mode[1] as u16) * 256;
                        Ok(hi + lo)
                    } else {
                        Ok(d.peek_8(address) as u16)
                    }
                },
                None => Err(BusError::Access),
            },
            Some(Region::Scsi) => match &self.scsi {
                Some(_) => Ok(0),
                None => Err(BusError::Access),
            },
            Some(Region::Acia) => match &self.acia {
                Some(_) => Ok(0),
                None => Err(BusError::Access),
            },
            Some(Region::Mmu) | Some(Region::PageTable) => match &self.mmu {
                Some(_) => Ok(0),
                None => Err(BusError::Access),
            },
            Some(Region::Sound) => match &self.sound {
                Some(_) => Ok(0),
                None => Err(BusError::Access),
            },
            Some(Region::Video) => match &self.video {
                Some(_) => Ok(0),
                None => Err(BusError::Access),
            },
            Some(Region::Fpu) => match &self.fpu {
                Some(_) => Ok(0),
                None => Err(BusError::Access),
            },
            Some(Region::Mouse) => match &self.mouse {
                Some(_) => Ok(0),
                None => Err(BusError::Access),
            },
            Some(Region::Timer) => match &self.timer {
                Some(_) => Ok(0),
                None => Err(BusError::Access),
            },
            Some(Region::Cal) => match &self.cal {
                Some(_) => Ok(0),
                None => Err(BusError::Access),
            },
        }
    }

    /// 32-bit read with no side effect, for instruction tracing.
    pub fn peek_32(&self, address: usize) -> (r: Result<u32, BusError>)
        ensures
            r == self.bus_peek32(address),
    {
        match region_of(address) {
            None => Err(BusError::Access),
            Some(Region::LowRam) => {
                if self.map_rom {
                    match &self.rom {
                        Some(m) => m.read_32(true, address),
                        None => Err(BusError::Access),
                    }
                } else {
                    match &self.ram {
                        Some(m) => m.read_32(false, address),
                        None => Err(BusError::Access),
                    }
                }
            },
            Some(Region::Rom) => match &self.rom {
                Some(m) => m.read_32(self.map_rom, address),
                None => Err(BusError::Access),
            },
            Some(Region::DebugRam) => match &self.debug_ram {
                Some(m) => m.read_32(self.map_rom, address),
                None => Err(BusError::Access),
            },
            Some(Region::Vram) => match &self.video_ram {
                Some(m) => m.read_32(self.map_rom, address),
                None => Err(BusError::Access),
            },
            Some(Region::Diag) => match &self.diag {
                Some(m) => m.read_32(self.map_rom, address),
                None => Err(BusError::Access),
            },
            Some(Region::Duart) => match &self.duart {
                Some(_) => Ok(0),
                None => Err(BusError::Access),
            },
            Some(Region::Scsi) => match &self.scsi {
                Some(_) => Ok(0),
                None => Err(BusError::Access),
            },
            Some(Region::Acia) => match &self.acia {
                Some(_) => Ok(0),
                None => Err(BusError::Access),
            },
            Some(Region::Mmu) | Some(Region::PageTable) => match &self.mmu {
                Some(_) => Ok(0),
                None => Err(BusError::Access),
            },
            Some(Region::Sound) => match &self.sound {
                Some(_) => Ok(0),
                None => Err(BusError::Access),
            },
            Some(Region::Video) => match &self.video {
                Some(_) => Ok(0),
                None => Err(BusError::Access),
            },
            Some(Region::Fpu) => match &self.fpu {
                Some(_) => Ok(0),
                None => Err(BusError::Access),
            },
            Some(Region::Mouse) => match &self.mouse {
                Some(_) => Ok(0),
                None => Err(BusError::Access),
            },
            Some(Region::Timer) => match &self.timer {
                Some(_) => Ok(0),
                None => Err(BusError::Access),
            },
            Some(Region::Cal) => match &self.cal {
                Some(_) => Ok(0),
                None => Err(BusError::Access),
            },
        }
    }
}

/// Law: an address strictly outside every claimed region faults with
/// `Access`, on reads and writes alike, and leaves the whole machine and
/// the service queue untouched.
pub proof fn lemma_unmapped_access(
    pre: Bus,
    post: Bus,
    qpre: Seq<ServiceRequest>,
    qpost: Seq<ServiceRequest>,
    now: u64,
    address: usize,
    value: u8,
    r8: Result<u8, BusError>,
    w8: Result<(), BusError>,
)
    requires
        spec_region_of(address) is None,
        bus_read8_rel(pre, post, address, r8),
        bus_write8_rel(pre, post, qpre, qpost, now, address, value, w8),
    ensures
        r8 == Err::<u8, BusError>(BusError::Access),
        w8 == Err::<(), BusError>(BusError::Access),
        post == pre,
        qpost == qpre,
{
}

/// Law: while the boot latch maps ROM, a low-memory address and any
/// ROM-window address that resolves to the same offset of the boot ROM
/// read the same byte.
pub proof fn lemma_boot_rom_alias(b: Bus, a_low: usize, a_rom: usize)
    requires
        b.map_rom,
        b.rom matches Some(m) && m.read_only && m.size > 0 && a_low as int % m.size as int
            == a_rom as int % m.size as int,
        a_low <= RAM_END,
        ROM_START <= a_rom <= ROM_END,
    ensures
        b.bus_peek8(a_low) == b.bus_peek8(a_rom),
{
}

/// Law: once the boot latch is clear, low memory reads RAM, and the byte
/// read is independent of the ROM contents entirely.
pub proof fn lemma_low_memory_reads_ram(b1: Bus, b2: Bus, address: usize)
    requires
        !b1.map_rom,
        b2 == (Bus { rom: b2.rom, ..b1 }),
        address <= RAM_END,
    ensures
        b1.ram matches Some(m) ==> b1.bus_peek8(address) == m.read8_result(false, address),
        b1.bus_peek8(address) == b2.bus_peek8(address),
{
}

} // verus!
