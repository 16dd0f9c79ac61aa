//! Bus dispatch tests: routing, faults, the boot-ROM alias and mirroring.

use tek4404::bus::{
    Bus, RAM_END, RAM_SIZE, RAM_START, ROM_END, ROM_SIZE, ROM_START, SOUND_START,
};
use tek4404::err::BusError;
use tek4404::mem::Memory;
use tek4404::service::ServiceQueue;

fn with_bus<T>(test: T)
where
    T: FnOnce(&mut Bus),
{
    let mut bus = Bus::new();
    bus.map_rom = false;

    let ram = Memory::new(RAM_START, RAM_END, RAM_SIZE, false).unwrap();
    let rom = Memory::new(ROM_START, ROM_END, ROM_SIZE, true).unwrap();

    bus.ram = Some(ram);
    bus.rom = Some(rom);

    test(&mut bus);
}

#[test]
fn test_read_write_8() {
    with_bus(|bus| {
        let mut queue = ServiceQueue::new();
        let _ = bus.write_8(&mut queue, 0, 0x100, 0x01).unwrap();
        assert_eq!(0x01, bus.read_8(0x100).unwrap());
    })
}

#[test]
fn test_read_write_8_bad_address() {
    with_bus(|bus| {
        let mut queue = ServiceQueue::new();
        assert_eq!(
            Err(BusError::Access),
            bus.write_8(&mut queue, 0, 0x2000000, 0x01)
        );
    });
}

#[test]
fn test_read_write_8_read_only() {
    with_bus(|bus| {
        let mut queue = ServiceQueue::new();
        let result = bus.write_8(&mut queue, 0, 0x740000, 0x01);
        assert_eq!(Err(BusError::ReadOnly), result);
    })
}

#[test]
fn test_read_write_16() {
    with_bus(|bus| {
        let _ = bus.write_16(0x100, 0x0102).unwrap();
        assert_eq!(0x0102, bus.read_16(0x100).unwrap());
    })
}

#[test]
fn test_read_write_16_alignment() {
    with_bus(|bus| {
        assert_eq!(Err(BusError::Alignment), bus.write_16(0x101, 0x0102));
        assert_eq!(Err(BusError::Alignment), bus.read_16(0x101));
    })
}

#[test]
fn test_read_write_16_bad_address() {
    with_bus(|bus| {
        let result = bus.write_16(0x2000000, 0x0102);
        assert_eq!(Err(BusError::Access), result);
    })
}

#[test]
fn test_read_write_16_read_only() {
    with_bus(|bus| {
        let result = bus.write_16(0x740000, 0x0102);
        assert_eq!(Err(BusError::ReadOnly), result);
    })
}

#[test]
fn test_read_write_32() {
    with_bus(|bus| {
        let _ = bus.write_32(0x100, 0x01020304).unwrap();
        assert_eq!(0x01020304, bus.read_32(0x100).unwrap());
    })
}

#[test]
fn test_read_write_32_alignment() {
    with_bus(|bus| {
        assert_eq!(Err(BusError::Alignment), bus.write_32(0x101, 0x01020304));
        assert_eq!(Err(BusError::Alignment), bus.read_32(0x101));
    })
}

#[test]
fn test_read_write_32_bad_address() {
    with_bus(|bus| {
        let result = bus.write_32(0x2000000, 0x01020304);
        assert_eq!(Err(BusError::Access), result);
    })
}

#[test]
fn test_read_write_32_read_only() {
    with_bus(|bus| {
        let result = bus.write_16(0x740000, 0x0102);
        assert_eq!(Err(BusError::ReadOnly), result);
    })
}

/// Before any sound-device write, low memory reads the boot ROM; after
/// one, the same address reads RAM, whatever the ROM holds.
#[test]
fn boot_rom_alias_cleared_by_sound_write() {
    let mut bus = Bus::new();
    assert!(bus.map_rom);

    let mut rom = Memory::new(ROM_START, ROM_END, ROM_SIZE, true).unwrap();
    rom.mem[0x100] = 0x42;
    let mut ram = Memory::new(RAM_START, RAM_END, RAM_SIZE, false).unwrap();
    ram.mem[0x100] = 0x99;
    bus.rom = Some(rom);
    bus.ram = Some(ram);

    // While the latch is set, 0x000100 and 0x740100 alias the same ROM byte.
    assert_eq!(0x42, bus.read_8(0x000100).unwrap());
    assert_eq!(0x42, bus.read_8(0x740100).unwrap());

    // A write to the sound device clears the latch...
    let mut queue = ServiceQueue::new();
    bus.write_8(&mut queue, 0, SOUND_START, 0x00).unwrap();
    assert!(!bus.map_rom);

    // ... after which low memory reflects RAM, independent of ROM content.
    assert_eq!(0x99, bus.read_8(0x000100).unwrap());
    assert_eq!(0x42, bus.read_8(0x740100).unwrap());

    // A second write is an idempotent no-op.
    bus.write_8(&mut queue, 0, SOUND_START, 0x00).unwrap();
    assert!(!bus.map_rom);
    assert_eq!(0x99, bus.read_8(0x000100).unwrap());
}

/// The 32 KiB boot ROM mirrors across its 64 KiB window.
#[test]
fn rom_window_mirrors() {
    let mut bus = Bus::new();
    bus.map_rom = false;
    let mut rom = Memory::new(ROM_START, ROM_END, ROM_SIZE, true).unwrap();
    rom.mem[0x123] = 0x5a;
    bus.rom = Some(rom);

    assert_eq!(0x5a, bus.read_8(ROM_START + 0x123).unwrap());
    assert_eq!(0x5a, bus.read_8(ROM_START + ROM_SIZE + 0x123).unwrap());
}

/// The tracing read path returns the same bytes as a memory read but
/// never mutates anything, and faults alike on unmapped addresses.
#[test]
fn peek_matches_memory_reads() {
    with_bus(|bus| {
        let mut queue = ServiceQueue::new();
        bus.write_8(&mut queue, 0, 0x200, 0x7e).unwrap();
        assert_eq!(Ok(0x7e), bus.peek_8(0x200));
        assert_eq!(bus.read_16(0x200), bus.peek_16(0x200));
        assert_eq!(bus.read_32(0x200), bus.peek_32(0x200));
        assert_eq!(Err(BusError::Access), bus.peek_8(0x2000000));
        assert_eq!(Err(BusError::Access), bus.peek_16(0x2000000));
        assert_eq!(Err(BusError::Access), bus.peek_32(0x2000000));
    })
}

/// Stub regions accept every access; reads give zero.
#[test]
fn stub_regions_read_zero() {
    let mut bus = Bus::new();
    bus.map_rom = false;
    let mut queue = ServiceQueue::new();
    for addr in [0x780000, 0x78a000, 0x7b6000, 0x7b8000, 0x7ba000, 0x800000] {
        assert_eq!(Ok(0), bus.read_8(addr));
        assert_eq!(Ok(0), bus.read_16(addr));
        assert_eq!(Ok(0), bus.read_32(addr));
        assert_eq!(Ok(()), bus.write_8(&mut queue, 0, addr, 0xff));
        assert_eq!(Ok(()), bus.write_16(addr, 0xffff));
        assert_eq!(Ok(()), bus.write_32(addr, 0xffffffff));
    }
    // The video control region was never attached: accessing it faults.
    assert_eq!(Err(BusError::Access), bus.read_8(0x782000));
}
