//! Memory device tests: round trips, faults, and mirroring.

use tek4404::err::BusError;
use tek4404::mem::Memory;

fn with_mem<T>(test: T)
where
    T: FnOnce(&mut Memory),
{
    let mut mem = Memory::new(0x1000, 0xffff, 0xefff, false).unwrap();
    test(&mut mem);
}

#[test]
fn test_invalid_range() {
    let mem = Memory::new(0x1000, 0, 0x1000, false);
    assert!(mem.is_err());
}

#[test]
fn test_read8() {
    with_mem(|mem| {
        mem.mem[0x100] = 0x01;
        mem.mem[0x101] = 0x02;
        mem.mem[0x102] = 0x03;
        mem.mem[0x103] = 0x04;

        assert_eq!(0x01, mem.read_8(false, 0x1100).unwrap());
        assert_eq!(0x02, mem.read_8(false, 0x1101).unwrap());
        assert_eq!(0x03, mem.read_8(false, 0x1102).unwrap());
        assert_eq!(0x04, mem.read_8(false, 0x1103).unwrap());

        assert_eq!(Err(BusError::Access), mem.read_8(false, 0x10000));
    });
}

#[test]
fn test_read16() {
    with_mem(|mem| {
        mem.mem[0x100] = 0x01;
        mem.mem[0x101] = 0x02;
        mem.mem[0x102] = 0x03;
        mem.mem[0x103] = 0x04;

        assert_eq!(0x0102, mem.read_16(false, 0x1100).unwrap());
        assert_eq!(0x0304, mem.read_16(false, 0x1102).unwrap());

        assert_eq!(Err(BusError::Alignment), mem.read_16(false, 0x1101));
        assert_eq!(Err(BusError::Alignment), mem.read_16(false, 0x1103));
        assert_eq!(Err(BusError::Access), mem.read_16(false, 0x10000));
    });
}

#[test]
fn test_read32() {
    with_mem(|mem| {
        mem.mem[0x100] = 0x01;
        mem.mem[0x101] = 0x02;
        mem.mem[0x102] = 0x03;
        mem.mem[0x103] = 0x04;

        assert_eq!(0x01020304, mem.read_32(false, 0x1100).unwrap());
        assert_eq!(0x03040000, mem.read_32(false, 0x1102).unwrap());

        assert_eq!(Err(BusError::Alignment), mem.read_32(false, 0x1101));
        assert_eq!(Err(BusError::Alignment), mem.read_32(false, 0x1103));
        assert_eq!(Err(BusError::Access), mem.read_32(false, 0x10000));
    });
}

#[test]
fn test_write_8() {
    with_mem(|mem| {
        let _ = mem.write_8(false, 0x1100, 0x01);
        assert_eq!(0x01, mem.mem[0x100]);

        assert_eq!(Err(BusError::Access), mem.write_8(false, 0x10000, 0x01));
    })
}

#[test]
fn test_write_8_read_only() {
    with_mem(|mem| {
        mem.read_only = true;
        assert_eq!(Err(BusError::ReadOnly), mem.write_8(false, 0x1100, 0x01));
    })
}

#[test]
fn test_write_16() {
    with_mem(|mem| {
        let _ = mem.write_16(false, 0x1100, 0x0102);
        assert_eq!(0x01, mem.mem[0x100]);
        assert_eq!(0x02, mem.mem[0x101]);

        assert_eq!(Err(BusError::Alignment), mem.write_16(false, 0x1101, 0x0102));
        assert_eq!(Err(BusError::Alignment), mem.write_16(false, 0x1103, 0x0102));
        assert_eq!(Err(BusError::Access), mem.write_16(false, 0x10000, 0x0102));
    })
}

#[test]
fn test_write_16_read_only() {
    with_mem(|mem| {
        mem.read_only = true;
        assert_eq!(Err(BusError::ReadOnly), mem.write_16(false, 0x1100, 0x0102));
    })
}

#[test]
fn test_write_32() {
    with_mem(|mem| {
        let _ = mem.write_32(false, 0x1100, 0x01020304);
        assert_eq!(0x01, mem.mem[0x100]);
        assert_eq!(0x02, mem.mem[0x101]);
        assert_eq!(0x03, mem.mem[0x102]);
        assert_eq!(0x04, mem.mem[0x103]);

        let _ = mem.write_32(false, 0x1102, 0x01020304);
        assert_eq!(0x01, mem.mem[0x102]);
        assert_eq!(0x02, mem.mem[0x103]);
        assert_eq!(0x03, mem.mem[0x104]);
        assert_eq!(0x04, mem.mem[0x105]);

        assert_eq!(
            Err(BusError::Alignment),
            mem.write_32(false, 0x1101, 0x01020304)
        );
        assert_eq!(
            Err(BusError::Alignment),
            mem.write_32(false, 0x1103, 0x01020304)
        );
        assert_eq!(
            Err(BusError::Access),
            mem.write_32(false, 0x10000, 0x01020304)
        );
    })
}

#[test]
fn test_write_32_read_only() {
    with_mem(|mem| {
        mem.read_only = true;
        assert_eq!(
            Err(BusError::ReadOnly),
            mem.write_32(false, 0x1100, 0x01020304)
        );
    })
}

#[test]
fn test_mirroring() {
    let mut mem = Memory::new(0x0, 0x7fff, 0x1000, false).unwrap();

    mem.mem[0x100] = 0x01;
    mem.mem[0x101] = 0x02;
    mem.mem[0x102] = 0x03;
    mem.mem[0x103] = 0x04;

    assert_eq!(0x1000, mem.mem.len());

    for base in (0..0x7000).step_by(0x1000) {
        assert_eq!(0x01, mem.read_8(false, base + 0x100).unwrap());
        assert_eq!(0x0102, mem.read_16(false, base + 0x100).unwrap());
        assert_eq!(0x01020304, mem.read_32(false, base + 0x100).unwrap());
    }

    assert_eq!(Err(BusError::Access), mem.read_8(false, 0x8000));
    assert_eq!(Err(BusError::Access), mem.read_16(false, 0x8000));
    assert_eq!(Err(BusError::Access), mem.read_32(false, 0x8000));
}

#[test]
fn load_replaces_contents() {
    let mut mem = Memory::new(0, 3, 4, false).unwrap();
    let data = vec![0xde, 0xad, 0xbe, 0xef];
    mem.load(&data);
    assert_eq!(mem.mem, data);
    assert_eq!(0xde, mem.read_8(false, 0).unwrap());
    assert_eq!(0xbeef, mem.read_16(false, 2).unwrap());
}
