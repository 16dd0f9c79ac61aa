//! SCSI controller tests: reset values, selection, deferred servicing.

use tek4404::scsi::{
    command_from_u8, Command, Scsi, ScsiDeviceState, REG_ADDRESS, REG_AUX_STATUS, REG_COMMAND,
    REG_DEST_ID, REG_DIAG_STATUS, REG_INTERRUPT, REG_SOURCE_ID, REG_XFER0, REG_XFER1, REG_XFER2,
};
use tek4404::service::{ServiceKey, ServiceQueue};

/// After a chip reset, the registers read their documented power-on
/// values and every per-target state is back to `Unselected`.
#[test]
fn chip_reset_restores_power_on_values() {
    let mut s = Scsi::new();
    let mut q = ServiceQueue::new();

    // Disturb some state first.
    let _ = s.write_8(&mut q, 0, REG_DEST_ID, 0x03);
    let _ = s.write_8(&mut q, 0, REG_COMMAND, 0x09); // select without ATN

    let (r, irq) = s.write_8(&mut q, 0, REG_COMMAND, 0x00); // chip reset
    assert_eq!(Ok(()), r);
    assert_eq!(None, irq);

    assert_eq!(Ok(0x02), s.read_8(REG_AUX_STATUS));
    assert_eq!(Ok(0x07), s.read_8(REG_SOURCE_ID));
    assert_eq!(Ok(0x80), s.read_8(REG_DIAG_STATUS));
    assert_eq!(Ok(0x00), s.read_8(REG_INTERRUPT));
    for d in s.devices.iter() {
        assert_eq!(ScsiDeviceState::Unselected, d.state);
    }
}

/// Selection without attention: a service request lands in the queue with
/// a deadline strictly in the future, aux-status shows the Command phase,
/// and the function-complete interrupt bit is set.
#[test]
fn select_without_atn_schedules_service() {
    let mut s = Scsi::new();
    let mut q = ServiceQueue::new();
    let now = 1_000;

    let _ = s.write_8(&mut q, now, REG_DEST_ID, 0x02);
    let (r, irq) = s.write_8(&mut q, now, REG_COMMAND, 0x09);
    assert_eq!(Ok(()), r);
    assert_eq!(Some(3), irq);

    assert_eq!(1, q.queue.len());
    assert!(q.queue[0].when > now);
    assert_eq!(ServiceKey::Scsi, q.queue[0].key);

    assert_eq!(Ok(0x10), s.read_8(REG_AUX_STATUS)); // C/D set: Command phase
    assert_eq!(Ok(0x01), s.read_8(REG_INTERRUPT)); // FC
    assert_eq!(Ok(0x00), s.read_8(REG_INTERRUPT)); // flags clear on read
    assert_eq!(Ok(0x82), s.read_8(REG_SOURCE_ID)); // valid-ID bit | target
    assert_eq!(ScsiDeviceState::Selected, s.devices[2].state);

    // The request is not due until its deadline has passed.
    assert_eq!(None, q.take(now));
    let due = q.take(q.queue[0].when + 1).unwrap();
    assert_eq!(ServiceKey::Scsi, due.key);

    // Servicing advances Selected -> Command and raises bus-service.
    let irq = s.service();
    assert_eq!(Some(3), irq);
    assert_eq!(ScsiDeviceState::Command, s.devices[2].state);
    assert_eq!(Ok(0x02), s.read_8(REG_INTERRUPT)); // bus service
    assert_eq!(Ok(0x10), s.read_8(REG_AUX_STATUS));

    // The next service toggles towards a data/status phase.
    let irq = s.service();
    assert_eq!(Some(3), irq);
    assert_eq!(Ok(0x03), s.read_8(REG_INTERRUPT));
    assert_eq!(Ok(0x00), s.read_8(REG_INTERRUPT)); // flags clear on read
    assert_eq!(Ok(0x98), s.read_8(REG_AUX_STATUS)); // DF | C/D | I/O
}

/// The accumulated interrupt flags are latched only until read: the read
/// hands them out and clears the register; the tracing peek does not.
#[test]
fn interrupt_flags_clear_on_read() {
    let mut s = Scsi::new();
    let mut q = ServiceQueue::new();
    let _ = s.write_8(&mut q, 0, REG_COMMAND, 0x09); // select: latches FC

    assert_eq!(0x01, s.peek_8(REG_INTERRUPT)); // peek leaves the flags
    assert_eq!(0x01, s.peek_8(REG_INTERRUPT));
    assert_eq!(Ok(0x01), s.read_8(REG_INTERRUPT));
    assert_eq!(Ok(0x00), s.read_8(REG_INTERRUPT));
}

/// A service call that finds the target unselected (for example after a
/// reset raced a stale request) is a safe no-op.
#[test]
fn service_after_reset_is_noop() {
    let mut s = Scsi::new();
    let irq = s.service();
    assert_eq!(None, irq);
    assert_eq!(Ok(0x00), s.read_8(REG_INTERRUPT));
}

/// The address latch takes the low byte first, then the high byte.
#[test]
fn address_latch_alternates() {
    let mut s = Scsi::new();
    let mut q = ServiceQueue::new();
    let _ = s.write_8(&mut q, 0, REG_ADDRESS, 0x34);
    let _ = s.write_8(&mut q, 0, REG_ADDRESS, 0x12);
    assert_eq!(0x1234, s.address);
    let _ = s.write_8(&mut q, 0, REG_ADDRESS, 0x78);
    assert_eq!(0x1278, s.address);
}

/// The transfer-count register reads back byte by byte.
#[test]
fn xfer_register_round_trip() {
    let mut s = Scsi::new();
    let mut q = ServiceQueue::new();
    let _ = s.write_8(&mut q, 0, REG_XFER2, 0x12);
    let _ = s.write_8(&mut q, 0, REG_XFER1, 0x34);
    let _ = s.write_8(&mut q, 0, REG_XFER0, 0x56);
    assert_eq!(0x123456, s.xfer);
    assert_eq!(Ok(0x12), s.read_8(REG_XFER2));
    assert_eq!(Ok(0x34), s.read_8(REG_XFER1));
    assert_eq!(Ok(0x56), s.read_8(REG_XFER0));
}

/// Unassigned opcodes decode to nothing and are ignored without fault.
#[test]
fn undefined_commands_are_ignored() {
    assert_eq!(None, command_from_u8(6));
    assert_eq!(None, command_from_u8(7));
    assert_eq!(None, command_from_u8(22));
    assert_eq!(Some(Command::TransferPad), command_from_u8(21));

    let mut s = Scsi::new();
    let mut q = ServiceQueue::new();
    let (r, irq) = s.write_8(&mut q, 0, REG_COMMAND, 0x06);
    assert_eq!(Ok(()), r);
    assert_eq!(None, irq);
    assert_eq!(0, q.queue.len());
}

/// Transfer-info rewinds the command-byte pointer and schedules service.
#[test]
fn transfer_info_rewinds_and_schedules() {
    let mut s = Scsi::new();
    let mut q = ServiceQueue::new();
    let _ = s.write_8(&mut q, 0, tek4404::scsi::REG_DATA1, 0xaa);
    let _ = s.write_8(&mut q, 0, tek4404::scsi::REG_DATA1, 0xbb);
    assert_eq!(2, s.cmd_ptr);
    assert_eq!([0xaa, 0xbb], [s.scsi_cmd[0], s.scsi_cmd[1]]);

    let (r, irq) = s.write_8(&mut q, 500, REG_COMMAND, 20);
    assert_eq!(Ok(()), r);
    assert_eq!(None, irq);
    assert_eq!(0, s.cmd_ptr);
    assert_eq!(1, q.queue.len());
    assert!(q.queue[0].when > 500);
}
