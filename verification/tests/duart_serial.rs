//! DUART tests: commands, keyboard path, mode pointer, clock select.

use tek4404::duart::{
    map_keycode, Duart, Key, CRA, CRB, CSRA, CSRB, IPCR_ACR, ISR_MASK, MR12A, OPBITS_RESET, THRA,
    THRB,
};

/// A command with only "disable transmitter" set clears both the
/// transmitter-ready and transmitter-empty status bits and, on port A,
/// the TX interrupt source; a following "enable transmitter" command
/// restores both status bits.
#[test]
fn tx_disable_then_enable_restores_status() {
    let mut d = Duart::new();

    let _ = d.write_8(CRA, 0x04); // enable transmitter
    let stat = d.read_8(CSRA).unwrap();
    assert_eq!(0x04 | 0x08, stat & (0x04 | 0x08));
    assert_eq!(0x01, d.read_8(ISR_MASK).unwrap() & 0x01);

    let _ = d.write_8(CRA, 0x08); // disable transmitter only
    let stat = d.read_8(CSRA).unwrap();
    assert_eq!(0, stat & 0x04);
    assert_eq!(0, stat & 0x08);
    assert_eq!(0, d.read_8(ISR_MASK).unwrap() & 0x01);

    let _ = d.write_8(CRA, 0x04); // enable transmitter again
    let stat = d.read_8(CSRA).unwrap();
    assert_eq!(0x04, stat & 0x04);
    assert_eq!(0x08, stat & 0x08);
}

/// The same holds of port B's status bits (its interrupt sources differ).
#[test]
fn tx_disable_clears_port_b_status() {
    let mut d = Duart::new();
    let _ = d.write_8(CRB, 0x04);
    assert_eq!(0x04 | 0x08, d.read_8(CSRB).unwrap() & (0x04 | 0x08));
    let _ = d.write_8(CRB, 0x08);
    assert_eq!(0, d.read_8(CSRB).unwrap() & (0x04 | 0x08));
}

/// A key-down event on an enabled receiver queues its scan code, raises
/// receiver-ready and the port-A receive interrupt; reading the holding
/// register returns the code and, once the queue is empty, clears them.
#[test]
fn key_down_reaches_holding_register() {
    let mut d = Duart::new();
    let _ = d.write_8(CRA, 0x01); // enable receiver

    d.key_down(&Key::A);
    assert_eq!(0x01, d.read_8(CSRA).unwrap() & 0x01);
    assert_eq!(0x02, d.read_8(ISR_MASK).unwrap() & 0x02);

    assert_eq!(0x1d, d.read_8(THRA).unwrap());
    assert_eq!(0, d.read_8(CSRA).unwrap() & 0x01);
    assert_eq!(0, d.read_8(ISR_MASK).unwrap() & 0x02);
}

/// A key-up event queues the same scan code with the high bit set.
#[test]
fn key_up_sets_high_bit() {
    let mut d = Duart::new();
    let _ = d.write_8(CRA, 0x01);
    d.key_up(&Key::A);
    assert_eq!(0x9d, d.read_8(THRA).unwrap());
}

/// With the receiver disabled, key events are dropped.
#[test]
fn key_events_dropped_while_receiver_off() {
    let mut d = Duart::new();
    d.key_down(&Key::A);
    assert_eq!(0, d.read_8(CSRA).unwrap() & 0x01);
    assert_eq!(0, d.read_8(THRA).unwrap()); // holding register untouched
}

/// Unmapped keys give the sentinel scan code.
#[test]
fn unmapped_key_gives_sentinel() {
    assert_eq!(0x03, map_keycode(&Key::Other));
    assert_eq!(0x01, map_keycode(&Key::LShift));
    assert_eq!(0x49, map_keycode(&Key::Kp9));
}

/// The mode register pointer alternates between the two bytes on every
/// access, for writes and reads alike, and an extra command rewinds it.
#[test]
fn mode_pointer_rotates() {
    let mut d = Duart::new();
    let _ = d.write_8(MR12A, 0x11);
    let _ = d.write_8(MR12A, 0x22);
    let _ = d.write_8(MR12A, 0x33); // wraps: overwrites byte 0

    // The pointer sits on byte 1 after three writes.
    assert_eq!(0x22, d.read_8(MR12A).unwrap());
    assert_eq!(0x33, d.read_8(MR12A).unwrap());

    // 16-bit read shows the pair without advancing the pointer.
    assert_eq!(0x2233, d.read_16(MR12A).unwrap());

    let _ = d.write_8(CRA, 0x10); // extra command 1: reset mode pointer
    assert_eq!(0x33, d.read_8(MR12A).unwrap());
}

/// The clock-select write stores the looked-up character delay; the
/// second table applies when the ACR mode bit is set, and out-of-table
/// indices change nothing.
#[test]
fn clock_select_sets_char_delay() {
    let mut d = Duart::new();
    let _ = d.write_8(CSRA, 0x10); // index 1, first table
    assert_eq!(72727272, d.port_a.char_delay_ns);

    let _ = d.write_8(CSRA, 0x00); // index 0, first table
    assert_eq!(160000000, d.port_a.char_delay_ns);

    let _ = d.write_8(IPCR_ACR, 0x80); // select the second table
    let _ = d.write_8(CSRA, 0x00);
    assert_eq!(106666672, d.port_a.char_delay_ns);

    let _ = d.write_8(CSRA, 0xf0); // index 15: out of table, ignored
    assert_eq!(106666672, d.port_a.char_delay_ns);
}

/// A queued transmit completes in servicing: ready/empty rise again and
/// the byte moves to the wire queue.
#[test]
fn handle_tx_completes_transmit() {
    let mut d = Duart::new();
    let _ = d.write_8(CRB, 0x04); // enable transmitter
    let _ = d.write_8(THRB, 0x09); // beep request: bit 3 set
    assert_eq!(0, d.read_8(CSRB).unwrap() & (0x04 | 0x08));

    d.handle_tx(1);
    assert_eq!(0x04 | 0x08, d.read_8(CSRB).unwrap() & (0x04 | 0x08));
    assert_eq!(0x10, d.read_8(ISR_MASK).unwrap() & 0x10);
    assert_eq!(Some(&0x09), d.port_b.tx_queue.front());
}

/// Servicing the receive side moves the newest queued byte into the
/// holding register when the receiver is enabled.
#[test]
fn handle_rx_latches_newest_byte() {
    let mut d = Duart::new();
    let _ = d.write_8(CRA, 0x01);
    d.key_down(&Key::B);
    d.handle_rx(0);
    assert_eq!(0x1e, d.port_a.rx_data);
}

/// A keyboard reset through the output-port bits answers with the reset
/// code in the holding register.
#[test]
fn keyboard_reset_answers() {
    let mut d = Duart::new();
    let _ = d.write_8(OPBITS_RESET, 0x08);
    assert_eq!(0x01, d.read_8(CSRA).unwrap() & 0x01);
    assert_eq!(0xf0, d.read_8(THRA).unwrap());
}

/// The tracing peek shows register values without consuming anything.
#[test]
fn peek_does_not_consume() {
    let mut d = Duart::new();
    let _ = d.write_8(CRA, 0x01);
    d.key_down(&Key::C);
    assert_eq!(0x1f, d.peek_8(THRA));
    // Still queued: the real read returns it too.
    assert_eq!(0x1f, d.read_8(THRA).unwrap());
}
