//! Debug serial port (ACIA) and bridge-state tests.

use tek4404::acia::{
    Acia, AciaState, ConnectDecision, TxPoll, CMD_REG, CTRL_REG, DATA_REG, STAT_REG,
};

/// One client at a time: the second concurrent connection attempt is
/// refused, and the shared queues are exactly as the first session left
/// them.
#[test]
fn second_connection_is_refused() {
    let mut state = AciaState::new();
    assert_eq!(ConnectDecision::Accepted, state.on_connect());

    // The first session queues a byte for the CPU.
    state.on_socket_byte(0x41);

    // A second concurrent attempt is told off; nothing changes.
    assert_eq!(ConnectDecision::AlreadyConnected, state.on_connect());

    // The queued byte of the first session is still there.
    let mut acia = Acia::new(state);
    assert_eq!(Ok(0x41), acia.read_8(DATA_REG));
}

/// A Telnet IAC option sequence (escape, option name, option value) is
/// consumed and discarded; ordinary bytes pass through in order.
#[test]
fn telnet_escape_is_consumed() {
    let mut state = AciaState::new();
    state.on_socket_byte(0x68);
    state.on_socket_byte(255); // IAC
    state.on_socket_byte(251); // option name: consumed
    state.on_socket_byte(1); // option value: consumed
    state.on_socket_byte(0x69);

    let mut acia = Acia::new(state);
    assert_eq!(Ok(0x68), acia.read_8(DATA_REG));
    assert_eq!(Ok(0x69), acia.read_8(DATA_REG));
    // Queue drained: the data register re-reads its last byte.
    assert_eq!(Ok(0x69), acia.read_8(DATA_REG));
}

/// The receive queue saturates at eight bytes; later bytes are dropped,
/// never wrapped over earlier ones.
#[test]
fn receive_queue_saturates() {
    let mut state = AciaState::new();
    for b in 1..=9u8 {
        state.on_socket_byte(b);
    }
    let mut acia = Acia::new(state);
    for b in 1..=8u8 {
        assert_eq!(Ok(b), acia.read_8(DATA_REG));
    }
    // The ninth byte was dropped; the register re-reads the last byte.
    assert_eq!(Ok(8), acia.read_8(DATA_REG));
}

/// The status register synthesises its bits live: receive-data ready,
/// transmit-queue empty, and carrier/data-set-ready while disconnected.
#[test]
fn status_register_reflects_queues_and_connection() {
    let mut state = AciaState::new();
    state.on_socket_byte(0x31);
    let mut acia = Acia::new(state);

    // Disconnected, rx non-empty, tx empty.
    assert_eq!(Ok(0x08 | 0x10 | 0x60), acia.read_8(STAT_REG));

    let _ = acia.read_8(DATA_REG); // drain rx
    assert_eq!(Ok(0x10 | 0x60), acia.read_8(STAT_REG));

    assert_eq!(ConnectDecision::Accepted, acia.state.on_connect());
    assert_eq!(Ok(0x10), acia.read_8(STAT_REG));

    let _ = acia.write_8(DATA_REG, 0x55); // tx no longer empty
    assert_eq!(Ok(0x00), acia.read_8(STAT_REG));
}

/// A data write queues the byte for the socket side; the transmit poll
/// hands bytes out in order, reports an empty queue while connected, and
/// disconnection once the session ends.
#[test]
fn transmit_poll_drains_data_writes() {
    let mut acia = Acia::new(AciaState::new());
    assert_eq!(TxPoll::Disconnected, acia.state.poll_tx());

    assert_eq!(ConnectDecision::Accepted, acia.state.on_connect());
    let _ = acia.write_8(DATA_REG, 0x55);
    let _ = acia.write_8(DATA_REG, 0x56);
    assert_eq!(TxPoll::Byte(0x55), acia.state.poll_tx());
    assert_eq!(TxPoll::Byte(0x56), acia.state.poll_tx());
    assert_eq!(TxPoll::Empty, acia.state.poll_tx());

    acia.state.on_disconnect();
    assert_eq!(TxPoll::Disconnected, acia.state.poll_tx());
}

/// A status write is a soft reset: both queues drop everything.
#[test]
fn status_write_clears_both_queues() {
    let mut state = AciaState::new();
    let _ = state.on_connect();
    state.on_socket_byte(0x11);
    let mut acia = Acia::new(state);
    let _ = acia.write_8(DATA_REG, 0x22);

    let _ = acia.write_8(STAT_REG, 0);
    assert_eq!(TxPoll::Empty, acia.state.poll_tx());
    assert_eq!(Ok(0x10), acia.read_8(STAT_REG)); // tx empty, no rx data
    assert_eq!(Ok(0), acia.read_8(DATA_REG)); // data register cleared
}

/// Command and control registers latch and read back; a command write
/// clears the latched status.
#[test]
fn command_and_control_latch() {
    let mut acia = Acia::new(AciaState::new());
    let _ = acia.write_8(CMD_REG, 0x0b);
    let _ = acia.write_8(CTRL_REG, 0x1e);
    assert_eq!(Ok(0x0b), acia.read_8(CMD_REG));
    assert_eq!(Ok(0x1e), acia.read_8(CTRL_REG));
    assert_eq!(0, acia.status);
}

/// The tracing peek shows the next byte without popping it.
#[test]
fn peek_leaves_receive_queue_alone() {
    let mut state = AciaState::new();
    state.on_socket_byte(0x7a);
    let mut acia = Acia::new(state);
    assert_eq!(0x7a, acia.peek_8(DATA_REG));
    assert_eq!(0x7a, acia.peek_8(DATA_REG));
    assert_eq!(Ok(0x7a), acia.read_8(DATA_REG));
}
