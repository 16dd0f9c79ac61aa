//! Debug serial port (ACIA) and the state it shares with the network bridge.
//!
//! The memory-mapped side gives the CPU a data register backed by two
//! bounded ring buffers; the socket side of the bridge runs outside this
//! crate and drives the same [`AciaState`] through `on_connect`,
//! `on_socket_byte`, `poll_tx` and `on_disconnect`, which hold all of the
//! bridge's decisions: one client at a time, a fixed Telnet escape consumed
//! and discarded on input, and disconnection on any socket failure.

use vstd::prelude::*;

use arraydeque::{ArrayDeque, Saturating};

use crate::err::BusError;

verus! {

// Register addresses.
pub const DATA_REG: usize = 0x78c000;

pub const STAT_REG: usize = 0x78c002;

pub const CMD_REG: usize = 0x78c004;

pub const CTRL_REG: usize = 0x78c006;

/// A bounded byte ring buffer: eight slots, saturating (a push to a full
/// buffer is refused, not wrapped). It wraps arraydeque's deque opaquely,
/// because the verifier refuses that type's behaviour-parameter bound.
#[verifier::external_body]
pub struct ByteQueue {
    q: ArrayDeque<u8, 8, Saturating>,
}

/// The bytes a ring buffer holds, front to back.
pub uninterp spec fn byte_queue(q: ByteQueue) -> Seq<u8>;

/// Relies on arraydeque's ArrayDeque::new: a fresh deque is empty.
#[verifier::external_body]
fn byte_queue_new() -> (q: ByteQueue)
    ensures
        byte_queue(q) == Seq::<u8>::empty(),
{
    ByteQueue { q: ArrayDeque::new() }
}

/// Relies on arraydeque's ArrayDeque::push_back with saturating behaviour:
/// the byte is appended when there is room, otherwise handed back in the
/// error and the deque left as it was.
#[verifier::external_body]
fn byte_queue_push_back(q: &mut ByteQueue, b: u8) -> (ok: bool)
    ensures
        byte_queue(*old(q)).len() < 8 ==> ok && byte_queue(*final(q)) == byte_queue(
            *old(q),
        ).push(b),
        byte_queue(*old(q)).len() >= 8 ==> !ok && byte_queue(*final(q)) == byte_queue(*old(q)),
{
    q.q.push_back(b).is_ok()
}

/// Relies on arraydeque's ArrayDeque::pop_front: removes and returns the
/// front byte, or nothing from an empty deque.
#[verifier::external_body]
fn byte_queue_pop_front(q: &mut ByteQueue) -> (r: Option<u8>)
    ensures
        byte_queue(*old(q)).len() == 0 ==> r is None && byte_queue(*final(q)) == byte_queue(
            *old(q),
        ),
        byte_queue(*old(q)).len() > 0 ==> r == Some(byte_queue(*old(q))[0]) && byte_queue(
            *final(q),
        ) == byte_queue(*old(q)).subrange(1, byte_queue(*old(q)).len() as int),
{
    q.q.pop_front()
}

/// Relies on arraydeque's ArrayDeque::clear: removes every byte.
#[verifier::external_body]
fn byte_queue_clear(q: &mut ByteQueue)
    ensures
        byte_queue(*final(q)) == Seq::<u8>::empty(),
{
    q.q.clear()
}

/// Relies on arraydeque's ArrayDeque::len.
#[verifier::external_body]
fn byte_queue_len(q: &ByteQueue) -> (n: usize)
    ensures
        n == byte_queue(*q).len(),
{
    q.q.len()
}

/// Relies on arraydeque's ArrayDeque::front: shows the front byte without
/// removing it.
#[verifier::external_body]
fn byte_queue_front(q: &ByteQueue) -> (r: Option<u8>)
    ensures
        byte_queue(*q).len() == 0 ==> r is None,
        byte_queue(*q).len() > 0 ==> r == Some(byte_queue(*q)[0]),
{
    q.q.front().copied()
}

/// Where the Telnet option scanner stands in the inbound byte stream.
#[derive(Copy, Clone, PartialEq, Eq, Structural, Debug)]
pub enum TelnetState {
    Data,
    OptionName,
    OptionValue,
}

/// Outcome of offering a new client connection to the bridge.
#[derive(Copy, Clone, PartialEq, Eq, Structural, Debug)]
pub enum ConnectDecision {
    Accepted,
    AlreadyConnected,
}

/// What the device-to-socket loop finds when it polls for output.
#[derive(Copy, Clone, PartialEq, Eq, Structural, Debug)]
pub enum TxPoll {
    Disconnected,
    Byte(u8),
    Empty,
}

/// State shared between the ACIA device (CPU side) and the network bridge
/// task (socket side). Created once at start-up; `connected` toggles per
/// client session.
pub struct AciaState {
    pub ts: TelnetState,
    pub connected: bool,
    pub tx_data: ByteQueue,
    pub rx_data: ByteQueue,
}

/// One inbound socket byte: in the data state, the Telnet escape byte
/// starts an option sequence and everything else is queued for the CPU
/// (dropped when the queue is full); the two option bytes that follow an
/// escape are consumed and discarded.
pub open spec fn acia_rx_rel(pre: AciaState, post: AciaState, byte: u8) -> bool {
    match pre.ts {
        TelnetState::Data => {
            if byte == 255 {
                post == (AciaState { ts: TelnetState::OptionName, ..pre })
            } else {
                &&& byte_queue(post.rx_data) == (if byte_queue(pre.rx_data).len() < 8 {
                    byte_queue(pre.rx_data).push(byte)
                } else {
                    byte_queue(pre.rx_data)
                })
                &&& post == (AciaState { rx_data: post.rx_data, ..pre })
            }
        },
        TelnetState::OptionName => post == (AciaState { ts: TelnetState::OptionValue, ..pre }),
        TelnetState::OptionValue => post == (AciaState { ts: TelnetState::Data, ..pre }),
    }
}

impl AciaState {
    pub fn new() -> (s: AciaState)
        ensures
            s.ts == TelnetState::Data,
            s.connected == false,
            byte_queue(s.tx_data) == Seq::<u8>::empty(),
            byte_queue(s.rx_data) == Seq::<u8>::empty(),
    {
        AciaState {
            ts: TelnetState::Data,
            connected: false,
            tx_data: byte_queue_new(),
            rx_data: byte_queue_new(),
        }
    }

    /// A client asked to connect. Only one session runs at a time: a
    /// second concurrent attempt is refused, and the shared state — both
    /// queues included — is left exactly as it was.
    pub fn on_connect(&mut self) -> (d: ConnectDecision)
        ensures
            old(self).connected ==> d == ConnectDecision::AlreadyConnected && *final(self) == *old(
                self,
            ),
            !old(self).connected ==> d == ConnectDecision::Accepted && *final(self) == (AciaState {
                connected: true,
                ..*old(self)
            }),
    {
        if self.connected {
            ConnectDecision::AlreadyConnected
        } else {
            self.connected = true;
            ConnectDecision::Accepted
        }
    }

    /// One byte arrived from the socket.
    pub fn on_socket_byte(&mut self, byte: u8)
        ensures
            acia_rx_rel(*old(self), *final(self), byte),
    {
        match self.ts {
            TelnetState::Data => {
                if byte == 255 {
                    self.ts = TelnetState::OptionName;
                } else {
                    let _ = byte_queue_push_back(&mut self.rx_data, byte);
                }
            },
            TelnetState::OptionName => {
                self.ts = TelnetState::OptionValue;
            },
            TelnetState::OptionValue => {
                self.ts = TelnetState::Data;
            },
        }
    }

    /// The device-to-socket loop asks for the next byte to put on the
    /// wire: nothing while disconnected, the front of the transmit queue
    /// when one is waiting, otherwise a report that the queue is empty
    /// (the caller then suspends until woken).
    pub fn poll_tx(&mut self) -> (r: TxPoll)
        ensures
            !old(self).connected ==> r == TxPoll::Disconnected && *final(self) == *old(self),
            old(self).connected && byte_queue(old(self).tx_data).len() == 0 ==> r == TxPoll::Empty
                && byte_queue(final(self).tx_data) == byte_queue(old(self).tx_data) && *final(self)
                == (AciaState { tx_data: final(self).tx_data, ..*old(self) }),
            old(self).connected && byte_queue(old(self).tx_data).len() > 0 ==> r == TxPoll::Byte(
                byte_queue(old(self).tx_data)[0],
            ) && byte_queue(final(self).tx_data) == byte_queue(old(self).tx_data).subrange(
                1,
                byte_queue(old(self).tx_data).len() as int,
            ) && *final(self) == (AciaState { tx_data: final(self).tx_data, ..*old(self) }),
    {
        if !self.connected {
            return TxPoll::Disconnected;
        }
        match byte_queue_pop_front(&mut self.tx_data) {
            Some(c) => TxPoll::Byte(c),
            None => TxPoll::Empty,
        }
    }

    /// The socket side observed a failed or closed connection; both bridge
    /// loops stop and the session slot frees up.
    pub fn on_disconnect(&mut self)
        ensures
            *final(self) == (AciaState { connected: false, ..*old(self) }),
    {
        self.connected = false;
    }
}

/// The memory-mapped ACIA device.
pub struct Acia {
    pub state: AciaState,
    pub data: u8,
    pub control: u8,
    pub command: u8,
    pub status: u8,
}

/// The value each ACIA register shows, with no side effect: the data
/// register shows the byte a read would pop; the status register is
/// synthesised from latched status, queue occupancy and connection state.
pub open spec fn acia_peek8(a: Acia, address: usize) -> u8 {
    if address == DATA_REG {
        if byte_queue(a.state.rx_data).len() > 0 {
            byte_queue(a.state.rx_data)[0]
        } else {
            a.data
        }
    } else if address == STAT_REG {
        let with_rx = if byte_queue(a.state.rx_data).len() > 0 {
            a.status | 0x08u8
        } else {
            a.status
        };
        let with_tx = if byte_queue(a.state.tx_data).len() == 0 {
            with_rx | 0x10u8
        } else {
            with_rx
        };
        if !a.state.connected {
            with_tx | 0x60u8
        } else {
            with_tx
        }
    } else if address == CMD_REG {
        a.command
    } else if address == CTRL_REG {
        a.control
    } else {
        0u8
    }
}

/// What reading an ACIA register returns and changes: the data register
/// pops one received byte if present; the status register synthesises its
/// bits live from queue occupancy and connection state; the rest are plain
/// register reads.
pub open spec fn acia_read8_rel(pre: Acia, post: Acia, address: usize, r: u8) -> bool {
    if address == DATA_REG {
        let qlen = byte_queue(pre.state.rx_data).len();
        let newdata = if qlen > 0 {
            byte_queue(pre.state.rx_data)[0]
        } else {
            pre.data
        };
        &&& r == newdata
        &&& byte_queue(post.state.rx_data) == (if qlen > 0 {
            byte_queue(pre.state.rx_data).subrange(1, qlen as int)
        } else {
            byte_queue(pre.state.rx_data)
        })
        &&& post == (Acia {
            data: newdata,
            state: (AciaState { rx_data: post.state.rx_data, ..pre.state }),
            ..pre
        })
    } else if address == STAT_REG {
        let with_rx = if byte_queue(pre.state.rx_data).len() > 0 {
            pre.status | 0x08u8
        } else {
            pre.status
        };
        let with_tx = if byte_queue(pre.state.tx_data).len() == 0 {
            with_rx | 0x10u8
        } else {
            with_rx
        };
        let full = if !pre.state.connected {
            with_tx | 0x60u8
        } else {
            with_tx
        };
        r == full && post == pre
    } else if address == CMD_REG {
        r == pre.command && post == pre
    } else if address == CTRL_REG {
        r == pre.control && post == pre
    } else {
        r == 0 && post == pre
    }
}

/// What writing an ACIA register does: a data write queues the byte for
/// the socket side (dropped when the queue is full; the embedder then
/// wakes the transmit loop); a status write clears both queues and the
/// data register (soft reset); a command write latches the byte and
/// clears the status; a control write latches the byte.
pub open spec fn acia_write8_rel(pre: Acia, post: Acia, address: usize, value: u8) -> bool {
    if address == DATA_REG {
        &&& byte_queue(post.state.tx_data) == (if byte_queue(pre.state.tx_data).len() < 8 {
            byte_queue(pre.state.tx_data).push(value)
        } else {
            byte_queue(pre.state.tx_data)
        })
        &&& post == (Acia {
            data: value,
            state: (AciaState { tx_data: post.state.tx_data, ..pre.state }),
            ..pre
        })
    } else if address == STAT_REG {
        &&& byte_queue(post.state.tx_data) == Seq::<u8>::empty()
        &&& byte_queue(post.state.rx_data) == Seq::<u8>::empty()
        &&& post == (Acia {
            data: 0u8,
            state: (AciaState {
                tx_data: post.state.tx_data,
                rx_data: post.state.rx_data,
                ..pre.state
            }),
            ..pre
        })
    } else if address == CMD_REG {
        post == (Acia { command: value, status: 0u8, ..pre })
    } else if address == CTRL_REG {
        post == (Acia { control: value, ..pre })
    } else {
        post == pre
    }
}

impl Acia {
    pub fn new(state: AciaState) -> (a: Acia)
        ensures
            a.state == state,
            a.data == 0u8,
            a.control == 0u8,
            a.command == 0u8,
            a.status == 0u8,
    {
        Acia { state, data: 0, control: 0, command: 0, status: 0 }
    }

    /// A command write resets the latched status.
    fn handle_command(&mut self)
        ensures
            *final(self) == (Acia { status: 0u8, ..*old(self) }),
    {
        self.status = 0;
    }

    /// Shows a register's value without any side effect, for instruction
    /// tracing: the receive queue is not drained.
    pub fn peek_8(&self, address: usize) -> (r: u8)
        ensures
            r == acia_peek8(*self, address),
    {
        if address == DATA_REG {
            match byte_queue_front(&self.state.rx_data) {
                Some(c) => c,
                None => self.data,
            }
        } else if address == STAT_REG {
            let mut result = self.status;
            if byte_queue_len(&self.state.rx_data) > 0 {
                result = result | 0x08;
            }
            if byte_queue_len(&self.state.tx_data) == 0 {
                result = result | 0x10;
            }
            if !self.state.connected {
                result = result | 0x60;
            }
            result
        } else if address == CMD_REG {
            self.command
        } else if address == CTRL_REG {
            self.control
        } else {
            0
        }
    }

    pub fn read_8(&mut self, address: usize) -> (r: Result<u8, BusError>)
        ensures
            r is Ok,
            acia_read8_rel(*old(self), *final(self), address, r.unwrap()),
    {
        if address == DATA_REG {
            match byte_queue_pop_front(&mut self.state.rx_data) {
                Some(c) => {
                    self.data = c;
                },
                None => {},
            }
            Ok(self.data)
        } else if address == STAT_REG {
            let mut result = self.status;
            if byte_queue_len(&self.state.rx_data) > 0 {
                result = result | 0x08;
            }
            if byte_queue_len(&self.state.tx_data) == 0 {
                result = result | 0x10;
            }
            if !self.state.connected {
                result = result | 0x60;  // DCD/DSR high: not connected.
            }
            Ok(result)
        } else if address == CMD_REG {
            Ok(self.command)
        } else if address == CTRL_REG {
            Ok(self.control)
        } else {
            Ok(0)
        }
    }

    pub fn write_8(&mut self, address: usize, value: u8) -> (r: Result<(), BusError>)
        ensures
            r == Ok::<(), BusError>(()),
            acia_write8_rel(*old(self), *final(self), address, value),
    {
        if address == DATA_REG {
            self.data = value;
            let _ = byte_queue_push_back(&mut self.state.tx_data, value);
        } else if address == STAT_REG {
            // Soft reset: drop anything queued in either direction.
            byte_queue_clear(&mut self.state.tx_data);
            byte_queue_clear(&mut self.state.rx_data);
            self.data = 0;
        } else if address == CMD_REG {
            self.command = value;
            self.handle_command();
        } else if address == CTRL_REG {
            self.control = value;
        }
        Ok(())
    }
}

} // verus!
