//! Dual UART: keyboard (port A) and RS-232 serial (port B).
//!
//! Each port holds a two-byte mode register pair behind a rotating pointer,
//! a live status byte, a configuration byte, receive/transmit holding
//! registers and a receive queue. A shared interrupt-status register and
//! interrupt-vector mask aggregate both ports' pending conditions. Keyboard
//! events arrive already mapped to key identities; the fixed scan-code table
//! lives here.

use vstd::prelude::*;

use std::collections::VecDeque;

use crate::err::BusError;

verus! {

// Register addresses inside the DUART window.
pub const MR12A: usize = 0x7b4000;

pub const CSRA: usize = 0x7b4002;

pub const CRA: usize = 0x7b4004;

pub const THRA: usize = 0x7b4006;

pub const IPCR_ACR: usize = 0x7b4008;

pub const ISR_MASK: usize = 0x7b400a;

pub const MR12B: usize = 0x7b4010;

pub const CSRB: usize = 0x7b4012;

pub const CRB: usize = 0x7b4014;

pub const THRB: usize = 0x7b4016;

pub const IP_OPCR: usize = 0x7b401a;

pub const OPBITS_SET: usize = 0x7b401c;

pub const OPBITS_RESET: usize = 0x7b401e;

/// A key on the workstation keyboard, as the display front end reports it.
/// `Other` stands for any key the scan-code table does not map.
#[derive(Copy, Clone, PartialEq, Eq, Structural, Debug)]
pub enum Key {
    LShift,
    RShift,
    Return,
    Backspace,
    Tab,
    Escape,
    Space,
    Quote,
    Comma,
    Minus,
    Period,
    Slash,
    Num0,
    Num1,
    Num2,
    Num3,
    Num4,
    Num5,
    Num6,
    Num7,
    Num8,
    Num9,
    Semicolon,
    Equals,
    A,
    B,
    C,
    D,
    E,
    F,
    G,
    H,
    I,
    J,
    K,
    L,
    M,
    N,
    O,
    P,
    Q,
    R,
    S,
    T,
    U,
    V,
    W,
    X,
    Y,
    Z,
    LeftBracket,
    Backslash,
    RightBracket,
    Delete,
    KpEnter,
    KpComma,
    KpMinus,
    KpPeriod,
    Kp0,
    Kp1,
    Kp2,
    Kp3,
    Kp4,
    Kp5,
    Kp6,
    Kp7,
    Kp8,
    Kp9,
    Other,
}

/// The fixed scan-code table. Unmapped keys give the sentinel code 0x03.
pub open spec fn spec_map_keycode(k: Key) -> u8 {
    match k {
        Key::LShift => 0x01,
        Key::RShift => 0x02,
        Key::Return => 0x05,
        Key::Backspace => 0x06,
        Key::Tab => 0x07,
        Key::Escape => 0x0a,
        Key::Space => 0x0b,
        Key::Quote => 0x0c,
        Key::Comma => 0x0d,
        Key::Minus => 0x0e,
        Key::Period => 0x0f,
        Key::Slash => 0x10,
        Key::Num0 => 0x11,
        Key::Num1 => 0x12,
        Key::Num2 => 0x13,
        Key::Num3 => 0x14,
        Key::Num4 => 0x15,
        Key::Num5 => 0x16,
        Key::Num6 => 0x17,
        Key::Num7 => 0x18,
        Key::Num8 => 0x19,
        Key::Num9 => 0x1a,
        Key::Semicolon => 0x1b,
        Key::Equals => 0x1c,
        Key::A => 0x1d,
        Key::B => 0x1e,
        Key::C => 0x1f,
        Key::D => 0x20,
        Key::E => 0x21,
        Key::F => 0x22,
        Key::G => 0x23,
        Key::H => 0x24,
        Key::I => 0x25,
        Key::J => 0x26,
        Key::K => 0x27,
        Key::L => 0x28,
        Key::M => 0x29,
        Key::N => 0x2a,
        Key::O => 0x2b,
        Key::P => 0x2c,
        Key::Q => 0x2d,
        Key::R => 0x2e,
        Key::S => 0x2f,
        Key::T => 0x30,
        Key::U => 0x31,
        Key::V => 0x32,
        Key::W => 0x33,
        Key::X => 0x34,
        Key::Y => 0x35,
        Key::Z => 0x36,
        Key::LeftBracket => 0x37,
        Key::Backslash => 0x38,
        Key::RightBracket => 0x39,
        Key::Delete => 0x3b,
        Key::KpEnter => 0x3c,
        Key::KpComma => 0x3d,
        Key::KpMinus => 0x3e,
        Key::KpPeriod => 0x3f,
        Key::Kp0 => 0x40,
        Key::Kp1 => 0x41,
        Key::Kp2 => 0x42,
        Key::Kp3 => 0x43,
        Key::Kp4 => 0x44,
        Key::Kp5 => 0x45,
        Key::Kp6 => 0x46,
        Key::Kp7 => 0x47,
        Key::Kp8 => 0x48,
        Key::Kp9 => 0x49,
        Key::Other => 0x03,
    }
}

/// Maps a key to its scan code through the fixed table.
pub fn map_keycode(k: &Key) -> (c: u8)
    ensures
        c == spec_map_keycode(*k),
{
    match *k {
        Key::LShift => 0x01,
        Key::RShift => 0x02,
        Key::Return => 0x05,
        Key::Backspace => 0x06,
        Key::Tab => 0x07,
        Key::Escape => 0x0a,
        Key::Space => 0x0b,
        Key::Quote => 0x0c,
        Key::Comma => 0x0d,
        Key::Minus => 0x0e,
        Key::Period => 0x0f,
        Key::Slash => 0x10,
        Key::Num0 => 0x11,
        Key::Num1 => 0x12,
        Key::Num2 => 0x13,
        Key::Num3 => 0x14,
        Key::Num4 => 0x15,
        Key::Num5 => 0x16,
        Key::Num6 => 0x17,
        Key::Num7 => 0x18,
        Key::Num8 => 0x19,
        Key::Num9 => 0x1a,
        Key::Semicolon => 0x1b,
        Key::Equals => 0x1c,
        Key::A => 0x1d,
        Key::B => 0x1e,
        Key::C => 0x1f,
        Key::D => 0x20,
        Key::E => 0x21,
        Key::F => 0x22,
        Key::G => 0x23,
        Key::H => 0x24,
        Key::I => 0x25,
        Key::J => 0x26,
        Key::K => 0x27,
        Key::L => 0x28,
        Key::M => 0x29,
        Key::N => 0x2a,
        Key::O => 0x2b,
        Key::P => 0x2c,
        Key::Q => 0x2d,
        Key::R => 0x2e,
        Key::S => 0x2f,
        Key::T => 0x30,
        Key::U => 0x31,
        Key::V => 0x32,
        Key::W => 0x33,
        Key::X => 0x34,
        Key::Y => 0x35,
        Key::Z => 0x36,
        Key::LeftBracket => 0x37,
        Key::Backslash => 0x38,
        Key::RightBracket => 0x39,
        Key::Delete => 0x3b,
        Key::KpEnter => 0x3c,
        Key::KpComma => 0x3d,
        Key::KpMinus => 0x3e,
        Key::KpPeriod => 0x3f,
        Key::Kp0 => 0x40,
        Key::Kp1 => 0x41,
        Key::Kp2 => 0x42,
        Key::Kp3 => 0x43,
        Key::Kp4 => 0x44,
        Key::Kp5 => 0x45,
        Key::Kp6 => 0x46,
        Key::Kp7 => 0x47,
        Key::Kp8 => 0x48,
        Key::Kp9 => 0x49,
        Key::Other => 0x03,
    }
}

/// One serial port: mode register pair, live status, configuration,
/// holding registers, queues and the retained character delay.
pub struct Port {
    pub mode: [u8; 2],
    pub stat: u8,
    pub conf: u8,
    pub rx_data: u8,
    pub tx_data: u8,
    pub mode_ptr: usize,
    pub rx_queue: VecDeque<u8>,
    pub tx_queue: VecDeque<u8>,
    pub char_delay_ns: u32,
}

/// A port in its power-on state.
pub open spec fn port_reset(p: Port) -> bool {
    &&& p.mode@ == seq![0u8, 0u8]
    &&& p.stat == 0u8
    &&& p.conf == 0u8
    &&& p.rx_data == 0u8
    &&& p.tx_data == 0u8
    &&& p.mode_ptr == 0usize
    &&& p.rx_queue@ == Seq::<u8>::empty()
    &&& p.tx_queue@ == Seq::<u8>::empty()
    &&& p.char_delay_ns == 1000000u32
}

impl Port {
    pub fn new() -> (p: Port)
        ensures
            port_reset(p),
    {
        let p = Port {
            mode: [0, 0],
            stat: 0,
            conf: 0,
            rx_data: 0,
            tx_data: 0,
            mode_ptr: 0,
            rx_queue: VecDeque::new(),
            tx_queue: VecDeque::new(),
            char_delay_ns: 1000000,
        };
        proof {
            assert(p.mode@ =~= seq![0u8, 0u8]);
        }
        p
    }
}

impl Default for Port {
    fn default() -> (p: Port)
        ensures
            port_reset(p),
    {
        Port::new()
    }
}

/// Character delay in nanoseconds for a clock-select index, from the two
/// fixed 13-entry rate tables (`alt` selects the second, ACR bit 7 table).
/// Indices past the table give 0; writers treat those as no-ops.
pub open spec fn spec_delay_rate(alt: bool, idx: u8) -> u32 {
    if !alt {
        if idx == 0 {
            160000000
        } else if idx == 1 {
            72727272
        } else if idx == 2 {
            59259260
        } else if idx == 3 {
            40000000
        } else if idx == 4 {
            26666668
        } else if idx == 5 {
            13333334
        } else if idx == 6 {
            6666667
        } else if idx == 7 {
            7619047
        } else if idx == 8 {
            3333333
        } else if idx == 9 {
            1666666
        } else if idx == 10 {
            1111111
        } else if idx == 11 {
            833333
        } else if idx == 12 {
            208333
        } else {
            0
        }
    } else {
        if idx == 0 {
            106666672
        } else if idx == 1 {
            72727272
        } else if idx == 2 {
            59259260
        } else if idx == 3 {
            53333336
        } else if idx == 4 {
            26666668
        } else if idx == 5 {
            13333334
        } else if idx == 6 {
            6666667
        } else if idx == 7 {
            4000000
        } else if idx == 8 {
            3333333
        } else if idx == 9 {
            1666666
        } else if idx == 10 {
            4444444
        } else if idx == 11 {
            833333
        } else if idx == 12 {
            416666
        } else {
            0
        }
    }
}

fn delay_rate(alt: bool, idx: u8) -> (d: u32)
    requires
        idx <= 12,
    ensures
        d == spec_delay_rate(alt, idx),
{
    if !alt {
        if idx == 0 {
            160000000
        } else if idx == 1 {
            72727272
        } else if idx == 2 {
            59259260
        } else if idx == 3 {
            40000000
        } else if idx == 4 {
            26666668
        } else if idx == 5 {
            13333334
        } else if idx == 6 {
            6666667
        } else if idx == 7 {
            7619047
        } else if idx == 8 {
            3333333
        } else if idx == 9 {
            1666666
        } else if idx == 10 {
            1111111
        } else if idx == 11 {
            833333
        } else {
            208333
        }
    } else {
        if idx == 0 {
            106666672
        } else if idx == 1 {
            72727272
        } else if idx == 2 {
            59259260
        } else if idx == 3 {
            53333336
        } else if idx == 4 {
            26666668
        } else if idx == 5 {
            13333334
        } else if idx == 6 {
            6666667
        } else if idx == 7 {
            4000000
        } else if idx == 8 {
            3333333
        } else if idx == 9 {
            1666666
        } else if idx == 10 {
            4444444
        } else if idx == 11 {
            833333
        } else {
            416666
        }
    }
}

/// The dual UART.
pub struct Duart {
    pub port_a: Port,
    pub port_b: Port,
    pub acr: u8,
    pub ipcr: u8,
    pub inprt: u8,
    pub outprt: u8,
    pub istat: u8,
    pub imr: u8,
    pub ivec: u8,
}

/// Effect of a command byte on one port's configuration, status and mode
/// pointer and on the shared interrupt registers. Returns
/// `(conf, stat, mode_ptr, istat, ivec)` after the command.
pub open spec fn spec_command(
    cmd: u8,
    port_a: bool,
    conf: u8,
    stat: u8,
    mode_ptr: usize,
    istat: u8,
    ivec: u8,
) -> (u8, u8, usize, u8, u8) {
    if cmd == 0 {
        (conf, stat, mode_ptr, istat, ivec)
    } else {
        // Transmitter disable (bit 3) / enable (bit 2).
        let c1 = if cmd & 0x08u8 != 0 {
            (
                conf & !0x01u8,
                (stat & !0x04u8) & !0x08u8,
                if port_a {
                    istat & !0x01u8
                } else {
                    istat
                },
                if port_a {
                    ivec & !0x10u8
                } else {
                    ivec
                },
            )
        } else if cmd & 0x04u8 != 0 {
            (
                conf | 0x01u8,
                (stat | 0x04u8) | 0x08u8,
                if port_a {
                    istat | 0x01u8
                } else {
                    istat
                },
                if port_a {
                    ivec | 0x10u8
                } else {
                    ivec
                },
            )
        } else {
            (conf, stat, istat, ivec)
        };
        // Receiver disable (bit 1) / enable (bit 0); the two ports use
        // different interrupt source masks.
        let c2 = if cmd & 0x02u8 != 0 {
            (
                c1.0 & !0x02u8,
                c1.1 & !0x01u8,
                if port_a {
                    c1.2 & !0x02u8
                } else {
                    c1.2 & !0x20u8
                },
                if port_a {
                    c1.3 & !0x20u8
                } else {
                    c1.3 & !0x04u8
                },
            )
        } else if cmd & 0x01u8 != 0 {
            (c1.0 | 0x02u8, c1.1 | 0x01u8, c1.2, c1.3)
        } else {
            c1
        };
        // Extra command subfield.
        let x = (cmd >> 4u8) & 7u8;
        if x == 1 {
            (c2.0, c2.1, 0usize, c2.2, c2.3)
        } else if x == 2 {
            (c2.0 | 0x02u8, c2.1 | 0x01u8, mode_ptr, c2.2, c2.3)
        } else if x == 3 {
            (c2.0 & !0x01u8, (c2.1 | 0x04u8) | 0x08u8, mode_ptr, c2.2, c2.3)
        } else if x == 4 {
            (c2.0, c2.1 & !(0x40u8 | 0x20u8 | 0x10u8), mode_ptr, c2.2, c2.3)
        } else {
            (c2.0, c2.1, mode_ptr, c2.2, c2.3)
        }
    }
}

/// The value each DUART register shows, with no side effect.
pub open spec fn duart_peek8(d: Duart, address: usize) -> u8 {
    if address == MR12A {
        d.port_a.mode@[d.port_a.mode_ptr as int % 2]
    } else if address == CSRA {
        d.port_a.stat
    } else if address == THRA {
        if d.port_a.rx_queue@.len() > 0 {
            d.port_a.rx_queue@.last()
        } else {
            d.port_a.rx_data
        }
    } else if address == IPCR_ACR {
        d.ipcr
    } else if address == ISR_MASK {
        d.istat
    } else if address == MR12B {
        d.port_b.mode@[d.port_b.mode_ptr as int % 2]
    } else if address == CSRB {
        d.port_b.stat
    } else if address == THRB {
        d.port_b.rx_data
    } else if address == IP_OPCR {
        d.inprt
    } else {
        0u8
    }
}

/// What `read_8` returns and how it changes the chip, register by register.
pub open spec fn duart_read8_rel(pre: Duart, post: Duart, address: usize, r: u8) -> bool {
    if address == MR12A {
        &&& r == pre.port_a.mode@[pre.port_a.mode_ptr as int % 2]
        &&& post == (Duart {
            port_a: (Port {
                mode_ptr: (((pre.port_a.mode_ptr % 2) + 1) % 2) as usize,
                ..pre.port_a
            }),
            ..pre
        })
    } else if address == CSRA {
        r == pre.port_a.stat && post == pre
    } else if address == THRA {
        let qlen = pre.port_a.rx_queue@.len();
        let newdata = if qlen > 0 {
            pre.port_a.rx_queue@.last()
        } else {
            pre.port_a.rx_data
        };
        let empty_after = qlen <= 1;
        &&& r == newdata
        &&& post.port_a.rx_queue@ == if qlen > 0 {
            pre.port_a.rx_queue@.drop_last()
        } else {
            pre.port_a.rx_queue@
        }
        &&& post == (Duart {
            port_a: (Port {
                rx_data: newdata,
                stat: if empty_after {
                    pre.port_a.stat & !0x01u8
                } else {
                    pre.port_a.stat
                },
                rx_queue: post.port_a.rx_queue,
                ..pre.port_a
            }),
            istat: if empty_after {
                pre.istat & !0x02u8
            } else {
                pre.istat
            },
            ivec: if empty_after {
                pre.ivec & !0x20u8
            } else {
                pre.ivec
            },
            ..pre
        })
    } else if address == IPCR_ACR {
        &&& r == pre.ipcr
        &&& post == (Duart {
            ipcr: pre.ipcr & !0x0fu8,
            ivec: 0u8,
            istat: pre.istat & !0x80u8,
            ..pre
        })
    } else if address == ISR_MASK {
        r == pre.istat && post == pre
    } else if address == MR12B {
        &&& r == pre.port_b.mode@[pre.port_b.mode_ptr as int % 2]
        &&& post == (Duart {
            port_b: (Port {
                mode_ptr: (((pre.port_b.mode_ptr % 2) + 1) % 2) as usize,
                ..pre.port_b
            }),
            ..pre
        })
    } else if address == CSRB {
        r == pre.port_b.stat && post == pre
    } else if address == THRB {
        &&& r == pre.port_b.rx_data
        &&& post == (Duart {
            port_b: (Port { stat: pre.port_b.stat & !0x01u8, ..pre.port_b }),
            istat: pre.istat & !0x20u8,
            ivec: pre.ivec & !0x04u8,
            ..pre
        })
    } else if address == IP_OPCR {
        r == pre.inprt && post == pre
    } else {
        r == 0 && post == pre
    }
}

/// What `write_8` does to the chip, register by register.
pub open spec fn duart_write8_rel(pre: Duart, post: Duart, address: usize, value: u8) -> bool {
    if address == MR12A {
        let mp = pre.port_a.mode_ptr as int % 2;
        post == (Duart {
            port_a: (Port {
                mode: vstd::array::spec_array_update(pre.port_a.mode, mp, value),
                mode_ptr: ((mp + 1) % 2) as usize,
                ..pre.port_a
            }),
            ..pre
        })
    } else if address == CSRA {
        let idx = (value >> 4u8) & 0x0fu8;
        post == (Duart {
            port_a: (Port {
                char_delay_ns: if idx <= 12 {
                    spec_delay_rate(pre.acr & 0x80u8 != 0, idx)
                } else {
                    pre.port_a.char_delay_ns
                },
                ..pre.port_a
            }),
            ..pre
        })
    } else if address == CRA {
        let c = spec_command(
            value,
            true,
            pre.port_a.conf,
            pre.port_a.stat,
            pre.port_a.mode_ptr,
            pre.istat,
            pre.ivec,
        );
        post == (Duart {
            port_a: (Port { conf: c.0, stat: c.1, mode_ptr: c.2, ..pre.port_a }),
            istat: c.3,
            ivec: c.4,
            ..pre
        })
    } else if address == THRA {
        post == (Duart {
            port_a: (Port {
                tx_data: value,
                stat: pre.port_a.stat & !(0x08u8 | 0x04u8),
                ..pre.port_a
            }),
            istat: pre.istat & !0x01u8,
            ivec: pre.ivec & !0x10u8,
            ..pre
        })
    } else if address == IPCR_ACR {
        post == (Duart { acr: value, ..pre })
    } else if address == ISR_MASK {
        post == (Duart { imr: value, ..pre })
    } else if address == MR12B {
        let mp = pre.port_b.mode_ptr as int % 2;
        post == (Duart {
            port_b: (Port {
                mode: vstd::array::spec_array_update(pre.port_b.mode, mp, value),
                mode_ptr: ((mp + 1) % 2) as usize,
                ..pre.port_b
            }),
            ..pre
        })
    } else if address == CRB {
        let c = spec_command(
            value,
            false,
            pre.port_b.conf,
            pre.port_b.stat,
            pre.port_b.mode_ptr,
            pre.istat,
            pre.ivec,
        );
        post == (Duart {
            port_b: (Port { conf: c.0, stat: c.1, mode_ptr: c.2, ..pre.port_b }),
            istat: c.3,
            ivec: c.4,
            ..pre
        })
    } else if address == THRB {
        // Only keyboard beep requests (bit 3) are queued for transmission;
        // status requests are ignored.
        if value & 0x08u8 != 0 {
            post == (Duart {
                port_b: (Port {
                    tx_data: value,
                    stat: pre.port_b.stat & !(0x08u8 | 0x04u8),
                    ..pre.port_b
                }),
                istat: pre.istat & !0x10u8,
                ..pre
            })
        } else {
            post == pre
        }
    } else if address == OPBITS_SET {
        post == (Duart { outprt: pre.outprt | value, ..pre })
    } else if address == OPBITS_RESET {
        // Clearing output bit 3 resets the keyboard, which answers with a
        // reset code.
        if value & 0x08u8 != 0 {
            post == (Duart {
                outprt: pre.outprt & !value,
                port_a: (Port {
                    rx_data: 0xf0u8,
                    stat: pre.port_a.stat | 0x01u8,
                    ..pre.port_a
                }),
                ..pre
            })
        } else {
            post == (Duart { outprt: pre.outprt & !value, ..pre })
        }
    } else {
        post == pre
    }
}

/// A key event reaching an enabled port-A receiver: scan code queued,
/// receiver-ready raised, interrupt sources raised. A disabled receiver
/// drops the event.
pub open spec fn duart_key_rel(pre: Duart, post: Duart, code: u8) -> bool {
    if pre.port_a.conf & 0x02u8 != 0 {
        &&& post.port_a.rx_queue@ == pre.port_a.rx_queue@.push(code)
        &&& post == (Duart {
            port_a: (Port {
                stat: pre.port_a.stat | 0x01u8,
                rx_queue: post.port_a.rx_queue,
                ..pre.port_a
            }),
            istat: pre.istat | 0x02u8,
            ivec: pre.ivec | 0x20u8,
            ..pre
        })
    } else {
        post == pre
    }
}

impl Duart {
    pub fn new() -> (d: Duart)
        ensures
            port_reset(d.port_a),
            port_reset(d.port_b),
            d.acr == 0u8,
            d.ipcr == 0x40u8,
            d.inprt == 0x10u8,
            d.outprt == 0u8,
            d.istat == 0u8,
            d.imr == 0u8,
            d.ivec == 0u8,
    {
        Duart {
            port_a: Port::new(),
            port_b: Port::new(),
            acr: 0,
            ipcr: 0x40,
            inprt: 0x10,  // IP4 high: keyboard ready
            outprt: 0,
            istat: 0,
            imr: 0,
            ivec: 0,
        }
    }

    /// A key went down: its scan code is queued to the keyboard port.
    pub fn key_down(&mut self, k: &Key)
        ensures
            duart_key_rel(*old(self), *final(self), spec_map_keycode(*k)),
    {
        let c = map_keycode(k);
        if self.port_a.conf & 0x02 != 0 {
            self.port_a.stat = self.port_a.stat | 0x01;
            self.istat = self.istat | 0x02;
            self.ivec = self.ivec | 0x20;
            self.port_a.rx_queue.push_back(c);
        }
    }

    /// A key went up: its scan code, with the high bit set, is queued to the
    /// keyboard port.
    pub fn key_up(&mut self, k: &Key)
        ensures
            duart_key_rel(*old(self), *final(self), spec_map_keycode(*k) | 0x80u8),
    {
        let c = map_keycode(k) | 0x80;
        if self.port_a.conf & 0x02 != 0 {
            self.port_a.stat = self.port_a.stat | 0x01;
            self.istat = self.istat | 0x02;
            self.ivec = self.ivec | 0x20;
            self.port_a.rx_queue.push_back(c);
        }
    }

    /// Moves the newest queued receive byte of `port` (0 = A, 1 = B) into
    /// its receive holding register, if the receiver is enabled, raising the
    /// ready status and the port's interrupt sources.
    pub fn handle_rx(&mut self, port: usize)
        requires
            port < 2,
        ensures
            ({
                let pre = *old(self);
                let post = *final(self);
                let q = if port == 0 {
                    pre.port_a.rx_queue@
                } else {
                    pre.port_b.rx_queue@
                };
                let conf = if port == 0 {
                    pre.port_a.conf
                } else {
                    pre.port_b.conf
                };
                if q.len() > 0 && conf & 0x02u8 != 0 {
                    if port == 0 {
                        &&& post.port_a.rx_queue@ == q.drop_last()
                        &&& post == (Duart {
                            port_a: (Port {
                                rx_data: q.last(),
                                stat: pre.port_a.stat | 0x01u8,
                                rx_queue: post.port_a.rx_queue,
                                ..pre.port_a
                            }),
                            istat: pre.istat | 0x02u8,
                            ivec: pre.ivec | 0x20u8,
                            ..pre
                        })
                    } else {
                        &&& post.port_b.rx_queue@ == q.drop_last()
                        &&& post == (Duart {
                            port_b: (Port {
                                rx_data: q.last(),
                                stat: pre.port_b.stat | 0x01u8,
                                rx_queue: post.port_b.rx_queue,
                                ..pre.port_b
                            }),
                            istat: pre.istat | 0x20u8,
                            ivec: pre.ivec | 0x04u8,
                            ..pre
                        })
                    }
                } else if q.len() > 0 {
                    // The byte is consumed even when the receiver is off.
                    if port == 0 {
                        post.port_a.rx_queue@ == q.drop_last() && post == (Duart {
                            port_a: (Port { rx_queue: post.port_a.rx_queue, ..pre.port_a }),
                            ..pre
                        })
                    } else {
                        post.port_b.rx_queue@ == q.drop_last() && post == (Duart {
                            port_b: (Port { rx_queue: post.port_b.rx_queue, ..pre.port_b }),
                            ..pre
                        })
                    }
                } else {
                    // Nothing queued: the poll observed an empty queue.
                    if port == 0 {
                        post.port_a.rx_queue@ == q && post == (Duart {
                            port_a: (Port { rx_queue: post.port_a.rx_queue, ..pre.port_a }),
                            ..pre
                        })
                    } else {
                        post.port_b.rx_queue@ == q && post == (Duart {
                            port_b: (Port { rx_queue: post.port_b.rx_queue, ..pre.port_b }),
                            ..pre
                        })
                    }
                }
            }),
    {
        if port == 0 {
            match self.port_a.rx_queue.pop_back() {
                Some(c) => {
                    if self.port_a.conf & 0x02 != 0 {
                        self.port_a.rx_data = c;
                        self.port_a.stat = self.port_a.stat | 0x01;
                        self.istat = self.istat | 0x02;
                        self.ivec = self.ivec | 0x20;
                    }
                },
                None => {},
            }
        } else {
            match self.port_b.rx_queue.pop_back() {
                Some(c) => {
                    if self.port_b.conf & 0x02 != 0 {
                        self.port_b.rx_data = c;
                        self.port_b.stat = self.port_b.stat | 0x01;
                        self.istat = self.istat | 0x20;
                        self.ivec = self.ivec | 0x04;
                    }
                },
                None => {},
            }
        }
    }

    /// Completes a pending transmit on `port` (0 = A, 1 = B): raises
    /// ready/empty, raises the transmit interrupt source (RS-232 only for
    /// the vector), and either loops the byte back to the receiver (loopback
    /// mode) or queues it for the wire.
    pub fn handle_tx(&mut self, port: usize)
        requires
            port < 2,
        ensures
            ({
                let pre = *old(self);
                let post = *final(self);
                let p = if port == 0 {
                    pre.port_a
                } else {
                    pre.port_b
                };
                let active = p.conf & 0x01u8 != 0 && p.stat & 0x04u8 == 0 && p.stat & 0x08u8 == 0;
                let loopback = (p.mode@[1] >> 6u8) & 3u8 == 2;
                if !active {
                    post == pre
                } else if loopback {
                    if port == 0 {
                        post == (Duart {
                            port_a: (Port {
                                rx_data: p.tx_data,
                                stat: ((p.stat | 0x04u8) | 0x08u8) | 0x01u8,
                                ..pre.port_a
                            }),
                            istat: (pre.istat | 0x01u8) | 0x02u8,
                            ivec: pre.ivec | 0x20u8,
                            ..pre
                        })
                    } else {
                        post == (Duart {
                            port_b: (Port {
                                rx_data: p.tx_data,
                                stat: ((p.stat | 0x04u8) | 0x08u8) | 0x01u8,
                                ..pre.port_b
                            }),
                            istat: (pre.istat | 0x10u8) | 0x20u8,
                            ivec: (pre.ivec | 0x10u8) | 0x20u8,
                            ..pre
                        })
                    }
                } else {
                    if port == 0 {
                        &&& post.port_a.tx_queue@ == seq![p.tx_data].add(pre.port_a.tx_queue@)
                        &&& post == (Duart {
                            port_a: (Port {
                                stat: (p.stat | 0x04u8) | 0x08u8,
                                tx_queue: post.port_a.tx_queue,
                                ..pre.port_a
                            }),
                            istat: pre.istat | 0x01u8,
                            ..pre
                        })
                    } else {
                        &&& post.port_b.tx_queue@ == seq![p.tx_data].add(pre.port_b.tx_queue@)
                        &&& post == (Duart {
                            port_b: (Port {
                                stat: (p.stat | 0x04u8) | 0x08u8,
                                tx_queue: post.port_b.tx_queue,
                                ..pre.port_b
                            }),
                            istat: pre.istat | 0x10u8,
                            ivec: pre.ivec | 0x10u8,
                            ..pre
                        })
                    }
                }
            }),
    {
        if port == 0 {
            if self.port_a.conf & 0x01 != 0 && self.port_a.stat & 0x04 == 0 && self.port_a.stat
                & 0x08 == 0 {
                let c = self.port_a.tx_data;
                self.port_a.stat = self.port_a.stat | 0x04;
                self.port_a.stat = self.port_a.stat | 0x08;
                self.istat = self.istat | 0x01;
                if (self.port_a.mode[1] >> 6) & 3 == 2 {
                    // Loopback mode.
                    self.port_a.rx_data = c;
                    self.port_a.stat = self.port_a.stat | 0x01;
                    self.istat = self.istat | 0x02;
                    self.ivec = self.ivec | 0x20;
                } else {
                    self.port_a.tx_queue.push_front(c);
                }
            }
        } else {
            if self.port_b.conf & 0x01 != 0 && self.port_b.stat & 0x04 == 0 && self.port_b.stat
                & 0x08 == 0 {
                let c = self.port_b.tx_data;
                self.port_b.stat = self.port_b.stat | 0x04;
                self.port_b.stat = self.port_b.stat | 0x08;
                self.istat = self.istat | 0x10;
                // Only the RS-232 transmitter raises the interrupt vector.
                self.ivec = self.ivec | 0x10;
                if (self.port_b.mode[1] >> 6) & 3 == 2 {
                    // Loopback mode.
                    self.port_b.rx_data = c;
                    self.port_b.stat = self.port_b.stat | 0x01;
                    self.istat = self.istat | 0x20;
                    self.ivec = self.ivec | 0x20;
                } else {
                    self.port_b.tx_queue.push_front(c);
                }
            }
        }
    }

    /// Applies a command byte to `port` (0 = A, 1 = B): transmitter and
    /// receiver enable/disable sub-fields, then the extra-command sub-field;
    /// unrecognised extra commands are no-ops.
    pub fn handle_command(&mut self, cmd: u8, port: usize)
        requires
            port < 2,
        ensures
            ({
                let pre = *old(self);
                let post = *final(self);
                if port == 0 {
                    let c = spec_command(
                        cmd,
                        true,
                        pre.port_a.conf,
                        pre.port_a.stat,
                        pre.port_a.mode_ptr,
                        pre.istat,
                        pre.ivec,
                    );
                    post == (Duart {
                        port_a: (Port { conf: c.0, stat: c.1, mode_ptr: c.2, ..pre.port_a }),
                        istat: c.3,
                        ivec: c.4,
                        ..pre
                    })
                } else {
                    let c = spec_command(
                        cmd,
                        false,
                        pre.port_b.conf,
                        pre.port_b.stat,
                        pre.port_b.mode_ptr,
                        pre.istat,
                        pre.ivec,
                    );
                    post == (Duart {
                        port_b: (Port { conf: c.0, stat: c.1, mode_ptr: c.2, ..pre.port_b }),
                        istat: c.3,
                        ivec: c.4,
                        ..pre
                    })
                }
            }),
    {
        if cmd == 0 {
            return ;
        }
        let port_a = port == 0;
        let mut conf: u8 = if port_a {
            self.port_a.conf
        } else {
            self.port_b.conf
        };
        let mut stat: u8 = if port_a {
            self.port_a.stat
        } else {
            self.port_b.stat
        };
        let mut mode_ptr: usize = if port_a {
            self.port_a.mode_ptr
        } else {
            self.port_b.mode_ptr
        };

        // Enable or disable transmitter.
        if cmd & 0x08 != 0 {
            conf = conf & !0x01;
            stat = (stat & !0x04) & !0x08;
            if port_a {
                self.ivec = self.ivec & !0x10;
                self.istat = self.istat & !0x01;
            }
        } else if cmd & 0x04 != 0 {
            conf = conf | 0x01;
            stat = (stat | 0x04) | 0x08;
            if port_a {
                self.istat = self.istat | 0x01;
                self.ivec = self.ivec | 0x10;
            }
        }

        // Enable or disable receiver.
        if cmd & 0x02 != 0 {
            conf = conf & !0x02;
            stat = stat & !0x01;
            if port_a {
                self.ivec = self.ivec & !0x20;
                self.istat = self.istat & !0x02;
            } else {
                self.ivec = self.ivec & !0x04;
                self.istat = self.istat & !0x20;
            }
        } else if cmd & 0x01 != 0 {
            conf = conf | 0x02;
            stat = stat | 0x01;
        }

        // Extra commands.
        let x = (cmd >> 4) & 7;
        if x == 1 {
            mode_ptr = 0;
        } else if x == 2 {
            stat = stat | 0x01;
            conf = conf | 0x02;
        } else if x == 3 {
            stat = (stat | 0x04) | 0x08;
            conf = conf & !0x01;
        } else if x == 4 {
            stat = stat & !(0x40 | 0x20 | 0x10);
        }

        if port_a {
            self.port_a.conf = conf;
            self.port_a.stat = stat;
            self.port_a.mode_ptr = mode_ptr;
        } else {
            self.port_b.conf = conf;
            self.port_b.stat = stat;
            self.port_b.mode_ptr = mode_ptr;
        }
    }

    /// Shows a register's value without any side effect, for instruction
    /// tracing: the mode pointer does not advance and no queue is drained.
    pub fn peek_8(&self, address: usize) -> (r: u8)
        ensures
            r == duart_peek8(*self, address),
    {
        if address == MR12A {
            self.port_a.mode[self.port_a.mode_ptr % 2]
        } else if address == CSRA {
            self.port_a.stat
        } else if address == THRA {
            let n = self.port_a.rx_queue.len();
            if n > 0 {
                self.port_a.rx_queue[n - 1]
            } else {
                self.port_a.rx_data
            }
        } else if address == IPCR_ACR {
            self.ipcr
        } else if address == ISR_MASK {
            self.istat
        } else if address == MR12B {
            self.port_b.mode[self.port_b.mode_ptr % 2]
        } else if address == CSRB {
            self.port_b.stat
        } else if address == THRB {
            self.port_b.rx_data
        } else if address == IP_OPCR {
            self.inprt
        } else {
            0
        }
    }

    /// Reads one DUART register; reading can pop the keyboard receive queue
    /// or clear latched interrupt state, as the relation records.
    pub fn read_8(&mut self, address: usize) -> (r: Result<u8, BusError>)
        ensures
            r is Ok,
            duart_read8_rel(*old(self), *final(self), address, r.unwrap()),
    {
        if address == MR12A {
            let mp = self.port_a.mode_ptr % 2;
            let val = self.port_a.mode[mp];
            self.port_a.mode_ptr = (mp + 1) % 2;
            Ok(val)
        } else if address == CSRA {
            Ok(self.port_a.stat)
        } else if address == THRA {
            match self.port_a.rx_queue.pop_back() {
                Some(c) => {
                    self.port_a.rx_data = c;
                },
                None => {},
            }
            if self.port_a.rx_queue.len() == 0 {
                self.port_a.stat = self.port_a.stat & !0x01;
                self.istat = self.istat & !0x02;
                self.ivec = self.ivec & !0x20;
            }
            Ok(self.port_a.rx_data)
        } else if address == IPCR_ACR {
            let result = self.ipcr;
            self.ipcr = self.ipcr & !0x0f;
            self.ivec = 0;
            self.istat = self.istat & !0x80;
            Ok(result)
        } else if address == ISR_MASK {
            Ok(self.istat)
        } else if address == MR12B {
            let mp = self.port_b.mode_ptr % 2;
            let val = self.port_b.mode[mp];
            self.port_b.mode_ptr = (mp + 1) % 2;
            Ok(val)
        } else if address == CSRB {
            Ok(self.port_b.stat)
        } else if address == THRB {
            self.port_b.stat = self.port_b.stat & !0x01;
            self.istat = self.istat & !0x20;
            self.ivec = self.ivec & !0x04;
            Ok(self.port_b.rx_data)
        } else if address == IP_OPCR {
            Ok(self.inprt)
        } else {
            Ok(0)
        }
    }

    /// 16-bit read: the mode register pair reads as one big-endian word;
    /// any other register reads as its 8-bit value zero-extended.
    pub fn read_16(&mut self, address: usize) -> (r: Result<u16, BusError>)
        ensures
            r is Ok,
            address == MR12A ==> r.unwrap() == (old(self).port_a.mode@[1] * 256 + old(
                self,
            ).port_a.mode@[0]) as u16 && *final(self) == *old(self),
            address != MR12A ==> duart_read8_rel(
                *old(self),
                *final(self),
                address,
                (r.unwrap() & 0xffu16) as u8,
            ) && r.unwrap() <= 0xff,
    {
        if address == MR12A {
            let lo: u16 = self.port_a.mode[0] as u16;
            let hi: u16 = (self.port_a.mode[1] as u16) * 256;
            Ok(hi + lo)
        } else {
            match self.read_8(address) {
                Ok(b) => {
                    proof {
                        assert((b as u16) & 0xffu16 == b as u16) by (bit_vector);
                    }
                    Ok(b as u16)
                },
                Err(e) => Err(e),
            }
        }
    }

    /// Writes one DUART register, as the relation records.
    pub fn write_8(&mut self, address: usize, value: u8) -> (r: Result<(), BusError>)
        ensures
            r == Ok::<(), BusError>(()),
            duart_write8_rel(*old(self), *final(self), address, value),
    {
        if address == MR12A {
            let mp = self.port_a.mode_ptr % 2;
            self.port_a.mode[mp] = value;
            self.port_a.mode_ptr = (mp + 1) % 2;
            proof {
                assert(self.port_a.mode =~= vstd::array::spec_array_update(
                    old(self).port_a.mode,
                    old(self).port_a.mode_ptr as int % 2,
                    value,
                ));
            }
        } else if address == CSRA {
            // Clock select: the upper-nibble index picks a character delay
            // from the rate table the ACR mode bit selects. Out-of-table
            // indices are ignored.
            let idx = (value >> 4) & 0x0f;
            if idx <= 12 {
                self.port_a.char_delay_ns = delay_rate(self.acr & 0x80 != 0, idx);
            }
        } else if address == CRA {
            self.handle_command(value, 0);
        } else if address == THRA {
            self.port_a.tx_data = value;
            // The actual transmit happens later, in servicing; until then
            // the holding register is full.
            self.port_a.stat = self.port_a.stat & !(0x08 | 0x04);
            self.istat = self.istat & !0x01;
            self.ivec = self.ivec & !0x10;
        } else if address == IPCR_ACR {
            self.acr = value;
        } else if address == ISR_MASK {
            self.imr = value;
        } else if address == MR12B {
            let mp = self.port_b.mode_ptr % 2;
            self.port_b.mode[mp] = value;
            self.port_b.mode_ptr = (mp + 1) % 2;
            proof {
                assert(self.port_b.mode =~= vstd::array::spec_array_update(
                    old(self).port_b.mode,
                    old(self).port_b.mode_ptr as int % 2,
                    value,
                ));
            }
        } else if address == CRB {
            self.handle_command(value, 1);
        } else if address == THRB {
            if value & 0x08 != 0 {
                self.port_b.tx_data = value;
                self.port_b.stat = self.port_b.stat & !(0x08 | 0x04);
                self.istat = self.istat & !0x10;
            }
        } else if address == OPBITS_SET {
            self.outprt = self.outprt | value;
        } else if address == OPBITS_RESET {
            self.outprt = self.outprt & !value;
            if value & 0x08 != 0 {
                // Keyboard reset: the keyboard answers with a reset code.
                self.port_a.rx_data = 0xf0;
                self.port_a.stat = self.port_a.stat | 0x01;
            }
        }
        Ok(())
    }
}

/// Law: a command byte with only the "disable transmitter" bit set clears
/// both the transmitter-ready and transmitter-empty status bits (and, on
/// port A, the TX interrupt source and vector bit); a subsequent command
/// with only the "enable transmitter" bit set restores both status bits.
pub proof fn lemma_tx_disable_then_enable(
    conf: u8,
    stat: u8,
    mode_ptr: usize,
    istat: u8,
    ivec: u8,
    port_a: bool,
)
    ensures
        ({
            let c1 = spec_command(0x08u8, port_a, conf, stat, mode_ptr, istat, ivec);
            let c2 = spec_command(0x04u8, port_a, c1.0, c1.1, c1.2, c1.3, c1.4);
            &&& c1.1 & 0x04u8 == 0
            &&& c1.1 & 0x08u8 == 0
            &&& (port_a ==> c1.3 & 0x01u8 == 0 && c1.4 & 0x10u8 == 0)
            &&& c2.1 & 0x04u8 == 0x04u8
            &&& c2.1 & 0x08u8 == 0x08u8
        }),
{
    assert(0x08u8 & 0x08u8 != 0 && 0x08u8 & 0x02u8 == 0 && 0x08u8 & 0x01u8 == 0 && (0x08u8 >> 4u8)
        & 7u8 == 0) by (bit_vector);
    assert(0x04u8 & 0x08u8 == 0 && 0x04u8 & 0x04u8 != 0 && 0x04u8 & 0x02u8 == 0 && 0x04u8 & 0x01u8
        == 0 && (0x04u8 >> 4u8) & 7u8 == 0) by (bit_vector);
    assert forall|s: u8| ((s & !0x04u8) & !0x08u8) & 0x04u8 == 0 && ((s & !0x04u8) & !0x08u8)
        & 0x08u8 == 0 by {
        assert(((s & !0x04u8) & !0x08u8) & 0x04u8 == 0 && ((s & !0x04u8) & !0x08u8) & 0x08u8 == 0)
            by (bit_vector);
    }
    assert forall|s: u8| ((s | 0x04u8) | 0x08u8) & 0x04u8 == 0x04u8 && ((s | 0x04u8) | 0x08u8)
        & 0x08u8 == 0x08u8 by {
        assert(((s | 0x04u8) | 0x08u8) & 0x04u8 == 0x04u8 && ((s | 0x04u8) | 0x08u8) & 0x08u8
            == 0x08u8) by (bit_vector);
    }
    assert forall|v: u8| (v & !0x01u8) & 0x01u8 == 0 && (v & !0x10u8) & 0x10u8 == 0 by {
        assert((v & !0x01u8) & 0x01u8 == 0 && (v & !0x10u8) & 0x10u8 == 0) by (bit_vector);
    }
}

} // verus!
