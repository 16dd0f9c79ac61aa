//! NCR 5385 SCSI host adapter state machine.
//!
//! The CPU drives the controller through its register window; interrupt-
//! driven commands schedule a deferred `service` call through the
//! [`ServiceQueue`] rather than acting at write time, so the "interrupt
//! happens some time after the command" timing of the hardware is kept.
//! Methods that assert the CPU interrupt line return the level to raise;
//! the bus records it for the embedder.

use vstd::prelude::*;

use crate::err::BusError;
use crate::service::{ServiceKey, ServiceQueue, ServiceRequest};

verus! {

/// The hardwired SCSI ID of the host controller.
pub const HOST_ID: u8 = 7;

/// The CPU interrupt level of the SCSI controller.
pub const SCSI_INT: u8 = 3;

// Aux status flags: I/O, C/D and MSG encode the bus phase; DF is
// "data register full".
pub const AUX_IO: u8 = 0x08;

pub const AUX_CD: u8 = 0x10;

pub const AUX_MSG: u8 = 0x20;

pub const AUX_DF: u8 = 0x80;

// Interrupt flags: "function complete" and "bus service".
pub const INT_FC: u8 = 0x01;

pub const INT_BUS: u8 = 0x02;

// Register addresses. The second data register sits where the hardware
// map places it, above the 24-bit window, so the bus never actually
// routes to it.
pub const REG_ADDRESS: usize = 0x7bc000;

pub const REG_DATA1: usize = 0x7be000;

pub const REG_COMMAND: usize = 0x7be002;

pub const REG_CONTROL: usize = 0x7be004;

pub const REG_DEST_ID: usize = 0x7be006;

pub const REG_AUX_STATUS: usize = 0x7be008;

pub const REG_ID: usize = 0x7be00a;

pub const REG_INTERRUPT: usize = 0x7be00c;

pub const REG_SOURCE_ID: usize = 0x7be00e;

pub const REG_DATA2: usize = 0x7be0010;

pub const REG_DIAG_STATUS: usize = 0x7be012;

pub const REG_XFER2: usize = 0x7be018;

pub const REG_XFER1: usize = 0x7be01a;

pub const REG_XFER0: usize = 0x7be01c;

/// Scheduling delays after a select and a transfer-info command.
pub const SELECT_DELAY_NS: u64 = 250000000;

pub const XFER_DELAY_NS: u64 = 100000000;

/// SCSI bus commands, decoded from the low five bits of a command byte.
#[derive(Copy, Clone, PartialEq, Eq, Structural, Debug)]
pub enum Command {
    // Immediate commands.
    ChipReset,
    Disconnect,
    Paused,
    SetAtn,
    MessageAccepted,
    ChipDisable,
    // Interrupt-driven commands.
    SelectWithAtn,
    SelectWithoutAtn,
    Reselect,
    Diagnostic,
    RxCmd,
    RxData,
    RxMessageOut,
    RxUnspInfoOut,
    TxStatus,
    TxData,
    TxMessageOut,
    TxUnspInfoIn,
    TransferInfo,
    TransferPad,
}

/// The opcode a five-bit value decodes to, if any.
pub open spec fn spec_command_from_u8(v: u8) -> Option<Command> {
    if v == 0 {
        Some(Command::ChipReset)
    } else if v == 1 {
        Some(Command::Disconnect)
    } else if v == 2 {
        Some(Command::Paused)
    } else if v == 3 {
        Some(Command::SetAtn)
    } else if v == 4 {
        Some(Command::MessageAccepted)
    } else if v == 5 {
        Some(Command::ChipDisable)
    } else if v == 8 {
        Some(Command::SelectWithAtn)
    } else if v == 9 {
        Some(Command::SelectWithoutAtn)
    } else if v == 10 {
        Some(Command::Reselect)
    } else if v == 11 {
        Some(Command::Diagnostic)
    } else if v == 12 {
        Some(Command::RxCmd)
    } else if v == 13 {
        Some(Command::RxData)
    } else if v == 14 {
        Some(Command::RxMessageOut)
    } else if v == 15 {
        Some(Command::RxUnspInfoOut)
    } else if v == 16 {
        Some(Command::TxStatus)
    } else if v == 17 {
        Some(Command::TxData)
    } else if v == 18 {
        Some(Command::TxMessageOut)
    } else if v == 19 {
        Some(Command::TxUnspInfoIn)
    } else if v == 20 {
        Some(Command::TransferInfo)
    } else if v == 21 {
        Some(Command::TransferPad)
    } else {
        None
    }
}

/// Decodes a five-bit opcode; values with no assigned command give `None`.
pub fn command_from_u8(v: u8) -> (c: Option<Command>)
    ensures
        c == spec_command_from_u8(v),
{
    if v == 0 {
        Some(Command::ChipReset)
    } else if v == 1 {
        Some(Command::Disconnect)
    } else if v == 2 {
        Some(Command::Paused)
    } else if v == 3 {
        Some(Command::SetAtn)
    } else if v == 4 {
        Some(Command::MessageAccepted)
    } else if v == 5 {
        Some(Command::ChipDisable)
    } else if v == 8 {
        Some(Command::SelectWithAtn)
    } else if v == 9 {
        Some(Command::SelectWithoutAtn)
    } else if v == 10 {
        Some(Command::Reselect)
    } else if v == 11 {
        Some(Command::Diagnostic)
    } else if v == 12 {
        Some(Command::RxCmd)
    } else if v == 13 {
        Some(Command::RxData)
    } else if v == 14 {
        Some(Command::RxMessageOut)
    } else if v == 15 {
        Some(Command::RxUnspInfoOut)
    } else if v == 16 {
        Some(Command::TxStatus)
    } else if v == 17 {
        Some(Command::TxData)
    } else if v == 18 {
        Some(Command::TxMessageOut)
    } else if v == 19 {
        Some(Command::TxUnspInfoIn)
    } else if v == 20 {
        Some(Command::TransferInfo)
    } else if v == 21 {
        Some(Command::TransferPad)
    } else {
        None
    }
}

/// Whether the controller sits on the bus as initiator or target.
#[derive(Copy, Clone, PartialEq, Eq, Structural, Debug)]
pub enum ControllerState {
    Disconnected,
    Target,
    Initiator,
}

/// Per-target handshake progress, tracked for each of the eight SCSI IDs.
#[derive(Copy, Clone, PartialEq, Eq, Structural, Debug)]
pub enum ScsiDeviceState {
    Unselected,
    Selected,
    Command,
    DataOut,
}

#[derive(Copy, Clone, PartialEq, Eq, Structural, Debug)]
pub struct ScsiDevice {
    pub state: ScsiDeviceState,
}

impl ScsiDevice {
    pub fn reset(&mut self)
        ensures
            final(self).state == ScsiDeviceState::Unselected,
    {
        self.state = ScsiDeviceState::Unselected;
    }
}

impl Default for ScsiDevice {
    fn default() -> (d: ScsiDevice)
        ensures
            d.state == ScsiDeviceState::Unselected,
    {
        ScsiDevice { state: ScsiDeviceState::Unselected }
    }
}

/// The SCSI host adapter.
pub struct Scsi {
    pub address: u16,
    pub address_msb: bool,
    pub data1: u8,
    pub command: u8,
    pub control: u8,
    pub dest_id: u8,
    pub aux_stat: u8,
    pub id: u8,
    pub interrupt: u8,
    pub source_id: u8,
    pub data2: u8,
    pub diag_status: u8,
    pub xfer: u32,
    pub cmd_ptr: usize,
    pub controller_state: ControllerState,
    pub scsi_cmd: [u8; 16],
    pub atn: bool,
    pub devices: [ScsiDevice; 8],
}

/// The documented power-on register values a chip reset restores:
/// aux-status 0x02, source ID 0x07, diagnostic status 0x80, everything
/// else cleared and every per-target state `Unselected`.
pub open spec fn reset_state(s: Scsi) -> bool {
    &&& s.address == 0u16
    &&& s.address_msb == false
    &&& s.data1 == 0u8
    &&& s.command == 0u8
    &&& s.control == 0u8
    &&& s.dest_id == 0u8
    &&& s.aux_stat == 0x02u8
    &&& s.id == HOST_ID
    &&& s.interrupt == 0u8
    &&& s.source_id == 0x07u8
    &&& s.data2 == 0u8
    &&& s.diag_status == 0x80u8
    &&& s.xfer == 0u32
    &&& s.cmd_ptr == 0usize
    &&& s.controller_state == ControllerState::Disconnected
    &&& s.scsi_cmd@ == Seq::new(16, |i: int| 0u8)
    &&& s.atn == false
    &&& forall|i: int| 0 <= i < 8 ==> s.devices@[i].state == ScsiDeviceState::Unselected
}

/// Effect of selecting a target (with or without attention): the target
/// the destination register names goes to `Selected`, function-complete is
/// latched, aux-status shows the Command phase (C/D set, I/O and MSG
/// clear), and the source ID is marked valid.
pub open spec fn select_rel(pre: Scsi, post: Scsi, atn: bool) -> bool {
    post == (Scsi {
        controller_state: ControllerState::Initiator,
        atn: atn,
        devices: vstd::array::spec_array_update(
            pre.devices,
            (pre.dest_id & 0x7u8) as int,
            ScsiDevice { state: ScsiDeviceState::Selected },
        ),
        interrupt: INT_FC,
        aux_stat: AUX_CD,
        source_id: 0x80u8 | pre.dest_id,
        ..pre
    })
}

/// Effect of one serviced deadline on the controller, by the selected
/// target's state; `irq` is the interrupt level it asserts, if any.
pub open spec fn service_rel(pre: Scsi, post: Scsi, irq: Option<u8>) -> bool {
    let id = (pre.dest_id & 0x7u8) as int;
    match pre.devices@[id].state {
        ScsiDeviceState::Selected => {
            // Selected -> Command: bus-service interrupt, Command phase.
            &&& post == (Scsi {
                interrupt: INT_BUS,
                aux_stat: AUX_CD,
                devices: vstd::array::spec_array_update(
                    pre.devices,
                    id,
                    ScsiDevice { state: ScsiDeviceState::Command },
                ),
                ..pre
            })
            &&& irq == Some(SCSI_INT)
        },
        ScsiDeviceState::Command => {
            // Command -> Data or Status, toggled by the prior phase bits.
            &&& post == (Scsi {
                data1: 0u8,
                interrupt: INT_BUS | INT_FC,
                aux_stat: if pre.aux_stat & (AUX_MSG | AUX_CD | AUX_IO) == (AUX_CD | AUX_IO) {
                    AUX_DF | AUX_IO
                } else {
                    (AUX_DF | AUX_CD) | AUX_IO
                },
                ..pre
            })
            &&& irq == Some(SCSI_INT)
        },
        ScsiDeviceState::DataOut => {
            &&& post == (Scsi { interrupt: INT_BUS | INT_FC, aux_stat: AUX_DF, ..pre })
            &&& irq is None
        },
        ScsiDeviceState::Unselected => {
            post == pre && irq is None
        },
    }
}

/// Effect of a command byte: the low five bits select the opcode; the two
/// high mode bits (DMA, single-byte transfer) do not alter the effect here.
/// Unassigned or not-yet-handled opcodes leave the controller and the
/// queue untouched — they never fault.
pub open spec fn handle_command_rel(
    pre: Scsi,
    post: Scsi,
    qpre: Seq<ServiceRequest>,
    qpost: Seq<ServiceRequest>,
    now: u64,
    command: u8,
    irq: Option<u8>,
) -> bool {
    let op = command & 0x1fu8;
    if op == 0 {
        reset_state(post) && qpost == qpre && irq is None
    } else if op == 8 || op == 9 {
        &&& select_rel(pre, post, op == 8)
        &&& qpost == qpre.push(
            ServiceRequest { key: ServiceKey::Scsi, when: (now + SELECT_DELAY_NS) as u64 },
        )
        &&& irq == Some(SCSI_INT)
    } else if op == 20 {
        &&& post == (Scsi { cmd_ptr: 0usize, ..pre })
        &&& qpost == qpre.push(
            ServiceRequest { key: ServiceKey::Scsi, when: (now + XFER_DELAY_NS) as u64 },
        )
        &&& irq is None
    } else {
        post == pre && qpost == qpre && irq is None
    }
}

/// The value each controller register shows, with no side effect.
pub open spec fn scsi_peek8(s: Scsi, address: usize) -> u8 {
    if address == REG_DATA1 {
        s.data1
    } else if address == REG_COMMAND {
        s.command
    } else if address == REG_CONTROL {
        s.control
    } else if address == REG_DEST_ID {
        s.dest_id
    } else if address == REG_AUX_STATUS {
        s.aux_stat
    } else if address == REG_ID {
        s.id
    } else if address == REG_INTERRUPT {
        s.interrupt
    } else if address == REG_SOURCE_ID {
        s.source_id
    } else if address == REG_DATA2 {
        s.data2
    } else if address == REG_DIAG_STATUS {
        s.diag_status
    } else if address == REG_XFER2 {
        ((s.xfer >> 16u32) & 0xffu32) as u8
    } else if address == REG_XFER1 {
        ((s.xfer >> 8u32) & 0xffu32) as u8
    } else if address == REG_XFER0 {
        (s.xfer & 0xffu32) as u8
    } else {
        0u8
    }
}

/// What reading a register returns and changes: every register reads as
/// its shown value. Two reads have side effects: the first data register
/// clears the data-register-full flag, and the interrupt register clears
/// its accumulated interrupt flags (they are latched until read).
pub open spec fn scsi_read8_rel(pre: Scsi, post: Scsi, address: usize, r: u8) -> bool {
    &&& r == scsi_peek8(pre, address)
    &&& post == (if address == REG_DATA1 {
        Scsi { aux_stat: pre.aux_stat & !AUX_DF, ..pre }
    } else if address == REG_INTERRUPT {
        Scsi { interrupt: 0u8, ..pre }
    } else {
        pre
    })
}

/// What writing a register does: the address latch alternates low byte
/// then high byte; command bytes accumulate in the command block until it
/// is full, after which further bytes are ignored; a command-register
/// write rewinds the block pointer, latches the byte and dispatches it.
pub open spec fn scsi_write8_rel(
    pre: Scsi,
    post: Scsi,
    qpre: Seq<ServiceRequest>,
    qpost: Seq<ServiceRequest>,
    now: u64,
    address: usize,
    value: u8,
    irq: Option<u8>,
) -> bool {
    if address == REG_ADDRESS {
        &&& qpost == qpre
        &&& irq is None
        &&& post == (if pre.address_msb {
            Scsi {
                address: (pre.address & 0x00ffu16) | ((value as u16) << 8u16),
                address_msb: false,
                ..pre
            }
        } else {
            Scsi { address: (pre.address & 0xff00u16) | (value as u16), address_msb: true, ..pre }
        })
    } else if address == REG_DATA1 {
        &&& qpost == qpre
        &&& irq is None
        &&& post == (if pre.cmd_ptr < 16 {
            Scsi {
                scsi_cmd: vstd::array::spec_array_update(pre.scsi_cmd, pre.cmd_ptr as int, value),
                cmd_ptr: (pre.cmd_ptr + 1) as usize,
                ..pre
            }
        } else {
            pre
        })
    } else if address == REG_COMMAND {
        handle_command_rel(
            Scsi { cmd_ptr: 0usize, ..pre },
            post,
            qpre,
            qpost,
            now,
            value,
            irq,
        )
    } else if address == REG_CONTROL {
        qpost == qpre && irq is None && post == (Scsi { control: value, ..pre })
    } else if address == REG_DEST_ID {
        qpost == qpre && irq is None && post == (Scsi { dest_id: value, ..pre })
    } else if address == REG_XFER2 {
        qpost == qpre && irq is None && post == (Scsi {
            xfer: (pre.xfer & 0x00ffffu32) | ((value as u32) << 16u32),
            ..pre
        })
    } else if address == REG_XFER1 {
        qpost == qpre && irq is None && post == (Scsi {
            xfer: (pre.xfer & 0xff00ffu32) | ((value as u32) << 8u32),
            ..pre
        })
    } else if address == REG_XFER0 {
        qpost == qpre && irq is None && post == (Scsi {
            xfer: (pre.xfer & 0xffff00u32) | (value as u32),
            ..pre
        })
    } else {
        qpost == qpre && irq is None && post == pre
    }
}

impl Scsi {
    pub fn new() -> (s: Scsi)
        ensures
            s.address == 0u16,
            s.address_msb == false,
            s.data1 == 0u8,
            s.command == 0u8,
            s.control == 0u8,
            s.dest_id == 0u8,
            s.aux_stat == 0u8,
            s.id == HOST_ID,
            s.interrupt == 0u8,
            s.source_id == 0u8,
            s.data2 == 0u8,
            s.diag_status == 0u8,
            s.xfer == 0u32,
            s.cmd_ptr == 0usize,
            s.controller_state == ControllerState::Disconnected,
            s.scsi_cmd@ == Seq::new(16, |i: int| 0u8),
            s.atn == false,
            forall|i: int| 0 <= i < 8 ==> s.devices@[i].state == ScsiDeviceState::Unselected,
    {
        let s = Scsi {
            address: 0,
            address_msb: false,
            data1: 0,
            command: 0,
            control: 0,
            dest_id: 0,
            aux_stat: 0,
            id: HOST_ID,
            interrupt: 0,
            source_id: 0,
            data2: 0,
            diag_status: 0,
            xfer: 0,
            cmd_ptr: 0,
            scsi_cmd: [0;16],
            controller_state: ControllerState::Disconnected,
            atn: false,
            devices: [ScsiDevice { state: ScsiDeviceState::Unselected };8],
        };
        proof {
            assert(s.scsi_cmd@ =~= Seq::new(16, |i: int| 0u8));
        }
        s
    }

    /// Chip reset: restores every register to its documented power-on
    /// value and every per-target state to `Unselected`.
    pub fn reset(&mut self)
        ensures
            reset_state(*final(self)),
    {
        self.address = 0;
        self.address_msb = false;
        self.data1 = 0;
        self.command = 0;
        self.control = 0;
        self.dest_id = 0;
        self.aux_stat = 0x02;  // From the datasheet.
        self.id = HOST_ID;
        self.interrupt = 0;
        self.source_id = 0x07;  // From the datasheet.
        self.data2 = 0;
        self.diag_status = 0x80;  // From the datasheet.
        self.xfer = 0;
        self.cmd_ptr = 0;
        self.scsi_cmd = [0;16];
        self.controller_state = ControllerState::Disconnected;
        self.atn = false;
        self.devices = [ScsiDevice { state: ScsiDeviceState::Unselected };8];
        proof {
            assert(self.scsi_cmd@ =~= Seq::new(16, |i: int| 0u8));
        }
    }

    /// Disconnect is acknowledged and otherwise not modelled further.
    pub fn disconnect(&mut self)
        ensures
            *final(self) == *old(self),
    {
    }

    /// Selects the target the destination-ID register names and schedules
    /// the deferred service call that will advance the handshake; the
    /// scheduled deadline lies strictly in the future.
    pub fn select(&mut self, queue: &mut ServiceQueue, now: u64, atn: bool) -> (irq: Option<u8>)
        requires
            now + SELECT_DELAY_NS <= u64::MAX,
        ensures
            select_rel(*old(self), *final(self), atn),
            final(queue).queue@ == old(queue).queue@.push(
                ServiceRequest { key: ServiceKey::Scsi, when: (now + SELECT_DELAY_NS) as u64 },
            ),
            final(queue).queue@.last().when > now,
            irq == Some(SCSI_INT),
    {
        self.controller_state = ControllerState::Initiator;
        self.atn = atn;

        // Mark the addressed target as selected.
        let d = self.dest_id;
        proof {
            assert(d & 0x7u8 < 8) by (bit_vector);
        }
        let id = (d & 0x7) as usize;
        self.devices[id] = ScsiDevice { state: ScsiDeviceState::Selected };

        self.interrupt = INT_FC;
        self.aux_stat = AUX_CD;  // I/O=0, C/D=1, MSG=0: Command phase.
        self.source_id = 0x80 | self.dest_id;  // Bit 7: valid ID from target.
        queue.schedule(ServiceKey::Scsi, now, SELECT_DELAY_NS);
        proof {
            assert(self.devices =~= vstd::array::spec_array_update(
                old(self).devices,
                (old(self).dest_id & 0x7u8) as int,
                ScsiDevice { state: ScsiDeviceState::Selected },
            ));
        }
        Some(SCSI_INT)
    }

    /// Transfer-info: rewinds the command-byte pointer and schedules the
    /// deferred service call.
    pub fn transfer_info(&mut self, queue: &mut ServiceQueue, now: u64)
        requires
            now + XFER_DELAY_NS <= u64::MAX,
        ensures
            *final(self) == (Scsi { cmd_ptr: 0usize, ..*old(self) }),
            final(queue).queue@ == old(queue).queue@.push(
                ServiceRequest { key: ServiceKey::Scsi, when: (now + XFER_DELAY_NS) as u64 },
            ),
    {
        self.cmd_ptr = 0;
        queue.schedule(ServiceKey::Scsi, now, XFER_DELAY_NS);
    }

    /// Transfer-pad is acknowledged and otherwise not modelled.
    pub fn transfer_pad(&self) {
    }

    /// Dispatches a command-register byte. The first component of the
    /// result is always `Ok`: undefined commands are ignored, never faults.
    pub fn handle_command(&mut self, queue: &mut ServiceQueue, now: u64, command: u8) -> (r: (
        Result<(), BusError>,
        Option<u8>,
    ))
        requires
            now + SELECT_DELAY_NS <= u64::MAX,
        ensures
            r.0 == Ok::<(), BusError>(()),
            handle_command_rel(
                *old(self),
                *final(self),
                old(queue).queue@,
                final(queue).queue@,
                now,
                command,
                r.1,
            ),
    {
        let op = command & 0x1f;
        let irq: Option<u8> = match command_from_u8(op) {
            Some(Command::ChipReset) => {
                self.reset();
                None
            },
            Some(Command::Disconnect) => {
                self.disconnect();
                None
            },
            Some(Command::SelectWithoutAtn) => self.select(queue, now, false),
            Some(Command::SelectWithAtn) => self.select(queue, now, true),
            Some(Command::TransferInfo) => {
                self.transfer_info(queue, now);
                None
            },
            Some(Command::TransferPad) => {
                self.transfer_pad();
                None
            },
            Some(_) => None,  // Recognised but not yet handled: ignored.
            None => None,  // Undefined opcode: ignored.
        };
        (Ok(()), irq)
    }

    /// Reads one controller register. The first data register clears the
    /// data-register-full flag; the interrupt register hands out its
    /// accumulated flags and clears them.
    pub fn read_8(&mut self, address: usize) -> (r: Result<u8, BusError>)
        ensures
            r is Ok,
            scsi_read8_rel(*old(self), *final(self), address, r.unwrap()),
    {
        if address == REG_DATA1 {
            self.aux_stat = self.aux_stat & !AUX_DF;
            Ok(self.data1)
        } else if address == REG_COMMAND {
            Ok(self.command)
        } else if address == REG_CONTROL {
            Ok(self.control)
        } else if address == REG_DEST_ID {
            Ok(self.dest_id)
        } else if address == REG_AUX_STATUS {
            Ok(self.aux_stat)
        } else if address == REG_ID {
            Ok(self.id)
        } else if address == REG_INTERRUPT {
            let v = self.interrupt;
            self.interrupt = 0;
            Ok(v)
        } else if address == REG_SOURCE_ID {
            Ok(self.source_id)
        } else if address == REG_DATA2 {
            Ok(self.data2)
        } else if address == REG_DIAG_STATUS {
            Ok(self.diag_status)
        } else if address == REG_XFER2 {
            let x = self.xfer;
            proof {
                assert((x >> 16u32) & 0xffu32 < 256) by (bit_vector);
            }
            Ok(((x >> 16) & 0xff) as u8)
        } else if address == REG_XFER1 {
            let x = self.xfer;
            proof {
                assert((x >> 8u32) & 0xffu32 < 256) by (bit_vector);
            }
            Ok(((x >> 8) & 0xff) as u8)
        } else if address == REG_XFER0 {
            let x = self.xfer;
            proof {
                assert(x & 0xffu32 < 256) by (bit_vector);
            }
            Ok((x & 0xff) as u8)
        } else {
            Ok(0)
        }
    }

    /// Writes one controller register. The address latch alternates low
    /// byte then high byte; command bytes accumulate in the command block
    /// until it is full, after which further bytes are ignored; a
    /// command-register write rewinds the block pointer and dispatches.
    pub fn write_8(&mut self, queue: &mut ServiceQueue, now: u64, address: usize, value: u8) -> (r:
        (Result<(), BusError>, Option<u8>))
        requires
            now + SELECT_DELAY_NS <= u64::MAX,
        ensures
            r.0 == Ok::<(), BusError>(()),
            scsi_write8_rel(
                *old(self),
                *final(self),
                old(queue).queue@,
                final(queue).queue@,
                now,
                address,
                value,
                r.1,
            ),
    {
        if address == REG_ADDRESS {
            // The CPU writes the latch low byte first, then the high byte.
            if self.address_msb {
                self.address = (self.address & 0x00ff) | ((value as u16) << 8);
                self.address_msb = false;
            } else {
                self.address = (self.address & 0xff00) | (value as u16);
                self.address_msb = true;
            }
            (Ok(()), None)
        } else if address == REG_DATA1 {
            if self.cmd_ptr < 16 {
                let p = self.cmd_ptr;
                self.scsi_cmd[p] = value;
                self.cmd_ptr = p + 1;
                proof {
                    assert(self.scsi_cmd =~= vstd::array::spec_array_update(
                        old(self).scsi_cmd,
                        old(self).cmd_ptr as int,
                        value,
                    ));
                }
            }
            (Ok(()), None)
        } else if address == REG_COMMAND {
            self.cmd_ptr = 0;
            self.handle_command(queue, now, value)
        } else if address == REG_CONTROL {
            self.control = value;
            (Ok(()), None)
        } else if address == REG_DEST_ID {
            self.dest_id = value;
            (Ok(()), None)
        } else if address == REG_XFER2 {
            self.xfer = (self.xfer & 0x00ffff) | ((value as u32) << 16);
            (Ok(()), None)
        } else if address == REG_XFER1 {
            self.xfer = (self.xfer & 0xff00ff) | ((value as u32) << 8);
            (Ok(()), None)
        } else if address == REG_XFER0 {
            self.xfer = (self.xfer & 0xffff00) | (value as u32);
            (Ok(()), None)
        } else {
            (Ok(()), None)
        }
    }

    /// Shows a register's value without any side effect, for instruction
    /// tracing.
    pub fn peek_8(&self, address: usize) -> (r: u8)
        ensures
            r == scsi_peek8(*self, address),
    {
        if address == REG_DATA1 {
            self.data1
        } else if address == REG_COMMAND {
            self.command
        } else if address == REG_CONTROL {
            self.control
        } else if address == REG_DEST_ID {
            self.dest_id
        } else if address == REG_AUX_STATUS {
            self.aux_stat
        } else if address == REG_ID {
            self.id
        } else if address == REG_INTERRUPT {
            self.interrupt
        } else if address == REG_SOURCE_ID {
            self.source_id
        } else if address == REG_DATA2 {
            self.data2
        } else if address == REG_DIAG_STATUS {
            self.diag_status
        } else if address == REG_XFER2 {
            let x = self.xfer;
            proof {
                assert((x >> 16u32) & 0xffu32 < 256) by (bit_vector);
            }
            ((x >> 16) & 0xff) as u8
        } else if address == REG_XFER1 {
            let x = self.xfer;
            proof {
                assert((x >> 8u32) & 0xffu32 < 256) by (bit_vector);
            }
            ((x >> 8) & 0xff) as u8
        } else if address == REG_XFER0 {
            let x = self.xfer;
            proof {
                assert(x & 0xffu32 < 256) by (bit_vector);
            }
            (x & 0xff) as u8
        } else {
            0
        }
    }

    /// Advances the selected target's handshake; invoked only from the
    /// scheduler drain loop, when a scheduled deadline has passed, never
    /// directly from a register write.
    pub fn service(&mut self) -> (irq: Option<u8>)
        ensures
            service_rel(*old(self), *final(self), irq),
    {
        let d = self.dest_id;
        proof {
            assert(d & 0x7u8 < 8) by (bit_vector);
        }
        let id = (d & 0x7) as usize;
        let cur_state = self.devices[id].state;

        match cur_state {
            ScsiDeviceState::Selected => {
                // Selected -> Command.
                self.interrupt = INT_BUS;
                self.aux_stat = AUX_CD;  // Command phase, initiator to target.
                self.devices[id] = ScsiDevice { state: ScsiDeviceState::Command };
                proof {
                    assert(self.devices =~= vstd::array::spec_array_update(
                        old(self).devices,
                        (old(self).dest_id & 0x7u8) as int,
                        ScsiDevice { state: ScsiDeviceState::Command },
                    ));
                }
                Some(SCSI_INT)
            },
            ScsiDeviceState::Command => {
                // Command -> Data In/Out or Status, by the prior phase.
                self.data1 = 0;
                self.interrupt = INT_BUS | INT_FC;
                if self.aux_stat & (AUX_MSG | AUX_CD | AUX_IO) == (AUX_CD | AUX_IO) {
                    // Status -> Data In.
                    self.aux_stat = AUX_DF | AUX_IO;
                } else {
                    // Data In -> Status.
                    self.aux_stat = (AUX_DF | AUX_CD) | AUX_IO;
                }
                Some(SCSI_INT)
            },
            ScsiDeviceState::DataOut => {
                self.interrupt = INT_BUS | INT_FC;
                self.aux_stat = AUX_DF;
                None
            },
            ScsiDeviceState::Unselected => {
                None
            },
        }
    }
}

/// Law: a select command (with or without attention) always leaves one
/// new service request whose deadline lies strictly in the future, puts
/// the addressed target in `Selected`, and immediately shows the Command
/// phase with the function-complete interrupt latched and the SCSI
/// interrupt level asserted.
pub proof fn lemma_select_schedules_future_service(
    pre: Scsi,
    post: Scsi,
    qpre: Seq<ServiceRequest>,
    qpost: Seq<ServiceRequest>,
    now: u64,
    command: u8,
    irq: Option<u8>,
)
    requires
        command & 0x1fu8 == 8 || command & 0x1fu8 == 9,
        now + SELECT_DELAY_NS <= u64::MAX,
        handle_command_rel(pre, post, qpre, qpost, now, command, irq),
    ensures
        qpost.len() == qpre.len() + 1,
        qpost.last().key == ServiceKey::Scsi,
        qpost.last().when > now,
        post.aux_stat == AUX_CD,
        post.interrupt == INT_FC,
        post.devices@[(pre.dest_id & 0x7u8) as int].state == ScsiDeviceState::Selected,
        irq == Some(SCSI_INT),
{
    broadcast use vstd::array::group_array_axioms;

    let d = pre.dest_id;
    assert(d & 0x7u8 < 8) by (bit_vector);
}

} // verus!
