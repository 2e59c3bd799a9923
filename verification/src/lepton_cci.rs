//! The command and control interface (CCI): registers, the framing of
//! register accesses, and the exchange that carries one command, step by
//! step, without touching the bus itself.

use vstd::prelude::*;
use crate::lepton_command::{be_bytes, word_to_be_bytes, CommandType, LepCommand, Module};
use crate::lepton_status::LepStatus;

verus! {

/// Bit of the status register that is set while the camera works on a
/// command.
pub const CCI_STATUS_INTERFACE_BUSY_BIT: u16 = 0x0001;

/// Bit of the status register that is set once the camera has booted.
pub const CCI_STATUS_BOOTED_BIT: u16 = 0x0004;

/// How often the status register is polled for one command, with a
/// millisecond's wait after each poll that found the camera busy.
pub const COMMAND_POLL_TIMEOUT_MS: u16 = 1000;

/// The camera's address on the I2C bus.
pub const CCI_ADDRESS: u8 = 0x2a;

/// The registers of the command interface.
#[derive(Debug, Clone, Copy, PartialEq, Eq, Structural)]
pub enum Register {
    CCIPower,
    CCIStatus,
    CCICommandID,
    CCIDataLength,
    CCIDataReg0,
}

impl Register {
    /// The register's address.
    pub open spec fn address_of(self) -> u16 {
        match self {
            Register::CCIPower => 0x0000,
            Register::CCIStatus => 0x0002,
            Register::CCICommandID => 0x0004,
            Register::CCIDataLength => 0x0006,
            Register::CCIDataReg0 => 0x0008,
        }
    }

    /// The register's address.
    pub fn address(&self) -> (address: u16)
        ensures
            address == self.address_of(),
    {
        match self {
            Register::CCIPower => 0x0000,
            Register::CCIStatus => 0x0002,
            Register::CCICommandID => 0x0004,
            Register::CCIDataLength => 0x0006,
            Register::CCIDataReg0 => 0x0008,
        }
    }
}

/// Why a command did not go through.
#[derive(Debug)]
pub enum CciError<E> {
    /// The bus failed.
    I2c(E),
    /// The camera stayed busy through every poll.
    Timeout,
}

/// The camera has booted: bit 2 of the status word.
pub open spec fn booted(status: u16) -> bool {
    status & CCI_STATUS_BOOTED_BIT != 0
}

/// The camera is done with the last command: bit 0 of the status word is
/// clear.
pub open spec fn idle(status: u16) -> bool {
    status & CCI_STATUS_INTERFACE_BUSY_BIT == 0
}

/// The result of the last command: the high byte of the status word, read
/// as a signed code.
pub open spec fn status_code(status: u16) -> LepStatus {
    LepStatus::of_code(((status >> 8) as u8) as i8)
}

/// What the status bits mean in numbers.
pub proof fn lemma_status_bits(status: u16)
    ensures
        booted(status) <==> (status / 4) % 2 == 1,
        idle(status) <==> status % 2 == 0,
        (status >> 8) as u8 == status / 256,
{
    assert((status & 0x0004 != 0) <==> (status / 4) % 2 == 1) by (bit_vector);
    assert((status & 0x0001 == 0) <==> status % 2 == 0) by (bit_vector);
    assert((status >> 8) as u8 == status / 256) by (bit_vector);
}

/// What one poll of the status register means for a command under way.
#[derive(Debug, Clone, Copy, PartialEq, Eq, Structural)]
pub enum PollVerdict {
    /// The camera is done.
    Finished,
    /// The camera is busy: wait a millisecond and poll again.
    Retry,
    /// The camera is busy and this was the last poll: wait the millisecond,
    /// then give up.
    TimedOut,
}

/// The verdict on the poll that came after `polls_before` others.
pub open spec fn poll_verdict(polls_before: u16, status: u16) -> PollVerdict {
    if idle(status) {
        PollVerdict::Finished
    } else if polls_before + 1 >= COMMAND_POLL_TIMEOUT_MS {
        PollVerdict::TimedOut
    } else {
        PollVerdict::Retry
    }
}

/// The command interface of one camera.
#[derive(Debug, Clone, Copy, PartialEq, Eq, Structural)]
pub struct LEPTONCCI {
    address: u8,
}

impl LEPTONCCI {
    /// The interface of a camera at the address that every Lepton has.
    pub fn new() -> (cci: Self)
        ensures
            cci.bus_address() == CCI_ADDRESS,
    {
        LEPTONCCI { address: CCI_ADDRESS }
    }

    /// The camera's address on the I2C bus.
    pub closed spec fn bus_address(&self) -> u8 {
        self.address
    }

    /// The camera's address on the I2C bus.
    pub fn address(&self) -> (address: u8)
        ensures
            address == self.bus_address(),
    {
        self.address
    }

    /// Whether the camera has booted, from a reading of the status register.
    pub fn get_boot_status(status: u16) -> (res: bool)
        ensures
            res == booted(status),
    {
        (status & CCI_STATUS_BOOTED_BIT) != 0
    }

    /// Whether the camera is done with the last command, from a reading of
    /// the status register.
    pub fn get_interface_status(status: u16) -> (res: bool)
        ensures
            res == idle(status),
    {
        (status & CCI_STATUS_INTERFACE_BUSY_BIT) == 0
    }

    /// The result of the last command, from a reading of the status register.
    pub fn get_status_code(status: u16) -> (res: LepStatus)
        ensures
            res == status_code(status),
    {
        let code: u8 = (status >> 8) as u8;
        LepStatus::from(code as i8)
    }

    /// The bytes that write `payload` to `register`: the register's address,
    /// high byte first, then the payload.
    pub fn write_register(register: Register, payload: &[u8]) -> (bytes: Vec<u8>)
        ensures
            bytes@ == be_bytes(register.address_of()) + payload@,
    {
        let address = word_to_be_bytes(register.address());
        let mut bytes: Vec<u8> = Vec::new();
        bytes.push(address[0]);
        bytes.push(address[1]);
        let mut i: usize = 0;
        while i < payload.len()
            invariant
                i <= payload@.len(),
                bytes@ == be_bytes(register.address_of()) + payload@.take(i as int),
            decreases payload@.len() - i,
        {
            bytes.push(payload[i]);
            assert(payload@.take(i + 1) =~= payload@.take(i as int).push(payload@[i as int]));
            i = i + 1;
        }
        assert(payload@.take(i as int) =~= payload@);
        bytes
    }

    /// The two writes that issue `command`: its data length, then its ID.
    pub fn write_command(command: &LepCommand) -> (writes: (Vec<u8>, Vec<u8>))
        ensures
            writes.0@ == be_bytes(Register::CCIDataLength.address_of()) + be_bytes(command.words()),
            writes.1@ == be_bytes(Register::CCICommandID.address_of()) + be_bytes(command.id()),
    {
        let length = command.get_data_length();
        let id = command.get_command_id();
        (
            Self::write_register(Register::CCIDataLength, length.as_slice()),
            Self::write_register(Register::CCICommandID, id.as_slice()),
        )
    }

    /// The bytes that select `register` for a read of its two bytes.
    pub fn read_register(register: Register) -> (bytes: [u8; 2])
        ensures
            bytes@ == be_bytes(register.address_of()),
    {
        word_to_be_bytes(register.address())
    }

    /// The word that two bytes read from a register spell, high byte first.
    pub fn register_value(data: [u8; 2]) -> (word: u16)
        ensures
            word == data[0] * 256 + data[1],
            be_bytes(word) == data@,
    {
        let hi: u8 = data[0];
        let lo: u8 = data[1];
        assert((hi as u16) << 8 | (lo as u16) == hi * 256 + lo) by (bit_vector);
        let word: u16 = (hi as u16) << 8 | (lo as u16);
        assert(be_bytes(word) =~= data@);
        word
    }

    /// The exchange that sets `agc_enable`.
    pub fn set_agc_enable(&self, value: u16) -> (x: CciExchange)
        ensures
            x.sets_with(Module::AGC, 0x00, 2, value, false),
            x.wf(),
    {
        CciExchange::begin_set(LepCommand::set_agc_enable(), value, false)
    }

    /// The exchange that gets `agc_enable`.
    pub fn get_agc_enable(&self) -> (x: CciExchange)
        ensures
            x.gets_with(Module::AGC, 0x00, 2),
            x.wf(),
    {
        CciExchange::begin_get(LepCommand::get_agc_enable())
    }

    /// The exchange that sets `telemetry_mode`.
    pub fn set_telemetry_mode(&self, value: u16) -> (x: CciExchange)
        ensures
            x.sets_with(Module::SYS, 0x18, 1, value, false),
            x.wf(),
    {
        CciExchange::begin_set(LepCommand::set_sys_telemetry_mode(), value, false)
    }

    /// The exchange that gets `telemetry_mode`.
    pub fn get_telemetry_mode(&self) -> (x: CciExchange)
        ensures
            x.gets_with(Module::SYS, 0x18, 1),
            x.wf(),
    {
        CciExchange::begin_get(LepCommand::get_sys_telemetry_mode())
    }

    /// The exchange that sets `oem_video_output_format`.
    pub fn set_oem_video_output_format(&self, value: u16) -> (x: CciExchange)
        ensures
            x.sets_with(Module::OEM, 0x28, 1, value, false),
            x.wf(),
    {
        CciExchange::begin_set(LepCommand::set_oem_video_output_format(), value, false)
    }

    /// The exchange that gets `oem_video_output_format`.
    pub fn get_oem_video_output_format(&self) -> (x: CciExchange)
        ensures
            x.gets_with(Module::OEM, 0x28, 1),
            x.wf(),
    {
        CciExchange::begin_get(LepCommand::get_oem_video_output_format())
    }

    /// The exchange that sets `oem_video_output_source`.
    pub fn set_oem_video_output_source(&self, value: u16) -> (x: CciExchange)
        ensures
            x.sets_with(Module::OEM, 0x2C, 1, value, false),
            x.wf(),
    {
        CciExchange::begin_set(LepCommand::set_oem_video_output_source(), value, false)
    }

    /// The exchange that gets `oem_video_output_source`.
    pub fn get_oem_video_output_source(&self) -> (x: CciExchange)
        ensures
            x.gets_with(Module::OEM, 0x2C, 1),
            x.wf(),
    {
        CciExchange::begin_get(LepCommand::get_oem_video_output_source())
    }

    /// The exchange that sets `oem_video_output_constant`.
    pub fn set_oem_video_output_constant(&self, value: u16) -> (x: CciExchange)
        ensures
            x.sets_with(Module::OEM, 0x3C, 1, value, false),
            x.wf(),
    {
        CciExchange::begin_set(LepCommand::set_oem_video_output_source_constant(), value, false)
    }

    /// The exchange that gets `oem_video_output_constant`.
    pub fn get_oem_video_output_constant(&self) -> (x: CciExchange)
        ensures
            x.gets_with(Module::OEM, 0x3C, 1),
            x.wf(),
    {
        CciExchange::begin_get(LepCommand::get_oem_video_output_source_constant())
    }

    /// The exchange that sets `gpio_mode`.
    pub fn set_gpio_mode(&self, value: u16) -> (x: CciExchange)
        ensures
            x.sets_with(Module::OEM, 0x54, 1, value, false),
            x.wf(),
    {
        CciExchange::begin_set(LepCommand::set_oem_gpio_mode(), value, false)
    }

    /// The exchange that gets `gpio_mode`.
    pub fn get_gpio_mode(&self) -> (x: CciExchange)
        ensures
            x.gets_with(Module::OEM, 0x54, 1),
            x.wf(),
    {
        CciExchange::begin_get(LepCommand::get_oem_gpio_mode())
    }

    /// The exchange that sets `phase_delay`.
    pub fn set_phase_delay(&self, value: i16) -> (x: CciExchange)
        ensures
            x.sets_with(Module::OEM, 0x58, 1, value as u16, false),
            x.wf(),
    {
        CciExchange::begin_set(LepCommand::set_oem_phase_delay(), value as u16, false)
    }

    /// The exchange that gets `phase_delay`.
    pub fn get_phase_delay(&self) -> (x: CciExchange)
        ensures
            x.gets_with(Module::OEM, 0x58, 1),
            x.wf(),
    {
        CciExchange::begin_get(LepCommand::get_oem_phase_delay())
    }

    /// What to do after a poll of the status register that followed
    /// `polls_before` earlier polls of the same command.
    pub fn poll_status(polls_before: u16, status: u16) -> (verdict: PollVerdict)
        ensures
            verdict == poll_verdict(polls_before, status),
    {
        if Self::get_interface_status(status) {
            PollVerdict::Finished
        } else if polls_before >= COMMAND_POLL_TIMEOUT_MS - 1 {
            PollVerdict::TimedOut
        } else {
            PollVerdict::Retry
        }
    }
}

/// Where an exchange stands.
#[derive(Debug, Clone, Copy, PartialEq, Eq, Structural)]
pub enum CciStage {
    /// The value of a set command is to be written to data register 0.
    SendData,
    /// The data length is to be written.
    SendLength,
    /// The command ID is to be written.
    SendCommand,
    /// The status register is to be polled.
    Poll,
    /// The camera was busy: a millisecond is to pass.
    Pause,
    /// The value of a get command is to be read from data register 0.
    FetchData,
    /// The result of the command is to be read from the status register.
    FetchStatus,
    /// The result is to be read once more.
    Recheck,
    /// The exchange is over.
    Closed,
}

/// What the camera answered to a command.
#[derive(Debug, Clone, Copy, PartialEq, Eq, Structural)]
pub struct CciReply {
    /// The value read from data register 0; 0 for a set command.
    pub data: u16,
    /// The result that the camera reported.
    pub status: LepStatus,
}

impl CciReply {
    /// The value as a signed number.
    pub fn data_i16(&self) -> (value: i16)
        ensures
            value == self.data as i16,
    {
        self.data as i16
    }
}

/// What an exchange asks of the one who owns the bus.
#[derive(Debug, Clone, Copy, PartialEq, Eq, Structural)]
pub enum CciAction {
    /// Write `word` to `register`.
    Write { register: Register, word: u16 },
    /// Read `register`.
    Read { register: Register },
    /// Let this many milliseconds pass.
    WaitMs(u32),
    /// Nothing more: the command went through.
    Done(CciReply),
    /// Nothing more: the camera stayed busy.
    TimedOut,
}

/// One command on its way through the interface: the state from which the
/// next bus access follows.
#[derive(Debug, Clone, Copy, PartialEq, Eq, Structural)]
pub struct CciExchange {
    pub stage: CciStage,
    pub command: LepCommand,
    /// The value that a set command writes.
    pub value: u16,
    /// The command sets a value; else it gets one.
    pub sets: bool,
    /// The status is read a second time before the exchange closes.
    pub recheck: bool,
    /// Polls that found the camera busy.
    pub polls: u16,
    pub reply: CciReply,
    pub timed_out: bool,
}

impl CciExchange {
    /// The exchange is in a state that `begin_set` and `begin_get` and the
    /// steps from there lead to.
    pub open spec fn wf(&self) -> bool {
        &&& self.polls <= COMMAND_POLL_TIMEOUT_MS
        &&& (self.stage == CciStage::SendData || self.stage == CciStage::SendLength || self.stage
            == CciStage::SendCommand || self.stage == CciStage::Poll) ==> self.polls
            < COMMAND_POLL_TIMEOUT_MS
        &&& self.stage == CciStage::Pause ==> self.polls >= 1
    }

    /// An exchange that is about to set `value` with `command`.
    pub open spec fn setting(command: LepCommand, value: u16, recheck: bool) -> CciExchange {
        CciExchange {
            stage: CciStage::SendData,
            command,
            value,
            sets: true,
            recheck,
            polls: 0,
            reply: CciReply { data: 0, status: LepStatus::OK },
            timed_out: false,
        }
    }

    /// An exchange that is about to get a value with `command`.
    pub open spec fn getting(command: LepCommand) -> CciExchange {
        CciExchange {
            stage: CciStage::SendLength,
            command,
            value: 0,
            sets: false,
            recheck: false,
            polls: 0,
            reply: CciReply { data: 0, status: LepStatus::OK },
            timed_out: false,
        }
    }

    /// The exchange is at the start of setting `value` with the command
    /// `base_id` of `module`.
    pub open spec fn sets_with(
        &self,
        module: Module,
        base_id: u16,
        words: u16,
        value: u16,
        recheck: bool,
    ) -> bool {
        &&& self.command.encodes(module, CommandType::Put, base_id, words)
        &&& *self == Self::setting(self.command, value, recheck)
    }

    /// The exchange is at the start of getting a value with the command
    /// `base_id` of `module`.
    pub open spec fn gets_with(&self, module: Module, base_id: u16, words: u16) -> bool {
        &&& self.command.encodes(module, CommandType::Get, base_id, words)
        &&& *self == Self::getting(self.command)
    }

    /// What the exchange asks for in its present stage.
    pub open spec fn pending_of(&self) -> CciAction {
        match self.stage {
            CciStage::SendData => CciAction::Write {
                register: Register::CCIDataReg0,
                word: self.value,
            },
            CciStage::SendLength => CciAction::Write {
                register: Register::CCIDataLength,
                word: self.command.words(),
            },
            CciStage::SendCommand => CciAction::Write {
                register: Register::CCICommandID,
                word: self.command.id(),
            },
            CciStage::Poll => CciAction::Read { register: Register::CCIStatus },
            CciStage::Pause => CciAction::WaitMs(1),
            CciStage::FetchData => CciAction::Read { register: Register::CCIDataReg0 },
            CciStage::FetchStatus => CciAction::Read { register: Register::CCIStatus },
            CciStage::Recheck => CciAction::Read { register: Register::CCIStatus },
            CciStage::Closed => if self.timed_out {
                CciAction::TimedOut
            } else {
                CciAction::Done(self.reply)
            },
        }
    }

    /// The exchange once the pending action is done; `read` is the word
    /// that a read brought.
    pub open spec fn proceeded(&self, read: u16) -> CciExchange {
        match self.stage {
            CciStage::SendData => CciExchange { stage: CciStage::SendLength, ..*self },
            CciStage::SendLength => CciExchange { stage: CciStage::SendCommand, ..*self },
            CciStage::SendCommand => CciExchange { stage: CciStage::Poll, ..*self },
            CciStage::Poll => match poll_verdict(self.polls, read) {
                PollVerdict::Finished => CciExchange {
                    stage: if self.sets {
                        CciStage::FetchStatus
                    } else {
                        CciStage::FetchData
                    },
                    ..*self
                },
                _ => CciExchange {
                    stage: CciStage::Pause,
                    polls: (self.polls + 1) as u16,
                    ..*self
                },
            },
            CciStage::Pause => if self.polls >= COMMAND_POLL_TIMEOUT_MS {
                CciExchange { stage: CciStage::Closed, timed_out: true, ..*self }
            } else {
                CciExchange { stage: CciStage::Poll, ..*self }
            },
            CciStage::FetchData => CciExchange {
                stage: CciStage::FetchStatus,
                reply: CciReply { data: read, status: self.reply.status },
                ..*self
            },
            CciStage::FetchStatus => CciExchange {
                stage: if self.recheck {
                    CciStage::Recheck
                } else {
                    CciStage::Closed
                },
                reply: CciReply { data: self.reply.data, status: status_code(read) },
                ..*self
            },
            CciStage::Recheck => CciExchange {
                stage: CciStage::Closed,
                reply: CciReply { data: self.reply.data, status: status_code(read) },
                ..*self
            },
            CciStage::Closed => *self,
        }
    }

    /// An upper bound on the bus accesses and waits that the exchange
    /// still asks for.
    pub open spec fn remaining(&self) -> nat {
        let polls_left = (COMMAND_POLL_TIMEOUT_MS - self.polls) as nat;
        match self.stage {
            CciStage::SendData => 2007,
            CciStage::SendLength => 2006,
            CciStage::SendCommand => 2005,
            CciStage::Poll => 4 + 2 * polls_left,
            CciStage::Pause => 5 + 2 * polls_left,
            CciStage::FetchData => 3,
            CciStage::FetchStatus => 2,
            CciStage::Recheck => 1,
            CciStage::Closed => 0,
        }
    }

    /// Starts the exchange that sets `value` with `command`.
    pub fn begin_set(command: LepCommand, value: u16, recheck: bool) -> (x: CciExchange)
        ensures
            x == Self::setting(command, value, recheck),
            x.wf(),
    {
        CciExchange {
            stage: CciStage::SendData,
            command,
            value,
            sets: true,
            recheck,
            polls: 0,
            reply: CciReply { data: 0, status: LepStatus::OK },
            timed_out: false,
        }
    }

    /// Starts the exchange that gets a value with `command`.
    pub fn begin_get(command: LepCommand) -> (x: CciExchange)
        ensures
            x == Self::getting(command),
            x.wf(),
    {
        CciExchange {
            stage: CciStage::SendLength,
            command,
            value: 0,
            sets: false,
            recheck: false,
            polls: 0,
            reply: CciReply { data: 0, status: LepStatus::OK },
            timed_out: false,
        }
    }

    /// What is to be done next.
    pub fn pending(&self) -> (action: CciAction)
        ensures
            action == self.pending_of(),
    {
        match self.stage {
            CciStage::SendData => CciAction::Write {
                register: Register::CCIDataReg0,
                word: self.value,
            },
            CciStage::SendLength => CciAction::Write {
                register: Register::CCIDataLength,
                word: LEPTONCCI::register_value(self.command.get_data_length()),
            },
            CciStage::SendCommand => CciAction::Write {
                register: Register::CCICommandID,
                word: self.command.raw_command_id(),
            },
            CciStage::Poll => CciAction::Read { register: Register::CCIStatus },
            CciStage::Pause => CciAction::WaitMs(1),
            CciStage::FetchData => CciAction::Read { register: Register::CCIDataReg0 },
            CciStage::FetchStatus => CciAction::Read { register: Register::CCIStatus },
            CciStage::Recheck => CciAction::Read { register: Register::CCIStatus },
            CciStage::Closed => if self.timed_out {
                CciAction::TimedOut
            } else {
                CciAction::Done(self.reply)
            },
        }
    }

    /// Records that the pending action was done, and for a read, the word
    /// that it brought. Every step brings the exchange nearer to its end.
    pub fn proceed(&mut self, read: u16)
        requires
            old(self).wf(),
        ensures
            *final(self) == old(self).proceeded(read),
            final(self).wf(),
            old(self).stage != CciStage::Closed ==> final(self).remaining() < old(self).remaining(),
    {
        match self.stage {
            CciStage::SendData => {
                self.stage = CciStage::SendLength;
            },
            CciStage::SendLength => {
                self.stage = CciStage::SendCommand;
            },
            CciStage::SendCommand => {
                self.stage = CciStage::Poll;
            },
            CciStage::Poll => match LEPTONCCI::poll_status(self.polls, read) {
                PollVerdict::Finished => {
                    self.stage = if self.sets {
                        CciStage::FetchStatus
                    } else {
                        CciStage::FetchData
                    };
                },
                _ => {
                    self.stage = CciStage::Pause;
                    self.polls = self.polls + 1;
                },
            },
            CciStage::Pause => {
                if self.polls >= COMMAND_POLL_TIMEOUT_MS {
                    self.stage = CciStage::Closed;
                    self.timed_out = true;
                } else {
                    self.stage = CciStage::Poll;
                }
            },
            CciStage::FetchData => {
                self.stage = CciStage::FetchStatus;
                self.reply = CciReply { data: read, status: self.reply.status };
            },
            CciStage::FetchStatus => {
                self.stage = if self.recheck {
                    CciStage::Recheck
                } else {
                    CciStage::Closed
                };
                self.reply = CciReply {
                    data: self.reply.data,
                    status: LEPTONCCI::get_status_code(read),
                };
            },
            CciStage::Recheck => {
                self.stage = CciStage::Closed;
                self.reply = CciReply {
                    data: self.reply.data,
                    status: LEPTONCCI::get_status_code(read),
                };
            },
            CciStage::Closed => {},
        }
    }
}

/// A set command to a camera that is not busy: three writes, one poll, one
/// read of the status, and the exchange closes with the result that the
/// camera reported last.
pub proof fn lemma_set_on_idle_camera(command: LepCommand, value: u16, poll: u16, status: u16)
    requires
        idle(poll),
    ensures
        ({
            let x0 = CciExchange::setting(command, value, false);
            let x1 = x0.proceeded(0);
            let x2 = x1.proceeded(0);
            let x3 = x2.proceeded(0);
            let x4 = x3.proceeded(poll);
            let x5 = x4.proceeded(status);
            &&& x0.pending_of() == (CciAction::Write { register: Register::CCIDataReg0, word: value })
            &&& x1.pending_of() == (CciAction::Write {
                register: Register::CCIDataLength,
                word: command.words(),
            })
            &&& x2.pending_of() == (CciAction::Write {
                register: Register::CCICommandID,
                word: command.id(),
            })
            &&& x3.pending_of() == (CciAction::Read { register: Register::CCIStatus })
            &&& x4.pending_of() == (CciAction::Read { register: Register::CCIStatus })
            &&& x5.pending_of() == CciAction::Done(
                CciReply { data: 0, status: status_code(status) },
            )
        }),
{
}

/// A get command to a camera that is not busy: two writes, one poll, the
/// read of the value, the read of the status.
pub proof fn lemma_get_on_idle_camera(command: LepCommand, poll: u16, data: u16, status: u16)
    requires
        idle(poll),
    ensures
        ({
            let x0 = CciExchange::getting(command);
            let x1 = x0.proceeded(0);
            let x2 = x1.proceeded(0);
            let x3 = x2.proceeded(poll);
            let x4 = x3.proceeded(data);
            let x5 = x4.proceeded(status);
            &&& x0.pending_of() == (CciAction::Write {
                register: Register::CCIDataLength,
                word: command.words(),
            })
            &&& x1.pending_of() == (CciAction::Write {
                register: Register::CCICommandID,
                word: command.id(),
            })
            &&& x2.pending_of() == (CciAction::Read { register: Register::CCIStatus })
            &&& x3.pending_of() == (CciAction::Read { register: Register::CCIDataReg0 })
            &&& x4.pending_of() == (CciAction::Read { register: Register::CCIStatus })
            &&& x5.pending_of() == CciAction::Done(CciReply { data, status: status_code(status) })
        }),
{
}

/// An exchange that has met a busy camera a thousand times gives up after
/// the wait that follows the last poll.
pub proof fn lemma_busy_camera_times_out(x: CciExchange)
    requires
        x.wf(),
        x.stage == CciStage::Pause,
        x.polls == COMMAND_POLL_TIMEOUT_MS,
    ensures
        x.proceeded(0).pending_of() == CciAction::TimedOut,
{
}

} // verus!
