//! CCI command words: module, command type and command base in one ID.

use vstd::prelude::*;
use vstd::std_specs::ops::AddSpecImpl;

verus! {

/// Bit that the OEM and RAD modules require in every command ID.
pub const PROTECTION_BIT: u16 = 0x4000;

/// The modules of the camera's command interface.
#[derive(Debug, Clone, Copy, PartialEq, Eq, Structural)]
pub enum Module {
    AGC,
    SYS,
    VID,
    OEM,
    RAD,
}

impl Module {
    /// The module's base in the command ID.
    pub open spec fn base_of(self) -> u16 {
        match self {
            Module::AGC => 0x100,
            Module::SYS => 0x200,
            Module::VID => 0x300,
            Module::OEM => 0x800,
            Module::RAD => 0xE00,
        }
    }

    /// Commands of this module carry the protection bit.
    pub open spec fn is_protected(self) -> bool {
        self == Module::OEM || self == Module::RAD
    }

    /// The module's base in the command ID.
    pub fn base(self) -> (base: u16)
        ensures
            base == self.base_of(),
    {
        match self {
            Module::AGC => 0x100,
            Module::SYS => 0x200,
            Module::VID => 0x300,
            Module::OEM => 0x800,
            Module::RAD => 0xE00,
        }
    }
}

/// What a command does with its attribute.
#[derive(Debug, Clone, Copy, PartialEq, Eq, Structural)]
pub enum CommandType {
    /// Read an attribute.
    Get,
    /// Write an attribute.
    Put,
    /// Run a routine.
    Run,
    Invalid,
}

impl CommandType {
    /// The two low bits of the command ID.
    pub open spec fn code_of(self) -> u16 {
        match self {
            CommandType::Get => 0,
            CommandType::Put => 1,
            CommandType::Run => 2,
            CommandType::Invalid => 3,
        }
    }

    /// The two low bits of the command ID.
    pub fn code(self) -> (code: u16)
        ensures
            code == self.code_of(),
    {
        match self {
            CommandType::Get => 0,
            CommandType::Put => 1,
            CommandType::Run => 2,
            CommandType::Invalid => 3,
        }
    }
}

impl core::ops::Add<u16> for CommandType {
    type Output = u16;

    /// The two low bits of the command ID, added to `rhs`.
    fn add(self, rhs: u16) -> u16 {
        self.code() + rhs
    }
}

impl AddSpecImpl<u16> for CommandType {
    open spec fn obeys_add_spec() -> bool {
        true
    }

    open spec fn add_req(self, rhs: u16) -> bool {
        self.code_of() + rhs <= u16::MAX
    }

    open spec fn add_spec(self, rhs: u16) -> u16 {
        (self.code_of() + rhs) as u16
    }
}

impl core::ops::Add<u16> for Module {
    type Output = u16;

    /// The module's base, added to `rhs`.
    fn add(self, rhs: u16) -> u16 {
        self.base() + rhs
    }
}

impl AddSpecImpl<u16> for Module {
    open spec fn obeys_add_spec() -> bool {
        true
    }

    open spec fn add_req(self, rhs: u16) -> bool {
        self.base_of() + rhs <= u16::MAX
    }

    open spec fn add_spec(self, rhs: u16) -> u16 {
        (self.base_of() + rhs) as u16
    }
}

/// A command as it is written to the camera: its ID and the length of its
/// data in 16-bit words.
#[derive(Debug, Clone, Copy, PartialEq, Eq, Structural)]
pub struct LepCommand {
    command_id: u16,
    data_length: u16,
}

/// The ID of the command `base_id` of `module`.
pub open spec fn command_id_of(module: Module, command_type: CommandType, base_id: u16) -> int {
    module.base_of() + command_type.code_of() + base_id + if module.is_protected() {
        PROTECTION_BIT as int
    } else {
        0
    }
}

/// The high and the low byte of a word.
pub open spec fn be_bytes(word: u16) -> Seq<u8> {
    seq![(word / 256) as u8, (word % 256) as u8]
}

/// Splits a word into its high and its low byte.
pub fn word_to_be_bytes(word: u16) -> (bytes: [u8; 2])
    ensures
        bytes@ == be_bytes(word),
{
    assert(word >> 8 == word / 256) by (bit_vector);
    assert(word & 0xFF == word % 256) by (bit_vector);
    let bytes: [u8; 2] = [(word >> 8) as u8, (word & 0xFF) as u8];
    assert(bytes@ =~= be_bytes(word));
    bytes
}

impl LepCommand {
    /// The command's ID.
    pub closed spec fn id(&self) -> u16 {
        self.command_id
    }

    /// The number of 16-bit words of data that go with the command.
    pub closed spec fn words(&self) -> u16 {
        self.data_length
    }

    /// The command with this ID and this length of data.
    pub open spec fn encodes(&self, module: Module, command_type: CommandType, base_id: u16, words: u16) -> bool {
        self.id() == command_id_of(module, command_type, base_id) && self.words() == words
    }

    /// The command `base_id` of `module`, with `data_length` words of data.
    fn new(module: Module, command_type: CommandType, base_id: u16, data_length: u16) -> (c: Self)
        requires
            base_id <= 0xFF,
        ensures
            c.encodes(module, command_type, base_id, data_length),
    {
        let mut command_id: u16 = module.base() + command_type.code() + base_id;
        match module {
            Module::OEM => {
                command_id = command_id + PROTECTION_BIT;
            },
            Module::RAD => {
                command_id = command_id + PROTECTION_BIT;
            },
            _ => {},
        }
        LepCommand { command_id, data_length }
    }

    /// The command ID as a number.
    pub fn raw_command_id(&self) -> (id: u16)
        ensures
            id == self.id(),
    {
        self.command_id
    }

    /// The command ID as it goes on the wire, high byte first.
    pub fn get_command_id(&self) -> (bytes: [u8; 2])
        ensures
            bytes@ == be_bytes(self.id()),
    {
        word_to_be_bytes(self.command_id)
    }

    /// The length of the data as it goes on the wire, high byte first.
    pub fn get_data_length(&self) -> (bytes: [u8; 2])
        ensures
            bytes@ == be_bytes(self.words()),
    {
        word_to_be_bytes(self.data_length)
    }

    /// Sets whether AGC is on.
    pub fn set_agc_enable() -> (c: LepCommand)
        ensures
            c.encodes(Module::AGC, CommandType::Put, 0x00, 2),
    {
        LepCommand::new(Module::AGC, CommandType::Put, 0x00, 2)
    }

    /// Gets whether AGC is on.
    pub fn get_agc_enable() -> (c: LepCommand)
        ensures
            c.encodes(Module::AGC, CommandType::Get, 0x00, 2),
    {
        LepCommand::new(Module::AGC, CommandType::Get, 0x00, 2)
    }

    /// Sets the AGC policy.
    pub fn set_agc_policy() -> (c: LepCommand)
        ensures
            c.encodes(Module::AGC, CommandType::Put, 0x04, 2),
    {
        LepCommand::new(Module::AGC, CommandType::Put, 0x04, 2)
    }

    /// Gets the AGC policy.
    pub fn get_agc_policy() -> (c: LepCommand)
        ensures
            c.encodes(Module::AGC, CommandType::Get, 0x04, 2),
    {
        LepCommand::new(Module::AGC, CommandType::Get, 0x04, 2)
    }

    /// Sets the region that AGC looks at.
    pub fn set_agc_roi() -> (c: LepCommand)
        ensures
            c.encodes(Module::AGC, CommandType::Put, 0x08, 4),
    {
        LepCommand::new(Module::AGC, CommandType::Put, 0x08, 4)
    }

    /// Gets the region that AGC looks at.
    pub fn get_agc_roi() -> (c: LepCommand)
        ensures
            c.encodes(Module::AGC, CommandType::Get, 0x08, 4),
    {
        LepCommand::new(Module::AGC, CommandType::Get, 0x08, 4)
    }

    /// Gets the statistics of the AGC histogram.
    pub fn get_agc_histogram_statistics() -> (c: LepCommand)
        ensures
            c.encodes(Module::AGC, CommandType::Get, 0x0C, 4),
    {
        LepCommand::new(Module::AGC, CommandType::Get, 0x0C, 4)
    }

    /// Sets the phase delay of the video output.
    pub fn set_oem_phase_delay() -> (c: LepCommand)
        ensures
            c.encodes(Module::OEM, CommandType::Put, 0x58, 1),
    {
        LepCommand::new(Module::OEM, CommandType::Put, 0x58, 1)
    }

    /// Gets the phase delay of the video output.
    pub fn get_oem_phase_delay() -> (c: LepCommand)
        ensures
            c.encodes(Module::OEM, CommandType::Get, 0x58, 1),
    {
        LepCommand::new(Module::OEM, CommandType::Get, 0x58, 1)
    }

    /// Sets the GPIO mode.
    pub fn set_oem_gpio_mode() -> (c: LepCommand)
        ensures
            c.encodes(Module::OEM, CommandType::Put, 0x54, 1),
    {
        LepCommand::new(Module::OEM, CommandType::Put, 0x54, 1)
    }

    /// Gets the GPIO mode.
    pub fn get_oem_gpio_mode() -> (c: LepCommand)
        ensures
            c.encodes(Module::OEM, CommandType::Get, 0x54, 1),
    {
        LepCommand::new(Module::OEM, CommandType::Get, 0x54, 1)
    }

    /// Sets the source of the video output.
    pub fn set_oem_video_output_source() -> (c: LepCommand)
        ensures
            c.encodes(Module::OEM, CommandType::Put, 0x2C, 1),
    {
        LepCommand::new(Module::OEM, CommandType::Put, 0x2C, 1)
    }

    /// Gets the source of the video output.
    pub fn get_oem_video_output_source() -> (c: LepCommand)
        ensures
            c.encodes(Module::OEM, CommandType::Get, 0x2C, 1),
    {
        LepCommand::new(Module::OEM, CommandType::Get, 0x2C, 1)
    }

    /// Sets the value of the constant video output.
    pub fn set_oem_video_output_source_constant() -> (c: LepCommand)
        ensures
            c.encodes(Module::OEM, CommandType::Put, 0x3C, 1),
    {
        LepCommand::new(Module::OEM, CommandType::Put, 0x3C, 1)
    }

    /// Gets the value of the constant video output.
    pub fn get_oem_video_output_source_constant() -> (c: LepCommand)
        ensures
            c.encodes(Module::OEM, CommandType::Get, 0x3C, 1),
    {
        LepCommand::new(Module::OEM, CommandType::Get, 0x3C, 1)
    }

    /// Sets the telemetry mode.
    pub fn set_sys_telemetry_mode() -> (c: LepCommand)
        ensures
            c.encodes(Module::SYS, CommandType::Put, 0x18, 1),
    {
        LepCommand::new(Module::SYS, CommandType::Put, 0x18, 1)
    }

    /// Gets the telemetry mode.
    pub fn get_sys_telemetry_mode() -> (c: LepCommand)
        ensures
            c.encodes(Module::SYS, CommandType::Get, 0x18, 1),
    {
        LepCommand::new(Module::SYS, CommandType::Get, 0x18, 1)
    }

    /// Sets the format of the video output.
    pub fn set_oem_video_output_format() -> (c: LepCommand)
        ensures
            c.encodes(Module::OEM, CommandType::Put, 0x28, 1),
    {
        LepCommand::new(Module::OEM, CommandType::Put, 0x28, 1)
    }

    /// Gets the format of the video output.
    pub fn get_oem_video_output_format() -> (c: LepCommand)
        ensures
            c.encodes(Module::OEM, CommandType::Get, 0x28, 1),
    {
        LepCommand::new(Module::OEM, CommandType::Get, 0x28, 1)
    }
}

/// The two low bits of a command ID are its command type: none of the
/// command bases in use reaches into them.
pub proof fn lemma_command_type_bits(module: Module, command_type: CommandType, base_id: u16)
    requires
        base_id <= 0xFF,
        base_id % 4 == 0,
    ensures
        (command_id_of(module, command_type, base_id) as u16) & 0x0003 == command_type.code_of(),
        command_id_of(module, command_type, base_id) <= u16::MAX,
{
    let base = module.base_of();
    let code = command_type.code_of();
    let extra: u16 = if module.is_protected() {
        PROTECTION_BIT
    } else {
        0
    };
    assert(((base + code + base_id + extra) as u16) & 0x0003 == code) by (bit_vector)
        requires
            base == 0x100 || base == 0x200 || base == 0x300 || base == 0x800 || base == 0xE00,
            extra == 0x4000 || extra == 0,
            code <= 3,
            base_id <= 0xFF,
            base_id % 4 == 0,
    ;
}

} // verus!
