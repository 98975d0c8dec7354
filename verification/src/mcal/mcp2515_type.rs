use vstd::prelude::*;
use crate::register::{SPINumberType, Dio_LevelType};
use crate::mcal::dio_type::Dio_ChannelType;

verus! {

/// Registers of the MCP2515 CAN controller; `mcp2515_register_address`
/// gives each one's address.
#[derive(Clone, Copy, Debug, PartialEq, Eq, Structural)]
pub enum MCP2515Register {
    BFPCTRL,
    TXRTSCTRL,
    CANSTAT,
    CANCTRL,
    CNF1,
    CNF2,
    CNF3,
    TXB0CTRL,
    TXB0SIDH,
    TXB0SIDL,
    TXB0DLC,
    TXB0D0,
    TXB1CTRL,
    TXB1SIDH,
    TXB1SIDL,
    TXB1DLC,
    TXB1D0,
    TXB2CTRL,
    TXB2SIDH,
    TXB2SIDL,
    TXB2DLC,
    TXB2D0,
    RXB0CTRL,
    RXB0SIDH,
    RXB0SIDL,
    RXB0DLC,
    RXB0D0,
    RXB1CTRL,
    RXB1SIDH,
    RXB1SIDL,
    RXB1DLC,
    RXB1D0,
    CANINTE,
    CANINTF,
    TEC,
    REC,
    EFLG,
}

/// Mask of the mode bits of CANCTRL.
pub const CTRL_MODE_MASK: u8 = 0xE0;

/// SPI instructions of the MCP2515; `mcp2515_instruction_code` gives each
/// one's opcode.
#[derive(Clone, Copy, Debug, PartialEq, Eq, Structural)]
pub enum MCP2515Instruction {
    RESET,
    READ,
    WRITE,
    BIT_MODIFY,
    READ_STATUS,
    RX_STATUS,
    RTS_TXB0,
    RTS_TXB1,
    RTS_TXB2,
}

/// Operating modes; `mcp2515_mode_bits` gives each one's CANCTRL bits.
#[derive(Clone, Copy, Debug, PartialEq, Eq, Structural)]
pub enum MCP2515Mode {
    NORMAL,
    SLEEP,
    LOOPBACK,
    LISTEN_ONLY,
    CONFIGURATION,
}

#[derive(Clone, Copy, Debug, PartialEq, Eq, Structural)]
pub enum Mcp2515DeviceId {
    MCP2515_1,
    MCP2515_2,
}

#[derive(Clone, Copy, Debug, PartialEq, Eq, Structural)]
pub enum MCP2515BaudRate {
    BAUD_125KBPS,
    BAUD_250KBPS,
    BAUD_500KBPS,
    BAUD_1MBPS,
}

/// How one MCP2515 is wired and run.
#[derive(Clone, Copy, Debug, PartialEq, Eq, Structural)]
pub struct MCP2515ConfigType {
    pub device_id: Mcp2515DeviceId,
    pub spi_channel: SPINumberType,
    pub cs_channel: Dio_ChannelType,
    pub int_channel: Option<Dio_ChannelType>,
    pub baudrate: MCP2515BaudRate,
    pub oscillator_hz: u32,
}

pub struct MCP2515ConfigSetType {
    pub configs: Vec<MCP2515ConfigType>,
}

#[derive(Clone, Copy, Debug, PartialEq, Eq, Structural)]
pub enum MCP2515ReturnType {
    MCP2515_E_OK,
    MCP2515_E_NOT_OK,
}

/// One step of a bus exchange with an MCP2515: drive its chip select, or
/// make a blocking master transfer of one byte (whose answer, if the
/// transfer succeeds, is the reply to that step).
#[derive(Clone, Copy, Debug, PartialEq, Eq, Structural)]
pub enum Mcp2515Step {
    ChipSelect(Dio_ChannelType, Dio_LevelType),
    Transfer(SPINumberType, u8),
}

pub open spec fn spec_register_address(r: MCP2515Register) -> u8 {
    match r {
        MCP2515Register::BFPCTRL => 0x0C,
        MCP2515Register::TXRTSCTRL => 0x0D,
        MCP2515Register::CANSTAT => 0x0E,
        MCP2515Register::CANCTRL => 0x0F,
        MCP2515Register::CNF1 => 0x2A,
        MCP2515Register::CNF2 => 0x29,
        MCP2515Register::CNF3 => 0x28,
        MCP2515Register::TXB0CTRL => 0x30,
        MCP2515Register::TXB0SIDH => 0x31,
        MCP2515Register::TXB0SIDL => 0x32,
        MCP2515Register::TXB0DLC => 0x35,
        MCP2515Register::TXB0D0 => 0x36,
        MCP2515Register::TXB1CTRL => 0x40,
        MCP2515Register::TXB1SIDH => 0x41,
        MCP2515Register::TXB1SIDL => 0x42,
        MCP2515Register::TXB1DLC => 0x45,
        MCP2515Register::TXB1D0 => 0x46,
        MCP2515Register::TXB2CTRL => 0x50,
        MCP2515Register::TXB2SIDH => 0x51,
        MCP2515Register::TXB2SIDL => 0x52,
        MCP2515Register::TXB2DLC => 0x55,
        MCP2515Register::TXB2D0 => 0x56,
        MCP2515Register::RXB0CTRL => 0x60,
        MCP2515Register::RXB0SIDH => 0x61,
        MCP2515Register::RXB0SIDL => 0x62,
        MCP2515Register::RXB0DLC => 0x65,
        MCP2515Register::RXB0D0 => 0x66,
        MCP2515Register::RXB1CTRL => 0x70,
        MCP2515Register::RXB1SIDH => 0x71,
        MCP2515Register::RXB1SIDL => 0x72,
        MCP2515Register::RXB1DLC => 0x75,
        MCP2515Register::RXB1D0 => 0x76,
        MCP2515Register::CANINTE => 0x2B,
        MCP2515Register::CANINTF => 0x2C,
        MCP2515Register::TEC => 0x1C,
        MCP2515Register::REC => 0x1D,
        MCP2515Register::EFLG => 0x2D,
    }
}

/// The address of a register.
pub fn mcp2515_register_address(r: MCP2515Register) -> (a: u8)
    ensures
        a == spec_register_address(r),
{
    match r {
        MCP2515Register::BFPCTRL => 0x0C,
        MCP2515Register::TXRTSCTRL => 0x0D,
        MCP2515Register::CANSTAT => 0x0E,
        MCP2515Register::CANCTRL => 0x0F,
        MCP2515Register::CNF1 => 0x2A,
        MCP2515Register::CNF2 => 0x29,
        MCP2515Register::CNF3 => 0x28,
        MCP2515Register::TXB0CTRL => 0x30,
        MCP2515Register::TXB0SIDH => 0x31,
        MCP2515Register::TXB0SIDL => 0x32,
        MCP2515Register::TXB0DLC => 0x35,
        MCP2515Register::TXB0D0 => 0x36,
        MCP2515Register::TXB1CTRL => 0x40,
        MCP2515Register::TXB1SIDH => 0x41,
        MCP2515Register::TXB1SIDL => 0x42,
        MCP2515Register::TXB1DLC => 0x45,
        MCP2515Register::TXB1D0 => 0x46,
        MCP2515Register::TXB2CTRL => 0x50,
        MCP2515Register::TXB2SIDH => 0x51,
        MCP2515Register::TXB2SIDL => 0x52,
        MCP2515Register::TXB2DLC => 0x55,
        MCP2515Register::TXB2D0 => 0x56,
        MCP2515Register::RXB0CTRL => 0x60,
        MCP2515Register::RXB0SIDH => 0x61,
        MCP2515Register::RXB0SIDL => 0x62,
        MCP2515Register::RXB0DLC => 0x65,
        MCP2515Register::RXB0D0 => 0x66,
        MCP2515Register::RXB1CTRL => 0x70,
        MCP2515Register::RXB1SIDH => 0x71,
        MCP2515Register::RXB1SIDL => 0x72,
        MCP2515Register::RXB1DLC => 0x75,
        MCP2515Register::RXB1D0 => 0x76,
        MCP2515Register::CANINTE => 0x2B,
        MCP2515Register::CANINTF => 0x2C,
        MCP2515Register::TEC => 0x1C,
        MCP2515Register::REC => 0x1D,
        MCP2515Register::EFLG => 0x2D,
    }
}

pub open spec fn spec_instruction_code(i: MCP2515Instruction) -> u8 {
    match i {
        MCP2515Instruction::RESET => 0xC0,
        MCP2515Instruction::READ => 0x03,
        MCP2515Instruction::WRITE => 0x02,
        MCP2515Instruction::BIT_MODIFY => 0x05,
        MCP2515Instruction::READ_STATUS => 0xA0,
        MCP2515Instruction::RX_STATUS => 0xB0,
        MCP2515Instruction::RTS_TXB0 => 0x81,
        MCP2515Instruction::RTS_TXB1 => 0x82,
        MCP2515Instruction::RTS_TXB2 => 0x84,
    }
}

/// The opcode of an instruction.
pub fn mcp2515_instruction_code(i: MCP2515Instruction) -> (c: u8)
    ensures
        c == spec_instruction_code(i),
{
    match i {
        MCP2515Instruction::RESET => 0xC0,
        MCP2515Instruction::READ => 0x03,
        MCP2515Instruction::WRITE => 0x02,
        MCP2515Instruction::BIT_MODIFY => 0x05,
        MCP2515Instruction::READ_STATUS => 0xA0,
        MCP2515Instruction::RX_STATUS => 0xB0,
        MCP2515Instruction::RTS_TXB0 => 0x81,
        MCP2515Instruction::RTS_TXB1 => 0x82,
        MCP2515Instruction::RTS_TXB2 => 0x84,
    }
}

pub open spec fn spec_mode_bits(m: MCP2515Mode) -> u8 {
    match m {
        MCP2515Mode::NORMAL => 0x00,
        MCP2515Mode::SLEEP => 0x20,
        MCP2515Mode::LOOPBACK => 0x40,
        MCP2515Mode::LISTEN_ONLY => 0x60,
        MCP2515Mode::CONFIGURATION => 0x80,
    }
}

/// The CANCTRL mode bits of a mode.
pub fn mcp2515_mode_bits(m: MCP2515Mode) -> (b: u8)
    ensures
        b == spec_mode_bits(m),
{
    match m {
        MCP2515Mode::NORMAL => 0x00,
        MCP2515Mode::SLEEP => 0x20,
        MCP2515Mode::LOOPBACK => 0x40,
        MCP2515Mode::LISTEN_ONLY => 0x60,
        MCP2515Mode::CONFIGURATION => 0x80,
    }
}

} // verus!
