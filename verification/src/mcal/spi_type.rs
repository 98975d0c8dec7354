use vstd::prelude::*;
use crate::register::SPINumberType;

verus! {

#[derive(Clone, Copy, Debug, PartialEq, Eq, Structural)]
pub enum SPIReturnType {
    SPI_E_OK,
    SPI_E_NOT_OK,
}

/// Progress of a master transfer requested through the non-blocking API.
#[derive(Clone, Copy, Debug, PartialEq, Eq, Structural)]
pub enum SPIMasterStatus {
    SPI_MASTER_IDLE,
    SPI_MASTER_REQUESTED,
    SPI_MASTER_BUSY,
    SPI_MASTER_COMPLETE,
    SPI_MASTER_TIMEOUT,
    SPI_MASTER_OVERRUN,
    SPI_MASTER_ERROR,
}

/// Progress of a slave exchange prepared through the non-blocking API.
#[derive(Clone, Copy, Debug, PartialEq, Eq, Structural)]
pub enum SPISlaveStatus {
    SPI_SLAVE_IDLE,
    SPI_SLAVE_PRELOADED,
    SPI_SLAVE_BUSY,
    SPI_SLAVE_RECEIVED,
    SPI_SLAVE_OVERRUN,
    SPI_SLAVE_ERROR,
}

#[derive(Clone, Copy, Debug, PartialEq, Eq, Structural)]
pub enum SPIModeType {
    SPI_MODE_SLAVE,
    SPI_MODE_MASTER,
}

#[derive(Clone, Copy, Debug, PartialEq, Eq, Structural)]
pub enum SPIClockPolarityType {
    SPI_CLOCK_POLARITY_LOW,
    SPI_CLOCK_POLARITY_HIGH,
}

#[derive(Clone, Copy, Debug, PartialEq, Eq, Structural)]
pub enum SPIClockPhaseType {
    SPI_CLOCK_PHASE_1EDGE,
    SPI_CLOCK_PHASE_2EDGE,
}

#[derive(Clone, Copy, Debug, PartialEq, Eq, Structural)]
pub enum SPIDataFrameFormatType {
    SPI_8BIT,
    SPI_16BIT,
}

#[derive(Clone, Copy, Debug, PartialEq, Eq, Structural)]
pub enum SPIBaudRatePrescalerType {
    SPI_BAUDRATEPRESCALER_2,
    SPI_BAUDRATEPRESCALER_4,
    SPI_BAUDRATEPRESCALER_8,
    SPI_BAUDRATEPRESCALER_16,
    SPI_BAUDRATEPRESCALER_32,
    SPI_BAUDRATEPRESCALER_64,
    SPI_BAUDRATEPRESCALER_128,
    SPI_BAUDRATEPRESCALER_256,
}

/// The division of the peripheral clock that each prescaler names: the SPI
/// clock is fPCLK divided by this number.
pub open spec fn spec_prescaler_divisor(p: SPIBaudRatePrescalerType) -> nat {
    match p {
        SPIBaudRatePrescalerType::SPI_BAUDRATEPRESCALER_2 => 2,
        SPIBaudRatePrescalerType::SPI_BAUDRATEPRESCALER_4 => 4,
        SPIBaudRatePrescalerType::SPI_BAUDRATEPRESCALER_8 => 8,
        SPIBaudRatePrescalerType::SPI_BAUDRATEPRESCALER_16 => 16,
        SPIBaudRatePrescalerType::SPI_BAUDRATEPRESCALER_32 => 32,
        SPIBaudRatePrescalerType::SPI_BAUDRATEPRESCALER_64 => 64,
        SPIBaudRatePrescalerType::SPI_BAUDRATEPRESCALER_128 => 128,
        SPIBaudRatePrescalerType::SPI_BAUDRATEPRESCALER_256 => 256,
    }
}

#[derive(Clone, Copy, Debug, PartialEq, Eq, Structural)]
pub enum SPIFrameFormatType {
    SPI_MSB_FIRST,
    SPI_LSB_FIRST,
}

#[derive(Clone, Copy, Debug, PartialEq, Eq, Structural)]
pub enum SPIFrameModeType {
    SPI_FRAME_MOTOROLA,
    SPI_FRAME_TI,
}

#[derive(Clone, Copy, Debug, PartialEq, Eq, Structural)]
pub enum SPIMethodeType {
    SPI_POLLING,
    SPI_INTERRUPT,
}

#[derive(Clone, Copy, Debug, PartialEq, Eq, Structural)]
pub enum SPINSSControlType {
    SPI_NSS_HARDWARE,
    SPI_NSS_SOFTWARE,
}

#[derive(Clone, Copy, Debug, PartialEq, Eq, Structural)]
pub struct SPI_ChannelConfigType {
    pub spi_number: SPINumberType,
    pub mode: SPIModeType,
    pub clock_polarity: SPIClockPolarityType,
    pub clock_phase: SPIClockPhaseType,
    pub data_frame_format: SPIDataFrameFormatType,
    pub baud_rate_prescaler: SPIBaudRatePrescalerType,
    pub frame_format: SPIFrameFormatType,
    pub frame_mode: SPIFrameModeType,
    pub crc_enabled: bool,
    pub nss_control: SPINSSControlType,
    pub methode: SPIMethodeType,
}

pub struct SPI_ConfigType {
    pub channels: Vec<SPI_ChannelConfigType>,
}

/// Which slot of the master status table an SPI uses.
#[derive(Clone, Copy, Debug, PartialEq, Eq, Structural)]
pub struct SPIMasterStatusChannelType {
    pub spi_number: SPINumberType,
    pub status_index: usize,
}

pub struct SPIMasterStatusChannelConfig {
    pub channels: Vec<SPIMasterStatusChannelType>,
}

/// Which slot of the slave status table an SPI uses.
#[derive(Clone, Copy, Debug, PartialEq, Eq, Structural)]
pub struct SPISlaveStatusChannelType {
    pub spi_number: SPINumberType,
    pub status_index: usize,
}

pub struct SPISlaveStatusChannelConfig {
    pub channels: Vec<SPISlaveStatusChannelType>,
}

/// A register-level step of an SPI driver call.
#[derive(Clone, Copy, Debug, PartialEq, Eq, Structural)]
pub enum SpiRegisterOp {
    EnablePeripheralClock,
    SetMasterOrSlave(SPIModeType),
    SetBaudRate(u8),
    SetDataFrameFormat(SPIDataFrameFormatType),
    SetFrameFormat(SPIFrameFormatType),
    SetFrameMode(u8),
    SetChipSelect(SPINSSControlType, SPIModeType),
    SetClockPolarity(u8, u8),
    EnableInterrupt,
    DisableInterrupt,
    Enable,
    ClearOverrunFlag,
    WriteData(u8),
}

/// A register step on one SPI.
#[derive(Clone, Copy, Debug, PartialEq, Eq, Structural)]
pub struct SpiCommand {
    pub spi: SPINumberType,
    pub op: SpiRegisterOp,
}

/// Where a polled transfer stands: waiting, with the number of polls made,
/// for the transmit buffer or for the received byte, or finished.
#[derive(Clone, Copy, Debug, PartialEq, Eq, Structural)]
pub enum SpiTransferPhase {
    WaitTx(u32),
    WaitRx(u32),
    Done(SPIReturnType),
}

} // verus!
