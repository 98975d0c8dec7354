use vstd::prelude::*;
use crate::register::{UsartNumber, IRQn};

verus! {

#[derive(Clone, Copy, Debug, PartialEq, Eq, Structural)]
pub enum UsartRxStatus {
    Idle,
    Busy,
    Error,
}

#[derive(Clone, Copy, Debug, PartialEq, Eq, Structural)]
pub enum UsartTxStatus {
    Idle,
    Busy,
    Completed,
    Error,
}

#[derive(Clone, Copy, Debug, PartialEq, Eq, Structural)]
pub enum UsartReturnType {
    USART_OK,
    USART_BUSY,
    USART_NOT_OK,
}

#[derive(Clone, Copy, Debug, PartialEq, Eq, Structural)]
pub enum UsartParityType {
    NONE,
    Even,
    Odd,
}

#[derive(Clone, Copy, Debug, PartialEq, Eq, Structural)]
pub enum UsartTxRxMode {
    POLLING,
    INTERRUPT,
}

#[derive(Clone, Copy, Debug, PartialEq, Eq, Structural)]
pub struct Usart_ChannelConfigType {
    pub usart_number: UsartNumber,
    pub baud_rate: u32,
    pub parity: UsartParityType,
    pub mode: UsartTxRxMode,
    pub irq_line: IRQn,
}

pub struct Usart_ConfigType {
    pub channels: Vec<Usart_ChannelConfigType>,
}

/// A register-level step of a USART driver call. `WriteData` waits for
/// an empty transmit register and writes the byte; `WriteDataDirect`
/// writes it at once; `WaitTxComplete` waits until the transmission has
/// completed.
#[derive(Clone, Copy, Debug, PartialEq, Eq, Structural)]
pub enum UsartRegisterOp {
    EnablePeripheralClock,
    SetBaudRate(u32),
    EnableTxRx,
    Enable,
    SetParity(UsartParityType),
    EnableIrq(IRQn),
    ClearTcFlag,
    EnableTxInterrupt,
    DisableTxInterrupt,
    EnableRxInterrupt,
    DisableRxInterrupt,
    EnableTcInterrupt,
    DisableTcInterrupt,
    ClearErrorFlags,
    WriteData(u8),
    WriteDataDirect(u8),
    WaitTxComplete,
}

/// A register step on one USART.
#[derive(Clone, Copy, Debug, PartialEq, Eq, Structural)]
pub struct UsartCommand {
    pub usart: UsartNumber,
    pub op: UsartRegisterOp,
}

} // verus!
