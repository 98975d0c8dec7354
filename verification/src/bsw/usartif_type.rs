use vstd::prelude::*;
use crate::register::UsartNumber;

verus! {

/// A PDU handed between layers: its bytes (`None` stands for a missing
/// buffer) and the number of bytes that count.
pub struct PduInfoType {
    pub data: Option<Vec<u8>>,
    pub length: u32,
}

#[derive(Clone, Copy, Debug, PartialEq, Eq, Structural)]
pub enum UsartIf_ReturnType {
    USARTIF_OK,
    USARTIF_NOT_OK,
}

#[derive(Clone, Copy, Debug, PartialEq, Eq, Structural)]
pub struct UsartIf_TxPduType {
    pub tx_pdu_id: u16,
    pub tx_pdu_length: u8,
    pub lower_channel: UsartNumber,
    pub confirmation_index: u8,
}

pub struct UsartIf_TxPduConfig {
    pub tx_pdu: Vec<UsartIf_TxPduType>,
}

#[derive(Clone, Copy, Debug, PartialEq, Eq, Structural)]
pub enum UsartIf_TxConfirmationStatus {
    USARTIF_TX_CONFIRMATION_OK,
    USARTIF_TX_CONFIRMATION_NOT_OK,
}

/// The identifier that never names a configured PDU.
pub const USARTIF_INVALID_PDU_ID: u16 = 0xFFFF;

#[derive(Clone, Copy, Debug, PartialEq, Eq, Structural)]
pub enum UsartIf_PduStatus {
    USARTIF_IDLE,
    USARTIF_PENDING,
    USARTIF_BUSY,
    USARTIF_COMPLETED,
    USARTIF_ERROR,
}

#[derive(Clone, Copy, Debug, PartialEq, Eq, Structural)]
pub struct UsartIf_TxPduStatusType {
    pub pdu_id: u16,
    pub status: u8,
}

#[derive(Clone, Copy, Debug, PartialEq, Eq, Structural)]
pub struct UsartIf_RxPduStatusType {
    pub channel: UsartNumber,
    pub status: u8,
}

#[derive(Clone, Copy, Debug, PartialEq, Eq, Structural)]
pub struct UsartIf_RxPduType {
    pub rx_pdu_id: u16,
    pub rx_pdu_length: u8,
    pub lower_channel: UsartNumber,
    pub upper_id: u16,
    pub rx_timeout: u32,
    pub crc: bool,
}

pub struct UsartIf_RxPduConfig {
    pub rx_pdu: Vec<UsartIf_RxPduType>,
}

#[derive(Clone, Copy, Debug, PartialEq, Eq, Structural)]
pub enum UsartIf_RxIndicationaStatus {
    USARTIF_RX_INDICATION_OK,
    USARTIF_RX_INDICATION_NOT_OK,
}

pub open spec fn spec_usartif_status_code(s: UsartIf_PduStatus) -> u8 {
    match s {
        UsartIf_PduStatus::USARTIF_IDLE => 0,
        UsartIf_PduStatus::USARTIF_PENDING => 1,
        UsartIf_PduStatus::USARTIF_BUSY => 2,
        UsartIf_PduStatus::USARTIF_COMPLETED => 3,
        UsartIf_PduStatus::USARTIF_ERROR => 4,
    }
}

pub fn usartif_status_code(s: UsartIf_PduStatus) -> (r: u8)
    ensures
        r == spec_usartif_status_code(s),
{
    match s {
        UsartIf_PduStatus::USARTIF_IDLE => 0,
        UsartIf_PduStatus::USARTIF_PENDING => 1,
        UsartIf_PduStatus::USARTIF_BUSY => 2,
        UsartIf_PduStatus::USARTIF_COMPLETED => 3,
        UsartIf_PduStatus::USARTIF_ERROR => 4,
    }
}

pub open spec fn spec_decode_usartif_status(c: u8) -> Option<UsartIf_PduStatus> {
    if c == 0 {
        Some(UsartIf_PduStatus::USARTIF_IDLE)
    } else if c == 1 {
        Some(UsartIf_PduStatus::USARTIF_PENDING)
    } else if c == 2 {
        Some(UsartIf_PduStatus::USARTIF_BUSY)
    } else if c == 3 {
        Some(UsartIf_PduStatus::USARTIF_COMPLETED)
    } else if c == 4 {
        Some(UsartIf_PduStatus::USARTIF_ERROR)
    } else {
        None
    }
}

pub fn decode_usartif_status(c: u8) -> (r: Option<UsartIf_PduStatus>)
    ensures
        r == spec_decode_usartif_status(c),
{
    if c == 0 {
        Some(UsartIf_PduStatus::USARTIF_IDLE)
    } else if c == 1 {
        Some(UsartIf_PduStatus::USARTIF_PENDING)
    } else if c == 2 {
        Some(UsartIf_PduStatus::USARTIF_BUSY)
    } else if c == 3 {
        Some(UsartIf_PduStatus::USARTIF_COMPLETED)
    } else if c == 4 {
        Some(UsartIf_PduStatus::USARTIF_ERROR)
    } else {
        None
    }
}

} // verus!
