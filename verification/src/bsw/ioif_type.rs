use vstd::prelude::*;

verus! {

/// Identifier of a protocol data unit.
pub type PduIdType = u16;

/// The identifier that never names a configured PDU.
pub const IOIF_INVALID_PDU_ID: u16 = 0xFFFF;

#[derive(Clone, Copy, Debug, PartialEq, Eq, Structural)]
pub enum IoIf_ReturnType {
    IOIF_E_OK,
    IOIF_E_NOT_OK,
}

#[derive(Clone, Copy, Debug, PartialEq, Eq, Structural)]
pub enum IoIf_TxChannelType {
    LED_RED,
    LED_ORANGE,
    LED_BLUE,
    LED_YELLOW,
    RELAY,
    FAN_ENABLE,
}

#[derive(Clone, Copy, Debug, PartialEq, Eq, Structural)]
pub enum IoIf_TxChannelGroupType {
    LED_GROUP_RED_BLUE,
    LED_GROUP_ORANGE_YELLOW,
}

#[derive(Clone, Copy, Debug, PartialEq, Eq, Structural)]
pub enum IoIf_RxChannelType {
    BUTTON_USER,
    SENSOR_LM35,
}

#[derive(Clone, Copy, Debug, PartialEq, Eq, Structural)]
pub enum IoIf_PeripheralType {
    DIO,
    ADC,
    PWM,
}

#[derive(Clone, Copy, Debug, PartialEq, Eq, Structural)]
pub enum IoIf_RxMode {
    POLLING,
    INTERRUPT,
}

#[derive(Clone, Copy, Debug, PartialEq, Eq, Structural)]
pub struct IoIf_RxPdu {
    pub index: usize,
    pub id: u16,
    pub peripheral: IoIf_PeripheralType,
    pub channel: IoIf_RxChannelType,
    pub mode: IoIf_RxMode,
}

#[derive(Clone, Copy, Debug, PartialEq, Eq, Structural)]
pub struct IoIf_TxPdu {
    pub index: usize,
    pub id: u16,
    pub peripheral: IoIf_PeripheralType,
    pub channel: IoIf_TxChannelType,
}

#[derive(Clone, Copy, Debug, PartialEq, Eq, Structural)]
pub struct IoIf_TxPduGroup {
    pub index: usize,
    pub id: u16,
    pub peripheral: IoIf_PeripheralType,
    pub channel_group: IoIf_TxChannelGroupType,
}

pub struct IoIf_ConfigRXType {
    pub rx_pdus: Vec<IoIf_RxPdu>,
}

pub struct IoIf_ConfigTXType {
    pub tx_pdus: Vec<IoIf_TxPdu>,
}

pub struct IoIf_ConfigTXGroupType {
    pub tx_pdu_groups: Vec<IoIf_TxPduGroup>,
}

#[derive(Clone, Copy, Debug, PartialEq, Eq, Structural)]
pub enum IoIf_OutputType {
    STD_ON,
    STD_OFF,
    TOGGLE,
}

#[derive(Clone, Copy, Debug, PartialEq, Eq, Structural)]
pub enum IoIf_ConfirmationType {
    CONFIRMED_OK,
    CONFIRMED_NOT_OK,
}

#[derive(Clone, Copy, Debug, PartialEq, Eq, Structural)]
pub enum IoIf_PduStatusType {
    IOIF_IDLE,
    IOIF_PENDING,
    IOIF_BUSY,
    IOIF_COMPLETED,
    IOIF_ERROR,
}

/// The status code of one PDU, with the PDU it belongs to.
#[derive(Clone, Copy, Debug, PartialEq, Eq, Structural)]
pub struct IoIf_PduRuntimeStatus {
    pub pdu_id: u16,
    pub status: u8,
}

pub open spec fn spec_pdu_status_code(s: IoIf_PduStatusType) -> u8 {
    match s {
        IoIf_PduStatusType::IOIF_IDLE => 0,
        IoIf_PduStatusType::IOIF_PENDING => 1,
        IoIf_PduStatusType::IOIF_BUSY => 2,
        IoIf_PduStatusType::IOIF_COMPLETED => 3,
        IoIf_PduStatusType::IOIF_ERROR => 4,
    }
}

pub fn pdu_status_code(s: IoIf_PduStatusType) -> (r: u8)
    ensures
        r == spec_pdu_status_code(s),
{
    match s {
        IoIf_PduStatusType::IOIF_IDLE => 0,
        IoIf_PduStatusType::IOIF_PENDING => 1,
        IoIf_PduStatusType::IOIF_BUSY => 2,
        IoIf_PduStatusType::IOIF_COMPLETED => 3,
        IoIf_PduStatusType::IOIF_ERROR => 4,
    }
}

pub open spec fn spec_decode_pdu_status(c: u8) -> Option<IoIf_PduStatusType> {
    if c == 0 {
        Some(IoIf_PduStatusType::IOIF_IDLE)
    } else if c == 1 {
        Some(IoIf_PduStatusType::IOIF_PENDING)
    } else if c == 2 {
        Some(IoIf_PduStatusType::IOIF_BUSY)
    } else if c == 3 {
        Some(IoIf_PduStatusType::IOIF_COMPLETED)
    } else if c == 4 {
        Some(IoIf_PduStatusType::IOIF_ERROR)
    } else {
        None
    }
}

pub open spec fn spec_confirmation_code(c: IoIf_ConfirmationType) -> u8 {
    match c {
        IoIf_ConfirmationType::CONFIRMED_OK => 0,
        IoIf_ConfirmationType::CONFIRMED_NOT_OK => 1,
    }
}

pub fn confirmation_code(c: IoIf_ConfirmationType) -> (r: u8)
    ensures
        r == spec_confirmation_code(c),
{
    match c {
        IoIf_ConfirmationType::CONFIRMED_OK => 0,
        IoIf_ConfirmationType::CONFIRMED_NOT_OK => 1,
    }
}

pub open spec fn spec_output_code(o: IoIf_OutputType) -> u8 {
    match o {
        IoIf_OutputType::STD_ON => 0,
        IoIf_OutputType::STD_OFF => 1,
        IoIf_OutputType::TOGGLE => 2,
    }
}

pub fn output_code(o: IoIf_OutputType) -> (r: u8)
    ensures
        r == spec_output_code(o),
{
    match o {
        IoIf_OutputType::STD_ON => 0,
        IoIf_OutputType::STD_OFF => 1,
        IoIf_OutputType::TOGGLE => 2,
    }
}

} // verus!
