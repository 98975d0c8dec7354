use vstd::prelude::*;
use crate::bsw::ioif_type::{
    IoIf_TxChannelType, IoIf_RxChannelType, IoIf_PeripheralType, IoIf_RxPdu, IoIf_TxPdu, IoIf_RxMode,
    IoIf_TxPduGroup, IoIf_TxChannelGroupType,
};

verus! {

pub const IOIF_RX_PDU_COUNT: usize = 2;
pub const IOIF_TX_PDU_COUNT: usize = 4;
pub const IOIF_TX_PDU_GROUP_COUNT: usize = 2;

/// Received PDUs: 0x100 is the user button (interrupt driven), 0x101 the
/// LM35 sensor (polled through the ADC).
pub open spec fn spec_rx_pdu_config() -> Seq<IoIf_RxPdu> {
    seq![
        IoIf_RxPdu {
            index: 0,
            id: 0x100,
            peripheral: IoIf_PeripheralType::DIO,
            channel: IoIf_RxChannelType::BUTTON_USER,
            mode: IoIf_RxMode::INTERRUPT,
        },
        IoIf_RxPdu {
            index: 1,
            id: 0x101,
            peripheral: IoIf_PeripheralType::ADC,
            channel: IoIf_RxChannelType::SENSOR_LM35,
            mode: IoIf_RxMode::POLLING,
        },
    ]
}

/// Transmitted PDUs: 0x200..0x203 drive the red, orange, blue and yellow LEDs.
pub open spec fn spec_tx_pdu_config() -> Seq<IoIf_TxPdu> {
    seq![
        IoIf_TxPdu { index: 0, id: 0x200, peripheral: IoIf_PeripheralType::DIO, channel: IoIf_TxChannelType::LED_RED },
        IoIf_TxPdu { index: 1, id: 0x201, peripheral: IoIf_PeripheralType::DIO, channel: IoIf_TxChannelType::LED_ORANGE },
        IoIf_TxPdu { index: 2, id: 0x202, peripheral: IoIf_PeripheralType::DIO, channel: IoIf_TxChannelType::LED_BLUE },
        IoIf_TxPdu { index: 3, id: 0x203, peripheral: IoIf_PeripheralType::DIO, channel: IoIf_TxChannelType::LED_YELLOW },
    ]
}

/// Transmitted PDU groups: 0x300 drives the red/blue pair, 0x301 the
/// orange/yellow pair.
pub open spec fn spec_tx_pdu_group_config() -> Seq<IoIf_TxPduGroup> {
    seq![
        IoIf_TxPduGroup {
            index: 0,
            id: 0x300,
            peripheral: IoIf_PeripheralType::DIO,
            channel_group: IoIf_TxChannelGroupType::LED_GROUP_RED_BLUE,
        },
        IoIf_TxPduGroup {
            index: 1,
            id: 0x301,
            peripheral: IoIf_PeripheralType::DIO,
            channel_group: IoIf_TxChannelGroupType::LED_GROUP_ORANGE_YELLOW,
        },
    ]
}

/// The received PDU table.
pub fn ioif_get_rx_pdu_config() -> (r: Vec<IoIf_RxPdu>)
    ensures
        r@ == spec_rx_pdu_config(),
{
    vec![
        IoIf_RxPdu {
            index: 0,
            id: 0x100,
            peripheral: IoIf_PeripheralType::DIO,
            channel: IoIf_RxChannelType::BUTTON_USER,
            mode: IoIf_RxMode::INTERRUPT,
        },
        IoIf_RxPdu {
            index: 1,
            id: 0x101,
            peripheral: IoIf_PeripheralType::ADC,
            channel: IoIf_RxChannelType::SENSOR_LM35,
            mode: IoIf_RxMode::POLLING,
        },
    ]
}

/// The transmitted PDU table.
pub fn ioif_get_tx_pdu_config() -> (r: Vec<IoIf_TxPdu>)
    ensures
        r@ == spec_tx_pdu_config(),
{
    vec![
        IoIf_TxPdu { index: 0, id: 0x200, peripheral: IoIf_PeripheralType::DIO, channel: IoIf_TxChannelType::LED_RED },
        IoIf_TxPdu { index: 1, id: 0x201, peripheral: IoIf_PeripheralType::DIO, channel: IoIf_TxChannelType::LED_ORANGE },
        IoIf_TxPdu { index: 2, id: 0x202, peripheral: IoIf_PeripheralType::DIO, channel: IoIf_TxChannelType::LED_BLUE },
        IoIf_TxPdu { index: 3, id: 0x203, peripheral: IoIf_PeripheralType::DIO, channel: IoIf_TxChannelType::LED_YELLOW },
    ]
}

/// The transmitted PDU group table.
pub fn ioif_get_tx_pdu_group_config() -> (r: Vec<IoIf_TxPduGroup>)
    ensures
        r@ == spec_tx_pdu_group_config(),
{
    vec![
        IoIf_TxPduGroup {
            index: 0,
            id: 0x300,
            peripheral: IoIf_PeripheralType::DIO,
            channel_group: IoIf_TxChannelGroupType::LED_GROUP_RED_BLUE,
        },
        IoIf_TxPduGroup {
            index: 1,
            id: 0x301,
            peripheral: IoIf_PeripheralType::DIO,
            channel_group: IoIf_TxChannelGroupType::LED_GROUP_ORANGE_YELLOW,
        },
    ]
}

} // verus!
