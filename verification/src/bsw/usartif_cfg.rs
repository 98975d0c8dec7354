use vstd::prelude::*;
use crate::register::UsartNumber;
use crate::bsw::usartif_type::{UsartIf_TxPduType, UsartIf_TxPduConfig, UsartIf_RxPduType, UsartIf_RxPduConfig};

verus! {

pub const USART_TXPDUCONFIG_SIZE: usize = 1;
pub const USART_RXPDUCONFIG_SIZE: usize = 1;

/// One transmitted PDU: identifier 0, up to 16 bytes, on USART2,
/// confirmation slot 0.
pub open spec fn spec_usartif_txpdu_config() -> Seq<UsartIf_TxPduType> {
    seq![UsartIf_TxPduType { tx_pdu_id: 0x00, tx_pdu_length: 16, lower_channel: UsartNumber::USART2, confirmation_index: 0 }]
}

/// One received PDU on USART2: up to 16 bytes, a 1000 ms gap between bytes
/// ends it in error, and a CRC-8 trailer is checked.
pub open spec fn spec_usartif_rxpdu_config() -> Seq<UsartIf_RxPduType> {
    seq![
        UsartIf_RxPduType {
            rx_pdu_id: 0x00,
            rx_pdu_length: 16,
            lower_channel: UsartNumber::USART2,
            upper_id: 0x00,
            rx_timeout: 1000,
            crc: true,
        },
    ]
}

/// The transmitted PDU table.
pub fn get_usartif_txpdu_config() -> (r: UsartIf_TxPduConfig)
    ensures
        r.tx_pdu@ == spec_usartif_txpdu_config(),
{
    UsartIf_TxPduConfig {
        tx_pdu: vec![
            UsartIf_TxPduType { tx_pdu_id: 0x00, tx_pdu_length: 16, lower_channel: UsartNumber::USART2, confirmation_index: 0 },
        ],
    }
}

/// The received PDU table.
pub fn get_usartif_rxpdu_config() -> (r: UsartIf_RxPduConfig)
    ensures
        r.rx_pdu@ == spec_usartif_rxpdu_config(),
{
    UsartIf_RxPduConfig {
        rx_pdu: vec![
            UsartIf_RxPduType {
                rx_pdu_id: 0x00,
                rx_pdu_length: 16,
                lower_channel: UsartNumber::USART2,
                upper_id: 0x00,
                rx_timeout: 1000,
                crc: true,
            },
        ],
    }
}

} // verus!
