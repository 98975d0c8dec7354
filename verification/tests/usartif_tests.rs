use mini_autosar::bsw::usartif_rx::{
    UsartIfRxState, usartif_startofreception, usartif_rx_processing, usartif_get_pdu_status, usartif_rx_data_is_available,
    usartif_rx_timeout_processing,
};
use mini_autosar::bsw::usartif_tx::{UsartIfTxState, usartif_transmit, usartif_get_tx_confirmation_status};
use mini_autosar::bsw::usartif_type::{PduInfoType, UsartIf_PduStatus, UsartIf_ReturnType};
use mini_autosar::mcal::mcu::McuState;
use mini_autosar::mcal::usart::{UsartState, usart_irq_data, usart_rx_ring_pop};
use mini_autosar::mcal::usart_type::{UsartCommand, UsartRegisterOp};
use mini_autosar::register::{UsartFlags, UsartNumber};

fn feed(u: &mut UsartState, ops: &mut Vec<UsartCommand>, bytes: &[u8]) {
    for &b in bytes {
        usart_irq_data(u, ops, UsartNumber::USART2, UsartFlags { has_error: false, rx_not_empty: true, tx_empty: false, rx_data: b });
    }
}

fn start(ur: &mut UsartIfRxState, u: &mut UsartState, ops: &mut Vec<UsartCommand>, len: u32) -> UsartIf_ReturnType {
    usartif_startofreception(ur, u, ops, UsartNumber::USART2, Some(PduInfoType { data: Some(vec![0xAA; len as usize]), length: len }))
}

#[test]
fn usartif_reception_start_refusals() {
    let mut ur = UsartIfRxState::new();
    let mut u = UsartState::new();
    let mut ops = Vec::new();
    assert_eq!(usartif_startofreception(&mut ur, &mut u, &mut ops, UsartNumber::USART2, None), UsartIf_ReturnType::USARTIF_NOT_OK);
    assert_eq!(
        usartif_startofreception(&mut ur, &mut u, &mut ops, UsartNumber::USART1, Some(PduInfoType { data: Some(vec![0; 4]), length: 4 })),
        UsartIf_ReturnType::USARTIF_NOT_OK
    );
    assert_eq!(
        usartif_startofreception(&mut ur, &mut u, &mut ops, UsartNumber::USART2, Some(PduInfoType { data: Some(vec![0; 20]), length: 17 })),
        UsartIf_ReturnType::USARTIF_NOT_OK
    );
    assert!(ops.is_empty());
    assert_eq!(start(&mut ur, &mut u, &mut ops, 16), UsartIf_ReturnType::USARTIF_OK);
    assert_eq!(usartif_get_pdu_status(&ur, UsartNumber::USART2), Some(UsartIf_PduStatus::USARTIF_BUSY));
    assert_eq!(ops, vec![UsartCommand { usart: UsartNumber::USART2, op: UsartRegisterOp::EnableRxInterrupt }]);
    // the handed-over buffer is zeroed over its counted length
    assert_eq!(ur.buffers[1], vec![0u8; 16]);
    // a second start while busy is refused and sets the PDU in error
    assert_eq!(start(&mut ur, &mut u, &mut ops, 16), UsartIf_ReturnType::USARTIF_NOT_OK);
    assert_eq!(usartif_get_pdu_status(&ur, UsartNumber::USART2), Some(UsartIf_PduStatus::USARTIF_ERROR));
}

#[test]
fn usartif_crc_line_completes_reception() {
    let mut ur = UsartIfRxState::new();
    let mut u = UsartState::new();
    let mut ops = Vec::new();
    let mcu = McuState { system_tick_count: 42 };
    assert_eq!(start(&mut ur, &mut u, &mut ops, 16), UsartIf_ReturnType::USARTIF_OK);
    // CRC-8 (polynomial 0x07, initial 0) of "123456789" is 0xF4
    feed(&mut u, &mut ops, b"123456789F4\rXY");
    assert!(usartif_rx_data_is_available(&u, UsartNumber::USART2));
    usartif_rx_processing(&mut ur, &mut u, &mcu, UsartNumber::USART2);
    assert_eq!(usartif_get_pdu_status(&ur, UsartNumber::USART2), Some(UsartIf_PduStatus::USARTIF_COMPLETED));
    assert_eq!(&ur.buffers[1][0..9], b"123456789");
    assert_eq!(&ur.buffers[1][9..11], &[0, 0]);
    assert_eq!(ur.rx_index[1], 0);
    assert_eq!(ur.indication[1], 0);
    assert_eq!(ur.last_byte_tick[1], 42);
    // the bytes after the line stay in the ring
    assert_eq!(usart_rx_ring_pop(&mut u, UsartNumber::USART2), Some(b'X'));
    assert_eq!(usart_rx_ring_pop(&mut u, UsartNumber::USART2), Some(b'Y'));
    assert_eq!(usart_rx_ring_pop(&mut u, UsartNumber::USART2), None);
}

#[test]
fn usartif_lowercase_crc_digits_accepted() {
    let mut ur = UsartIfRxState::new();
    let mut u = UsartState::new();
    let mut ops = Vec::new();
    let mcu = McuState { system_tick_count: 0 };
    start(&mut ur, &mut u, &mut ops, 16);
    feed(&mut u, &mut ops, b"123456789f4\n");
    usartif_rx_processing(&mut ur, &mut u, &mcu, UsartNumber::USART2);
    assert_eq!(usartif_get_pdu_status(&ur, UsartNumber::USART2), Some(UsartIf_PduStatus::USARTIF_COMPLETED));
}

#[test]
fn usartif_bad_crc_is_error() {
    let mut ur = UsartIfRxState::new();
    let mut u = UsartState::new();
    let mut ops = Vec::new();
    let mcu = McuState { system_tick_count: 0 };
    start(&mut ur, &mut u, &mut ops, 16);
    feed(&mut u, &mut ops, b"123456789F5\r");
    usartif_rx_processing(&mut ur, &mut u, &mcu, UsartNumber::USART2);
    assert_eq!(usartif_get_pdu_status(&ur, UsartNumber::USART2), Some(UsartIf_PduStatus::USARTIF_ERROR));
    assert_eq!(ur.rx_index[1], 11);
}

#[test]
fn usartif_short_frame_is_error() {
    let mut ur = UsartIfRxState::new();
    let mut u = UsartState::new();
    let mut ops = Vec::new();
    let mcu = McuState { system_tick_count: 0 };
    start(&mut ur, &mut u, &mut ops, 16);
    feed(&mut u, &mut ops, b"00\r");
    usartif_rx_processing(&mut ur, &mut u, &mcu, UsartNumber::USART2);
    assert_eq!(usartif_get_pdu_status(&ur, UsartNumber::USART2), Some(UsartIf_PduStatus::USARTIF_ERROR));
}

#[test]
fn usartif_full_buffer_is_error() {
    let mut ur = UsartIfRxState::new();
    let mut u = UsartState::new();
    let mut ops = Vec::new();
    let mcu = McuState { system_tick_count: 0 };
    start(&mut ur, &mut u, &mut ops, 4);
    feed(&mut u, &mut ops, b"ABCDEF");
    usartif_rx_processing(&mut ur, &mut u, &mcu, UsartNumber::USART2);
    assert_eq!(usartif_get_pdu_status(&ur, UsartNumber::USART2), Some(UsartIf_PduStatus::USARTIF_ERROR));
    assert_eq!(&ur.buffers[1][0..4], b"ABCD");
    // the byte that filled the buffer was the last one taken
    assert_eq!(usart_rx_ring_pop(&mut u, UsartNumber::USART2), Some(b'E'));
}

#[test]
fn usartif_processing_without_buffer_is_error() {
    let mut ur = UsartIfRxState::new();
    let mut u = UsartState::new();
    let mcu = McuState { system_tick_count: 0 };
    usartif_rx_processing(&mut ur, &mut u, &mcu, UsartNumber::USART2);
    assert_eq!(usartif_get_pdu_status(&ur, UsartNumber::USART2), Some(UsartIf_PduStatus::USARTIF_ERROR));
}

#[test]
fn usartif_partial_frame_times_out() {
    let mut ur = UsartIfRxState::new();
    let mut u = UsartState::new();
    let mut ops = Vec::new();
    start(&mut ur, &mut u, &mut ops, 16);
    feed(&mut u, &mut ops, b"12");
    usartif_rx_processing(&mut ur, &mut u, &McuState { system_tick_count: 100 }, UsartNumber::USART2);
    assert_eq!(usartif_get_pdu_status(&ur, UsartNumber::USART2), Some(UsartIf_PduStatus::USARTIF_BUSY));
    usartif_rx_timeout_processing(&mut ur, &McuState { system_tick_count: 1099 }, UsartNumber::USART2);
    assert_eq!(usartif_get_pdu_status(&ur, UsartNumber::USART2), Some(UsartIf_PduStatus::USARTIF_BUSY));
    usartif_rx_timeout_processing(&mut ur, &McuState { system_tick_count: 1100 }, UsartNumber::USART2);
    assert_eq!(usartif_get_pdu_status(&ur, UsartNumber::USART2), Some(UsartIf_PduStatus::USARTIF_ERROR));
    assert_eq!(ur.rx_index[1], 0);
    assert_eq!(&ur.buffers[1][0..2], &[0, 0]);
}

#[test]
fn usartif_transmit_sends_bytes() {
    let mut ut = UsartIfTxState::new();
    let mut u = UsartState::new();
    let mut ops = Vec::new();
    let pdu = PduInfoType { data: Some(b"Hi".to_vec()), length: 2 };
    assert_eq!(usartif_transmit(&mut ut, &mut u, &mut ops, 0, Some(&pdu)), UsartIf_ReturnType::USARTIF_OK);
    assert_eq!(ops.last().map(|c| c.op), Some(UsartRegisterOp::EnableTxInterrupt));
    // a second request while the first is in flight is refused
    assert_eq!(usartif_transmit(&mut ut, &mut u, &mut ops, 0, Some(&pdu)), UsartIf_ReturnType::USARTIF_NOT_OK);
    // unknown PDU and empty PDU are refused
    let mut ut2 = UsartIfTxState::new();
    let mut u2 = UsartState::new();
    assert_eq!(usartif_transmit(&mut ut2, &mut u2, &mut ops, 1, Some(&pdu)), UsartIf_ReturnType::USARTIF_NOT_OK);
    let empty = PduInfoType { data: Some(vec![]), length: 0 };
    assert_eq!(usartif_transmit(&mut ut2, &mut u2, &mut ops, 0, Some(&empty)), UsartIf_ReturnType::USARTIF_NOT_OK);
    let _ = usartif_get_tx_confirmation_status(&ut, 0);
}
