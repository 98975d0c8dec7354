use mini_autosar::bsw::comm::{ComMState, comm_init, comm_mainfunction, comm_requestcommode};
use mini_autosar::bsw::comm_type::{ComMRequestedMode, ComMUser};
use mini_autosar::bsw::scheduler::{
    SchedulerState, scheduler_init, scheduler_mainfunction, scheduler_record_temperature, scheduler_runnable_1000ms,
    scheduler_runnable_5ms,
};
use mini_autosar::bsw::scheduler_type::SchedulerRunnableFn;
use mini_autosar::bsw::usartif_rx::{UsartIfRxState, usartif_get_pdu_status};
use mini_autosar::bsw::usartif_tx::UsartIfTxState;
use mini_autosar::bsw::usartif_type::UsartIf_PduStatus;
use mini_autosar::mcal::mcu::McuState;
use mini_autosar::mcal::usart::{UsartState, usart_irq_data};
use mini_autosar::mcal::usart_type::UsartRegisterOp;
use mini_autosar::register::{UsartFlags, UsartNumber};

fn full_comm() -> ComMState {
    let mut comm = ComMState::new();
    comm_init(&mut comm);
    comm_requestcommode(&mut comm, ComMUser::APP_GPIO, ComMRequestedMode::FULL_COMMUNICATION);
    comm_mainfunction(&mut comm);
    comm_mainfunction(&mut comm);
    comm
}

#[test]
fn scheduler_runs_due_tasks() {
    let mut s = SchedulerState::new();
    scheduler_init(&mut s, &McuState { system_tick_count: 100 });
    assert_eq!(s.last_run, vec![100, 100, 100, 100]);
    assert!(scheduler_mainfunction(&mut s, &McuState { system_tick_count: 100 }).is_empty());
    assert_eq!(scheduler_mainfunction(&mut s, &McuState { system_tick_count: 101 }), vec![SchedulerRunnableFn::Runnable1ms]);
    assert_eq!(scheduler_mainfunction(&mut s, &McuState { system_tick_count: 110 }), vec![
        SchedulerRunnableFn::Runnable1ms,
        SchedulerRunnableFn::Runnable10ms,
    ]);
    assert_eq!(scheduler_mainfunction(&mut s, &McuState { system_tick_count: 600 }), vec![
        SchedulerRunnableFn::Runnable1ms,
        SchedulerRunnableFn::Runnable10ms,
        SchedulerRunnableFn::Runnable5ms,
        SchedulerRunnableFn::Runnable500ms,
    ]);
    assert_eq!(s.last_run, vec![600, 600, 600, 600]);
}

#[test]
fn scheduler_handles_tick_wrap() {
    let mut s = SchedulerState::new();
    scheduler_init(&mut s, &McuState { system_tick_count: u32::MAX - 4 });
    assert_eq!(scheduler_mainfunction(&mut s, &McuState { system_tick_count: 5 }), vec![
        SchedulerRunnableFn::Runnable1ms,
        SchedulerRunnableFn::Runnable10ms,
    ]);
}

#[test]
fn scheduler_temperature_count() {
    let mut s = SchedulerState::new();
    scheduler_record_temperature(&mut s, 31);
    scheduler_record_temperature(&mut s, 35);
    assert_eq!(s.count, 2);
    assert_eq!(s.temperature, 35);
    scheduler_record_temperature(&mut s, 30);
    assert_eq!(s.count, 0);
    s.count = u16::MAX;
    scheduler_record_temperature(&mut s, 40);
    assert_eq!(s.count, 0);
}

#[test]
fn scheduler_1000ms_sends_hello_in_full_com_only() {
    let comm = ComMState::new();
    let mut ut = UsartIfTxState::new();
    let mut u = UsartState::new();
    let mut ops = Vec::new();
    scheduler_runnable_1000ms(&comm, &mut ut, &mut u, &mut ops);
    assert!(ops.is_empty());
    let comm = full_comm();
    scheduler_runnable_1000ms(&comm, &mut ut, &mut u, &mut ops);
    assert_eq!(u.tx_len[1], 14);
    assert_eq!(&u.tx_buffer[128..128 + 14], b"Hello, USART!\n");
}

#[test]
fn scheduler_5ms_echoes_success() {
    let comm = full_comm();
    let mut s = SchedulerState::new();
    let mut ur = UsartIfRxState::new();
    let mut u = UsartState::new();
    let mut ut = UsartIfTxState::new();
    let mut ops = Vec::new();
    let mcu = McuState { system_tick_count: 10 };
    scheduler_runnable_5ms(&mut s, &comm, &mut ur, &mut u, &mut ut, &mcu, &mut ops);
    assert!(s.rx_started);
    assert_eq!(usartif_get_pdu_status(&ur, UsartNumber::USART2), Some(UsartIf_PduStatus::USARTIF_BUSY));
    // "111" with its CRC-8 (0xF1) in hex, then a carriage return
    for &b in b"111F1\r" {
        usart_irq_data(&mut u, &mut ops, UsartNumber::USART2, UsartFlags { has_error: false, rx_not_empty: true, tx_empty: false, rx_data: b });
    }
    scheduler_runnable_5ms(&mut s, &comm, &mut ur, &mut u, &mut ut, &mcu, &mut ops);
    assert!(!s.rx_started);
    assert_eq!(usartif_get_pdu_status(&ur, UsartNumber::USART2), Some(UsartIf_PduStatus::USARTIF_COMPLETED));
    assert_eq!(&u.tx_buffer[128..128 + 14], b"successfully!\n");
    assert_eq!(ops.last().map(|c| c.op), Some(UsartRegisterOp::EnableTxInterrupt));
}
