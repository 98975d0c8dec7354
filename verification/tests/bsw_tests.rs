use mini_autosar::app::button_app::{ButtonAppState, button_app_1ms};
use mini_autosar::app::led_app::{led_app_1ms, led_app_500ms};
use mini_autosar::bsw::button::{ButtonState, button_exti_notification, get_button_count, read_button_state};
use mini_autosar::bsw::comm::{ComMState, comm_getcurrentcommode, comm_init, comm_mainfunction, comm_requestcommode};
use mini_autosar::bsw::comm_type::{ComMMode, ComMRequestedMode, ComMReturnType, ComMUser, ComM_NetWorkHandleType};
use mini_autosar::bsw::iohwab_type::{Button, IoHwAb_ReturnType, LedColor, LedGroup, LedState, SensorType};
use mini_autosar::bsw::ioif::ioif_init;
use mini_autosar::bsw::ioif_rx::{IoIfRxState, ioif_read_rx_value, ioif_rxindication};
use mini_autosar::bsw::ioif_tx::{IoIfTxState, ioif_get_tx_output_status_by_index, ioif_txconfirmation, ioif_write_tx_group_state, ioif_write_tx_state};
use mini_autosar::bsw::ioif_type::{IoIf_ConfirmationType, IoIf_OutputType, IoIf_ReturnType};
use mini_autosar::bsw::led::{get_led_state, led_set_state_group, led_toggle, set_led_state};
use mini_autosar::bsw::sensor::{SensorState, iohwab_sensor_mainfunction, iohwab_sensor_read_latest_value};
use mini_autosar::mcal::mcu::McuState;
use mini_autosar::register::{AdcRegisters, Dio_LevelType, GpioRegisters};

#[test]
fn comm_full_request_reaches_full_after_two_cycles() {
    let mut s = ComMState::new();
    comm_init(&mut s);
    assert_eq!(comm_requestcommode(&mut s, ComMUser::APP_GPIO, ComMRequestedMode::FULL_COMMUNICATION), ComMReturnType::COMM_E_OK);
    assert_eq!(comm_getcurrentcommode(&s, ComM_NetWorkHandleType::GPIO), Some(ComMMode::NO_COMMUNICATION));
    comm_mainfunction(&mut s);
    assert_eq!(comm_getcurrentcommode(&s, ComM_NetWorkHandleType::GPIO), Some(ComMMode::NO_COMMUNICATION));
    comm_mainfunction(&mut s);
    assert_eq!(comm_getcurrentcommode(&s, ComM_NetWorkHandleType::GPIO), Some(ComMMode::FULL_COMMUNICATION));
    // releasing steps back through ready-sleep (still full) to no communication
    comm_requestcommode(&mut s, ComMUser::APP_GPIO, ComMRequestedMode::NO_COMMUNICATION);
    comm_mainfunction(&mut s);
    assert_eq!(comm_getcurrentcommode(&s, ComM_NetWorkHandleType::GPIO), Some(ComMMode::FULL_COMMUNICATION));
    comm_mainfunction(&mut s);
    assert_eq!(comm_getcurrentcommode(&s, ComM_NetWorkHandleType::GPIO), Some(ComMMode::NO_COMMUNICATION));
}

#[test]
fn comm_unbound_user_is_refused() {
    let mut s = ComMState::new();
    assert_eq!(comm_requestcommode(&mut s, ComMUser::APP_SPI, ComMRequestedMode::FULL_COMMUNICATION), ComMReturnType::COMM_E_NOT_OK);
    assert_eq!(s.requested, vec![0, 0, 0, 0]);
}

#[test]
fn button_press_is_debounced_and_counted() {
    let mut b = ButtonState::new();
    let mut rx = IoIfRxState::new();
    // 50 ms after the reference tick: ignored
    button_exti_notification(&mut b, &McuState { system_tick_count: 50 }, &mut rx);
    assert_eq!(get_button_count(&b), 0);
    assert_eq!(rx.indication[0], 0);
    button_exti_notification(&mut b, &McuState { system_tick_count: 80 }, &mut rx);
    assert_eq!(get_button_count(&b), 1);
    assert_eq!(rx.indication[0], 1);
}

#[test]
fn button_count_wraps_after_ten() {
    let mut b = ButtonState::new();
    let mut rx = IoIfRxState::new();
    let mut tick: u32 = 1000;
    for _ in 0..10 {
        button_exti_notification(&mut b, &McuState { system_tick_count: tick }, &mut rx);
        tick += 100;
    }
    assert_eq!(get_button_count(&b), 10);
    button_exti_notification(&mut b, &McuState { system_tick_count: tick }, &mut rx);
    assert_eq!(get_button_count(&b), 0);
}

#[test]
fn button_press_within_window_of_last_press_is_ignored() {
    let mut b = ButtonState::new();
    let mut rx = IoIfRxState::new();
    button_exti_notification(&mut b, &McuState { system_tick_count: 100 }, &mut rx);
    assert_eq!(get_button_count(&b), 1);
    assert_eq!(b.last_tick, 100);
    // 50 ms after the accepted press: ignored
    button_exti_notification(&mut b, &McuState { system_tick_count: 150 }, &mut rx);
    assert_eq!(get_button_count(&b), 1);
    assert_eq!(b.last_tick, 100);
    // 80 ms after it: counted
    button_exti_notification(&mut b, &McuState { system_tick_count: 180 }, &mut rx);
    assert_eq!(get_button_count(&b), 2);
    assert_eq!(b.last_tick, 180);
}

#[test]
fn button_same_tick_presses_count_once() {
    let mut b = ButtonState::new();
    let mut rx = IoIfRxState::new();
    let mcu = McuState { system_tick_count: 1000 };
    for _ in 0..5 {
        button_exti_notification(&mut b, &mcu, &mut rx);
    }
    assert_eq!(get_button_count(&b), 1);
}

#[test]
fn button_pdu_is_read_once() {
    let mut rx = IoIfRxState::new();
    let mut sensor = SensorState::new();
    let g = GpioRegisters::new();
    let b = ButtonState { last_tick: 0, count: 7 };
    let mut data: u16 = 0xFFFF;
    assert_eq!(ioif_read_rx_value(&mut rx, &b, &g, &mut sensor, 0x100, &mut data), IoIf_ReturnType::IOIF_E_NOT_OK);
    assert_eq!(ioif_rxindication(&mut rx, 0x100), IoIf_ReturnType::IOIF_E_OK);
    assert_eq!(ioif_read_rx_value(&mut rx, &b, &g, &mut sensor, 0x100, &mut data), IoIf_ReturnType::IOIF_E_OK);
    assert_eq!(data, 7);
    assert_eq!(ioif_read_rx_value(&mut rx, &b, &g, &mut sensor, 0x100, &mut data), IoIf_ReturnType::IOIF_E_NOT_OK);
    assert_eq!(ioif_rxindication(&mut rx, 0x101), IoIf_ReturnType::IOIF_E_NOT_OK);
    assert_eq!(ioif_read_rx_value(&mut rx, &b, &g, &mut sensor, 0x999, &mut data), IoIf_ReturnType::IOIF_E_NOT_OK);
}

#[test]
fn button_app_keeps_last_count() {
    let mut app = ButtonAppState::new();
    let mut rx = IoIfRxState::new();
    let mut sensor = SensorState::new();
    let g = GpioRegisters::new();
    let b = ButtonState { last_tick: 0, count: 3 };
    assert_eq!(button_app_1ms(&mut app, &mut rx, &b, &g, &mut sensor), 0);
    ioif_rxindication(&mut rx, 0x100);
    assert_eq!(button_app_1ms(&mut app, &mut rx, &b, &g, &mut sensor), 3);
    assert_eq!(button_app_1ms(&mut app, &mut rx, &b, &g, &mut sensor), 3);
}

#[test]
fn user_button_reads_pa0() {
    let mut g = GpioRegisters::new();
    assert_eq!(read_button_state(&g, Button::UserButton), Dio_LevelType::LOW);
    g.idr[0] = 1;
    assert_eq!(read_button_state(&g, Button::UserButton), Dio_LevelType::HIGH);
}

#[test]
fn sensor_measures_and_is_read() {
    let mut sensor = SensorState::new();
    let mut adc = AdcRegisters { channel: 0, start_requested: false, eoc: false, data: 0 };
    let mut data: u16 = 0;
    assert_eq!(iohwab_sensor_read_latest_value(&mut sensor, SensorType::LM35, &mut data), IoHwAb_ReturnType::IOHWAB_E_NOT_OK);
    iohwab_sensor_mainfunction(&mut sensor, &mut adc);
    assert_eq!(adc.channel, 8);
    assert!(adc.start_requested);
    iohwab_sensor_mainfunction(&mut sensor, &mut adc);
    assert_eq!(sensor.status[0], 1);
    adc.eoc = true;
    adc.data = 1234;
    iohwab_sensor_mainfunction(&mut sensor, &mut adc);
    assert_eq!(sensor.values[0], 1234);
    let mut rx = IoIfRxState::new();
    let g = GpioRegisters::new();
    let b = ButtonState::new();
    let mut raw: u16 = 0;
    assert_eq!(ioif_read_rx_value(&mut rx, &b, &g, &mut sensor, 0x101, &mut raw), IoIf_ReturnType::IOIF_E_OK);
    assert_eq!(raw, 1234);
    assert_eq!(ioif_read_rx_value(&mut rx, &b, &g, &mut sensor, 0x101, &mut raw), IoIf_ReturnType::IOIF_E_NOT_OK);
}

#[test]
fn led_set_get_toggle() {
    let mut g = GpioRegisters::new();
    set_led_state(&mut g, LedColor::Red, LedState::On);
    assert_eq!(g.odr[3], 1 << 14);
    assert_eq!(get_led_state(&g, LedColor::Red), Dio_LevelType::HIGH);
    assert_eq!(get_led_state(&g, LedColor::Blue), Dio_LevelType::LOW);
    led_toggle(&mut g, LedColor::Red);
    assert_eq!(get_led_state(&g, LedColor::Red), Dio_LevelType::LOW);
    led_toggle(&mut g, LedColor::Yellow);
    led_toggle(&mut g, LedColor::Yellow);
    assert_eq!(g.odr[3], 0);
    led_set_state_group(&mut g, LedGroup::RedBlue, 0b1100);
    assert_eq!(g.odr[3], 0xC000);
}

#[test]
fn ioif_writes_drive_leds() {
    let mut tx = IoIfTxState::new();
    let mut rx = IoIfRxState::new();
    let mut g = GpioRegisters::new();
    ioif_init(&mut rx, &mut tx);
    assert_eq!(ioif_write_tx_state(&mut tx, &mut g, 0x200, IoIf_OutputType::STD_ON), IoIf_ReturnType::IOIF_E_OK);
    assert_eq!(g.odr[3], 1 << 14);
    assert_eq!(ioif_write_tx_state(&mut tx, &mut g, 0x203, IoIf_OutputType::TOGGLE), IoIf_ReturnType::IOIF_E_OK);
    assert_eq!(g.odr[3], (1 << 14) | (1 << 12));
    assert_eq!(ioif_write_tx_state(&mut tx, &mut g, 0x204, IoIf_OutputType::STD_ON), IoIf_ReturnType::IOIF_E_NOT_OK);
    assert_eq!(ioif_write_tx_group_state(&mut tx, &mut g, 0x301, 0b11), IoIf_ReturnType::IOIF_E_OK);
    assert_eq!(g.odr[3], (1 << 14) | (1 << 12) | (1 << 13));
    assert_eq!(ioif_get_tx_output_status_by_index(&tx, 1, true), Some(0b11));
    assert_eq!(ioif_write_tx_group_state(&mut tx, &mut g, 0x302, 0), IoIf_ReturnType::IOIF_E_NOT_OK);
}

#[test]
fn led_apps_follow_status_patterns() {
    let mut tx = IoIfTxState::new();
    let mut rx = IoIfRxState::new();
    let mut g = GpioRegisters::new();
    ioif_init(&mut rx, &mut tx);
    led_app_1ms(&mut tx, &mut g, 3);
    assert_eq!(get_led_state(&g, LedColor::Red), Dio_LevelType::HIGH);
    assert_eq!(get_led_state(&g, LedColor::Orange), Dio_LevelType::LOW);
    led_app_1ms(&mut tx, &mut g, 2);
    assert_eq!(get_led_state(&g, LedColor::Red), Dio_LevelType::LOW);
    assert_eq!(get_led_state(&g, LedColor::Orange), Dio_LevelType::HIGH);
    let before = g.odr[3];
    led_app_1ms(&mut tx, &mut g, 9);
    assert_eq!(g.odr[3], before);
    led_app_500ms(&mut tx, &mut g);
    assert_eq!(get_led_state(&g, LedColor::Yellow), Dio_LevelType::HIGH);
    assert_eq!(get_led_state(&g, LedColor::Blue), Dio_LevelType::HIGH);
}

#[test]
fn ioif_write_recovers_from_error_first() {
    let mut tx = IoIfTxState::new();
    let mut g = GpioRegisters::new();
    assert_eq!(ioif_txconfirmation(&mut tx, 0x202, IoIf_ConfirmationType::CONFIRMED_NOT_OK), IoIf_ReturnType::IOIF_E_OK);
    assert_eq!(tx.pdu_status[2].status, 4);
    assert_eq!(ioif_write_tx_state(&mut tx, &mut g, 0x202, IoIf_OutputType::STD_ON), IoIf_ReturnType::IOIF_E_NOT_OK);
    assert_eq!(g.odr[3], 0);
    assert_eq!(tx.pdu_status[2].status, 0);
    assert_eq!(ioif_write_tx_state(&mut tx, &mut g, 0x202, IoIf_OutputType::STD_ON), IoIf_ReturnType::IOIF_E_OK);
    assert_eq!(get_led_state(&g, LedColor::Blue), Dio_LevelType::HIGH);
    assert_eq!(tx.pdu_status[2].status, 3);
    assert_eq!(tx.confirmation[2], 0);
    assert_eq!(ioif_txconfirmation(&mut tx, 0x999, IoIf_ConfirmationType::CONFIRMED_OK), IoIf_ReturnType::IOIF_E_NOT_OK);
}
