use mini_autosar::mcal::adc::{adc_convert_complete, adc_init, adc_wait_for_conversion_complete};
use mini_autosar::mcal::adc_type::ADCReturnType;
use mini_autosar::mcal::dio::{dio_flipchannel, dio_readchannel, dio_readchannel_output, dio_writechannel};
use mini_autosar::mcal::dio_type::Dio_ChannelType;
use mini_autosar::mcal::exti::{ExtiState, exti_group_irq_handler, exti_init, exti_irq_handler, register_get_exti_callback};
use mini_autosar::mcal::exti_type::{ExtiCallback, ExtiRegisterOp};
use mini_autosar::mcal::mcp2515::{
    mcp2515_get_config, mcp2515_init, mcp2515_read, mcp2515_read_fill, mcp2515_read_register_ctrl, mcp2515_read_status,
    mcp2515_read_value, mcp2515_reset, mcp2515_set_mode, mcp2515_write,
};
use mini_autosar::mcal::mcp2515_type::{MCP2515Mode, MCP2515ReturnType, Mcp2515DeviceId, Mcp2515Step};
use mini_autosar::mcal::mcu::{McuState, enable_hsi, mcu_get_system_clock_hz, mcu_init, systick_1ms_handler};
use mini_autosar::mcal::port::{PortRegisterOp, port_init};
use mini_autosar::mcal::spi::{
    SpiState, spi_init, spi_mainfunction, spi_master_receive_byte, spi_master_start_to_transfer, spi_master_transfer_byte,
    spi_slave_preload_byte, spi_slave_receive_byte, spi_slave_start_to_preload, spi_wait_tx_ready,
};
use mini_autosar::mcal::spi_type::{SPIReturnType, SpiCommand, SpiRegisterOp, SpiTransferPhase};
use mini_autosar::mcal::uart::uart_init;
use mini_autosar::mcal::usart::{
    UsartState, usart_get_tx_complete_status, usart_init, usart_irq_data, usart_irq_handler, usart_irq_tx_complete, usart_read_bytes,
    usart_read_string, usart_rx_ring_pop, usart_start_send_async, usart_write_bytes, usart_write_string,
};
use mini_autosar::mcal::usart_type::{UsartCommand, UsartRegisterOp, UsartReturnType};
use mini_autosar::bsw::usartif_tx::UsartIfTxState;
use mini_autosar::bsw::button::ButtonState;
use mini_autosar::bsw::ioif_rx::IoIfRxState;
use mini_autosar::register::{
    AdcRegisters, ClockResourceType, Dio_LevelType, EXTILINE, GpioRegisters, IRQn, RccRegisters, SPINumberType, SpiFlags,
    UsartFlags, UsartNumber,
};

fn spi_flags(overrun: bool, busy: bool, tx_empty: bool, rx_not_empty: bool, rx_data: u8) -> SpiFlags {
    SpiFlags { overrun, busy, tx_empty, rx_not_empty, rx_data }
}

#[test]
fn dio_write_read_flip() {
    let mut g = GpioRegisters::new();
    dio_writechannel(&mut g, Dio_ChannelType::LedBlue, Dio_LevelType::HIGH);
    assert_eq!(g.odr[3], 1 << 15);
    assert_eq!(dio_readchannel_output(&g, Dio_ChannelType::LedBlue), Dio_LevelType::HIGH);
    assert_eq!(dio_flipchannel(&mut g, Dio_ChannelType::LedBlue), Dio_LevelType::LOW);
    assert_eq!(g.odr[3], 0);
    dio_writechannel(&mut g, Dio_ChannelType::OnboardSpiSensorCs, Dio_LevelType::HIGH);
    assert_eq!(g.odr[4], 1 << 3);
    g.idr[0] = 1;
    assert_eq!(dio_readchannel(&g, Dio_ChannelType::UserButton), Dio_LevelType::HIGH);
}

#[test]
fn mcu_tick_and_clock() {
    let mut mcu = McuState::new();
    systick_1ms_handler(&mut mcu);
    systick_1ms_handler(&mut mcu);
    assert_eq!(mcu.system_tick_count, 2);
    let mut wrap = McuState { system_tick_count: u32::MAX };
    systick_1ms_handler(&mut wrap);
    assert_eq!(wrap.system_tick_count, 0);
    let mut rcc = RccRegisters { clock_source: ClockResourceType::HSI, hsi_on: false };
    assert_eq!(mcu_get_system_clock_hz(&rcc), 16_000_000);
    mcu_init(&mut rcc);
    assert!(rcc.hsi_on);
    let mut hse = RccRegisters { clock_source: ClockResourceType::HSE, hsi_on: false };
    assert_eq!(mcu_get_system_clock_hz(&hse), 0);
    mcu_init(&mut hse);
    assert!(!hse.hsi_on);
    enable_hsi(&mut hse);
    assert!(hse.hsi_on);
}

#[test]
fn adc_polled_wait() {
    let mut adc = AdcRegisters { channel: 8, start_requested: true, eoc: false, data: 0 };
    let mut count: u32 = 0;
    assert_eq!(adc_wait_for_conversion_complete(&adc, &mut count, 2), None);
    assert_eq!(adc_wait_for_conversion_complete(&adc, &mut count, 2), None);
    assert_eq!(adc_wait_for_conversion_complete(&adc, &mut count, 2), Some(false));
    assert_eq!(count, 2);
    let mut polls: u32 = 999;
    assert_eq!(adc_convert_complete(&adc, &mut polls), None);
    assert_eq!(adc_convert_complete(&adc, &mut polls), Some(ADCReturnType::ADC_E_TIMEOUT));
    adc.eoc = true;
    assert_eq!(adc_convert_complete(&adc, &mut polls), Some(ADCReturnType::ADC_E_OK));
    assert!(!adc_init().is_empty());
}

#[test]
fn port_init_sets_every_pin() {
    let mut ops = Vec::new();
    port_init(&mut ops);
    // 18 pins, five steps each, plus the alternate function of the 8 alternate pins
    assert_eq!(ops.len(), 18 * 5 + 8);
    assert_eq!(ops[0], PortRegisterOp::EnableClock(mini_autosar::register::PORT::D));
}

#[test]
fn exti_routes_button_interrupt() {
    let mut st = ExtiState::new();
    let mut ops = Vec::new();
    exti_init(&mut st, &mut ops);
    assert_eq!(register_get_exti_callback(&st, EXTILINE::LINE0), Some(ExtiCallback::ButtonExtiNotification));
    assert_eq!(register_get_exti_callback(&st, EXTILINE::LINE1), None);
    assert_eq!(ops.last(), Some(&ExtiRegisterOp::NvicEnable(IRQn::EXTI0)));
    let mut b = ButtonState::new();
    let mut rx = IoIfRxState::new();
    let mut irq_ops = Vec::new();
    exti_irq_handler(&st, &mut irq_ops, EXTILINE::LINE0, &mut b, &McuState { system_tick_count: 500 }, &mut rx);
    assert_eq!(b.count, 1);
    assert_eq!(irq_ops, vec![ExtiRegisterOp::ClearPending(EXTILINE::LINE0)]);
    // line 1 is pending but not routed; line 0 is not pending
    let mut group_ops = Vec::new();
    exti_group_irq_handler(&st, &mut group_ops, &[EXTILINE::LINE0, EXTILINE::LINE1], 0b10, &mut b, &McuState { system_tick_count: 900 }, &mut rx);
    assert_eq!(b.count, 1);
    assert_eq!(group_ops, vec![ExtiRegisterOp::ClearPending(EXTILINE::LINE1)]);
}

#[test]
fn usart_init_and_async_send() {
    let mut u = UsartState::new();
    let mut ops = Vec::new();
    usart_init(&mut u, &mut ops);
    assert_eq!(ops, vec![
        UsartCommand { usart: UsartNumber::USART2, op: UsartRegisterOp::EnablePeripheralClock },
        UsartCommand { usart: UsartNumber::USART2, op: UsartRegisterOp::SetBaudRate(9600) },
        UsartCommand { usart: UsartNumber::USART2, op: UsartRegisterOp::EnableTxRx },
        UsartCommand { usart: UsartNumber::USART2, op: UsartRegisterOp::Enable },
        UsartCommand { usart: UsartNumber::USART2, op: UsartRegisterOp::EnableIrq(IRQn::USART2) },
    ]);
    let mut ops2 = Vec::new();
    usart_init(&mut u, &mut ops2);
    assert!(ops2.is_empty());
    assert_eq!(usart_start_send_async(&mut u, &mut ops, UsartNumber::USART2, &vec![]), UsartReturnType::USART_NOT_OK);
    assert_eq!(usart_start_send_async(&mut u, &mut ops, UsartNumber::USART2, &b"ok".to_vec()), UsartReturnType::USART_OK);
    assert_eq!(usart_start_send_async(&mut u, &mut ops, UsartNumber::USART2, &b"no".to_vec()), UsartReturnType::USART_BUSY);
    let mut irq_ops = Vec::new();
    let mut uif = UsartIfTxState::new();
    let tx = UsartFlags { has_error: false, rx_not_empty: false, tx_empty: true, rx_data: 0 };
    usart_irq_handler(&mut u, &mut uif, &mut irq_ops, UsartNumber::USART2, tx, false);
    usart_irq_handler(&mut u, &mut uif, &mut irq_ops, UsartNumber::USART2, tx, false);
    assert_eq!(irq_ops[0].op, UsartRegisterOp::WriteData(b'o'));
    assert_eq!(irq_ops[1].op, UsartRegisterOp::WriteData(b'k'));
    assert_eq!(irq_ops[2].op, UsartRegisterOp::DisableTxInterrupt);
    assert_eq!(irq_ops[3].op, UsartRegisterOp::EnableTcInterrupt);
    assert!(u.tx_busy[1]);
    let idle = UsartFlags { has_error: false, rx_not_empty: false, tx_empty: false, rx_data: 0 };
    usart_irq_handler(&mut u, &mut uif, &mut irq_ops, UsartNumber::USART2, idle, true);
    assert_eq!(irq_ops[4].op, UsartRegisterOp::DisableTcInterrupt);
    assert_eq!(irq_ops.len(), 5);
    assert!(!u.tx_busy[1]);
    assert!(u.tx_done[1]);
    // a second completion flag with nothing in flight changes nothing
    usart_irq_tx_complete(&mut u, &mut uif, &mut irq_ops, UsartNumber::USART2, true);
    assert_eq!(irq_ops.len(), 5);
}

#[test]
fn usart_error_interrupt_skips_completion() {
    let mut u = UsartState::new();
    let mut ops = Vec::new();
    usart_init(&mut u, &mut ops);
    assert_eq!(usart_start_send_async(&mut u, &mut ops, UsartNumber::USART2, &b"x".to_vec()), UsartReturnType::USART_OK);
    let mut uif = UsartIfTxState::new();
    let mut irq_ops = Vec::new();
    let err = UsartFlags { has_error: true, rx_not_empty: false, tx_empty: true, rx_data: 0 };
    usart_irq_handler(&mut u, &mut uif, &mut irq_ops, UsartNumber::USART2, err, true);
    assert_eq!(irq_ops.iter().map(|c| c.op).collect::<Vec<_>>(), vec![
        UsartRegisterOp::DisableRxInterrupt,
        UsartRegisterOp::ClearErrorFlags,
    ]);
    assert!(u.error[1]);
    assert!(u.tx_busy[1]);
    assert!(!u.tx_done[1]);
}

#[test]
fn usart_ring_is_fifo_and_errors() {
    let mut u = UsartState::new();
    let mut ops = Vec::new();
    for b in [1u8, 2, 3] {
        usart_irq_data(&mut u, &mut ops, UsartNumber::USART2, UsartFlags { has_error: false, rx_not_empty: true, tx_empty: false, rx_data: b });
    }
    assert_eq!(usart_rx_ring_pop(&mut u, UsartNumber::USART2), Some(1));
    assert_eq!(usart_rx_ring_pop(&mut u, UsartNumber::USART2), Some(2));
    assert_eq!(usart_rx_ring_pop(&mut u, UsartNumber::USART2), Some(3));
    assert_eq!(usart_rx_ring_pop(&mut u, UsartNumber::USART2), None);
    usart_irq_data(&mut u, &mut ops, UsartNumber::USART2, UsartFlags { has_error: true, rx_not_empty: false, tx_empty: false, rx_data: 0 });
    assert!(u.error[1]);
}

#[test]
fn usart_polled_helpers() {
    let mut ops = Vec::new();
    assert_eq!(usart_write_bytes(&mut ops, UsartNumber::USART2, &[]), UsartReturnType::USART_NOT_OK);
    assert!(ops.is_empty());
    assert_eq!(usart_write_string(&mut ops, UsartNumber::USART2, "AB"), UsartReturnType::USART_OK);
    assert_eq!(ops.iter().map(|c| c.op).collect::<Vec<_>>(), vec![
        UsartRegisterOp::WriteData(b'A'),
        UsartRegisterOp::WriteData(b'B'),
        UsartRegisterOp::WaitTxComplete,
    ]);
    let mut data = [0u8; 3];
    assert_eq!(usart_read_bytes(&mut data, &[7, 8, 9]), UsartReturnType::USART_OK);
    assert_eq!(data, [7, 8, 9]);
    let mut empty: [u8; 0] = [];
    assert_eq!(usart_read_bytes(&mut empty, &[]), UsartReturnType::USART_NOT_OK);
    let mut line = [0u8; 4];
    assert_eq!(usart_read_string(&mut line, 0, b'h'), Some(1));
    assert_eq!(usart_read_string(&mut line, 1, b'i'), Some(2));
    assert_eq!(usart_read_string(&mut line, 2, b'\n'), None);
    assert_eq!(&line[0..2], b"hi");
    assert_eq!(usart_get_tx_complete_status(true), UsartReturnType::USART_OK);
    assert_eq!(usart_get_tx_complete_status(false), UsartReturnType::USART_NOT_OK);
    let mut uart_ops = Vec::new();
    uart_init(&mut uart_ops, UsartNumber::USART1, 115200);
    assert_eq!(uart_ops[1].op, UsartRegisterOp::SetBaudRate(115200));
}

#[test]
fn spi_master_slave_exchange() {
    let mut g = GpioRegisters::new();
    let mut st = SpiState::new();
    let mut ops = Vec::new();
    spi_init(&mut g, &mut ops);
    assert_eq!(g.odr[4], 1 << 3);
    assert_eq!(ops.len(), 20);
    let idle = spi_flags(false, false, true, false, 0);
    assert_eq!(spi_master_start_to_transfer(&mut st, &mut ops, SPINumberType::SPI1, 0x5A, idle), SPIReturnType::SPI_E_OK);
    assert_eq!(spi_slave_start_to_preload(&mut st, &mut ops, SPINumberType::SPI2, 0xA5, idle), SPIReturnType::SPI_E_OK);
    let mut cycle_ops = Vec::new();
    spi_mainfunction(&mut st, &mut cycle_ops, &[idle, idle]);
    assert_eq!(cycle_ops, vec![
        SpiCommand { spi: SPINumberType::SPI1, op: SpiRegisterOp::WriteData(0x5A) },
        SpiCommand { spi: SPINumberType::SPI2, op: SpiRegisterOp::WriteData(0xA5) },
    ]);
    let mut out = 0u8;
    assert_eq!(spi_master_receive_byte(&mut st, SPINumberType::SPI1, &mut out), SPIReturnType::SPI_E_NOT_OK);
    spi_mainfunction(&mut st, &mut cycle_ops, &[spi_flags(false, false, true, true, 0xA5), spi_flags(false, false, true, true, 0x5A)]);
    assert_eq!(spi_master_receive_byte(&mut st, SPINumberType::SPI1, &mut out), SPIReturnType::SPI_E_OK);
    assert_eq!(out, 0xA5);
    assert_eq!(spi_slave_receive_byte(&mut st, SPINumberType::SPI2, &mut out), SPIReturnType::SPI_E_OK);
    assert_eq!(out, 0x5A);
    assert_eq!(st.master_status[0], 0);
    assert_eq!(st.slave_status[0], 0);
}

#[test]
fn spi_refusals_and_overrun_recovery() {
    let mut st = SpiState::new();
    let mut ops = Vec::new();
    assert_eq!(spi_master_start_to_transfer(&mut st, &mut ops, SPINumberType::SPI1, 1, spi_flags(false, true, true, false, 0)), SPIReturnType::SPI_E_NOT_OK);
    assert_eq!(st.master_status[0], 6);
    assert_eq!(spi_master_start_to_transfer(&mut st, &mut ops, SPINumberType::SPI1, 1, spi_flags(true, false, true, false, 0)), SPIReturnType::SPI_E_NOT_OK);
    assert_eq!(st.master_status[0], 5);
    assert_eq!(ops, vec![SpiCommand { spi: SPINumberType::SPI1, op: SpiRegisterOp::ClearOverrunFlag }]);
    let quiet = spi_flags(false, false, false, false, 0);
    spi_mainfunction(&mut st, &mut ops, &[quiet, quiet]);
    assert_eq!(st.master_status[0], 6);
    spi_mainfunction(&mut st, &mut ops, &[quiet, quiet]);
    assert_eq!(st.master_status[0], 0);
}

#[test]
fn spi_polled_transfer() {
    let mut ops = Vec::new();
    let mut rx = 0u8;
    let busy = spi_flags(false, true, false, false, 0);
    let mut phase = SpiTransferPhase::WaitTx(0);
    phase = spi_master_transfer_byte(phase, &mut ops, SPINumberType::SPI1, 0x11, &mut rx, busy);
    assert_eq!(phase, SpiTransferPhase::WaitTx(1));
    phase = spi_master_transfer_byte(phase, &mut ops, SPINumberType::SPI1, 0x11, &mut rx, spi_flags(false, false, true, false, 0));
    assert_eq!(phase, SpiTransferPhase::WaitRx(0));
    phase = spi_master_transfer_byte(phase, &mut ops, SPINumberType::SPI1, 0x11, &mut rx, spi_flags(false, false, false, true, 0x22));
    assert_eq!(phase, SpiTransferPhase::Done(SPIReturnType::SPI_E_OK));
    assert_eq!(rx, 0x22);
    assert_eq!(ops, vec![SpiCommand { spi: SPINumberType::SPI1, op: SpiRegisterOp::WriteData(0x11) }]);
    assert_eq!(spi_slave_preload_byte(SpiTransferPhase::WaitTx(1000), &mut ops, SPINumberType::SPI2, 1, busy), SpiTransferPhase::Done(SPIReturnType::SPI_E_NOT_OK));
    let mut elapsed = 5u32;
    assert_eq!(spi_wait_tx_ready(busy, &mut elapsed, 10), None);
    assert_eq!(elapsed, 6);
}

#[test]
fn mcp2515_exchanges() {
    assert!(mcp2515_get_config(Mcp2515DeviceId::MCP2515_2).is_none());
    let mut steps = Vec::new();
    assert_eq!(mcp2515_reset(Mcp2515DeviceId::MCP2515_2, &mut steps), MCP2515ReturnType::MCP2515_E_NOT_OK);
    assert!(steps.is_empty());
    assert_eq!(mcp2515_reset(Mcp2515DeviceId::MCP2515_1, &mut steps), MCP2515ReturnType::MCP2515_E_OK);
    assert_eq!(steps, vec![
        Mcp2515Step::ChipSelect(Dio_ChannelType::Mcp2515Cs, Dio_LevelType::LOW),
        Mcp2515Step::Transfer(SPINumberType::SPI1, 0xC0),
        Mcp2515Step::ChipSelect(Dio_ChannelType::Mcp2515Cs, Dio_LevelType::HIGH),
    ]);
    let mut mode = Vec::new();
    mcp2515_set_mode(Mcp2515DeviceId::MCP2515_1, MCP2515Mode::LOOPBACK, &mut mode);
    assert_eq!(mode[1..5].to_vec(), vec![
        Mcp2515Step::Transfer(SPINumberType::SPI1, 0x05),
        Mcp2515Step::Transfer(SPINumberType::SPI1, 0x0F),
        Mcp2515Step::Transfer(SPINumberType::SPI1, 0xE0),
        Mcp2515Step::Transfer(SPINumberType::SPI1, 0x40),
    ]);
    let mut w = Vec::new();
    assert_eq!(mcp2515_write(Mcp2515DeviceId::MCP2515_1, 0x36, &[1, 2], &mut w), MCP2515ReturnType::MCP2515_E_OK);
    assert_eq!(w.len(), 6);
    let mut init = Vec::new();
    mcp2515_init(&mut init);
    assert_eq!(init.len(), 1 + 3 + 7 + 6);
    assert_eq!(init[5], Mcp2515Step::Transfer(SPINumberType::SPI1, 0x02));
    let mut st = Vec::new();
    let plan = mcp2515_read_status(Mcp2515DeviceId::MCP2515_1, &mut st);
    assert_eq!(plan, Some(1));
    assert_eq!(mcp2515_read_value(plan, &[Some(0xFF), Some(0x0C)]), 0x0C);
    assert_eq!(mcp2515_read_value(plan, &[Some(0xFF), None]), 0xFF);
    assert_eq!(mcp2515_read_value(None, &[]), 0);
    let mut ctrl = Vec::new();
    assert_eq!(mcp2515_read_register_ctrl(Mcp2515DeviceId::MCP2515_1, &mut ctrl), Some(2));
    let mut buf = [9u8; 2];
    let mut rd = Vec::new();
    assert_eq!(mcp2515_read(Mcp2515DeviceId::MCP2515_1, 0x2C, &buf, &mut rd), MCP2515ReturnType::MCP2515_E_OK);
    assert_eq!(rd.len(), 6);
    mcp2515_read_fill(&mut buf, &[Some(0), Some(0), Some(0x44), None]);
    assert_eq!(buf, [0x44, 9]);
}

#[test]
fn usart_line_read_stops_at_full_buffer_or_line_end() {
    // the caller's loop: feed bytes while one was stored and there is room
    fn read_line(buffer: &mut [u8], incoming: &[u8]) -> usize {
        let mut index = 0;
        for &b in incoming {
            if index >= buffer.len() {
                break;
            }
            match usart_read_string(buffer, index, b) {
                Some(next) => index = next,
                None => break,
            }
        }
        index
    }
    let mut full = [0u8; 2];
    assert_eq!(read_line(&mut full, b"abc\n"), 2);
    assert_eq!(&full, b"ab");
    let mut line = [9u8; 5];
    assert_eq!(read_line(&mut line, b"ok\rxy"), 2);
    assert_eq!(line, [b'o', b'k', 9, 9, 9]);
}
