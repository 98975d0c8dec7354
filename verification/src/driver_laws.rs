use vstd::prelude::*;
use vstd::arithmetic::power2::{pow2, lemma2_to64};
use crate::register::{Dio_LevelType, EXTILINE, IRQn, SPINumberType, spec_exti_line_number, spec_level_of, lemma_write_bit};
use crate::mcal::spi::{spec_prescaler_code, spec_spi_config, spec_spi_init_ops, spec_spi_channel_init_ops};
use crate::mcal::spi_type::{SPIBaudRatePrescalerType, spec_prescaler_divisor, SpiCommand, SpiRegisterOp};
use crate::mcal::exti::spec_exti_irq;
use crate::mcal::exti_type::ExtiRegisterOp;
use crate::mcal::mcp2515::{spec_exchange, spec_mcp2515_find, spec_frame};
use crate::mcal::mcp2515_type::{MCP2515Mode, MCP2515ReturnType, Mcp2515DeviceId, Mcp2515Step, spec_mode_bits};
use crate::bsw::ioif_tx::IoIfTxState;
use crate::bsw::ioif_type::IoIf_OutputType;
use crate::app::led_app::spec_led_app_1ms;

verus! {

/// SPI: the baud-rate code written for a prescaler is the `k` with
/// fPCLK / 2^(k+1) the clock the prescaler names; so it lies in 0..=7 and
/// different prescalers get different codes (/2 gives 0, /256 gives 7).
pub proof fn law_spi_prescaler_code(p: SPIBaudRatePrescalerType, p2: SPIBaudRatePrescalerType)
    ensures
        spec_prescaler_code(p) <= 7,
        pow2((spec_prescaler_code(p) + 1) as nat) == spec_prescaler_divisor(p),
        p != p2 ==> spec_prescaler_code(p) != spec_prescaler_code(p2),
{
    lemma2_to64();
}

/// SPI initialisation of the board: both SPI1 and SPI2 run at fPCLK/256,
/// so the steps set baud-rate code 7 on each of them.
pub proof fn law_spi_init_board_baud_rate(o0: Seq<SpiCommand>, o1: Seq<SpiCommand>)
    requires
        o1 == o0 + spec_spi_init_ops(spec_spi_config(), 2),
    ensures
        exists|j: int| 0 <= j < o1.len() && o1[j] == (SpiCommand { spi: SPINumberType::SPI1, op: SpiRegisterOp::SetBaudRate(7) }),
        exists|j: int| 0 <= j < o1.len() && o1[j] == (SpiCommand { spi: SPINumberType::SPI2, op: SpiRegisterOp::SetBaudRate(7) }),
{
    reveal_with_fuel(spec_spi_init_ops, 3);
    let c0 = spec_spi_config()[0];
    let c1 = spec_spi_config()[1];
    let a = spec_spi_channel_init_ops(c0);
    let b = spec_spi_channel_init_ops(c1);
    assert(spec_spi_init_ops(spec_spi_config(), 2) =~= a + b);
    assert(o1[o0.len() as int + 2] == a[2]);
    assert(o1[o0.len() + a.len() as int + 2] == b[2]);
}

/// EXTI: the interrupt line enabled and disabled for EXTI line `n` is
/// EXTIn for lines 0..=4, the shared EXTI9_5 line for 5..=9 and the shared
/// EXTI15_10 line for 10..=15.
pub proof fn law_exti_nvic_line(line: EXTILINE)
    ensures
        0 <= spec_exti_line_number(line) <= 15,
        spec_exti_line_number(line) == 0 ==> spec_exti_irq(line) == IRQn::EXTI0,
        spec_exti_line_number(line) == 1 ==> spec_exti_irq(line) == IRQn::EXTI1,
        spec_exti_line_number(line) == 2 ==> spec_exti_irq(line) == IRQn::EXTI2,
        spec_exti_line_number(line) == 3 ==> spec_exti_irq(line) == IRQn::EXTI3,
        spec_exti_line_number(line) == 4 ==> spec_exti_irq(line) == IRQn::EXTI4,
        5 <= spec_exti_line_number(line) <= 9 ==> spec_exti_irq(line) == IRQn::EXTI9_5,
        10 <= spec_exti_line_number(line) <= 15 ==> spec_exti_irq(line) == IRQn::EXTI15_10,
{
}

/// EXTI: enabling the notification of a line ends with the NVIC step for
/// the interrupt that serves it: EXTIn for lines 0..=4, EXTI9_5 for 5..=9,
/// EXTI15_10 for 10..=15.
pub proof fn law_exti_enable_nvic(line: EXTILINE, o0: Seq<ExtiRegisterOp>, o1: Seq<ExtiRegisterOp>)
    requires
        o1 == o0 + seq![
            ExtiRegisterOp::ClearPending(line),
            ExtiRegisterOp::EnableLine(line),
            ExtiRegisterOp::NvicEnable(spec_exti_irq(line)),
        ],
    ensures
        o1.len() == o0.len() + 3,
        ({
            let n = spec_exti_line_number(line);
            let last = o1[o0.len() as int + 2];
            &&& n <= 4 ==> last == ExtiRegisterOp::NvicEnable(
                if n == 0 { IRQn::EXTI0 } else if n == 1 { IRQn::EXTI1 } else if n == 2 { IRQn::EXTI2 } else if n == 3 {
                    IRQn::EXTI3
                } else {
                    IRQn::EXTI4
                },
            )
            &&& 5 <= n <= 9 ==> last == ExtiRegisterOp::NvicEnable(IRQn::EXTI9_5)
            &&& 10 <= n <= 15 ==> last == ExtiRegisterOp::NvicEnable(IRQn::EXTI15_10)
        }),
{
    law_exti_nvic_line(line);
    assert(o1[o0.len() as int + 2] == ExtiRegisterOp::NvicEnable(spec_exti_irq(line)));
}

/// EXTI: disabling the notification of a line masks the interrupt that
/// serves it: EXTIn for lines 0..=4, EXTI9_5 for 5..=9, EXTI15_10 for
/// 10..=15.
pub proof fn law_exti_disable_nvic(line: EXTILINE, o0: Seq<ExtiRegisterOp>, o1: Seq<ExtiRegisterOp>)
    requires
        o1 == o0 + seq![ExtiRegisterOp::DisableLine(line), ExtiRegisterOp::NvicDisable(spec_exti_irq(line))],
    ensures
        o1.len() == o0.len() + 2,
        ({
            let n = spec_exti_line_number(line);
            let last = o1[o0.len() as int + 1];
            &&& n <= 4 ==> last == ExtiRegisterOp::NvicDisable(
                if n == 0 { IRQn::EXTI0 } else if n == 1 { IRQn::EXTI1 } else if n == 2 { IRQn::EXTI2 } else if n == 3 {
                    IRQn::EXTI3
                } else {
                    IRQn::EXTI4
                },
            )
            &&& 5 <= n <= 9 ==> last == ExtiRegisterOp::NvicDisable(IRQn::EXTI9_5)
            &&& 10 <= n <= 15 ==> last == ExtiRegisterOp::NvicDisable(IRQn::EXTI15_10)
        }),
{
    law_exti_nvic_line(line);
    assert(o1[o0.len() as int + 1] == ExtiRegisterOp::NvicDisable(spec_exti_irq(line)));
}

/// MCP2515: the mode written by a mode change is the REQOP value of the
/// datasheet (normal 0x00, sleep 0x20, loopback 0x40, listen-only 0x60,
/// configuration 0x80), sent as the fourth byte of the BIT MODIFY of CANCTRL
/// under mask 0xE0; different modes send different bytes.
pub proof fn law_mcp2515_set_mode_byte(
    mode: MCP2515Mode,
    other: MCP2515Mode,
    s0: Seq<Mcp2515Step>,
    s1: Seq<Mcp2515Step>,
    r: MCP2515ReturnType,
)
    requires
        spec_exchange(Mcp2515DeviceId::MCP2515_1, seq![0x05u8, 0x0Fu8, 0xE0u8, spec_mode_bits(mode)], s0, s1, r),
    ensures
        r == MCP2515ReturnType::MCP2515_E_OK,
        s1.len() == s0.len() + 6,
        s1[s0.len() as int + 1] == Mcp2515Step::Transfer(SPINumberType::SPI1, 0x05),
        s1[s0.len() as int + 2] == Mcp2515Step::Transfer(SPINumberType::SPI1, 0x0F),
        s1[s0.len() as int + 3] == Mcp2515Step::Transfer(SPINumberType::SPI1, 0xE0),
        s1[s0.len() as int + 4] == Mcp2515Step::Transfer(
            SPINumberType::SPI1,
            match mode {
                MCP2515Mode::NORMAL => 0x00u8,
                MCP2515Mode::SLEEP => 0x20u8,
                MCP2515Mode::LOOPBACK => 0x40u8,
                MCP2515Mode::LISTEN_ONLY => 0x60u8,
                MCP2515Mode::CONFIGURATION => 0x80u8,
            },
        ),
        mode != other ==> spec_mode_bits(mode) != spec_mode_bits(other),
{
    let c = spec_mcp2515_find(Mcp2515DeviceId::MCP2515_1).unwrap();
    let bytes = seq![0x05u8, 0x0Fu8, 0xE0u8, spec_mode_bits(mode)];
    assert(s1 == s0 + spec_frame(c, bytes));
    assert(spec_frame(c, bytes)[4] == Mcp2515Step::Transfer(c.spi_channel, bytes[3]));
}

/// LED application: for a button status of 1..=7, with the red (0x200) and
/// orange (0x201) LED PDUs idle or completed, the red LED (PD14) and orange
/// LED (PD13) end at the status's pattern: 1 off/off, 2 off/on, 3 on/off,
/// 4 on/on, 5 off/on, 6 on/off, 7 off/off (red/orange).
pub proof fn law_led_app_pattern(t0: IoIfTxState, o0: Seq<u32>, t1: IoIfTxState, o1: Seq<u32>, status: u8)
    requires
        t0.wf(),
        o0.len() == 6,
        t0.pdu_status@[0].status == 0 || t0.pdu_status@[0].status == 3,
        t0.pdu_status@[1].status == 0 || t0.pdu_status@[1].status == 3,
        1 <= status <= 7,
        spec_led_app_1ms(t0, o0, t1, o1, status),
    ensures
        spec_level_of(o1[3], 14) == (if status == 3 || status == 4 || status == 6 {
            Dio_LevelType::HIGH
        } else {
            Dio_LevelType::LOW
        }),
        spec_level_of(o1[3], 13) == (if status == 2 || status == 4 || status == 5 {
            Dio_LevelType::HIGH
        } else {
            Dio_LevelType::LOW
        }),
{
    let (red, orange) = crate::app::led_app::spec_led_pattern(status).unwrap();
    let (tm, wm, r1, r2) = choose|tm: IoIfTxState, wm: u32, r1: crate::bsw::ioif_type::IoIf_ReturnType, r2: crate::bsw::ioif_type::IoIf_ReturnType|
        crate::bsw::ioif_tx::spec_write_tx_state(t0, o0[3], tm, wm, 0x200, red, r1)
            && crate::bsw::ioif_tx::spec_write_tx_state(tm, wm, t1, o1[3], 0x201, orange, r2);
    let lr = if red == IoIf_OutputType::STD_ON { Dio_LevelType::HIGH } else { Dio_LevelType::LOW };
    let lo = if orange == IoIf_OutputType::STD_ON { Dio_LevelType::HIGH } else { Dio_LevelType::LOW };
    assert(wm == crate::register::spec_write_bit(o0[3], 14, lr));
    assert(tm.pdu_status@[1] == t0.pdu_status@[1]);
    assert(o1[3] == crate::register::spec_write_bit(wm, 13, lo));
    lemma_write_bit(o0[3], 14, 13, lr);
    lemma_write_bit(wm, 13, 14, lo);
}

} // verus!
