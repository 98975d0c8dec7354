use vstd::prelude::*;
use crate::bsw::comm::{
    ComMState, spec_comm_init, spec_comm_request, spec_comm_main, spec_decode_current, lemma_comm_configured,
    spec_cfg_by_user, spec_comm_configured, spec_internal_after_main,
};
use crate::bsw::comm_type::{ComMMode, ComMUser, ComMRequestedMode, ComMReturnType, ComM_NetWorkHandleType, spec_handle_index};
use crate::bsw::button::spec_next_count;
use crate::bsw::button::{spec_count_after, spec_press, spec_press_accepted, spec_presses, ButtonState};
use crate::bsw::scheduler::{spec_task_due, spec_scheduler_table};
use crate::mcal::mcp2515::spec_frame;
use crate::mcal::mcp2515_type::{MCP2515ConfigType, Mcp2515Step};
use crate::register::{Dio_LevelType, GpioRegisters, PORT, spec_level_of, spec_write_bit, spec_flip, spec_pin_number, lemma_write_bit, lemma_toggle_bit};
use crate::bsw::ioif_rx::{IoIfRxState, spec_rxindication, spec_read_rx_value};
use crate::bsw::ioif_type::IoIf_ReturnType;
use crate::bsw::sensor::{SensorState, spec_sensor_main};
use crate::bsw::iohwab_type::SensorStatusType;
use crate::register::AdcRegisters;
use crate::mcal::spi::{SpiState, spec_master_step, spec_slave_step, spec_master_code, spec_slave_code};
use crate::mcal::spi_type::{SPIMasterStatus, SPISlaveStatus, SpiCommand, SpiRegisterOp};
use crate::register::{SPINumberType, SpiFlags};
use crate::bsw::iohwab_type::{LedColor, LedState};
use crate::bsw::ioif_tx::{IoIfTxState, spec_write_tx_state, spec_tx_index, spec_tx_color};
use crate::bsw::ioif_type::IoIf_OutputType;
use crate::bsw::usartif_rx::{
    UsartIfRxState, spec_crc8, spec_pair_ascii_to_hex, spec_ascii_to_hex, spec_rx_scan, spec_frame_ok, spec_strip_crc,
    spec_rx_processing,
};
use crate::bsw::usartif_cfg::spec_usartif_rxpdu_config;
use crate::mcal::usart::{UsartState, spec_read_string_step, spec_usart_irq, spec_ring_pop, spec_usart_index, spec_usart_send_started, spec_usart_init};
use crate::mcal::usart_type::{UsartCommand, UsartRegisterOp};
use crate::register::UsartFlags;
use crate::register::UsartNumber;
use crate::bsw::led::{spec_led_level, spec_led_pin, spec_led_state_to_level};

verus! {

/// ComM: once started, a request for full communication by the GPIO
/// application puts the GPIO network in full communication after two
/// main-function cycles.
pub proof fn law_comm_full_request(
    s0: ComMState,
    s1: ComMState,
    s2: ComMState,
    s3: ComMState,
    s4: ComMState,
    r: ComMReturnType,
)
    requires
        s0.wf(),
        s1.wf(),
        s2.wf(),
        s3.wf(),
        s4.wf(),
        spec_comm_init(s0, s1),
        spec_comm_request(s1, s2, ComMUser::APP_GPIO, ComMRequestedMode::FULL_COMMUNICATION, r),
        spec_comm_main(s2, s3),
        spec_comm_main(s3, s4),
    ensures
        r == ComMReturnType::COMM_E_OK,
        spec_decode_current(s4.current@[spec_handle_index(ComM_NetWorkHandleType::GPIO)]) == ComMMode::FULL_COMMUNICATION,
{
    lemma_comm_configured();
    reveal_with_fuel(crate::bsw::comm::spec_find_cfg_by_user, 2);
    assert(crate::bsw::comm::spec_comm_configured(0));
    assert(s1.internal@[0] == 0 && s1.requested@[0] == 0);
    assert(s2.requested@[0] == 1 && s2.internal@[0] == 0);
    assert(s3.internal@[0] == 1 && s3.requested@[0] == 1);
    assert(s4.internal@[0] == 2);
    assert(s4.current@[0] == 2);
}

/// ComM: a network in full communication whose request is withdrawn (a
/// request for no communication) is back in no communication after two
/// main-function cycles, whatever state it was in.
pub proof fn law_comm_release(s0: ComMState, s1: ComMState, s2: ComMState, s3: ComMState, r: ComMReturnType)
    requires
        s0.wf(),
        s1.wf(),
        s2.wf(),
        s3.wf(),
        s0.internal@[0] < 5,
        spec_comm_request(s0, s1, ComMUser::APP_GPIO, ComMRequestedMode::NO_COMMUNICATION, r),
        spec_comm_main(s1, s2),
        spec_comm_main(s2, s3),
    ensures
        r == ComMReturnType::COMM_E_OK,
        spec_decode_current(s3.current@[spec_handle_index(ComM_NetWorkHandleType::GPIO)]) == ComMMode::NO_COMMUNICATION,
{
    lemma_comm_configured();
    reveal_with_fuel(crate::bsw::comm::spec_find_cfg_by_user, 2);
    assert(crate::bsw::comm::spec_comm_configured(0));
    assert(s1.requested@[0] == 0 && s1.internal@[0] == s0.internal@[0]);
    assert(s2.requested@[0] == 0 && (s2.internal@[0] == 0 || s2.internal@[0] == 3));
    assert(s3.internal@[0] == 0);
    assert(s3.current@[0] == 0);
}

/// No network shows silent communication and no internal state is the
/// silent one.
pub open spec fn spec_comm_never_silent(s: ComMState) -> bool {
    forall|i: int| 0 <= i < 4 ==> #[trigger] s.internal@[i] <= 3 && s.current@[i] != 1
}

/// One call of the manager from `s0` to `s1`: initialisation, a mode request
/// by some user, or a main-function cycle.
pub open spec fn spec_comm_step(s0: ComMState, s1: ComMState) -> bool {
    ||| spec_comm_init(s0, s1)
    ||| spec_comm_main(s0, s1)
    ||| exists|user: ComMUser, mode: ComMRequestedMode, r: ComMReturnType| spec_comm_request(s0, s1, user, mode, r)
}

proof fn lemma_comm_step_never_silent(s0: ComMState, s1: ComMState)
    requires
        s0.wf(),
        s1.wf(),
        spec_comm_never_silent(s0),
        spec_comm_step(s0, s1),
    ensures
        spec_comm_never_silent(s1),
{
    assert forall|i: int| 0 <= i < 4 implies #[trigger] s1.internal@[i] <= 3 && s1.current@[i] != 1 by {
        assert(s0.internal@[i] <= 3 && s0.current@[i] != 1);
        if spec_comm_main(s0, s1) {
            assert(s1.internal@[i] == (if spec_comm_configured(i) {
                spec_internal_after_main(s0.requested@[i], s0.internal@[i])
            } else {
                s0.internal@[i]
            }));
        } else if spec_comm_init(s0, s1) {
        } else {
            let (user, mode, r) = choose|user: ComMUser, mode: ComMRequestedMode, r: ComMReturnType|
                spec_comm_request(s0, s1, user, mode, r);
            assert(s1.internal@ == s0.internal@ && s1.current@ == s0.current@);
        }
    }
}

proof fn lemma_comm_trace_never_silent(trace: Seq<ComMState>, k: int)
    requires
        0 <= k < trace.len(),
        forall|j: int| 0 <= j < trace.len() ==> (#[trigger] trace[j]).wf(),
        spec_comm_never_silent(trace[0]),
        forall|j: int| 0 <= j < trace.len() - 1 ==> spec_comm_step(#[trigger] trace[j], trace[j + 1]),
    ensures
        spec_comm_never_silent(trace[k]),
    decreases k,
{
    if k > 0 {
        lemma_comm_trace_never_silent(trace, k - 1);
        assert(spec_comm_step(trace[k - 1], trace[k]));
        lemma_comm_step_never_silent(trace[k - 1], trace[k]);
    }
}

/// ComM: from the power-on tables (all zero), whatever sequence of
/// initialisations, mode requests and main-function cycles follows, no
/// network ever reports silent communication: each is in no or full
/// communication.
pub proof fn law_comm_never_silent(trace: Seq<ComMState>, k: int, h: ComM_NetWorkHandleType)
    requires
        0 <= k < trace.len(),
        forall|j: int| 0 <= j < trace.len() ==> (#[trigger] trace[j]).wf(),
        forall|i: int| 0 <= i < 4 ==> trace[0].current@[i] == 0 && trace[0].requested@[i] == 0 && #[trigger] trace[0].internal@[i] == 0,
        forall|j: int| 0 <= j < trace.len() - 1 ==> spec_comm_step(#[trigger] trace[j], trace[j + 1]),
    ensures
        spec_decode_current(trace[k].current@[spec_handle_index(h)]) != ComMMode::SILENT_COMMUNICATION,
        spec_decode_current(trace[k].current@[spec_handle_index(h)]) == ComMMode::NO_COMMUNICATION
            || spec_decode_current(trace[k].current@[spec_handle_index(h)]) == ComMMode::FULL_COMMUNICATION,
{
    assert(spec_comm_never_silent(trace[0]));
    lemma_comm_trace_never_silent(trace, k);
    let i = spec_handle_index(h);
    assert(trace[k].internal@[i] <= 3 && trace[k].current@[i] != 1);
}

/// IoHwAb button: the press counter stays within 0..=10 and comes back to
/// where it started after eleven counted presses.
pub proof fn law_button_count_cycle(c: u8)
    requires
        c <= 10,
    ensures
        spec_next_count(c) <= 10,
        spec_count_after(c, 11) == c,
{
    reveal_with_fuel(spec_count_after, 12);
}

/// IoHwAb button: from reset, whatever the ticks of the presses, the press
/// counter never leaves 0..=10, and eleven more counted presses bring it back
/// to where it is.
pub proof fn law_button_count_bounded(ticks: Seq<u32>)
    ensures
        spec_presses(ticks).count <= 10,
        spec_count_after(spec_presses(ticks).count, 11) == spec_presses(ticks).count,
    decreases ticks.len(),
{
    if ticks.len() > 0 {
        law_button_count_bounded(ticks.drop_last());
    }
    law_button_count_cycle(spec_presses(ticks).count);
}

/// IoHwAb button: after an accepted press at tick `t1`, a press less than the
/// debounce time later is ignored.
pub proof fn law_button_debounce(b: ButtonState, t1: u32, t2: u32)
    requires
        spec_press_accepted(b, t1),
        vstd::wrapping::u32_specs::wrapping_sub(t2, t1) < 80,
    ensures
        !spec_press_accepted(spec_press(b, t1), t2),
        spec_press(spec_press(b, t1), t2) == spec_press(b, t1),
{
}

/// Scheduler: a task is never due twice at the same tick, because a pass
/// that runs it records that tick as its last run (every period is at
/// least 1 ms).
pub proof fn law_scheduler_not_due_again(last0: Seq<u32>, last1: Seq<u32>, now: u32, i: int)
    requires
        last0.len() == 4,
        last1.len() == 4,
        0 <= i < 4,
        forall|j: int| 0 <= j < 4 ==> #[trigger] last1[j] == (if spec_task_due(last0, now, j) { now } else { last0[j] }),
    ensures
        !spec_task_due(last1, now, i) || spec_task_due(last0, now, i) && last1[i] != now,
{
    assert(last1[i] == (if spec_task_due(last0, now, i) { now } else { last0[i] }));
    assert(vstd::wrapping::u32_specs::wrapping_sub(now, now) == 0) by (bit_vector);
}

/// MCP2515: every exchange with a device is one chip-select frame: chip
/// select low, then one transfer of each byte in order on the device's
/// SPI, then chip select high.
pub proof fn law_mcp2515_frame(c: MCP2515ConfigType, bytes: Seq<u8>)
    ensures
        spec_frame(c, bytes).len() == bytes.len() + 2,
        spec_frame(c, bytes)[0] == Mcp2515Step::ChipSelect(c.cs_channel, Dio_LevelType::LOW),
        spec_frame(c, bytes)[bytes.len() as int + 1] == Mcp2515Step::ChipSelect(c.cs_channel, Dio_LevelType::HIGH),
        forall|k: int| 0 <= k < bytes.len() ==> #[trigger] spec_frame(c, bytes)[k + 1] == Mcp2515Step::Transfer(c.spi_channel, bytes[k]),
{
}

/// IoIf button PDU: after an indication of 0x100, a read of 0x100 hands out
/// the press count and consumes the indication, so the next read is
/// refused and leaves the value alone.
pub proof fn law_ioif_button_read_once(
    s0: IoIfRxState,
    s1: IoIfRxState,
    s2: IoIfRxState,
    s3: IoIfRxState,
    n0: SensorState,
    n1: SensorState,
    n2: SensorState,
    d0: u16,
    d1: u16,
    d2: u16,
    count: u8,
    r0: IoIf_ReturnType,
    r1: IoIf_ReturnType,
    r2: IoIf_ReturnType,
)
    requires
        s0.wf(),
        s1.wf(),
        s2.wf(),
        spec_rxindication(s0, s1, 0x100, r0),
        spec_read_rx_value(s1, n0, d0, s2, n1, d1, count, 0x100, r1),
        spec_read_rx_value(s2, n1, d1, s3, n2, d2, count, 0x100, r2),
    ensures
        r0 == IoIf_ReturnType::IOIF_E_OK,
        r1 == IoIf_ReturnType::IOIF_E_OK,
        d1 == count as u16,
        r2 == IoIf_ReturnType::IOIF_E_NOT_OK,
        d2 == d1,
{
    assert(s1.indication@[0] == 1);
    assert(s2.indication@[0] == 0);
}

/// IoHwAb sensor: an idle sensor starts a conversion on ADC channel 8; when
/// the ADC reports the end of conversion, the next cycle completes the
/// measurement with the converted value, ready to be read.
pub proof fn law_sensor_measurement(
    s0: SensorState,
    s1: SensorState,
    s2: SensorState,
    a0: AdcRegisters,
    a1: AdcRegisters,
    a2: AdcRegisters,
    a3: AdcRegisters,
)
    requires
        s0.wf(),
        s1.wf(),
        s0.status_of(0) == SensorStatusType::SENSOR_IDLE,
        spec_sensor_main(s0, a0, s1, a1),
        a2.eoc,
        spec_sensor_main(s1, a2, s2, a3),
    ensures
        a1.channel == 8 && a1.start_requested,
        s1.status_of(0) == SensorStatusType::SENSOR_CONVERTING,
        s2.status_of(0) == SensorStatusType::SENSOR_COMPLETE,
        s2.values@[0] == a2.data,
{
    assert(s1.status@[0] == 1);
}

/// SPI master: a requested transfer of `b` (status REQUESTED, `b` kept)
/// writes `b` once the transmit buffer is empty and becomes busy; a busy
/// transfer completes with the byte received when the answer has arrived
/// and the bus is idle.
pub proof fn law_spi_master_transfer(s0: SpiState, f1: SpiFlags, f2: SpiFlags, b: u8)
    requires
        s0.wf(),
        s0.master_status@[0] == spec_master_code(SPIMasterStatus::SPI_MASTER_REQUESTED),
        s0.tx_data@[0] == b,
        f1.tx_empty,
        f2.rx_not_empty,
        !f2.busy,
    ensures
        ({
            let m1 = spec_master_step(s0, SPINumberType::SPI1, f1);
            &&& m1.0[0] == spec_master_code(SPIMasterStatus::SPI_MASTER_BUSY)
            &&& m1.1 == s0.rx_data@
            &&& m1.2 == seq![SpiCommand { spi: SPINumberType::SPI1, op: SpiRegisterOp::WriteData(b) }]
        }),
        forall|t: SpiState| t.wf() && t.master_status@[0] == spec_master_code(SPIMasterStatus::SPI_MASTER_BUSY) ==> {
            let m2 = #[trigger] spec_master_step(t, SPINumberType::SPI1, f2);
            &&& m2.0[0] == spec_master_code(SPIMasterStatus::SPI_MASTER_COMPLETE)
            &&& m2.1[0] == f2.rx_data
            &&& m2.2.len() == 0
        },
{
}

/// SPI: a master or slave in overrun goes through error back to idle in
/// two main-function cycles, whatever the flags.
pub proof fn law_spi_overrun_recovery(s0: SpiState, f: SpiFlags)
    requires
        s0.wf(),
    ensures
        s0.master_status@[0] == spec_master_code(SPIMasterStatus::SPI_MASTER_OVERRUN) ==>
            spec_master_step(s0, SPINumberType::SPI1, f).0[0] == spec_master_code(SPIMasterStatus::SPI_MASTER_ERROR),
        s0.master_status@[0] == spec_master_code(SPIMasterStatus::SPI_MASTER_ERROR) ==>
            spec_master_step(s0, SPINumberType::SPI1, f).0[0] == spec_master_code(SPIMasterStatus::SPI_MASTER_IDLE),
        s0.slave_status@[0] == spec_slave_code(SPISlaveStatus::SPI_SLAVE_OVERRUN) ==>
            spec_slave_step(s0, SPINumberType::SPI2, f).0[0] == spec_slave_code(SPISlaveStatus::SPI_SLAVE_ERROR),
        s0.slave_status@[0] == spec_slave_code(SPISlaveStatus::SPI_SLAVE_ERROR) ==>
            spec_slave_step(s0, SPINumberType::SPI2, f).0[0] == spec_slave_code(SPISlaveStatus::SPI_SLAVE_IDLE),
{
}

/// IoHwAb LED: after an LED is driven to a state, reading it gives that
/// state's level, and the other LEDs keep theirs.
pub proof fn law_led_set_then_get(g0: GpioRegisters, g1: GpioRegisters, color: LedColor, other: LedColor, state: LedState)
    requires
        g0.wf(),
        g1.wf(),
        g1.odr@ == g0.odr@.update(
            3,
            spec_write_bit(g0.odr@[3], spec_pin_number(spec_led_pin(color)), spec_led_state_to_level(state)),
        ),
    ensures
        spec_led_level(g1, color) == spec_led_state_to_level(state),
        other != color ==> spec_led_level(g1, other) == spec_led_level(g0, other),
{
    lemma_write_bit(g0.odr@[3], spec_pin_number(spec_led_pin(color)), spec_pin_number(spec_led_pin(other)), spec_led_state_to_level(state));
}

/// IoHwAb LED: a toggle flips the LED's level, and two toggles give the
/// port its former output word back.
pub proof fn law_led_toggle(g0: GpioRegisters, g1: GpioRegisters, g2: GpioRegisters, color: LedColor)
    requires
        g0.wf(),
        g1.wf(),
        g1.odr@ == g0.odr@.update(3, g0.odr@[3] ^ (1u32 << spec_pin_number(spec_led_pin(color)))),
        g2.odr@ == g1.odr@.update(3, g1.odr@[3] ^ (1u32 << spec_pin_number(spec_led_pin(color)))),
    ensures
        spec_led_level(g1, color) == spec_flip(spec_led_level(g0, color)),
        g2.odr@ == g0.odr@,
{
    let w = g0.odr@[3];
    let b = spec_pin_number(spec_led_pin(color));
    lemma_toggle_bit(w, b, b);
    assert((w ^ (1u32 << b)) ^ (1u32 << b) == w) by (bit_vector);
    assert(g2.odr@ =~= g0.odr@);
}

/// The upper-case hexadecimal digit of a value below 16.
pub open spec fn spec_hex_digit(n: u8) -> u8 {
    if n < 10 {
        (48 + n) as u8
    } else {
        (55 + n) as u8
    }
}

/// A line as a sender writes it: the payload, its CRC-8 as two upper-case
/// hexadecimal digits (high digit first), then a carriage return.
pub open spec fn spec_crc_line(d: Seq<u8>) -> Seq<u8> {
    let c = spec_crc8(d);
    d + seq![spec_hex_digit(c >> 4u8), spec_hex_digit(c & 15u8), 13u8]
}

/// UsartIf: two hexadecimal digits written for a byte read back as that byte.
pub proof fn law_hex_round_trip(b: u8)
    ensures
        spec_pair_ascii_to_hex(spec_hex_digit(b >> 4u8), spec_hex_digit(b & 15u8)) == b,
{
    let hi = b >> 4u8;
    let lo = b & 15u8;
    assert(b >> 4u8 < 16u8 && b & 15u8 < 16u8) by (bit_vector);
    assert(spec_ascii_to_hex(spec_hex_digit(hi)) == hi);
    assert(spec_ascii_to_hex(spec_hex_digit(lo)) == lo);
    assert((hi * 16 + lo) as u8 == b) by (bit_vector)
        requires hi == b >> 4u8, lo == b & 15u8;
}

/// `buf` with its first `k` bytes taken from `bytes`.
pub open spec fn spec_written(buf: Seq<u8>, bytes: Seq<u8>, k: int) -> Seq<u8> {
    Seq::new(buf.len(), |j: int| if j < k { bytes[j] } else { buf[j] })
}

pub proof fn lemma_scan_stores(buf: Seq<u8>, len: int, crc_on: bool, bytes: Seq<u8>, m: int, k: int, stored: bool)
    requires
        0 <= k <= m,
        m < len <= buf.len(),
        m <= bytes.len(),
        forall|j: int| 0 <= j < m ==> bytes[j] != 10 && bytes[j] != 13,
    ensures
        spec_rx_scan(spec_written(buf, bytes, k), k, len, crc_on, bytes, k, stored || k > 0)
            == spec_rx_scan(spec_written(buf, bytes, m), m, len, crc_on, bytes, m, stored || m > 0),
    decreases m - k,
{
    if k < m {
        assert(bytes[k] != 10 && bytes[k] != 13);
        assert(spec_written(buf, bytes, k).update(k, bytes[k]) =~= spec_written(buf, bytes, k + 1));
        lemma_scan_stores(buf, len, crc_on, bytes, m, k + 1, stored);
    }
}

/// UsartIf: a line carrying its CRC-8, fed to an empty reception whose
/// buffer has room for the payload and the two digits, completes the
/// reception: the buffer holds the payload, the two digits are zeroed, the
/// write position is back at 0, and exactly the line's bytes are consumed.
pub proof fn law_crc_line_accepted(buf: Seq<u8>, len: int, d: Seq<u8>, rest: Seq<u8>)
    requires
        1 <= d.len(),
        d.len() + 2 < len <= buf.len(),
        forall|j: int| 0 <= j < d.len() ==> d[j] != 10 && d[j] != 13,
    ensures
        spec_rx_scan(buf, 0, len, true, spec_crc_line(d) + rest, 0, false) == (
            Seq::new(buf.len(), |j: int| if j < d.len() { d[j] } else if j < d.len() + 2 { 0u8 } else { buf[j] }),
            0int,
            3u8,
            d.len() as int + 3,
            true,
        ),
{
    let n = d.len() as int;
    let m = n + 2;
    let bytes = spec_crc_line(d) + rest;
    let c = spec_crc8(d);
    let hi = spec_hex_digit(c >> 4u8);
    let lo = spec_hex_digit(c & 15u8);
    assert(c >> 4u8 < 16 && c & 15u8 < 16) by (bit_vector);
    assert(bytes[n] == hi && bytes[n + 1] == lo && bytes[m] == 13);
    assert forall|j: int| 0 <= j < m implies bytes[j] != 10 && bytes[j] != 13 by {
        if j < n {
            assert(bytes[j] == d[j]);
        }
    }
    assert(spec_written(buf, bytes, 0) =~= buf);
    lemma_scan_stores(buf, len, true, bytes, m, 0, false);
    let w = spec_written(buf, bytes, m);
    assert(w.subrange(0, m - 2) =~= d);
    law_hex_round_trip(c);
    assert(spec_frame_ok(w, m, true));
    assert(spec_strip_crc(w, m) =~= Seq::new(buf.len(), |j: int| if j < d.len() { d[j] } else if j < d.len() + 2 { 0u8 } else { buf[j] }));
}

/// UsartIf: a line whose two digits do not give the CRC-8 of its payload
/// ends the reception in error, with the bytes received left in the buffer.
pub proof fn law_bad_crc_line_rejected(buf: Seq<u8>, len: int, d: Seq<u8>, hi: u8, lo: u8, rest: Seq<u8>)
    requires
        1 <= d.len(),
        d.len() + 2 < len <= buf.len(),
        forall|j: int| 0 <= j < d.len() ==> d[j] != 10 && d[j] != 13,
        hi != 10 && hi != 13 && lo != 10 && lo != 13,
        spec_pair_ascii_to_hex(hi, lo) != spec_crc8(d),
    ensures
        spec_rx_scan(buf, 0, len, true, d + seq![hi, lo, 13u8] + rest, 0, false).2 == 4u8,
{
    let n = d.len() as int;
    let m = n + 2;
    let bytes = d + seq![hi, lo, 13u8] + rest;
    assert(bytes[n] == hi && bytes[n + 1] == lo && bytes[m] == 13);
    assert forall|j: int| 0 <= j < m implies bytes[j] != 10 && bytes[j] != 13 by {
        if j < n {
            assert(bytes[j] == d[j]);
        }
    }
    assert(spec_written(buf, bytes, 0) =~= buf);
    lemma_scan_stores(buf, len, true, bytes, m, 0, false);
    let w = spec_written(buf, bytes, m);
    assert(w.subrange(0, m - 2) =~= d);
    assert(!spec_frame_ok(w, m, true));
}

/// UsartIf reception: while a reception into a buffer of room for the
/// payload and its two digits is running on USART2 with nothing received
/// yet, a pass of the reception processing over a ring holding a line
/// with its CRC-8 completes the PDU, delivers the payload at the start of
/// the buffer, raises the indication, and leaves the bytes after the line
/// in the ring.
pub proof fn law_usartif_line_delivered(
    s0: UsartIfRxState,
    u0: UsartState,
    s1: UsartIfRxState,
    u1: UsartState,
    tick: u32,
    d: Seq<u8>,
    rest: Seq<u8>,
)
    requires
        s0.wf(),
        u0.wf(),
        s0.status0() == 2,
        s0.rx_index@[1] == 0,
        1 <= d.len(),
        d.len() + 2 < s0.buffer_len@[1],
        forall|j: int| 0 <= j < d.len() ==> d[j] != 10 && d[j] != 13,
        u0.rx_queue(1) == spec_crc_line(d) + rest,
        spec_rx_processing(s0, u0, s1, u1, tick, UsartNumber::USART2),
    ensures
        s1.status0() == 3,
        s1.buf(1).subrange(0, d.len() as int) == d,
        s1.rx_index@[1] == 0,
        s1.indication@[1] == 0,
        u1.rx_queue(1) == rest,
{
    reveal_with_fuel(crate::bsw::usartif_cfg::spec_usartif_rxpdu_config, 1);
    assert(spec_usartif_rxpdu_config()[0].crc);
    law_crc_line_accepted(s0.buf(1), s0.buffer_len@[1] as int, d, rest);
    let q = spec_crc_line(d) + rest;
    assert(q.subrange(d.len() as int + 3, q.len() as int) =~= rest);
    assert(s1.buf(1).subrange(0, d.len() as int) =~= d);
}

/// USART receive ring: a byte received by the interrupt into a ring with
/// room is taken out after the bytes already waiting, first in, first out.
pub proof fn law_usart_ring_fifo(
    s0: UsartState,
    o0: Seq<UsartCommand>,
    s1: UsartState,
    o1: Seq<UsartCommand>,
    s2: UsartState,
    u: UsartNumber,
    flags: UsartFlags,
    r: Option<u8>,
)
    requires
        s0.wf(),
        s1.wf(),
        !flags.has_error,
        flags.rx_not_empty,
        s0.rx_queue(spec_usart_index(u)).len() < 127,
        spec_usart_irq(s0, o0, s1, o1, u, flags),
        spec_ring_pop(s1, s2, u, r),
    ensures
        ({
            let q = s0.rx_queue(spec_usart_index(u));
            &&& r == Some(if q.len() == 0 { flags.rx_data } else { q[0] })
            &&& s2.rx_queue(spec_usart_index(u)) == q.push(flags.rx_data).drop_first()
        }),
{
    let q = s0.rx_queue(spec_usart_index(u));
    assert(q.push(flags.rx_data)[0] == (if q.len() == 0 { flags.rx_data } else { q[0] }));
}

/// The bytes carried by a run of receive interrupts.
pub open spec fn spec_rx_bytes(flags: Seq<UsartFlags>) -> Seq<u8> {
    Seq::new(flags.len(), |j: int| flags[j].rx_data)
}

proof fn lemma_ring_receive_many(
    states: Seq<UsartState>,
    opss: Seq<Seq<UsartCommand>>,
    flags: Seq<UsartFlags>,
    u: UsartNumber,
    k: int,
)
    requires
        states.len() == flags.len() + 1,
        opss.len() == states.len(),
        forall|j: int| 0 <= j < states.len() ==> (#[trigger] states[j]).wf(),
        forall|j: int| 0 <= j < flags.len() ==> !(#[trigger] flags[j]).has_error && flags[j].rx_not_empty,
        forall|j: int| 0 <= j < flags.len() ==> spec_usart_irq(#[trigger] states[j], opss[j], states[j + 1], opss[j + 1], u, flags[j]),
        states[0].rx_queue(spec_usart_index(u)).len() + flags.len() <= 127,
        0 <= k <= flags.len(),
    ensures
        states[k].rx_queue(spec_usart_index(u)) == states[0].rx_queue(spec_usart_index(u)) + spec_rx_bytes(flags).take(k),
        states[k].error@ == states[0].error@,
    decreases k,
{
    let i = spec_usart_index(u);
    if k > 0 {
        lemma_ring_receive_many(states, opss, flags, u, k - 1);
        assert(spec_usart_irq(states[k - 1], opss[k - 1], states[k], opss[k], u, flags[k - 1]));
        assert(spec_rx_bytes(flags).take(k) =~= spec_rx_bytes(flags).take(k - 1).push(flags[k - 1].rx_data));
        assert(states[0].rx_queue(i) + spec_rx_bytes(flags).take(k) =~= (states[0].rx_queue(i) + spec_rx_bytes(flags).take(
            k - 1,
        )).push(flags[k - 1].rx_data));
    } else {
        assert(states[0].rx_queue(i) + spec_rx_bytes(flags).take(0) =~= states[0].rx_queue(i));
    }
}

proof fn lemma_ring_pop_step(s0: UsartState, s1: UsartState, u: UsartNumber, r: Option<u8>)
    requires
        spec_ring_pop(s0, s1, u, r),
    ensures
        ({
            let i = spec_usart_index(u);
            let q0 = s0.rx_queue(i);
            let q1 = s1.rx_queue(i);
            &&& q0.len() == 0 ==> r == None::<u8> && q1 == q0
            &&& q0.len() > 0 ==> r == Some(q0[0]) && q1 == q0.drop_first()
        }),
{
}

proof fn lemma_queue_pops(qs: Seq<Seq<u8>>, rs: Seq<Option<u8>>, m: int)
    requires
        qs.len() == rs.len() + 1,
        forall|j: int| 0 <= j < rs.len() ==> {
            &&& (#[trigger] qs[j]).len() == 0 ==> rs[j] == None::<u8> && qs[j + 1] == qs[j]
            &&& qs[j].len() > 0 ==> rs[j] == Some(qs[j][0]) && qs[j + 1] == qs[j].drop_first()
        },
        0 <= m <= rs.len(),
    ensures
        forall|j: int| 0 <= j < m ==> #[trigger] rs[j] == (if j < qs[0].len() { Some(qs[0][j]) } else { None::<u8> }),
        qs[m] == qs[0].skip(if m < qs[0].len() { m } else { qs[0].len() as int }),
    decreases m,
{
    let q = qs[0];
    if m > 0 {
        lemma_queue_pops(qs, rs, m - 1);
        let qm = qs[m - 1];
        if m - 1 < q.len() {
            assert(qm.len() > 0);
            assert(q.skip(m - 1).drop_first() =~= q.skip(m));
        } else {
            assert(q.skip(q.len() as int).len() == 0);
        }
    } else {
        assert(q.skip(0) =~= q);
    }
}

/// USART receive ring: after the ring is emptied, `k` bytes (at most 127)
/// received by error-free interrupts come out of `k` pops in the order they
/// arrived, and every further pop finds the ring empty.
pub proof fn law_usart_ring_fifo_many(
    states: Seq<UsartState>,
    opss: Seq<Seq<UsartCommand>>,
    flags: Seq<UsartFlags>,
    pops: Seq<UsartState>,
    results: Seq<Option<u8>>,
    u: UsartNumber,
)
    requires
        states.len() == flags.len() + 1,
        opss.len() == states.len(),
        forall|j: int| 0 <= j < states.len() ==> (#[trigger] states[j]).wf(),
        states[0].rx_queue(spec_usart_index(u)).len() == 0,
        flags.len() <= 127,
        forall|j: int| 0 <= j < flags.len() ==> !(#[trigger] flags[j]).has_error && flags[j].rx_not_empty,
        forall|j: int| 0 <= j < flags.len() ==> spec_usart_irq(#[trigger] states[j], opss[j], states[j + 1], opss[j + 1], u, flags[j]),
        pops.len() == results.len() + 1,
        pops[0] == states[flags.len() as int],
        forall|j: int| 0 <= j < results.len() ==> spec_ring_pop(#[trigger] pops[j], pops[j + 1], u, results[j]),
    ensures
        forall|j: int| 0 <= j < results.len() ==> #[trigger] results[j] == (if j < flags.len() {
            Some(flags[j].rx_data)
        } else {
            None::<u8>
        }),
        results.len() >= flags.len() ==> pops[results.len() as int].rx_queue(spec_usart_index(u)).len() == 0,
        states[flags.len() as int].error@ == states[0].error@,
{
    let i = spec_usart_index(u);
    let n = flags.len() as int;
    lemma_ring_receive_many(states, opss, flags, u, n);
    assert(spec_rx_bytes(flags).take(n) =~= spec_rx_bytes(flags));
    assert(states[n].rx_queue(i) =~= spec_rx_bytes(flags));
    let qs = Seq::new(pops.len(), |j: int| pops[j].rx_queue(i));
    assert forall|j: int| 0 <= j < results.len() implies {
        &&& (#[trigger] qs[j]).len() == 0 ==> results[j] == None::<u8> && qs[j + 1] == qs[j]
        &&& qs[j].len() > 0 ==> results[j] == Some(qs[j][0]) && qs[j + 1] == qs[j].drop_first()
    } by {
        lemma_ring_pop_step(pops[j], pops[j + 1], u, results[j]);
    }
    lemma_queue_pops(qs, results, results.len() as int);
    assert(qs[0] == spec_rx_bytes(flags));
    if results.len() >= n {
        assert(spec_rx_bytes(flags).skip(n).len() == 0);
        assert(qs[results.len() as int] == pops[results.len() as int].rx_queue(i));
    }
}

/// USART receive ring: a byte received while 127 bytes are waiting is
/// dropped and the channel's error flag is set.
pub proof fn law_usart_ring_full_drops(
    s0: UsartState,
    o0: Seq<UsartCommand>,
    s1: UsartState,
    o1: Seq<UsartCommand>,
    u: UsartNumber,
    flags: UsartFlags,
)
    requires
        s0.wf(),
        !flags.has_error,
        flags.rx_not_empty,
        s0.rx_queue(spec_usart_index(u)).len() == 127,
        spec_usart_irq(s0, o0, s1, o1, u, flags),
    ensures
        s1.rx_queue(spec_usart_index(u)) == s0.rx_queue(spec_usart_index(u)),
        s1.error@[spec_usart_index(u)],
{
}

/// USART initialisation: the first call sets up the configured channel
/// (USART2) with an empty receive ring and no error; a further call makes no
/// register access and changes nothing.
pub proof fn law_usart_init_once(
    s0: UsartState,
    o0: Seq<UsartCommand>,
    s1: UsartState,
    o1: Seq<UsartCommand>,
    s2: UsartState,
    o2: Seq<UsartCommand>,
)
    requires
        s0.wf(),
        spec_usart_init(s0, o0, s1, o1),
        spec_usart_init(s1, o1, s2, o2),
    ensures
        s1.initialized@[spec_usart_index(UsartNumber::USART2)],
        !s0.initialized@[spec_usart_index(UsartNumber::USART2)] ==> {
            &&& s1.rx_queue(spec_usart_index(UsartNumber::USART2)).len() == 0
            &&& !s1.error@[spec_usart_index(UsartNumber::USART2)]
        },
        s2 == s1,
        o2 == o1,
{
}

proof fn lemma_read_step_extends(p: Seq<u8>, c: Seq<u8>, orig: Seq<u8>, bytes: Seq<u8>, k: int, r: Option<usize>)
    requires
        1 <= k <= bytes.len() <= orig.len(),
        p.len() == orig.len(),
        p.subrange(0, k - 1) == bytes.subrange(0, k - 1),
        p.subrange(k - 1, orig.len() as int) == orig.subrange(k - 1, orig.len() as int),
        spec_read_string_step(p, k - 1, bytes[k - 1], c, r),
        r.is_some(),
    ensures
        bytes[k - 1] != 10 && bytes[k - 1] != 13,
        c.len() == orig.len(),
        c.subrange(0, k) == bytes.subrange(0, k),
        c.subrange(k, orig.len() as int) == orig.subrange(k, orig.len() as int),
{
    let len = orig.len() as int;
    assert(c == p.update(k - 1, bytes[k - 1]));
    assert forall|j: int| 0 <= j < k implies #[trigger] c.subrange(0, k)[j] == bytes.subrange(0, k)[j] by {
        if j < k - 1 {
            assert(p.subrange(0, k - 1)[j] == bytes.subrange(0, k - 1)[j]);
        }
    }
    assert(c.subrange(0, k) =~= bytes.subrange(0, k));
    assert forall|j: int| 0 <= j < len - k implies #[trigger] c.subrange(k, len)[j] == orig.subrange(k, len)[j] by {
        assert(p.subrange(k - 1, len)[j + 1] == orig.subrange(k - 1, len)[j + 1]);
    }
    assert(c.subrange(k, len) =~= orig.subrange(k, len));
}

proof fn lemma_read_line_prefix(bufs: Seq<Seq<u8>>, bytes: Seq<u8>, rs: Seq<Option<usize>>, k: int)
    requires
        bufs.len() == bytes.len() + 1,
        rs.len() == bytes.len(),
        bytes.len() <= bufs[0].len(),
        forall|j: int| 0 <= j < bytes.len() ==> spec_read_string_step(#[trigger] bufs[j], j, bytes[j], bufs[j + 1], rs[j]),
        0 <= k <= bytes.len(),
        forall|j: int| 0 <= j < k ==> (#[trigger] rs[j]).is_some(),
    ensures
        bufs[k].len() == bufs[0].len(),
        bufs[k].subrange(0, k) == bytes.subrange(0, k),
        bufs[k].subrange(k, bufs[0].len() as int) == bufs[0].subrange(k, bufs[0].len() as int),
        forall|j: int| 0 <= j < k ==> #[trigger] bytes[j] != 10 && bytes[j] != 13,
    decreases k,
{
    if k > 0 {
        lemma_read_line_prefix(bufs, bytes, rs, k - 1);
        assert(spec_read_string_step(bufs[k - 1], k - 1, bytes[k - 1], bufs[k], rs[k - 1]));
        assert(rs[k - 1].is_some());
        lemma_read_step_extends(bufs[k - 1], bufs[k], bufs[0], bytes, k, rs[k - 1]);
    } else {
        assert(bufs[0].subrange(0, 0) =~= bytes.subrange(0, 0));
    }
}

/// USART line read: the caller hands the received bytes in order to
/// `usart_read_string` (each with the number stored so far), going on while
/// a byte was stored and the buffer has room. Then the line is the received
/// bytes up to, not including, the first line feed or carriage return (or
/// the whole buffer's worth when none comes first); they stand at the start
/// of the buffer, the rest of the buffer is untouched, and its length is the
/// position of the last step that stored a byte, plus one.
pub proof fn law_usart_read_line(bufs: Seq<Seq<u8>>, bytes: Seq<u8>, rs: Seq<Option<usize>>)
    requires
        1 <= bytes.len() <= bufs[0].len(),
        bufs.len() == bytes.len() + 1,
        rs.len() == bytes.len(),
        forall|j: int| 0 <= j < bytes.len() ==> spec_read_string_step(#[trigger] bufs[j], j, bytes[j], bufs[j + 1], rs[j]),
        forall|j: int| 0 <= j < bytes.len() - 1 ==> (#[trigger] rs[j]).is_some(),
        rs.last().is_some() ==> bytes.len() == bufs[0].len(),
    ensures
        ({
            let n: int = if rs.last().is_some() { bytes.len() as int } else { bytes.len() - 1 };
            let line = bufs.last();
            &&& line.len() == bufs[0].len()
            &&& line.subrange(0, n) == bytes.subrange(0, n)
            &&& line.subrange(n, line.len() as int) == bufs[0].subrange(n, bufs[0].len() as int)
            &&& forall|j: int| 0 <= j < n ==> #[trigger] bytes[j] != 10 && bytes[j] != 13
            &&& n < bufs[0].len() ==> bytes[n] == 10 || bytes[n] == 13
            &&& rs.last().is_some() ==> rs.last() == Some(n as usize)
        }),
{
    let k = bytes.len() - 1;
    let len = bufs[0].len() as int;
    assert(forall|j: int| 0 <= j < k ==> (#[trigger] rs[j]).is_some());
    lemma_read_line_prefix(bufs, bytes, rs, k);
    assert(spec_read_string_step(bufs[k], k, bytes[k], bufs[k + 1], rs[k]));
    if rs[k].is_some() {
        lemma_read_line_prefix(bufs, bytes, rs, k + 1);
        assert(bufs.last() == bufs[k + 1]);
    } else {
        assert(bufs[k + 1] == bufs[k]);
        assert(bufs.last() == bufs[k + 1]);
    }
}

/// USART transmission: once a background transmission of `data` has
/// started, the next transmit-empty interrupt writes the first byte of
/// `data`, and the transmission moves on to the second.
pub proof fn law_usart_send_first_byte(
    s0: UsartState,
    s1: UsartState,
    s2: UsartState,
    o1: Seq<UsartCommand>,
    o2: Seq<UsartCommand>,
    u: UsartNumber,
    data: Seq<u8>,
    flags: UsartFlags,
)
    requires
        s0.wf(),
        s1.wf(),
        1 <= data.len() <= 128,
        spec_usart_send_started(s0, s1, spec_usart_index(u), data),
        !flags.has_error,
        flags.tx_empty,
        spec_usart_irq(s1, o1, s2, o2, u, flags),
    ensures
        o2[o1.len() as int] == (UsartCommand { usart: u, op: UsartRegisterOp::WriteData(data[0]) }),
        s2.tx_index@[spec_usart_index(u)] == 1,
{
    let i = spec_usart_index(u);
    assert(s1.tx_buffer@[i * 128] == data[0]);
}

/// IoIf LED PDUs: a write to a PDU in error is refused and only recovers
/// it; the next write of on or off then drives the LED to that level and
/// leaves the PDU completed and confirmed.
pub proof fn law_ioif_write_after_recovery(
    t0: IoIfTxState,
    w0: u32,
    t1: IoIfTxState,
    w1: u32,
    t2: IoIfTxState,
    w2: u32,
    id: u16,
    state: IoIf_OutputType,
    r1: IoIf_ReturnType,
    r2: IoIf_ReturnType,
)
    requires
        t0.wf(),
        t1.wf(),
        0x200 <= id <= 0x203,
        state != IoIf_OutputType::TOGGLE,
        t0.pdu_status@[id - 0x200].status == 4,
        spec_write_tx_state(t0, w0, t1, w1, id, state, r1),
        spec_write_tx_state(t1, w1, t2, w2, id, state, r2),
    ensures
        r1 == IoIf_ReturnType::IOIF_E_NOT_OK,
        w1 == w0,
        r2 == IoIf_ReturnType::IOIF_E_OK,
        t2.pdu_status@[id - 0x200].status == 3,
        t2.confirmation@[id - 0x200] == 0,
        spec_level_of(w2, spec_pin_number(spec_led_pin(spec_tx_color(id - 0x200))))
            == (if state == IoIf_OutputType::STD_ON { Dio_LevelType::HIGH } else { Dio_LevelType::LOW }),
{
    let i = id - 0x200;
    let b = spec_pin_number(spec_led_pin(spec_tx_color(i)));
    assert(spec_tx_index(id) == Some(i));
    assert(t1.pdu_status@[i].status == 0);
    lemma_write_bit(w1, b, b, if state == IoIf_OutputType::STD_ON { Dio_LevelType::HIGH } else { Dio_LevelType::LOW });
}

} // verus!
