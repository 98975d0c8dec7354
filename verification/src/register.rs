//! The register values that the drivers read and write. The board code copies
//! each port's output word to the hardware after a driver call and loads the
//! input words (and the peripheral status flags) before one.
use vstd::prelude::*;

verus! {

#[derive(Clone, Copy, Debug, PartialEq, Eq, Structural)]
pub enum PORT {
    A,
    B,
    C,
    D,
    E,
    H,
}

#[derive(Clone, Copy, Debug, PartialEq, Eq, Structural)]
pub enum PIN {
    P0,
    P1,
    P2,
    P3,
    P4,
    P5,
    P6,
    P7,
    P8,
    P9,
    P10,
    P11,
    P12,
    P13,
    P14,
    P15,
}

#[derive(Clone, Copy, Debug, PartialEq, Eq, Structural)]
pub enum Dio_LevelType {
    LOW,
    HIGH,
}

/// Number of GPIO ports held.
pub const GPIO_PORT_COUNT: usize = 6;

pub open spec fn spec_port_index(p: PORT) -> int {
    match p {
        PORT::A => 0,
        PORT::B => 1,
        PORT::C => 2,
        PORT::D => 3,
        PORT::E => 4,
        PORT::H => 5,
    }
}

pub fn port_index(p: PORT) -> (r: usize)
    ensures
        r == spec_port_index(p),
{
    match p {
        PORT::A => 0,
        PORT::B => 1,
        PORT::C => 2,
        PORT::D => 3,
        PORT::E => 4,
        PORT::H => 5,
    }
}

pub open spec fn spec_pin_number(p: PIN) -> u32 {
    match p {
        PIN::P0 => 0,
        PIN::P1 => 1,
        PIN::P2 => 2,
        PIN::P3 => 3,
        PIN::P4 => 4,
        PIN::P5 => 5,
        PIN::P6 => 6,
        PIN::P7 => 7,
        PIN::P8 => 8,
        PIN::P9 => 9,
        PIN::P10 => 10,
        PIN::P11 => 11,
        PIN::P12 => 12,
        PIN::P13 => 13,
        PIN::P14 => 14,
        PIN::P15 => 15,
    }
}

pub fn pin_number(p: PIN) -> (r: u32)
    ensures
        r == spec_pin_number(p),
        r < 16,
{
    match p {
        PIN::P0 => 0,
        PIN::P1 => 1,
        PIN::P2 => 2,
        PIN::P3 => 3,
        PIN::P4 => 4,
        PIN::P5 => 5,
        PIN::P6 => 6,
        PIN::P7 => 7,
        PIN::P8 => 8,
        PIN::P9 => 9,
        PIN::P10 => 10,
        PIN::P11 => 11,
        PIN::P12 => 12,
        PIN::P13 => 13,
        PIN::P14 => 14,
        PIN::P15 => 15,
    }
}

/// The level of bit `b` of a port word.
pub open spec fn spec_level_of(w: u32, b: u32) -> Dio_LevelType {
    if (w >> b) & 1u32 == 1u32 {
        Dio_LevelType::HIGH
    } else {
        Dio_LevelType::LOW
    }
}

/// A port word with bit `b` set to `level`.
pub open spec fn spec_write_bit(w: u32, b: u32, level: Dio_LevelType) -> u32 {
    match level {
        Dio_LevelType::HIGH => w | (1u32 << b),
        Dio_LevelType::LOW => w & !(1u32 << b),
    }
}

pub open spec fn spec_flip(level: Dio_LevelType) -> Dio_LevelType {
    match level {
        Dio_LevelType::HIGH => Dio_LevelType::LOW,
        Dio_LevelType::LOW => Dio_LevelType::HIGH,
    }
}

/// Writing a bit gives that bit the written level and leaves the others.
pub proof fn lemma_write_bit(w: u32, b: u32, c: u32, level: Dio_LevelType)
    requires
        b < 32,
        c < 32,
    ensures
        spec_level_of(spec_write_bit(w, b, level), b) == level,
        c != b ==> spec_level_of(spec_write_bit(w, b, level), c) == spec_level_of(w, c),
{
    assert(((w | (1u32 << b)) >> b) & 1u32 == 1u32) by (bit_vector)
        requires b < 32u32;
    assert(((w & !(1u32 << b)) >> b) & 1u32 == 0u32) by (bit_vector)
        requires b < 32u32;
    assert(c != b ==> ((w | (1u32 << b)) >> c) & 1u32 == (w >> c) & 1u32) by (bit_vector)
        requires b < 32u32, c < 32u32;
    assert(c != b ==> ((w & !(1u32 << b)) >> c) & 1u32 == (w >> c) & 1u32) by (bit_vector)
        requires b < 32u32, c < 32u32;
}

/// Toggling a bit flips that bit's level and leaves the others.
pub proof fn lemma_toggle_bit(w: u32, b: u32, c: u32)
    requires
        b < 32,
        c < 32,
    ensures
        spec_level_of(w ^ (1u32 << b), b) == spec_flip(spec_level_of(w, b)),
        c != b ==> spec_level_of(w ^ (1u32 << b), c) == spec_level_of(w, c),
{
    assert(((w ^ (1u32 << b)) >> b) & 1u32 == 1u32 <==> (w >> b) & 1u32 != 1u32) by (bit_vector)
        requires b < 32u32;
    assert(c != b ==> ((w ^ (1u32 << b)) >> c) & 1u32 == (w >> c) & 1u32) by (bit_vector)
        requires b < 32u32, c < 32u32;
}

/// The output and input data words of every GPIO port.
pub struct GpioRegisters {
    pub odr: Vec<u32>,
    pub idr: Vec<u32>,
}

impl GpioRegisters {
    pub open spec fn wf(&self) -> bool {
        &&& self.odr@.len() == GPIO_PORT_COUNT
        &&& self.idr@.len() == GPIO_PORT_COUNT
    }

    /// All ports low.
    pub fn new() -> (r: GpioRegisters)
        ensures
            r.wf(),
            forall|i: int| 0 <= i < 6 ==> r.odr@[i] == 0 && r.idr@[i] == 0,
    {
        GpioRegisters { odr: vec![0u32, 0, 0, 0, 0, 0], idr: vec![0u32, 0, 0, 0, 0, 0] }
    }

    pub open spec fn output_level(&self, port: PORT, pin: PIN) -> Dio_LevelType {
        spec_level_of(self.odr@[spec_port_index(port)], spec_pin_number(pin))
    }

    pub open spec fn input_level(&self, port: PORT, pin: PIN) -> Dio_LevelType {
        spec_level_of(self.idr@[spec_port_index(port)], spec_pin_number(pin))
    }
}

/// Reads the input level of a pin.
pub fn dio_read(g: &GpioRegisters, port: PORT, pin: PIN) -> (r: Dio_LevelType)
    requires
        g.wf(),
    ensures
        r == g.input_level(port, pin),
{
    let w = g.idr[port_index(port)];
    let b = pin_number(pin);
    if (w >> b) & 1u32 == 1u32 {
        Dio_LevelType::HIGH
    } else {
        Dio_LevelType::LOW
    }
}

/// Reads the level a pin is driven to.
pub fn dio_read_output(g: &GpioRegisters, port: PORT, pin: PIN) -> (r: Dio_LevelType)
    requires
        g.wf(),
    ensures
        r == g.output_level(port, pin),
{
    let w = g.odr[port_index(port)];
    let b = pin_number(pin);
    if (w >> b) & 1u32 == 1u32 {
        Dio_LevelType::HIGH
    } else {
        Dio_LevelType::LOW
    }
}

/// Drives a pin to `level`.
pub fn dio_write(g: &mut GpioRegisters, port: PORT, pin: PIN, level: Dio_LevelType)
    requires
        old(g).wf(),
    ensures
        final(g).wf(),
        final(g).idr@ == old(g).idr@,
        final(g).odr@ == old(g).odr@.update(
            spec_port_index(port),
            spec_write_bit(old(g).odr@[spec_port_index(port)], spec_pin_number(pin), level),
        ),
{
    let p = port_index(port);
    let b = pin_number(pin);
    let w = g.odr[p];
    let nw = match level {
        Dio_LevelType::HIGH => w | (1u32 << b),
        Dio_LevelType::LOW => w & !(1u32 << b),
    };
    g.odr.set(p, nw);
}

/// Flips the level a pin is driven to and returns the new level.
pub fn dio_toggle(g: &mut GpioRegisters, port: PORT, pin: PIN) -> (r: Dio_LevelType)
    requires
        old(g).wf(),
    ensures
        final(g).wf(),
        final(g).idr@ == old(g).idr@,
        final(g).odr@ == old(g).odr@.update(
            spec_port_index(port),
            old(g).odr@[spec_port_index(port)] ^ (1u32 << spec_pin_number(pin)),
        ),
        r == final(g).output_level(port, pin),
{
    let p = port_index(port);
    let b = pin_number(pin);
    let nw = g.odr[p] ^ (1u32 << b);
    g.odr.set(p, nw);
    if (nw >> b) & 1u32 == 1u32 {
        Dio_LevelType::HIGH
    } else {
        Dio_LevelType::LOW
    }
}

/// Writes a whole output word.
pub fn dio_write_port(g: &mut GpioRegisters, port: PORT, value: u32)
    requires
        old(g).wf(),
    ensures
        final(g).wf(),
        final(g).idr@ == old(g).idr@,
        final(g).odr@ == old(g).odr@.update(spec_port_index(port), value),
{
    g.odr.set(port_index(port), value);
}

/// Reads a whole output word.
pub fn dio_read_output_port(g: &GpioRegisters, port: PORT) -> (r: u32)
    requires
        g.wf(),
    ensures
        r == g.odr@[spec_port_index(port)],
{
    g.odr[port_index(port)]
}

} // verus!

verus! {

/// Clock source selected by the RCC.
#[derive(Clone, Copy, Debug, PartialEq, Eq, Structural)]
pub enum ClockResourceType {
    HSI,
    HSE,
    PLL,
}

/// The RCC state the clock driver reads and writes: the selected system
/// clock source and whether the internal oscillator is switched on.
pub struct RccRegisters {
    pub clock_source: ClockResourceType,
    pub hsi_on: bool,
}

/// The SysTick timer setting: the core clock and the interrupt rate asked for.
pub struct SysTickRegisters {
    pub core_clock_hz: u32,
    pub tick_rate_hz: u32,
    pub configured: bool,
}

/// The ADC1 state the ADC driver reads and writes: the selected regular
/// channel, a software start request, the end-of-conversion flag and the
/// data register.
pub struct AdcRegisters {
    pub channel: u8,
    pub start_requested: bool,
    pub eoc: bool,
    pub data: u16,
}

} // verus!

verus! {

#[derive(Clone, Copy, Debug, PartialEq, Eq, Structural)]
pub enum UsartNumber {
    USART1,
    USART2,
    USART6,
}

/// Interrupt lines of the NVIC that the drivers enable.
#[derive(Clone, Copy, Debug, PartialEq, Eq, Structural)]
pub enum IRQn {
    EXTI0,
    EXTI1,
    EXTI2,
    EXTI3,
    EXTI4,
    EXTI9_5,
    EXTI15_10,
    ADC,
    SPI1,
    SPI2,
    USART1,
    USART2,
    USART6,
}

#[derive(Clone, Copy, Debug, PartialEq, Eq, Structural)]
pub enum SPINumberType {
    SPI1,
    SPI2,
    SPI3,
    SPI4,
}

/// The status flags of one USART as read at the start of an interrupt:
/// an error flag, receive-not-empty, transmit-empty and the received byte.
#[derive(Clone, Copy, Debug, PartialEq, Eq, Structural)]
pub struct UsartFlags {
    pub has_error: bool,
    pub rx_not_empty: bool,
    pub tx_empty: bool,
    pub rx_data: u8,
}

/// The status flags of one SPI as read by a driver call: overrun, busy,
/// transmit-empty, receive-not-empty and the received byte.
#[derive(Clone, Copy, Debug, PartialEq, Eq, Structural)]
pub struct SpiFlags {
    pub overrun: bool,
    pub busy: bool,
    pub tx_empty: bool,
    pub rx_not_empty: bool,
    pub rx_data: u8,
}

/// The sixteen external interrupt lines; line `n` takes pin `n` of one port.
#[derive(Clone, Copy, Debug, PartialEq, Eq, Structural)]
pub enum EXTILINE {
    LINE0,
    LINE1,
    LINE2,
    LINE3,
    LINE4,
    LINE5,
    LINE6,
    LINE7,
    LINE8,
    LINE9,
    LINE10,
    LINE11,
    LINE12,
    LINE13,
    LINE14,
    LINE15,
}

/// The edge an external interrupt line fires on.
#[derive(Clone, Copy, Debug, PartialEq, Eq, Structural)]
pub enum Exti_TriggerType {
    RISING,
    FALLING,
    RISING_FALLING,
}

pub open spec fn spec_exti_line_number(l: EXTILINE) -> int {
    match l {
        EXTILINE::LINE0 => 0,
        EXTILINE::LINE1 => 1,
        EXTILINE::LINE2 => 2,
        EXTILINE::LINE3 => 3,
        EXTILINE::LINE4 => 4,
        EXTILINE::LINE5 => 5,
        EXTILINE::LINE6 => 6,
        EXTILINE::LINE7 => 7,
        EXTILINE::LINE8 => 8,
        EXTILINE::LINE9 => 9,
        EXTILINE::LINE10 => 10,
        EXTILINE::LINE11 => 11,
        EXTILINE::LINE12 => 12,
        EXTILINE::LINE13 => 13,
        EXTILINE::LINE14 => 14,
        EXTILINE::LINE15 => 15,
    }
}

/// The number of an external interrupt line.
pub fn exti_line_number(l: EXTILINE) -> (r: usize)
    ensures
        r == spec_exti_line_number(l),
        r < 16,
{
    match l {
        EXTILINE::LINE0 => 0,
        EXTILINE::LINE1 => 1,
        EXTILINE::LINE2 => 2,
        EXTILINE::LINE3 => 3,
        EXTILINE::LINE4 => 4,
        EXTILINE::LINE5 => 5,
        EXTILINE::LINE6 => 6,
        EXTILINE::LINE7 => 7,
        EXTILINE::LINE8 => 8,
        EXTILINE::LINE9 => 9,
        EXTILINE::LINE10 => 10,
        EXTILINE::LINE11 => 11,
        EXTILINE::LINE12 => 12,
        EXTILINE::LINE13 => 13,
        EXTILINE::LINE14 => 14,
        EXTILINE::LINE15 => 15,
    }
}

} // verus!
