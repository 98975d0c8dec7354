use vstd::prelude::*;
use crate::register::{ClockResourceType, RccRegisters, SysTickRegisters};

verus! {

/// The millisecond tick counter maintained by the SysTick interrupt.
pub struct McuState {
    pub system_tick_count: u32,
}

impl McuState {
    pub fn new() -> (r: McuState)
        ensures
            r.system_tick_count == 0,
    {
        McuState { system_tick_count: 0 }
    }
}

/// The tick count one millisecond later (the counter wraps around).
pub open spec fn spec_next_tick(t: u32) -> u32 {
    if t == u32::MAX {
        0
    } else {
        (t + 1) as u32
    }
}

/// The SysTick interrupt body: advances the millisecond counter by one.
pub fn systick_1ms_handler(mcu: &mut McuState)
    ensures
        final(mcu).system_tick_count == spec_next_tick(old(mcu).system_tick_count),
{
    mcu.system_tick_count = mcu.system_tick_count.wrapping_add(1);
}

/// Milliseconds since the tick started (modulo 2^32).
pub fn mcu_get_system_tick_count(mcu: &McuState) -> (r: u32)
    ensures
        r == mcu.system_tick_count,
{
    mcu.system_tick_count
}

/// The selected system clock source.
pub fn mcu_get_clock_resource(rcc: &RccRegisters) -> (r: ClockResourceType)
    ensures
        r == rcc.clock_source,
{
    rcc.clock_source
}

pub open spec fn spec_system_clock_hz(c: ClockResourceType) -> u32 {
    match c {
        ClockResourceType::HSI => 16_000_000,
        ClockResourceType::HSE => 0,
        ClockResourceType::PLL => 0,
    }
}

/// The system clock frequency: 16 MHz on HSI; HSE and PLL are not known
/// and read as 0.
pub fn mcu_get_system_clock_hz(rcc: &RccRegisters) -> (r: u32)
    ensures
        r == spec_system_clock_hz(rcc.clock_source),
{
    match mcu_get_clock_resource(rcc) {
        ClockResourceType::HSI => 16_000_000,
        ClockResourceType::HSE => 0,
        ClockResourceType::PLL => 0,
    }
}

/// Sets the SysTick timer up for one interrupt per millisecond.
pub fn mcu_init_systick_1ms(rcc: &RccRegisters, systick: &mut SysTickRegisters)
    ensures
        final(systick).core_clock_hz == spec_system_clock_hz(rcc.clock_source),
        final(systick).tick_rate_hz == 1000,
        final(systick).configured,
{
    let system_clock_hz = mcu_get_system_clock_hz(rcc);
    systick.core_clock_hz = system_clock_hz;
    systick.tick_rate_hz = 1000;
    systick.configured = true;
}

/// Clock start-up: on HSI the internal oscillator is switched on; the other
/// sources are left as they are.
pub fn mcu_init(rcc: &mut RccRegisters)
    ensures
        final(rcc).clock_source == old(rcc).clock_source,
        final(rcc).hsi_on == (old(rcc).hsi_on || old(rcc).clock_source == ClockResourceType::HSI),
{
    let clock_resource = mcu_get_clock_resource(rcc);
    match clock_resource {
        ClockResourceType::HSI => {
            enable_hsi(rcc);
        },
        ClockResourceType::HSE => {},
        ClockResourceType::PLL => {},
    }
}

/// Switches the internal oscillator on (the caller then waits for it to
/// report ready).
pub fn enable_hsi(rcc: &mut RccRegisters)
    ensures
        final(rcc).clock_source == old(rcc).clock_source,
        final(rcc).hsi_on,
{
    rcc.hsi_on = true;
}

} // verus!
