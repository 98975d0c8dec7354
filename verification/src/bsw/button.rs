use vstd::prelude::*;
use crate::register::{GpioRegisters, Dio_LevelType, PORT, PIN};
use crate::mcal::dio_type::Dio_ChannelType;
use crate::mcal::dio::{dio_readchannel, lemma_dio_config_facts};
use crate::mcal::mcu::{McuState, mcu_get_system_tick_count};
use crate::bsw::iohwab_type::Button;
use crate::bsw::ioif_rx::{IoIfRxState, ioif_rxindication};

verus! {

/// Presses closer than this many milliseconds to the last accepted press are
/// ignored.
pub const BUTTON_DEBOUNCE_MS: u32 = 80;

/// Tick of the last accepted press and the press counter of the user button.
pub struct ButtonState {
    pub last_tick: u32,
    pub count: u8,
}

impl ButtonState {
    pub fn new() -> (r: ButtonState)
        ensures
            r.last_tick == 0,
            r.count == 0,
    {
        ButtonState { last_tick: 0, count: 0 }
    }
}

/// Milliseconds from `last` to `now` on the wrapping tick counter.
pub open spec fn spec_elapsed(now: u32, last: u32) -> u32 {
    vstd::wrapping::u32_specs::wrapping_sub(now, last)
}

/// The press counter after one more press: it counts 0..=10 and then starts
/// again at 0.
pub open spec fn spec_next_count(count: u8) -> u8 {
    if count >= 10 {
        0
    } else {
        (count + 1) as u8
    }
}

/// The button counter after `n` counted presses.
pub open spec fn spec_count_after(count: u8, n: nat) -> u8
    decreases n,
{
    if n == 0 {
        count
    } else {
        spec_next_count(spec_count_after(count, (n - 1) as nat))
    }
}

/// Whether a press at tick `now` is accepted: at least the debounce time has
/// passed since the last accepted press.
pub open spec fn spec_press_accepted(b: ButtonState, now: u32) -> bool {
    spec_elapsed(now, b.last_tick) >= BUTTON_DEBOUNCE_MS
}

/// The button state after a press at tick `now`: an accepted press advances
/// the counter and becomes the new reference tick; any other press changes
/// nothing.
pub open spec fn spec_press(b: ButtonState, now: u32) -> ButtonState {
    if spec_press_accepted(b, now) {
        ButtonState { last_tick: now, count: spec_next_count(b.count) }
    } else {
        b
    }
}

/// The button state after presses at the ticks `ticks`, in order, from reset.
pub open spec fn spec_presses(ticks: Seq<u32>) -> ButtonState
    decreases ticks.len(),
{
    if ticks.len() == 0 {
        ButtonState { last_tick: 0, count: 0 }
    } else {
        spec_press(spec_presses(ticks.drop_last()), ticks.last())
    }
}

/// The button interrupt: a press at least the debounce time after the last
/// accepted press advances the counter, records its tick as the new
/// reference and raises the button PDU's indication; an earlier one changes
/// nothing.
pub fn button_exti_notification(b: &mut ButtonState, mcu: &McuState, rx: &mut IoIfRxState)
    requires
        old(rx).wf(),
    ensures
        final(rx).wf(),
        *final(b) == spec_press(*old(b), mcu.system_tick_count),
        !spec_press_accepted(*old(b), mcu.system_tick_count) ==> {
            &&& final(rx).indication@ == old(rx).indication@
            &&& final(rx).status@ == old(rx).status@
        },
        spec_press_accepted(*old(b), mcu.system_tick_count) ==> {
            &&& final(rx).indication@ == old(rx).indication@.update(0, 1)
            &&& final(rx).status@ == old(rx).status@.update(0, crate::bsw::ioif_rx::spec_with_status(old(rx).status@[0], 1))
        },
{
    let now_tick = mcu_get_system_tick_count(mcu);
    let last_tick = b.last_tick;
    if now_tick.wrapping_sub(last_tick) < BUTTON_DEBOUNCE_MS {
        return;
    }
    let count = b.count;
    let next = if count >= 10 {
        0
    } else {
        count + 1
    };
    b.count = next;
    b.last_tick = now_tick;
    let _ = ioif_rxindication(rx, 0x100);
}

/// The number of accepted presses (modulo 11).
pub fn get_button_count(b: &ButtonState) -> (r: u8)
    ensures
        r == b.count,
{
    b.count
}

/// The digital channel a button is wired to.
pub fn button_to_channel(button: Button) -> (r: Dio_ChannelType)
    ensures
        r == Dio_ChannelType::UserButton,
{
    match button {
        Button::UserButton => Dio_ChannelType::UserButton,
    }
}

/// The input level of a button's pin (the user button is PA0).
pub fn read_button_state(g: &GpioRegisters, button: Button) -> (r: Dio_LevelType)
    requires
        g.wf(),
    ensures
        r == g.input_level(PORT::A, PIN::P0),
{
    proof {
        lemma_dio_config_facts();
    }
    let channel = button_to_channel(button);
    dio_readchannel(g, channel)
}

} // verus!
