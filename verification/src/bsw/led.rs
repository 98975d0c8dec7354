use vstd::prelude::*;
use crate::register::{GpioRegisters, Dio_LevelType, spec_port_index, spec_pin_number, spec_write_bit, PORT, PIN};
use crate::mcal::dio_type::{Dio_ChannelType, Dio_ChannelGroupType};
use crate::mcal::dio_cfg::spec_dio_group_config;
use crate::mcal::dio::{
    dio_flipchannel, dio_readchannel_output, dio_writechannel, dio_writechannelgroup, get_channelgroup_cfg,
    spec_dio_cfg, spec_dio_configured, lemma_dio_config_facts, spec_group_write,
};
use crate::bsw::iohwab_type::{LedColor, LedState, LedGroup};

verus! {

pub open spec fn spec_led_channel(color: LedColor) -> Dio_ChannelType {
    match color {
        LedColor::Yellow => Dio_ChannelType::LedYellow,
        LedColor::Orange => Dio_ChannelType::LedOrange,
        LedColor::Red => Dio_ChannelType::LedRed,
        LedColor::Blue => Dio_ChannelType::LedBlue,
    }
}

/// The pin that drives an LED: yellow PD12, orange PD13, red PD14, blue PD15.
pub open spec fn spec_led_pin(color: LedColor) -> PIN {
    match color {
        LedColor::Yellow => PIN::P12,
        LedColor::Orange => PIN::P13,
        LedColor::Red => PIN::P14,
        LedColor::Blue => PIN::P15,
    }
}

/// The level an LED is driven to.
pub open spec fn spec_led_level(g: GpioRegisters, color: LedColor) -> Dio_LevelType {
    g.output_level(PORT::D, spec_led_pin(color))
}

pub proof fn lemma_led_channel(color: LedColor)
    ensures
        spec_dio_configured(spec_led_channel(color)),
        spec_dio_cfg(spec_led_channel(color)).port == PORT::D,
        spec_dio_cfg(spec_led_channel(color)).pin == spec_led_pin(color),
{
    lemma_dio_config_facts();
}

fn led_color_to_channel(color: LedColor) -> (r: Dio_ChannelType)
    ensures
        r == spec_led_channel(color),
{
    match color {
        LedColor::Yellow => Dio_ChannelType::LedYellow,
        LedColor::Orange => Dio_ChannelType::LedOrange,
        LedColor::Red => Dio_ChannelType::LedRed,
        LedColor::Blue => Dio_ChannelType::LedBlue,
    }
}

pub open spec fn spec_led_group(group: LedGroup) -> Dio_ChannelGroupType {
    match group {
        LedGroup::RedBlue => spec_dio_group_config()[0],
        LedGroup::OrangeYellow => spec_dio_group_config()[1],
    }
}

fn led_group_to_channel_group(group: LedGroup) -> (r: Dio_ChannelGroupType)
    ensures
        r == spec_led_group(group),
{
    let channel_groups = get_channelgroup_cfg().groups;
    match group {
        LedGroup::RedBlue => channel_groups[0],
        LedGroup::OrangeYellow => channel_groups[1],
    }
}

pub open spec fn spec_led_state_to_level(state: LedState) -> Dio_LevelType {
    match state {
        LedState::On => Dio_LevelType::HIGH,
        LedState::Off => Dio_LevelType::LOW,
        LedState::Toggle => Dio_LevelType::LOW,
    }
}

/// On drives high; Off, and Toggle when written as a level, drive low.
pub fn led_state_to_level(state: LedState) -> (r: Dio_LevelType)
    ensures
        r == spec_led_state_to_level(state),
{
    match state {
        LedState::On => Dio_LevelType::HIGH,
        LedState::Off => Dio_LevelType::LOW,
        LedState::Toggle => Dio_LevelType::LOW,
    }
}

/// Flips an LED.
pub fn led_toggle(g: &mut GpioRegisters, color: LedColor)
    requires
        old(g).wf(),
    ensures
        final(g).wf(),
        final(g).idr@ == old(g).idr@,
        final(g).odr@ == old(g).odr@.update(3, old(g).odr@[3] ^ (1u32 << spec_pin_number(spec_led_pin(color)))),
{
    proof {
        lemma_led_channel(color);
    }
    let channel = led_color_to_channel(color);
    let _ = dio_flipchannel(g, channel);
}

/// Drives an LED to the level of `state`.
pub fn set_led_state(g: &mut GpioRegisters, color: LedColor, state: LedState)
    requires
        old(g).wf(),
    ensures
        final(g).wf(),
        final(g).idr@ == old(g).idr@,
        final(g).odr@ == old(g).odr@.update(
            3,
            spec_write_bit(old(g).odr@[3], spec_pin_number(spec_led_pin(color)), spec_led_state_to_level(state)),
        ),
{
    proof {
        lemma_led_channel(color);
    }
    let channel = led_color_to_channel(color);
    let level = led_state_to_level(state);
    dio_writechannel(g, channel, level);
}

/// The level an LED is driven to.
pub fn get_led_state(g: &GpioRegisters, color: LedColor) -> (r: Dio_LevelType)
    requires
        g.wf(),
    ensures
        r == spec_led_level(*g, color),
{
    proof {
        lemma_led_channel(color);
    }
    let channel = led_color_to_channel(color);
    dio_readchannel_output(g, channel)
}

/// Writes `value` into the pins of an LED group.
pub fn led_set_state_group(g: &mut GpioRegisters, group: LedGroup, value: u32)
    requires
        old(g).wf(),
    ensures
        final(g).wf(),
        final(g).idr@ == old(g).idr@,
        final(g).odr@ == old(g).odr@.update(3, spec_group_write(old(g).odr@[3], spec_led_group(group), value)),
{
    let channel_group = led_group_to_channel_group(group);
    dio_writechannelgroup(g, channel_group, value);
}

} // verus!
