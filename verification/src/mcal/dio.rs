use vstd::prelude::*;
use crate::register::{
    GpioRegisters, Dio_LevelType, spec_port_index, spec_pin_number, spec_write_bit,
    dio_read, dio_write, dio_toggle, dio_read_output, dio_write_port, dio_read_output_port,
};
use crate::mcal::dio_type::{Dio_ChannelType, Dio_ChannelConfig, Dio_ChannelGroupType, Dio_GroupConfigType};
use crate::mcal::dio_cfg::{spec_dio_channel_config, dio_channel_config, spec_dio_group_config, dio_group_config};

verus! {

/// Index of the first entry for `channel` at or after `i`, or 0xffff.
pub open spec fn spec_dio_index_from(cfg: Seq<Dio_ChannelConfig>, channel: Dio_ChannelType, i: int) -> int
    decreases cfg.len() - i,
{
    if i < 0 || i >= cfg.len() {
        0xffff
    } else if cfg[i].channel == channel {
        i
    } else {
        spec_dio_index_from(cfg, channel, i + 1)
    }
}

pub open spec fn spec_dio_index(channel: Dio_ChannelType) -> int {
    spec_dio_index_from(spec_dio_channel_config(), channel, 0)
}

/// Whether `channel` has an entry in the channel table (the drivers index
/// the table with the entry's position and fail on a missing one).
pub open spec fn spec_dio_configured(channel: Dio_ChannelType) -> bool {
    0 <= spec_dio_index(channel) < spec_dio_channel_config().len()
}

/// The table entry of a configured channel.
pub open spec fn spec_dio_cfg(channel: Dio_ChannelType) -> Dio_ChannelConfig {
    spec_dio_channel_config()[spec_dio_index(channel)]
}

/// The LED group table.
pub fn get_channelgroup_cfg() -> (r: Dio_GroupConfigType)
    ensures
        r.groups@ == spec_dio_group_config(),
{
    dio_group_config()
}

fn get_channel_cfg_index(channel: Dio_ChannelType) -> (r: usize)
    ensures
        r == spec_dio_index(channel),
{
    let cfg = dio_channel_config();
    let mut i: usize = 0;
    while i < cfg.channels.len()
        invariant
            cfg.channels@ == spec_dio_channel_config(),
            0 <= i <= cfg.channels.len(),
            spec_dio_index_from(cfg.channels@, channel, i as int) == spec_dio_index(channel),
        decreases cfg.channels.len() - i,
    {
        if cfg.channels[i].channel == channel {
            return i;
        }
        i = i + 1;
    }
    0xffff
}

/// Reads the input level of a channel's pin.
pub fn dio_readchannel(g: &GpioRegisters, channel: Dio_ChannelType) -> (r: Dio_LevelType)
    requires
        g.wf(),
        spec_dio_configured(channel),
    ensures
        r == g.input_level(spec_dio_cfg(channel).port, spec_dio_cfg(channel).pin),
{
    let index = get_channel_cfg_index(channel);
    let cfg = dio_channel_config();
    let channel_cfg = cfg.channels[index];
    dio_read(g, channel_cfg.port, channel_cfg.pin)
}

/// Drives a channel's pin to `level`.
pub fn dio_writechannel(g: &mut GpioRegisters, channel: Dio_ChannelType, level: Dio_LevelType)
    requires
        old(g).wf(),
        spec_dio_configured(channel),
    ensures
        final(g).wf(),
        final(g).idr@ == old(g).idr@,
        final(g).odr@ == old(g).odr@.update(
            spec_port_index(spec_dio_cfg(channel).port),
            spec_write_bit(
                old(g).odr@[spec_port_index(spec_dio_cfg(channel).port)],
                spec_pin_number(spec_dio_cfg(channel).pin),
                level,
            ),
        ),
{
    let index = get_channel_cfg_index(channel);
    let cfg = dio_channel_config();
    let channel_cfg = cfg.channels[index];
    dio_write(g, channel_cfg.port, channel_cfg.pin, level);
}

/// Flips a channel's output and returns the new level.
pub fn dio_flipchannel(g: &mut GpioRegisters, channel: Dio_ChannelType) -> (r: Dio_LevelType)
    requires
        old(g).wf(),
        spec_dio_configured(channel),
    ensures
        final(g).wf(),
        final(g).idr@ == old(g).idr@,
        final(g).odr@ == old(g).odr@.update(
            spec_port_index(spec_dio_cfg(channel).port),
            old(g).odr@[spec_port_index(spec_dio_cfg(channel).port)] ^ (1u32 << spec_pin_number(spec_dio_cfg(channel).pin)),
        ),
        r == final(g).output_level(spec_dio_cfg(channel).port, spec_dio_cfg(channel).pin),
{
    let index = get_channel_cfg_index(channel);
    let cfg = dio_channel_config();
    let channel_cfg = cfg.channels[index];
    dio_toggle(g, channel_cfg.port, channel_cfg.pin)
}

/// Reads the level a channel's pin is driven to.
pub fn dio_readchannel_output(g: &GpioRegisters, channel: Dio_ChannelType) -> (r: Dio_LevelType)
    requires
        g.wf(),
        spec_dio_configured(channel),
    ensures
        r == g.output_level(spec_dio_cfg(channel).port, spec_dio_cfg(channel).pin),
{
    let index = get_channel_cfg_index(channel);
    let cfg = dio_channel_config();
    let channel_cfg = cfg.channels[index];
    dio_read_output(g, channel_cfg.port, channel_cfg.pin)
}

/// The port word after writing `value` into a group: the group's bits take
/// `value` shifted by the group's offset, the other bits keep their level.
pub open spec fn spec_group_write(current: u32, group: Dio_ChannelGroupType, value: u32) -> u32 {
    (current & !(group.mask as u32)) | ((value << (group.offset as u32)) & (group.mask as u32))
}

/// Writes `value` into the pins of a group.
pub fn dio_writechannelgroup(g: &mut GpioRegisters, group: Dio_ChannelGroupType, value: u32)
    requires
        old(g).wf(),
        group.offset < 32,
    ensures
        final(g).wf(),
        final(g).idr@ == old(g).idr@,
        final(g).odr@ == old(g).odr@.update(
            spec_port_index(group.port),
            spec_group_write(old(g).odr@[spec_port_index(group.port)], group, value),
        ),
{
    let current_value = dio_read_output_port(g, group.port);
    let mask = group.mask as u32;
    let cleared_value = current_value & !mask;
    let shifted_value = (value << (group.offset as u32)) & mask;
    let new_value = cleared_value | shifted_value;
    dio_write_port(g, group.port, new_value);
}

/// Reads the value held by the pins of a group.
pub fn dio_readchannelgroup(g: &GpioRegisters, group: Dio_ChannelGroupType) -> (r: u32)
    requires
        g.wf(),
        group.offset < 32,
    ensures
        r == (g.odr@[spec_port_index(group.port)] & (group.mask as u32)) >> (group.offset as u32),
{
    let port_value = dio_read_output_port(g, group.port);
    (port_value & (group.mask as u32)) >> (group.offset as u32)
}

} // verus!

verus! {

/// The channel table resolves each configured channel to its pin.
pub proof fn lemma_dio_config_facts()
    ensures
        spec_dio_configured(Dio_ChannelType::LedYellow),
        spec_dio_cfg(Dio_ChannelType::LedYellow).port == crate::register::PORT::D,
        spec_dio_cfg(Dio_ChannelType::LedYellow).pin == crate::register::PIN::P12,
        spec_dio_configured(Dio_ChannelType::LedOrange),
        spec_dio_cfg(Dio_ChannelType::LedOrange).port == crate::register::PORT::D,
        spec_dio_cfg(Dio_ChannelType::LedOrange).pin == crate::register::PIN::P13,
        spec_dio_configured(Dio_ChannelType::LedRed),
        spec_dio_cfg(Dio_ChannelType::LedRed).port == crate::register::PORT::D,
        spec_dio_cfg(Dio_ChannelType::LedRed).pin == crate::register::PIN::P14,
        spec_dio_configured(Dio_ChannelType::LedBlue),
        spec_dio_cfg(Dio_ChannelType::LedBlue).port == crate::register::PORT::D,
        spec_dio_cfg(Dio_ChannelType::LedBlue).pin == crate::register::PIN::P15,
        spec_dio_configured(Dio_ChannelType::UserButton),
        spec_dio_cfg(Dio_ChannelType::UserButton).port == crate::register::PORT::A,
        spec_dio_cfg(Dio_ChannelType::UserButton).pin == crate::register::PIN::P0,
        spec_dio_configured(Dio_ChannelType::OnboardSpiSensorCs),
        spec_dio_cfg(Dio_ChannelType::OnboardSpiSensorCs).port == crate::register::PORT::E,
        spec_dio_cfg(Dio_ChannelType::OnboardSpiSensorCs).pin == crate::register::PIN::P3,
        spec_dio_configured(Dio_ChannelType::Mcp2515Cs),
        spec_dio_cfg(Dio_ChannelType::Mcp2515Cs).port == crate::register::PORT::A,
        spec_dio_cfg(Dio_ChannelType::Mcp2515Cs).pin == crate::register::PIN::P4,
        spec_dio_configured(Dio_ChannelType::mcp2515Int),
        !spec_dio_configured(Dio_ChannelType::Relay),
        !spec_dio_configured(Dio_ChannelType::FanEnable),
{
    reveal_with_fuel(spec_dio_index_from, 10);
}

} // verus!
