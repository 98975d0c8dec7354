use vstd::prelude::*;
use crate::register::{PORT, PIN};

verus! {

#[derive(Clone, Copy, Debug, PartialEq, Eq, Structural)]
pub enum StdReturnType {
    E_OK,
    E_NOT_OK,
}

/// Logical digital channels of the board.
#[derive(Clone, Copy, Debug, PartialEq, Eq, Structural)]
pub enum Dio_ChannelType {
    LedRed,
    LedOrange,
    LedBlue,
    LedYellow,
    UserButton,
    Relay,
    FanEnable,
    OnboardSpiSensorCs,
    Mcp2515Cs,
    mcp2515Int,
}

/// A group of adjacent pins of one port, written and read as one value.
#[derive(Clone, Copy, Debug, PartialEq, Eq, Structural)]
pub struct Dio_ChannelGroupType {
    pub port: PORT,
    pub mask: u16,
    pub offset: u8,
}

#[derive(Clone, Copy, Debug, PartialEq, Eq, Structural)]
pub struct Dio_ChannelConfig {
    pub channel: Dio_ChannelType,
    pub port: PORT,
    pub pin: PIN,
}

pub struct Dio_ConfigType {
    pub channels: Vec<Dio_ChannelConfig>,
}

pub struct Dio_GroupConfigType {
    pub groups: Vec<Dio_ChannelGroupType>,
}

} // verus!
