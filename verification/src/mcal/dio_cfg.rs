use vstd::prelude::*;
use crate::register::{PORT, PIN};
use crate::mcal::dio_type::{Dio_ChannelType, Dio_ChannelConfig, Dio_ConfigType, Dio_ChannelGroupType, Dio_GroupConfigType};

verus! {

/// Channel-to-pin table: the four LEDs on PD12..PD15, the user button on PA0,
/// the chip select of the onboard SPI sensor on PE3, and the MCP2515 chip
/// select and interrupt lines on PA4 (the NSS pin of SPI1, the bus the
/// controller sits on) and PA8. The MCP2515 configuration names these two
/// channels and the port configuration sets PA4 up as a software chip select
/// and PA8 as the controller's interrupt input; they have entries here so
/// that the driver's chip-select writes find their pin, where a table
/// without them would leave every MCP2515 exchange failing on a missing
/// entry.
pub open spec fn spec_dio_channel_config() -> Seq<Dio_ChannelConfig> {
    seq![
        Dio_ChannelConfig { channel: Dio_ChannelType::LedYellow, port: PORT::D, pin: PIN::P12 },
        Dio_ChannelConfig { channel: Dio_ChannelType::LedOrange, port: PORT::D, pin: PIN::P13 },
        Dio_ChannelConfig { channel: Dio_ChannelType::LedRed, port: PORT::D, pin: PIN::P14 },
        Dio_ChannelConfig { channel: Dio_ChannelType::LedBlue, port: PORT::D, pin: PIN::P15 },
        Dio_ChannelConfig { channel: Dio_ChannelType::UserButton, port: PORT::A, pin: PIN::P0 },
        Dio_ChannelConfig { channel: Dio_ChannelType::OnboardSpiSensorCs, port: PORT::E, pin: PIN::P3 },
        Dio_ChannelConfig { channel: Dio_ChannelType::Mcp2515Cs, port: PORT::A, pin: PIN::P4 },
        Dio_ChannelConfig { channel: Dio_ChannelType::mcp2515Int, port: PORT::A, pin: PIN::P8 },
    ]
}

pub fn dio_channel_config() -> (r: Dio_ConfigType)
    ensures
        r.channels@ == spec_dio_channel_config(),
{
    Dio_ConfigType {
        channels: vec![
            Dio_ChannelConfig { channel: Dio_ChannelType::LedYellow, port: PORT::D, pin: PIN::P12 },
            Dio_ChannelConfig { channel: Dio_ChannelType::LedOrange, port: PORT::D, pin: PIN::P13 },
            Dio_ChannelConfig { channel: Dio_ChannelType::LedRed, port: PORT::D, pin: PIN::P14 },
            Dio_ChannelConfig { channel: Dio_ChannelType::LedBlue, port: PORT::D, pin: PIN::P15 },
            Dio_ChannelConfig { channel: Dio_ChannelType::UserButton, port: PORT::A, pin: PIN::P0 },
            Dio_ChannelConfig { channel: Dio_ChannelType::OnboardSpiSensorCs, port: PORT::E, pin: PIN::P3 },
            Dio_ChannelConfig { channel: Dio_ChannelType::Mcp2515Cs, port: PORT::A, pin: PIN::P4 },
            Dio_ChannelConfig { channel: Dio_ChannelType::mcp2515Int, port: PORT::A, pin: PIN::P8 },
        ],
    }
}

/// The LED groups: red/blue on PD14..PD15 and yellow/orange on PD12..PD13,
/// both placed by a shift of 12.
pub open spec fn spec_dio_group_config() -> Seq<Dio_ChannelGroupType> {
    seq![
        Dio_ChannelGroupType { port: PORT::D, mask: 0b1100_0000_0000_0000u16, offset: 12 },
        Dio_ChannelGroupType { port: PORT::D, mask: 0b0011_0000_0000_0000u16, offset: 12 },
    ]
}

pub fn dio_group_config() -> (r: Dio_GroupConfigType)
    ensures
        r.groups@ == spec_dio_group_config(),
{
    Dio_GroupConfigType {
        groups: vec![
            Dio_ChannelGroupType { port: PORT::D, mask: 0b1100_0000_0000_0000u16, offset: 12 },
            Dio_ChannelGroupType { port: PORT::D, mask: 0b0011_0000_0000_0000u16, offset: 12 },
        ],
    }
}

} // verus!
