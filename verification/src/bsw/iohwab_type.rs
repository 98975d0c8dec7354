use vstd::prelude::*;
use crate::mcal::adc_type::ADCChannelType;

verus! {

#[derive(Clone, Copy, Debug, PartialEq, Eq, Structural)]
pub enum LedColor {
    Yellow,
    Orange,
    Red,
    Blue,
}

#[derive(Clone, Copy, Debug, PartialEq, Eq, Structural)]
pub enum LedState {
    On,
    Off,
    Toggle,
}

#[derive(Clone, Copy, Debug, PartialEq, Eq, Structural)]
pub enum Button {
    UserButton,
}

#[derive(Clone, Copy, Debug, PartialEq, Eq, Structural)]
pub enum LedGroup {
    RedBlue,
    OrangeYellow,
}

#[derive(Clone, Copy, Debug, PartialEq, Eq, Structural)]
pub enum SensorType {
    LM35,
}

#[derive(Clone, Copy, Debug, PartialEq, Eq, Structural)]
pub enum SensorStatusType {
    SENSOR_IDLE,
    SENSOR_CONVERTING,
    SENSOR_COMPLETE,
    SENSOR_ERROR,
}

#[derive(Clone, Copy, Debug, PartialEq, Eq, Structural)]
pub struct IoHwAb_SensorConfig {
    pub sensor_id: SensorType,
    pub adc_channel: ADCChannelType,
    pub index: usize,
}

pub struct IoHwAb_SensorConfigType {
    pub sensors: Vec<IoHwAb_SensorConfig>,
}

#[derive(Clone, Copy, Debug, PartialEq, Eq, Structural)]
pub enum IoHwAb_ReturnType {
    IOHWAB_E_OK,
    IOHWAB_E_NOT_OK,
}

pub open spec fn spec_sensor_status_code(s: SensorStatusType) -> u8 {
    match s {
        SensorStatusType::SENSOR_IDLE => 0,
        SensorStatusType::SENSOR_CONVERTING => 1,
        SensorStatusType::SENSOR_COMPLETE => 2,
        SensorStatusType::SENSOR_ERROR => 3,
    }
}

pub fn sensor_status_code(s: SensorStatusType) -> (r: u8)
    ensures
        r == spec_sensor_status_code(s),
{
    match s {
        SensorStatusType::SENSOR_IDLE => 0,
        SensorStatusType::SENSOR_CONVERTING => 1,
        SensorStatusType::SENSOR_COMPLETE => 2,
        SensorStatusType::SENSOR_ERROR => 3,
    }
}

/// Status codes read back from the table; an unknown code reads as an error.
pub open spec fn spec_decode_sensor_status(c: u8) -> SensorStatusType {
    if c == 0 {
        SensorStatusType::SENSOR_IDLE
    } else if c == 1 {
        SensorStatusType::SENSOR_CONVERTING
    } else if c == 2 {
        SensorStatusType::SENSOR_COMPLETE
    } else {
        SensorStatusType::SENSOR_ERROR
    }
}

} // verus!
