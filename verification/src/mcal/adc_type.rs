use vstd::prelude::*;

verus! {

#[derive(Clone, Copy, Debug, PartialEq, Eq, Structural)]
pub enum ADCReturnType {
    ADC_E_OK,
    ADC_E_NOT_OK,
    ADC_E_TIMEOUT,
}

#[derive(Clone, Copy, Debug, PartialEq, Eq, Structural)]
pub enum ADCResolutionType {
    ADC_RESOLUTION_12BIT,
    ADC_RESOLUTION_10BIT,
    ADC_RESOLUTION_8BIT,
    ADC_RESOLUTION_6BIT,
}

#[derive(Clone, Copy, Debug, PartialEq, Eq, Structural)]
pub enum ADCAlignmentType {
    ADC_ALIGNMENT_RIGHT,
    ADC_ALIGNMENT_LEFT,
}

#[derive(Clone, Copy, Debug, PartialEq, Eq, Structural)]
pub enum ADCModeType {
    ADC_MODE_SINGLE,
    ADC_MODE_CONTINUOUS,
}

#[derive(Clone, Copy, Debug, PartialEq, Eq, Structural)]
pub enum ADCTriggerSourceType {
    ADC_TRIGGER_SOFTWARE,
    ADC_TRIGGER_TIMER1_CC1,
    ADC_TRIGGER_TIMER1_CC2,
    ADC_TRIGGER_TIMER1_CC3,
    ADC_TRIGGER_TIMER2_CC2,
    ADC_TRIGGER_TIMER3_TRGO,
    ADC_TRIGGER_TIMER4_CC4,
    ADC_TRIGGER_EXTI_LINE11,
}

#[derive(Clone, Copy, Debug, PartialEq, Eq, Structural)]
pub enum ADCTriggerEdgeType {
    ADC_TRIGGER_EDGE_RISING,
    ADC_TRIGGER_EDGE_FALLING,
}

#[derive(Clone, Copy, Debug, PartialEq, Eq, Structural)]
pub enum ADCSequenceType {
    ADC_SEQUENCE_1,
    ADC_SEQUENCE_2,
    ADC_SEQUENCE_3,
    ADC_SEQUENCE_4,
    ADC_SEQUENCE_5,
    ADC_SEQUENCE_6,
    ADC_SEQUENCE_7,
    ADC_SEQUENCE_8,
    ADC_SEQUENCE_9,
    ADC_SEQUENCE_10,
    ADC_SEQUENCE_11,
    ADC_SEQUENCE_12,
    ADC_SEQUENCE_13,
    ADC_SEQUENCE_14,
    ADC_SEQUENCE_15,
    ADC_SEQUENCE_16,
}

#[derive(Clone, Copy, Debug, PartialEq, Eq, Structural)]
pub enum ADCChannelType {
    ADC_CHANNEL_0,
    ADC_CHANNEL_1,
    ADC_CHANNEL_2,
    ADC_CHANNEL_3,
    ADC_CHANNEL_4,
    ADC_CHANNEL_5,
    ADC_CHANNEL_6,
    ADC_CHANNEL_7,
    ADC_CHANNEL_8,
    ADC_CHANNEL_9,
    ADC_CHANNEL_10,
    ADC_CHANNEL_11,
    ADC_CHANNEL_12,
    ADC_CHANNEL_13,
    ADC_CHANNEL_14,
}

#[derive(Clone, Copy, Debug, PartialEq, Eq, Structural)]
pub enum ADCSampleTimeType {
    ADC_SAMPLE_TIME_3CYCLES,
    ADC_SAMPLE_TIME_15CYCLES,
    ADC_SAMPLE_TIME_28CYCLES,
    ADC_SAMPLE_TIME_56CYCLES,
    ADC_SAMPLE_TIME_84CYCLES,
    ADC_SAMPLE_TIME_112CYCLES,
    ADC_SAMPLE_TIME_144CYCLES,
    ADC_SAMPLE_TIME_480CYCLES,
}

#[derive(Clone, Copy, Debug, PartialEq, Eq, Structural)]
pub enum ADCStatusType {
    ADC_STATUS_IDLE,
    ADC_STATUS_BUSY,
    ADC_STATUS_ERROR,
}

#[derive(Clone, Copy, Debug, PartialEq, Eq, Structural)]
pub enum ADCConversionType {
    ADC_CONVERSION_REGULAR,
    ADC_CONVERSION_INJECTED,
}

#[derive(Clone, Copy, Debug, PartialEq, Eq, Structural)]
pub enum ADCMethodType {
    POLLING,
    INTERRUPT,
    DMA,
}

#[derive(Clone, Copy, Debug, PartialEq, Eq, Structural)]
pub struct ADC_ChannelConfig {
    pub channel: ADCChannelType,
    pub mode: ADCModeType,
    pub sample_time: ADCSampleTimeType,
    pub resolution: ADCResolutionType,
    pub alignment: ADCAlignmentType,
    pub sequence: ADCSequenceType,
    pub conversion: ADCConversionType,
    pub trigger_source: ADCTriggerSourceType,
    pub trigger_edge: ADCTriggerEdgeType,
    pub method: ADCMethodType,
}

pub struct ADC_ConfigType {
    pub channels: Vec<ADC_ChannelConfig>,
}

pub open spec fn spec_adc_channel_number(c: ADCChannelType) -> u8 {
    match c {
        ADCChannelType::ADC_CHANNEL_0 => 0,
        ADCChannelType::ADC_CHANNEL_1 => 1,
        ADCChannelType::ADC_CHANNEL_2 => 2,
        ADCChannelType::ADC_CHANNEL_3 => 3,
        ADCChannelType::ADC_CHANNEL_4 => 4,
        ADCChannelType::ADC_CHANNEL_5 => 5,
        ADCChannelType::ADC_CHANNEL_6 => 6,
        ADCChannelType::ADC_CHANNEL_7 => 7,
        ADCChannelType::ADC_CHANNEL_8 => 8,
        ADCChannelType::ADC_CHANNEL_9 => 9,
        ADCChannelType::ADC_CHANNEL_10 => 10,
        ADCChannelType::ADC_CHANNEL_11 => 11,
        ADCChannelType::ADC_CHANNEL_12 => 12,
        ADCChannelType::ADC_CHANNEL_13 => 13,
        ADCChannelType::ADC_CHANNEL_14 => 14,
    }
}

/// The input number of an ADC channel.
pub fn adc_channel_number(c: ADCChannelType) -> (r: u8)
    ensures
        r == spec_adc_channel_number(c),
{
    match c {
        ADCChannelType::ADC_CHANNEL_0 => 0,
        ADCChannelType::ADC_CHANNEL_1 => 1,
        ADCChannelType::ADC_CHANNEL_2 => 2,
        ADCChannelType::ADC_CHANNEL_3 => 3,
        ADCChannelType::ADC_CHANNEL_4 => 4,
        ADCChannelType::ADC_CHANNEL_5 => 5,
        ADCChannelType::ADC_CHANNEL_6 => 6,
        ADCChannelType::ADC_CHANNEL_7 => 7,
        ADCChannelType::ADC_CHANNEL_8 => 8,
        ADCChannelType::ADC_CHANNEL_9 => 9,
        ADCChannelType::ADC_CHANNEL_10 => 10,
        ADCChannelType::ADC_CHANNEL_11 => 11,
        ADCChannelType::ADC_CHANNEL_12 => 12,
        ADCChannelType::ADC_CHANNEL_13 => 13,
        ADCChannelType::ADC_CHANNEL_14 => 14,
    }
}

} // verus!
