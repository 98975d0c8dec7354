use vstd::prelude::*;
use crate::register::AdcRegisters;
use crate::mcal::adc_type::{
    ADCReturnType, ADCChannelType, ADCModeType, ADCSampleTimeType, ADCResolutionType, ADCAlignmentType,
    ADCSequenceType, ADCConversionType, ADCTriggerSourceType, ADCTriggerEdgeType, ADCMethodType,
    ADC_ChannelConfig, ADC_ConfigType, spec_adc_channel_number, adc_channel_number,
};

verus! {

/// One register-level step of the ADC set-up, in the order it is carried out.
#[derive(Clone, Copy, Debug, PartialEq, Eq, Structural)]
pub enum AdcRegisterOp {
    EnablePeripheralClock,
    SetChannel(u8),
    SetSampleTime(u8, ADCSampleTimeType),
    SetSequence(u8),
    SetResolution(ADCResolutionType),
    SetAlignment(ADCAlignmentType),
    SetTriggerSource(ADCTriggerSourceType),
    SetTriggerEdge(ADCTriggerEdgeType),
    EnableInterrupt,
    Enable,
}

/// ADC1 reads channel 8 (PB0) once per software start, 12-bit, right aligned,
/// 84-cycle sampling, polled.
pub open spec fn spec_adc_config() -> Seq<ADC_ChannelConfig> {
    seq![
        ADC_ChannelConfig {
            channel: ADCChannelType::ADC_CHANNEL_8,
            mode: ADCModeType::ADC_MODE_SINGLE,
            sample_time: ADCSampleTimeType::ADC_SAMPLE_TIME_84CYCLES,
            resolution: ADCResolutionType::ADC_RESOLUTION_12BIT,
            alignment: ADCAlignmentType::ADC_ALIGNMENT_RIGHT,
            sequence: ADCSequenceType::ADC_SEQUENCE_1,
            conversion: ADCConversionType::ADC_CONVERSION_REGULAR,
            trigger_source: ADCTriggerSourceType::ADC_TRIGGER_SOFTWARE,
            trigger_edge: ADCTriggerEdgeType::ADC_TRIGGER_EDGE_RISING,
            method: ADCMethodType::POLLING,
        },
    ]
}

pub fn adc_config() -> (r: ADC_ConfigType)
    ensures
        r.channels@ == spec_adc_config(),
{
    ADC_ConfigType {
        channels: vec![
            ADC_ChannelConfig {
                channel: ADCChannelType::ADC_CHANNEL_8,
                mode: ADCModeType::ADC_MODE_SINGLE,
                sample_time: ADCSampleTimeType::ADC_SAMPLE_TIME_84CYCLES,
                resolution: ADCResolutionType::ADC_RESOLUTION_12BIT,
                alignment: ADCAlignmentType::ADC_ALIGNMENT_RIGHT,
                sequence: ADCSequenceType::ADC_SEQUENCE_1,
                conversion: ADCConversionType::ADC_CONVERSION_REGULAR,
                trigger_source: ADCTriggerSourceType::ADC_TRIGGER_SOFTWARE,
                trigger_edge: ADCTriggerEdgeType::ADC_TRIGGER_EDGE_RISING,
                method: ADCMethodType::POLLING,
            },
        ],
    }
}

/// The set-up steps of one configured channel: clock, channel, sample time,
/// a one-element sequence, resolution, alignment, trigger source and edge,
/// the interrupt when the channel is interrupt driven, and the enable.
pub open spec fn spec_adc_channel_ops(c: ADC_ChannelConfig) -> Seq<AdcRegisterOp> {
    let n = spec_adc_channel_number(c.channel);
    seq![
        AdcRegisterOp::EnablePeripheralClock,
        AdcRegisterOp::SetChannel(n),
        AdcRegisterOp::SetSampleTime(n, c.sample_time),
        AdcRegisterOp::SetSequence(n),
        AdcRegisterOp::SetResolution(c.resolution),
        AdcRegisterOp::SetAlignment(c.alignment),
        AdcRegisterOp::SetTriggerSource(c.trigger_source),
        AdcRegisterOp::SetTriggerEdge(c.trigger_edge),
    ] + (if c.method == ADCMethodType::INTERRUPT {
        seq![AdcRegisterOp::EnableInterrupt]
    } else {
        Seq::empty()
    }) + seq![AdcRegisterOp::Enable]
}

pub open spec fn spec_adc_init_ops_upto(cfg: Seq<ADC_ChannelConfig>, k: int) -> Seq<AdcRegisterOp>
    decreases k,
{
    if k <= 0 {
        Seq::empty()
    } else {
        spec_adc_init_ops_upto(cfg, k - 1) + spec_adc_channel_ops(cfg[k - 1])
    }
}

/// The register steps that set up every configured ADC channel, in order.
pub fn adc_init() -> (r: Vec<AdcRegisterOp>)
    ensures
        r@ == spec_adc_init_ops_upto(spec_adc_config(), spec_adc_config().len() as int),
{
    let cfg = adc_config();
    let mut ops: Vec<AdcRegisterOp> = Vec::new();
    let mut k: usize = 0;
    while k < cfg.channels.len()
        invariant
            cfg.channels@ == spec_adc_config(),
            0 <= k <= cfg.channels.len(),
            ops@ == spec_adc_init_ops_upto(cfg.channels@, k as int),
        decreases cfg.channels.len() - k,
    {
        let c = cfg.channels[k];
        let n = adc_channel_number(c.channel);
        let ghost before = ops@;
        ops.push(AdcRegisterOp::EnablePeripheralClock);
        ops.push(AdcRegisterOp::SetChannel(n));
        ops.push(AdcRegisterOp::SetSampleTime(n, c.sample_time));
        ops.push(AdcRegisterOp::SetSequence(n));
        ops.push(AdcRegisterOp::SetResolution(c.resolution));
        ops.push(AdcRegisterOp::SetAlignment(c.alignment));
        ops.push(AdcRegisterOp::SetTriggerSource(c.trigger_source));
        ops.push(AdcRegisterOp::SetTriggerEdge(c.trigger_edge));
        if c.conversion == ADCConversionType::ADC_CONVERSION_INJECTED {
            // injected conversions need no extra set-up yet
        } else {
            // regular conversion
        }
        if c.method == ADCMethodType::INTERRUPT {
            ops.push(AdcRegisterOp::EnableInterrupt);
        } else if c.method == ADCMethodType::DMA {
            // DMA transfers need no extra set-up yet
        }
        ops.push(AdcRegisterOp::Enable);
        assert(ops@ =~= before + spec_adc_channel_ops(c));
        k = k + 1;
    }
    ops
}

/// Selects `channel` and requests a software start of one conversion.
pub fn adc_start_conversion(adc: &mut AdcRegisters, channel: u8)
    ensures
        final(adc).channel == channel,
        final(adc).start_requested,
        final(adc).eoc == old(adc).eoc,
        final(adc).data == old(adc).data,
{
    adc.channel = channel;
    adc.start_requested = true;
}

/// Reads the data register.
pub fn adc_read_conversion_result(adc: &AdcRegisters, data: &mut u16) -> (r: ADCReturnType)
    ensures
        r == ADCReturnType::ADC_E_OK,
        *final(data) == adc.data,
{
    *data = adc.data;
    ADCReturnType::ADC_E_OK
}

/// Whether the last conversion has finished, without waiting.
pub fn adc_is_conversion_complete(adc: &AdcRegisters) -> (r: ADCReturnType)
    ensures
        r == (if adc.eoc { ADCReturnType::ADC_E_OK } else { ADCReturnType::ADC_E_NOT_OK }),
{
    if adc.eoc {
        ADCReturnType::ADC_E_OK
    } else {
        ADCReturnType::ADC_E_NOT_OK
    }
}

/// One poll of the bounded wait for the end of a conversion: done (`true`)
/// once the ADC reports it, given up (`false`) after `timeout` failed
/// polls, otherwise one more poll counted (`None`).
pub fn adc_wait_for_conversion_complete(adc: &AdcRegisters, count: &mut u32, timeout: u32) -> (r: Option<bool>)
    ensures
        adc.eoc ==> r == Some(true) && *final(count) == *old(count),
        !adc.eoc && *old(count) >= timeout ==> r == Some(false) && *final(count) == *old(count),
        !adc.eoc && *old(count) < timeout ==> r == None::<bool> && *final(count) == *old(count) + 1,
{
    if adc.eoc {
        return Some(true);
    }
    if *count >= timeout {
        return Some(false);
    }
    *count = *count + 1;
    None
}

/// Polls allowed to `adc_convert_complete`.
pub const ADC_CONVERSION_TIMEOUT: u32 = 1000;

/// One poll of the wait for a conversion, with a limit of 1000 polls:
/// E_OK when it has finished, E_TIMEOUT when the limit is reached,
/// otherwise one more poll counted (`None`).
pub fn adc_convert_complete(adc: &AdcRegisters, count: &mut u32) -> (r: Option<ADCReturnType>)
    ensures
        adc.eoc ==> r == Some(ADCReturnType::ADC_E_OK) && *final(count) == *old(count),
        !adc.eoc && *old(count) >= ADC_CONVERSION_TIMEOUT ==> r == Some(ADCReturnType::ADC_E_TIMEOUT) && *final(count) == *old(count),
        !adc.eoc && *old(count) < ADC_CONVERSION_TIMEOUT ==> r == None::<ADCReturnType> && *final(count) == *old(count) + 1,
{
    match adc_wait_for_conversion_complete(adc, count, ADC_CONVERSION_TIMEOUT) {
        Some(true) => Some(ADCReturnType::ADC_E_OK),
        Some(false) => Some(ADCReturnType::ADC_E_TIMEOUT),
        None => None,
    }
}

} // verus!
