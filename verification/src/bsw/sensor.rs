use vstd::prelude::*;
use crate::register::AdcRegisters;
use crate::mcal::adc_type::{ADCChannelType, ADCReturnType, spec_adc_channel_number, adc_channel_number};
use crate::mcal::adc::{adc_read_conversion_result, adc_is_conversion_complete, adc_start_conversion};
use crate::bsw::iohwab_type::{
    SensorType, SensorStatusType, IoHwAb_SensorConfig, IoHwAb_ReturnType, spec_sensor_status_code,
    sensor_status_code, spec_decode_sensor_status,
};

verus! {

/// Number of configured sensors.
pub const SENSOR_COUNT: usize = 1;

/// The LM35 temperature sensor on ADC channel 8, slot 0.
pub open spec fn spec_sensor_config() -> Seq<IoHwAb_SensorConfig> {
    seq![IoHwAb_SensorConfig { sensor_id: SensorType::LM35, adc_channel: ADCChannelType::ADC_CHANNEL_8, index: 0 }]
}

pub fn sensor_config() -> (r: Vec<IoHwAb_SensorConfig>)
    ensures
        r@ == spec_sensor_config(),
{
    vec![IoHwAb_SensorConfig { sensor_id: SensorType::LM35, adc_channel: ADCChannelType::ADC_CHANNEL_8, index: 0 }]
}

/// Latest raw value and measurement status code of each sensor slot.
pub struct SensorState {
    pub values: Vec<u16>,
    pub status: Vec<u8>,
}

impl SensorState {
    pub open spec fn wf(&self) -> bool {
        &&& self.values@.len() == SENSOR_COUNT
        &&& self.status@.len() == SENSOR_COUNT
    }

    /// No value yet, every sensor idle.
    pub fn new() -> (r: SensorState)
        ensures
            r.wf(),
            r.values@[0] == 0,
            r.status@[0] == 0,
    {
        SensorState { values: vec![0u16], status: vec![0u8] }
    }

    /// The status of the sensor in slot `i`.
    pub open spec fn status_of(&self, i: int) -> SensorStatusType {
        spec_decode_sensor_status(self.status@[i])
    }
}

fn iohwab_save_sensor_value_by_index(s: &mut SensorState, index: usize, value: u16)
    requires
        old(s).wf(),
        index < SENSOR_COUNT,
    ensures
        final(s).wf(),
        final(s).values@ == old(s).values@.update(index as int, value),
        final(s).status@ == old(s).status@,
{
    s.values.set(index, value);
}

fn iohwab_get_sensor_value_by_index(s: &SensorState, index: usize) -> (r: u16)
    requires
        s.wf(),
        index < SENSOR_COUNT,
    ensures
        r == s.values@[index as int],
{
    s.values[index]
}

fn iohwab_get_sensor_cfg(sensor: SensorType) -> (r: Option<IoHwAb_SensorConfig>)
    ensures
        r == Some(spec_sensor_config()[0]),
{
    let cfg = sensor_config();
    let mut i: usize = 0;
    while i < cfg.len()
        invariant
            cfg@ == spec_sensor_config(),
            0 <= i <= 1,
            i == 0,
        decreases cfg.len() - i,
    {
        if cfg[i].sensor_id == sensor {
            return Some(cfg[i]);
        }
        i = i + 1;
    }
    None
}

fn iohwab_get_sensor_index(sensor: SensorType) -> (r: Option<usize>)
    ensures
        r.is_some() <==> exists|i: int|
            0 <= i < spec_sensor_config().len() && (#[trigger] spec_sensor_config()[i]).sensor_id == sensor,
        r matches Some(i) ==> {
            &&& i < spec_sensor_config().len()
            &&& spec_sensor_config()[i as int].sensor_id == sensor
            &&& forall|j: int| 0 <= j < i ==> (#[trigger] spec_sensor_config()[j]).sensor_id != sensor
        },
        r == Some(0usize),
{
    let cfg = sensor_config();
    let mut i: usize = 0;
    while i < cfg.len()
        invariant
            cfg@ == spec_sensor_config(),
            i <= cfg.len(),
            forall|j: int| 0 <= j < i ==> (#[trigger] cfg@[j]).sensor_id != sensor,
        decreases cfg.len() - i,
    {
        if cfg[i].sensor_id == sensor {
            return Some(i);
        }
        i = i + 1;
    }
    assert(cfg@[0].sensor_id == sensor) by {
        match sensor {
            SensorType::LM35 => {},
        }
    }
    None
}

fn sensor_set_status_by_index(s: &mut SensorState, index: usize, status: SensorStatusType)
    requires
        old(s).wf(),
        index < SENSOR_COUNT,
    ensures
        final(s).wf(),
        final(s).status@ == old(s).status@.update(index as int, spec_sensor_status_code(status)),
        final(s).values@ == old(s).values@,
{
    s.status.set(index, sensor_status_code(status));
}

fn sensor_get_status_by_index(s: &SensorState, index: usize) -> (r: SensorStatusType)
    requires
        s.wf(),
        index < SENSOR_COUNT,
    ensures
        r == s.status_of(index as int),
{
    let c = s.status[index];
    if c == 0 {
        SensorStatusType::SENSOR_IDLE
    } else if c == 1 {
        SensorStatusType::SENSOR_CONVERTING
    } else if c == 2 {
        SensorStatusType::SENSOR_COMPLETE
    } else {
        SensorStatusType::SENSOR_ERROR
    }
}

fn iohwab_adc_error_recovery_procedure(s: &mut SensorState, index: usize)
    requires
        old(s).wf(),
        index < SENSOR_COUNT,
    ensures
        final(s).wf(),
        final(s).status@ == old(s).status@.update(index as int, 0),
        final(s).values@ == old(s).values@,
{
    sensor_set_status_by_index(s, index, SensorStatusType::SENSOR_IDLE);
}

/// Starts a conversion for the sensor unless one is already running.
fn iohwab_sensor_start_measurement(s: &mut SensorState, adc: &mut AdcRegisters, sensor: SensorType)
    requires
        old(s).wf(),
    ensures
        final(s).wf(),
        final(s).values@ == old(s).values@,
        old(s).status_of(0) == SensorStatusType::SENSOR_CONVERTING ==> final(s).status@ == old(s).status@ && *final(adc) == *old(adc),
        old(s).status_of(0) != SensorStatusType::SENSOR_CONVERTING ==> {
            &&& final(s).status@ == old(s).status@.update(0, 1)
            &&& final(adc).channel == 8
            &&& final(adc).start_requested
            &&& final(adc).eoc == old(adc).eoc
            &&& final(adc).data == old(adc).data
        },
{
    let cfg = iohwab_get_sensor_cfg(sensor);
    if let Some(cfg) = cfg {
        let status = sensor_get_status_by_index(s, cfg.index);
        if status == SensorStatusType::SENSOR_CONVERTING {
            return;
        }
        if status == SensorStatusType::SENSOR_ERROR {
            iohwab_adc_error_recovery_procedure(s, cfg.index);
        }
        adc_start_conversion(adc, adc_channel_number(cfg.adc_channel));
        sensor_set_status_by_index(s, cfg.index, SensorStatusType::SENSOR_CONVERTING);
    }
}

/// Collects the result of a running conversion once the ADC reports it done.
fn iohwab_sensor_poll_measurement(s: &mut SensorState, adc: &AdcRegisters, sensor: SensorType)
    requires
        old(s).wf(),
    ensures
        final(s).wf(),
        (old(s).status_of(0) == SensorStatusType::SENSOR_CONVERTING && adc.eoc) ==> {
            &&& final(s).values@ == old(s).values@.update(0, adc.data)
            &&& final(s).status@ == old(s).status@.update(0, 2)
        },
        !(old(s).status_of(0) == SensorStatusType::SENSOR_CONVERTING && adc.eoc) ==> *final(s) == *old(s),
{
    if let Some(cfg) = iohwab_get_sensor_cfg(sensor) {
        let index = cfg.index;
        let status = sensor_get_status_by_index(s, index);
        if status == SensorStatusType::SENSOR_CONVERTING {
            let st_complete = adc_is_conversion_complete(adc);
            if st_complete == ADCReturnType::ADC_E_OK {
                let mut data: u16 = 0;
                let st_read = adc_read_conversion_result(adc, &mut data);
                if st_read == ADCReturnType::ADC_E_OK {
                    iohwab_save_sensor_value_by_index(s, index, data);
                    sensor_set_status_by_index(s, index, SensorStatusType::SENSOR_COMPLETE);
                } else {
                    sensor_set_status_by_index(s, index, SensorStatusType::SENSOR_ERROR);
                }
            } else {
                return;
            }
        }
    }
}

/// One step of the sensor state machine from `s0`, `a0` to `s1`, `a1`.
pub open spec fn spec_sensor_main(s0: SensorState, a0: AdcRegisters, s1: SensorState, a1: AdcRegisters) -> bool {
    match s0.status_of(0) {
        SensorStatusType::SENSOR_IDLE => {
            &&& s1.status@ =~= s0.status@.update(0, 1)
            &&& s1.values@ == s0.values@
            &&& a1.channel == 8
            &&& a1.start_requested
            &&& a1.eoc == a0.eoc
            &&& a1.data == a0.data
        },
        SensorStatusType::SENSOR_CONVERTING => {
            &&& a1 == a0
            &&& if a0.eoc {
                s1.values@ =~= s0.values@.update(0, a0.data) && s1.status@ =~= s0.status@.update(0, 2)
            } else {
                s1 == s0
            }
        },
        SensorStatusType::SENSOR_COMPLETE => s1 == s0 && a1 == a0,
        SensorStatusType::SENSOR_ERROR => {
            &&& s1.status@ =~= s0.status@.update(0, 0)
            &&& s1.values@ == s0.values@
            &&& a1 == a0
        },
    }
}

/// One step of the sensor state machine: an idle sensor starts a conversion
/// on its ADC channel, a converting one takes the result when the ADC has
/// finished, a completed one waits to be read, and an erroneous one is
/// reset to idle.
pub fn iohwab_sensor_mainfunction(s: &mut SensorState, adc: &mut AdcRegisters)
    requires
        old(s).wf(),
    ensures
        final(s).wf(),
        spec_sensor_main(*old(s), *old(adc), *final(s), *final(adc)),
{
    let cfg = sensor_config();
    let mut k: usize = 0;
    while k < cfg.len()
        invariant
            cfg@ == spec_sensor_config(),
            0 <= k <= 1,
            s.wf(),
            k == 0 ==> *s == *old(s) && *adc == *old(adc),
            k == 1 ==> match old(s).status_of(0) {
                SensorStatusType::SENSOR_IDLE => {
                    &&& s.status@ == old(s).status@.update(0, 1)
                    &&& s.values@ == old(s).values@
                    &&& adc.channel == 8
                    &&& adc.start_requested
                    &&& adc.eoc == old(adc).eoc
                    &&& adc.data == old(adc).data
                },
                SensorStatusType::SENSOR_CONVERTING => {
                    &&& *adc == *old(adc)
                    &&& if old(adc).eoc {
                        s.values@ == old(s).values@.update(0, old(adc).data)
                            && s.status@ == old(s).status@.update(0, 2)
                    } else {
                        *s == *old(s)
                    }
                },
                SensorStatusType::SENSOR_COMPLETE => *s == *old(s) && *adc == *old(adc),
                SensorStatusType::SENSOR_ERROR => {
                    &&& s.status@ == old(s).status@.update(0, 0)
                    &&& s.values@ == old(s).values@
                    &&& *adc == *old(adc)
                },
            },
        decreases cfg.len() - k,
    {
        let c = cfg[k];
        let status = sensor_get_status_by_index(s, c.index);
        match status {
            SensorStatusType::SENSOR_IDLE => {
                iohwab_sensor_start_measurement(s, adc, c.sensor_id);
            },
            SensorStatusType::SENSOR_CONVERTING => {
                iohwab_sensor_poll_measurement(s, adc, c.sensor_id);
            },
            SensorStatusType::SENSOR_COMPLETE => {},
            SensorStatusType::SENSOR_ERROR => {
                iohwab_adc_error_recovery_procedure(s, c.index);
            },
        }
        k = k + 1;
    }
}

/// Hands out a completed measurement once: the value is copied to `data`
/// and the sensor goes back to idle; otherwise nothing changes.
pub fn iohwab_sensor_read_latest_value(s: &mut SensorState, sensor: SensorType, data: &mut u16) -> (r: IoHwAb_ReturnType)
    requires
        old(s).wf(),
    ensures
        final(s).wf(),
        final(s).values@ == old(s).values@,
        old(s).status_of(0) == SensorStatusType::SENSOR_COMPLETE ==> {
            &&& r == IoHwAb_ReturnType::IOHWAB_E_OK
            &&& *final(data) == old(s).values@[0]
            &&& final(s).status@ == old(s).status@.update(0, 0)
        },
        old(s).status_of(0) != SensorStatusType::SENSOR_COMPLETE ==> {
            &&& r == IoHwAb_ReturnType::IOHWAB_E_NOT_OK
            &&& *final(data) == *old(data)
            &&& final(s).status@ == old(s).status@
        },
{
    let index = iohwab_get_sensor_index(sensor);
    if let Some(index) = index {
        let status = sensor_get_status_by_index(s, index);
        if status == SensorStatusType::SENSOR_COMPLETE {
            *data = iohwab_get_sensor_value_by_index(s, index);
            sensor_set_status_by_index(s, index, SensorStatusType::SENSOR_IDLE);
            return IoHwAb_ReturnType::IOHWAB_E_OK;
        } else {
            return IoHwAb_ReturnType::IOHWAB_E_NOT_OK;
        }
    } else {
        return IoHwAb_ReturnType::IOHWAB_E_NOT_OK;
    }
}

} // verus!
