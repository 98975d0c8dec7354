use vstd::prelude::*;
use crate::register::{GpioRegisters, Dio_LevelType, PORT, PIN};
use crate::bsw::ioif_type::{
    IoIf_PeripheralType, IoIf_ReturnType, IoIf_RxChannelType, IoIf_RxMode, IoIf_RxPdu, IoIf_PduStatusType,
    IoIf_PduRuntimeStatus, IOIF_INVALID_PDU_ID, spec_pdu_status_code, pdu_status_code,
};
use crate::bsw::ioif_cfg::{IOIF_RX_PDU_COUNT, spec_rx_pdu_config, ioif_get_rx_pdu_config};
use crate::bsw::iohwab_type::{Button, SensorType, SensorStatusType, IoHwAb_ReturnType};
use crate::bsw::button::{ButtonState, get_button_count, read_button_state};
use crate::bsw::sensor::{SensorState, iohwab_sensor_read_latest_value};

verus! {

/// Indication flags and status codes of the received PDUs, by table index.
pub struct IoIfRxState {
    pub indication: Vec<u8>,
    pub status: Vec<IoIf_PduRuntimeStatus>,
}

/// A status entry with a new status code.
pub open spec fn spec_with_status(e: IoIf_PduRuntimeStatus, code: u8) -> IoIf_PduRuntimeStatus {
    IoIf_PduRuntimeStatus { pdu_id: e.pdu_id, status: code }
}

impl IoIfRxState {
    pub open spec fn wf(&self) -> bool {
        &&& self.indication@.len() == IOIF_RX_PDU_COUNT
        &&& self.status@.len() == IOIF_RX_PDU_COUNT
    }

    /// No indication pending; both PDUs idle.
    pub fn new() -> (r: IoIfRxState)
        ensures
            r.wf(),
            r.indication@ == seq![0u8, 0u8],
            r.status@ == seq![
                IoIf_PduRuntimeStatus { pdu_id: 0x100, status: 0 },
                IoIf_PduRuntimeStatus { pdu_id: 0x101, status: 0 },
            ],
    {
        IoIfRxState {
            indication: vec![0u8, 0u8],
            status: vec![
                IoIf_PduRuntimeStatus { pdu_id: 0x100, status: 0 },
                IoIf_PduRuntimeStatus { pdu_id: 0x101, status: 0 },
            ],
        }
    }
}

/// The first received-PDU entry with identifier `id`, from entry `i` on.
pub open spec fn spec_rx_find(cfg: Seq<IoIf_RxPdu>, id: u16, i: int) -> Option<IoIf_RxPdu>
    decreases cfg.len() - i,
{
    if i < 0 || i >= cfg.len() {
        None
    } else if cfg[i].id == id {
        Some(cfg[i])
    } else {
        spec_rx_find(cfg, id, i + 1)
    }
}

pub open spec fn spec_rx_pdu_by_id(id: u16) -> Option<IoIf_RxPdu> {
    spec_rx_find(spec_rx_pdu_config(), id, 0)
}

/// Only 0x100 and 0x101 are configured received PDUs.
pub proof fn lemma_rx_lookup(id: u16)
    ensures
        spec_rx_pdu_by_id(id) == (if id == 0x100 {
            Some(spec_rx_pdu_config()[0])
        } else if id == 0x101 {
            Some(spec_rx_pdu_config()[1])
        } else {
            None::<IoIf_RxPdu>
        }),
{
    reveal_with_fuel(spec_rx_find, 3);
}

fn get_rx_pdu_by_id(pdu_id: u16) -> (r: Option<IoIf_RxPdu>)
    ensures
        r == spec_rx_pdu_by_id(pdu_id),
{
    let rx_pdus = ioif_get_rx_pdu_config();
    let mut i: usize = 0;
    while i < rx_pdus.len()
        invariant
            rx_pdus@ == spec_rx_pdu_config(),
            0 <= i <= rx_pdus.len(),
            spec_rx_find(rx_pdus@, pdu_id, i as int) == spec_rx_pdu_by_id(pdu_id),
        decreases rx_pdus.len() - i,
    {
        if rx_pdus[i].id == pdu_id {
            return Some(rx_pdus[i]);
        }
        i = i + 1;
    }
    None
}

fn ioif_get_rx_index_by_id(pdu_id: u16) -> (r: Option<usize>)
    ensures
        r == (match spec_rx_pdu_by_id(pdu_id) {
            Some(p) => Some(p.index),
            None => None::<usize>,
        }),
{
    match get_rx_pdu_by_id(pdu_id) {
        Some(p) => Some(p.index),
        None => None,
    }
}

/// Sets every received PDU back to idle and clears every indication.
pub fn ioif_clear_all_rx_runtime_status(s: &mut IoIfRxState)
    requires
        old(s).wf(),
    ensures
        final(s).wf(),
        forall|i: int| 0 <= i < 2 ==> #[trigger] final(s).indication@[i] == 0,
        forall|i: int| 0 <= i < 2 ==> #[trigger] final(s).status@[i] == spec_with_status(old(s).status@[i], 0),
{
    let mut i: usize = 0;
    while i < IOIF_RX_PDU_COUNT
        invariant
            s.wf(),
            0 <= i <= 2,
            s.indication@ == old(s).indication@,
            forall|j: int| 0 <= j < 2 ==> #[trigger] s.status@[j] == (if j < i {
                spec_with_status(old(s).status@[j], 0)
            } else {
                old(s).status@[j]
            }),
        decreases 2 - i,
    {
        let e = s.status[i];
        s.status.set(i, IoIf_PduRuntimeStatus { pdu_id: e.pdu_id, status: pdu_status_code(IoIf_PduStatusType::IOIF_IDLE) });
        i = i + 1;
    }
    ioif_clear_all_rx_indications(s);
}

/// Clears every received-PDU indication.
pub fn ioif_clear_all_rx_indications(s: &mut IoIfRxState)
    requires
        old(s).wf(),
    ensures
        final(s).wf(),
        final(s).status@ == old(s).status@,
        forall|i: int| 0 <= i < 2 ==> #[trigger] final(s).indication@[i] == 0,
{
    let mut i: usize = 0;
    while i < IOIF_RX_PDU_COUNT
        invariant
            s.wf(),
            0 <= i <= 2,
            s.status@ == old(s).status@,
            forall|j: int| 0 <= j < i ==> #[trigger] s.indication@[j] == 0,
        decreases 2 - i,
    {
        let _ = ioif_clear_rx_indication_by_index(s, i);
        i = i + 1;
    }
}

fn ioif_get_rx_pdu_status_by_id(s: &IoIfRxState, id: u16) -> (r: Option<u8>)
    requires
        s.wf(),
    ensures
        r == (match spec_rx_pdu_by_id(id) {
            Some(p) => Some(s.status@[p.index as int].status),
            None => None::<u8>,
        }),
{
    proof {
        lemma_rx_lookup(id);
    }
    let index = ioif_get_rx_index_by_id(id);
    if let Some(idx) = index {
        Some(s.status[idx].status)
    } else {
        None
    }
}

fn ioif_set_rx_pdu_status_by_id(s: &mut IoIfRxState, id: u16, status: IoIf_PduStatusType)
    requires
        old(s).wf(),
    ensures
        final(s).wf(),
        final(s).indication@ == old(s).indication@,
        final(s).status@ == (match spec_rx_pdu_by_id(id) {
            Some(p) => old(s).status@.update(
                p.index as int,
                spec_with_status(old(s).status@[p.index as int], spec_pdu_status_code(status)),
            ),
            None => old(s).status@,
        }),
{
    proof {
        lemma_rx_lookup(id);
    }
    if let Some(index) = ioif_get_rx_index_by_id(id) {
        if index < IOIF_RX_PDU_COUNT {
            let e = s.status[index];
            s.status.set(index, IoIf_PduRuntimeStatus { pdu_id: e.pdu_id, status: pdu_status_code(status) });
        }
    }
}

fn ioif_get_rx_indication(s: &IoIfRxState, index: usize) -> (r: Option<u8>)
    requires
        s.wf(),
    ensures
        r == (if index < 2 && s.indication@[index as int] != 0 {
            Some(s.indication@[index as int])
        } else {
            None::<u8>
        }),
{
    if index >= IOIF_RX_PDU_COUNT {
        return None;
    }
    if s.indication[index] != 0 {
        Some(s.indication[index])
    } else {
        None
    }
}

fn ioif_is_rx_indication_active(s: &IoIfRxState, index: usize) -> (r: IoIf_ReturnType)
    requires
        s.wf(),
    ensures
        r == (if index < 2 && s.indication@[index as int] != 0 {
            IoIf_ReturnType::IOIF_E_OK
        } else {
            IoIf_ReturnType::IOIF_E_NOT_OK
        }),
{
    if index >= IOIF_RX_PDU_COUNT {
        return IoIf_ReturnType::IOIF_E_NOT_OK;
    }
    if let Some(_value) = ioif_get_rx_indication(s, index) {
        IoIf_ReturnType::IOIF_E_OK
    } else {
        IoIf_ReturnType::IOIF_E_NOT_OK
    }
}

fn ioif_set_rx_indication_by_index(s: &mut IoIfRxState, index: usize) -> (r: IoIf_ReturnType)
    requires
        old(s).wf(),
    ensures
        final(s).wf(),
        final(s).status@ == old(s).status@,
        index < 2 ==> r == IoIf_ReturnType::IOIF_E_OK && final(s).indication@ == old(s).indication@.update(index as int, 1),
        index >= 2 ==> r == IoIf_ReturnType::IOIF_E_NOT_OK && final(s).indication@ == old(s).indication@,
{
    if index >= IOIF_RX_PDU_COUNT {
        return IoIf_ReturnType::IOIF_E_NOT_OK;
    }
    s.indication.set(index, 1);
    IoIf_ReturnType::IOIF_E_OK
}

fn ioif_clear_rx_indication_by_index(s: &mut IoIfRxState, index: usize) -> (r: IoIf_ReturnType)
    requires
        old(s).wf(),
    ensures
        final(s).wf(),
        final(s).status@ == old(s).status@,
        index < 2 ==> r == IoIf_ReturnType::IOIF_E_OK && final(s).indication@ == old(s).indication@.update(index as int, 0),
        index >= 2 ==> r == IoIf_ReturnType::IOIF_E_NOT_OK && final(s).indication@ == old(s).indication@,
{
    if index >= IOIF_RX_PDU_COUNT {
        return IoIf_ReturnType::IOIF_E_NOT_OK;
    }
    s.indication.set(index, 0);
    IoIf_ReturnType::IOIF_E_OK
}

fn ioif_rxchannel_to_button(channel: IoIf_RxChannelType) -> (r: Option<Button>)
    ensures
        r == (if channel == IoIf_RxChannelType::BUTTON_USER { Some(Button::UserButton) } else { None::<Button> }),
{
    match channel {
        IoIf_RxChannelType::BUTTON_USER => Some(Button::UserButton),
        _ => None,
    }
}

fn ioif_rx_channel_to_sensor(channel: IoIf_RxChannelType) -> (r: Option<SensorType>)
    ensures
        r == (if channel == IoIf_RxChannelType::SENSOR_LM35 { Some(SensorType::LM35) } else { None::<SensorType> }),
{
    match channel {
        IoIf_RxChannelType::SENSOR_LM35 => Some(SensorType::LM35),
        _ => None,
    }
}

/// An indication for PDU `pdu_id` from `s0` to `s1`, answered with `r`.
pub open spec fn spec_rxindication(s0: IoIfRxState, s1: IoIfRxState, pdu_id: u16, r: IoIf_ReturnType) -> bool {
    &&& pdu_id == 0x100 ==> ({
        &&& r == IoIf_ReturnType::IOIF_E_OK
        &&& s1.indication@ =~= s0.indication@.update(0, 1)
        &&& s1.status@ =~= s0.status@.update(0, spec_with_status(s0.status@[0], 1))
    })
    &&& pdu_id != 0x100 ==> ({
        &&& r == IoIf_ReturnType::IOIF_E_NOT_OK
        &&& s1.indication@ =~= s0.indication@
        &&& s1.status@ =~= s0.status@
    })
}

/// Notification that a received PDU has new data. Only the interrupt-driven
/// button PDU 0x100 accepts it: its indication is raised and its status
/// becomes pending. Every other identifier is refused with no change.
pub fn ioif_rxindication(s: &mut IoIfRxState, pdu_id: u16) -> (r: IoIf_ReturnType)
    requires
        old(s).wf(),
    ensures
        final(s).wf(),
        spec_rxindication(*old(s), *final(s), pdu_id, r),
{
    proof {
        lemma_rx_lookup(pdu_id);
    }
    if pdu_id == IOIF_INVALID_PDU_ID {
        return IoIf_ReturnType::IOIF_E_NOT_OK;
    }
    let pdu_cfg = get_rx_pdu_by_id(pdu_id);
    if let Some(pdu) = pdu_cfg {
        if pdu.mode != IoIf_RxMode::INTERRUPT {
            return IoIf_ReturnType::IOIF_E_NOT_OK;
        }
        match pdu.peripheral {
            IoIf_PeripheralType::DIO => {
                match pdu.channel {
                    IoIf_RxChannelType::BUTTON_USER => {
                        if pdu.index >= IOIF_RX_PDU_COUNT {
                            return IoIf_ReturnType::IOIF_E_NOT_OK;
                        }
                        let _ = ioif_set_rx_indication_by_index(s, pdu.index);
                        ioif_set_rx_pdu_status_by_id(s, pdu_id, IoIf_PduStatusType::IOIF_PENDING);
                        return IoIf_ReturnType::IOIF_E_OK;
                    },
                    _ => {
                        return IoIf_ReturnType::IOIF_E_NOT_OK;
                    },
                }
            },
            _ => {
                return IoIf_ReturnType::IOIF_E_NOT_OK;
            },
        }
    } else {
        return IoIf_ReturnType::IOIF_E_NOT_OK;
    }
}

/// A read of PDU `pdu_id` from `s0`, `n0`, `d0` to `s1`, `n1`, `d1` with the
/// button's press count `count`, answered with `r`.
pub open spec fn spec_read_rx_value(
    s0: IoIfRxState,
    n0: SensorState,
    d0: u16,
    s1: IoIfRxState,
    n1: SensorState,
    d1: u16,
    count: u8,
    pdu_id: u16,
    r: IoIf_ReturnType,
) -> bool {
    &&& n1.values@ =~= n0.values@
    &&& pdu_id == 0x100 ==> ({
        &&& n1.status@ =~= n0.status@
        &&& if s0.indication@[0] != 0 {
            &&& r == IoIf_ReturnType::IOIF_E_OK
            &&& d1 == count as u16
            &&& s1.indication@ =~= s0.indication@.update(0, 0)
            &&& s1.status@ =~= s0.status@.update(0, spec_with_status(s0.status@[0], 0))
        } else {
            &&& r == IoIf_ReturnType::IOIF_E_NOT_OK
            &&& d1 == d0
            &&& s1.indication@ =~= s0.indication@
            &&& s1.status@ =~= s0.status@
        }
    })
    &&& pdu_id == 0x101 ==> ({
        &&& s1.indication@ =~= s0.indication@
        &&& if n0.status_of(0) == SensorStatusType::SENSOR_COMPLETE {
            &&& r == IoIf_ReturnType::IOIF_E_OK
            &&& d1 == n0.values@[0]
            &&& n1.status@ =~= n0.status@.update(0, 0)
            &&& s1.status@ =~= s0.status@.update(1, spec_with_status(s0.status@[1], 0))
        } else {
            &&& r == IoIf_ReturnType::IOIF_E_NOT_OK
            &&& d1 == d0
            &&& n1.status@ =~= n0.status@
            &&& s1.status@ =~= s0.status@.update(1, spec_with_status(s0.status@[1], 4))
        }
    })
    &&& pdu_id != 0x100 && pdu_id != 0x101 ==> ({
        &&& r == IoIf_ReturnType::IOIF_E_NOT_OK
        &&& d1 == d0
        &&& s1.indication@ =~= s0.indication@
        &&& s1.status@ =~= s0.status@
        &&& n1.status@ =~= n0.status@
    })
}

/// Reads a received PDU into `data`.
/// - 0x100 (button): when its indication is raised, `data` gets the press
///   count, the indication is cleared and the PDU goes back to idle;
///   otherwise it is refused with no change.
/// - 0x101 (LM35): when the sensor holds a completed measurement, `data`
///   gets the raw value, the sensor and the PDU go back to idle; otherwise
///   it is refused and the PDU's status becomes error.
/// - any other identifier is refused with no change.
pub fn ioif_read_rx_value(
    s: &mut IoIfRxState,
    button: &ButtonState,
    g: &GpioRegisters,
    sensor: &mut SensorState,
    pdu_id: u16,
    data: &mut u16,
) -> (r: IoIf_ReturnType)
    requires
        old(s).wf(),
        g.wf(),
        old(sensor).wf(),
    ensures
        final(s).wf(),
        final(sensor).wf(),
        spec_read_rx_value(*old(s), *old(sensor), *old(data), *final(s), *final(sensor), *final(data), button.count, pdu_id, r),
{
    proof {
        lemma_rx_lookup(pdu_id);
    }
    if pdu_id == IOIF_INVALID_PDU_ID {
        return IoIf_ReturnType::IOIF_E_NOT_OK;
    }
    if let Some(pdu_cfg) = get_rx_pdu_by_id(pdu_id) {
        match pdu_cfg.peripheral {
            IoIf_PeripheralType::DIO => {
                match pdu_cfg.mode {
                    IoIf_RxMode::INTERRUPT => {
                        if ioif_is_rx_indication_active(s, pdu_cfg.index) == IoIf_ReturnType::IOIF_E_OK {
                            *data = get_button_count(button) as u16;
                            let _ = ioif_clear_rx_indication_by_index(s, pdu_cfg.index);
                            ioif_set_rx_pdu_status_by_id(s, pdu_id, IoIf_PduStatusType::IOIF_IDLE);
                            IoIf_ReturnType::IOIF_E_OK
                        } else {
                            IoIf_ReturnType::IOIF_E_NOT_OK
                        }
                    },
                    IoIf_RxMode::POLLING => {
                        if let Some(channel) = ioif_rxchannel_to_button(pdu_cfg.channel) {
                            let state = read_button_state(g, channel);
                            *data = match state {
                                Dio_LevelType::LOW => 0,
                                Dio_LevelType::HIGH => 1,
                            };
                            ioif_set_rx_pdu_status_by_id(s, pdu_id, IoIf_PduStatusType::IOIF_IDLE);
                            IoIf_ReturnType::IOIF_E_OK
                        } else {
                            ioif_set_rx_pdu_status_by_id(s, pdu_id, IoIf_PduStatusType::IOIF_ERROR);
                            IoIf_ReturnType::IOIF_E_NOT_OK
                        }
                    },
                }
            },
            IoIf_PeripheralType::ADC => {
                match pdu_cfg.mode {
                    IoIf_RxMode::INTERRUPT => {
                        ioif_set_rx_pdu_status_by_id(s, pdu_id, IoIf_PduStatusType::IOIF_ERROR);
                        let _ = ioif_clear_rx_indication_by_index(s, pdu_cfg.index);
                        ioif_set_rx_pdu_status_by_id(s, pdu_id, IoIf_PduStatusType::IOIF_IDLE);
                        IoIf_ReturnType::IOIF_E_NOT_OK
                    },
                    IoIf_RxMode::POLLING => {
                        let sensor_type = ioif_rx_channel_to_sensor(pdu_cfg.channel);
                        if let Some(sensor_type) = sensor_type {
                            let result = iohwab_sensor_read_latest_value(sensor, sensor_type, data);
                            match result {
                                IoHwAb_ReturnType::IOHWAB_E_OK => {
                                    ioif_set_rx_pdu_status_by_id(s, pdu_id, IoIf_PduStatusType::IOIF_IDLE);
                                    IoIf_ReturnType::IOIF_E_OK
                                },
                                IoHwAb_ReturnType::IOHWAB_E_NOT_OK => {
                                    ioif_set_rx_pdu_status_by_id(s, pdu_id, IoIf_PduStatusType::IOIF_ERROR);
                                    IoIf_ReturnType::IOIF_E_NOT_OK
                                },
                            }
                        } else {
                            ioif_set_rx_pdu_status_by_id(s, pdu_id, IoIf_PduStatusType::IOIF_ERROR);
                            IoIf_ReturnType::IOIF_E_NOT_OK
                        }
                    },
                }
            },
            _ => {
                ioif_set_rx_pdu_status_by_id(s, pdu_id, IoIf_PduStatusType::IOIF_ERROR);
                IoIf_ReturnType::IOIF_E_NOT_OK
            },
        }
    } else {
        IoIf_ReturnType::IOIF_E_NOT_OK
    }
}

} // verus!
