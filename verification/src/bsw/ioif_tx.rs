use vstd::prelude::*;
use crate::register::{GpioRegisters, Dio_LevelType, spec_level_of, spec_write_bit, spec_pin_number};
use crate::bsw::ioif_type::{
    IoIf_ConfirmationType, IoIf_OutputType, IoIf_PduStatusType, IoIf_PeripheralType, IoIf_ReturnType,
    IoIf_TxChannelGroupType, IoIf_TxChannelType, IoIf_TxPdu, IoIf_TxPduGroup, IoIf_PduRuntimeStatus,
    spec_pdu_status_code, pdu_status_code, spec_confirmation_code, confirmation_code, spec_output_code, output_code,
};
use crate::bsw::ioif_cfg::{
    IOIF_TX_PDU_COUNT, IOIF_TX_PDU_GROUP_COUNT, spec_tx_pdu_config, spec_tx_pdu_group_config,
    ioif_get_tx_pdu_config, ioif_get_tx_pdu_group_config,
};
use crate::bsw::iohwab_type::{LedColor, LedState, LedGroup};
use crate::bsw::led::{
    set_led_state, led_set_state_group, led_toggle, get_led_state, spec_led_pin, spec_led_group,
    spec_led_state_to_level,
};
use crate::bsw::ioif_rx::spec_with_status;
use crate::mcal::dio::spec_group_write;

verus! {

/// Runtime tables of the transmitted PDUs and PDU groups: confirmation
/// codes, the last output written, and status codes, by table index.
pub struct IoIfTxState {
    pub confirmation: Vec<u8>,
    pub group_confirmation: Vec<u8>,
    pub output_status: Vec<u8>,
    pub group_output_status: Vec<u32>,
    pub pdu_status: Vec<IoIf_PduRuntimeStatus>,
    pub group_status: Vec<IoIf_PduRuntimeStatus>,
}

impl IoIfTxState {
    /// Table sizes, and every status code names a status.
    pub open spec fn wf(&self) -> bool {
        &&& self.confirmation@.len() == IOIF_TX_PDU_COUNT
        &&& self.group_confirmation@.len() == IOIF_TX_PDU_GROUP_COUNT
        &&& self.output_status@.len() == IOIF_TX_PDU_COUNT
        &&& self.group_output_status@.len() == IOIF_TX_PDU_GROUP_COUNT
        &&& self.pdu_status@.len() == IOIF_TX_PDU_COUNT
        &&& self.group_status@.len() == IOIF_TX_PDU_GROUP_COUNT
        &&& forall|i: int| 0 <= i < 4 ==> #[trigger] self.pdu_status@[i].status < 5
        &&& forall|i: int| 0 <= i < 2 ==> #[trigger] self.group_status@[i].status < 5
    }

    /// Nothing confirmed or written yet; every PDU idle.
    pub fn new() -> (r: IoIfTxState)
        ensures
            r.wf(),
            forall|i: int| 0 <= i < 4 ==> #[trigger] r.pdu_status@[i].status == 0 && r.confirmation@[i] == 0 && r.output_status@[i] == 0,
            forall|i: int| 0 <= i < 2 ==> #[trigger] r.group_status@[i].status == 0 && r.group_confirmation@[i] == 0 && r.group_output_status@[i] == 0,
    {
        let r = IoIfTxState {
            confirmation: vec![0u8, 0, 0, 0],
            group_confirmation: vec![0u8, 0],
            output_status: vec![0u8, 0, 0, 0],
            group_output_status: vec![0u32, 0],
            pdu_status: vec![
                IoIf_PduRuntimeStatus { pdu_id: 0x200, status: 0 },
                IoIf_PduRuntimeStatus { pdu_id: 0x201, status: 0 },
                IoIf_PduRuntimeStatus { pdu_id: 0x202, status: 0 },
                IoIf_PduRuntimeStatus { pdu_id: 0x203, status: 0 },
            ],
            group_status: vec![
                IoIf_PduRuntimeStatus { pdu_id: 0x300, status: 0 },
                IoIf_PduRuntimeStatus { pdu_id: 0x301, status: 0 },
            ],
        };
        r
    }

    /// The single-PDU tables of `self` and `o` agree.
    pub open spec fn same_single(&self, o: IoIfTxState) -> bool {
        &&& self.confirmation@ == o.confirmation@
        &&& self.output_status@ == o.output_status@
        &&& self.pdu_status@ == o.pdu_status@
    }

    /// The group tables of `self` and `o` agree.
    pub open spec fn same_group(&self, o: IoIfTxState) -> bool {
        &&& self.group_confirmation@ == o.group_confirmation@
        &&& self.group_output_status@ == o.group_output_status@
        &&& self.group_status@ == o.group_status@
    }
}

/// Table index of a transmitted PDU: 0x200..=0x203 are entries 0..=3.
pub open spec fn spec_tx_index(id: u16) -> Option<int> {
    if 0x200 <= id <= 0x203 {
        Some(id - 0x200)
    } else {
        None
    }
}

/// Table index of a transmitted PDU group: 0x300 and 0x301 are entries 0 and 1.
pub open spec fn spec_group_index(id: u16) -> Option<int> {
    if id == 0x300 {
        Some(0)
    } else if id == 0x301 {
        Some(1)
    } else {
        None
    }
}

/// The LED driven by transmitted PDU entry `i`.
pub open spec fn spec_tx_color(i: int) -> LedColor {
    if i == 0 {
        LedColor::Red
    } else if i == 1 {
        LedColor::Orange
    } else if i == 2 {
        LedColor::Blue
    } else {
        LedColor::Yellow
    }
}

/// The LED pair driven by PDU group entry `j`.
pub open spec fn spec_tx_group(j: int) -> LedGroup {
    if j == 0 {
        LedGroup::RedBlue
    } else {
        LedGroup::OrangeYellow
    }
}

pub open spec fn spec_output_to_led_state(state: IoIf_OutputType) -> LedState {
    match state {
        IoIf_OutputType::STD_ON => LedState::On,
        IoIf_OutputType::STD_OFF => LedState::Off,
        IoIf_OutputType::TOGGLE => LedState::Toggle,
    }
}

/// The LED port word (port D) after writing `state` to the LED `color`:
/// ON drives the pin high, OFF low, TOGGLE flips it.
pub open spec fn spec_led_word_after(word: u32, color: LedColor, state: IoIf_OutputType) -> u32 {
    if state == IoIf_OutputType::TOGGLE {
        word ^ (1u32 << spec_pin_number(spec_led_pin(color)))
    } else {
        spec_write_bit(word, spec_pin_number(spec_led_pin(color)), spec_led_state_to_level(spec_output_to_led_state(state)))
    }
}

pub open spec fn spec_level_code(l: Dio_LevelType) -> u8 {
    match l {
        Dio_LevelType::LOW => 0,
        Dio_LevelType::HIGH => 1,
    }
}

/// The output status recorded for a write of `state`: the code of the
/// request itself, or for a toggle the level the LED ended at.
pub open spec fn spec_recorded_output(new_word: u32, color: LedColor, state: IoIf_OutputType) -> u8 {
    if state == IoIf_OutputType::TOGGLE {
        spec_level_code(spec_level_of(new_word, spec_pin_number(spec_led_pin(color))))
    } else {
        spec_output_code(state)
    }
}

pub open spec fn spec_tx_find(cfg: Seq<IoIf_TxPdu>, id: u16, i: int) -> Option<(int, IoIf_TxPdu)>
    decreases cfg.len() - i,
{
    if i < 0 || i >= cfg.len() {
        None
    } else if cfg[i].id == id {
        Some((i, cfg[i]))
    } else {
        spec_tx_find(cfg, id, i + 1)
    }
}

pub open spec fn spec_group_find(cfg: Seq<IoIf_TxPduGroup>, id: u16, i: int) -> Option<(int, IoIf_TxPduGroup)>
    decreases cfg.len() - i,
{
    if i < 0 || i >= cfg.len() {
        None
    } else if cfg[i].id == id {
        Some((i, cfg[i]))
    } else {
        spec_group_find(cfg, id, i + 1)
    }
}

/// The PDU tables resolve identifiers as `spec_tx_index` and
/// `spec_group_index` say, each entry at its own position.
proof fn lemma_tx_lookup(id: u16)
    ensures
        spec_tx_find(spec_tx_pdu_config(), id, 0) == (match spec_tx_index(id) {
            Some(i) => Some((i, spec_tx_pdu_config()[i])),
            None => None::<(int, IoIf_TxPdu)>,
        }),
        spec_group_find(spec_tx_pdu_group_config(), id, 0) == (match spec_group_index(id) {
            Some(j) => Some((j, spec_tx_pdu_group_config()[j])),
            None => None::<(int, IoIf_TxPduGroup)>,
        }),
        forall|i: int| 0 <= i < 4 ==> {
            &&& #[trigger] spec_tx_pdu_config()[i].index == i
            &&& spec_tx_pdu_config()[i].peripheral == IoIf_PeripheralType::DIO
            &&& spec_tx_pdu_config()[i].channel == (if i == 0 {
                IoIf_TxChannelType::LED_RED
            } else if i == 1 {
                IoIf_TxChannelType::LED_ORANGE
            } else if i == 2 {
                IoIf_TxChannelType::LED_BLUE
            } else {
                IoIf_TxChannelType::LED_YELLOW
            })
        },
        forall|j: int| 0 <= j < 2 ==> {
            &&& #[trigger] spec_tx_pdu_group_config()[j].index == j
            &&& spec_tx_pdu_group_config()[j].peripheral == IoIf_PeripheralType::DIO
            &&& spec_tx_pdu_group_config()[j].channel_group == (if j == 0 {
                IoIf_TxChannelGroupType::LED_GROUP_RED_BLUE
            } else {
                IoIf_TxChannelGroupType::LED_GROUP_ORANGE_YELLOW
            })
        },
{
    reveal_with_fuel(spec_tx_find, 5);
    reveal_with_fuel(spec_group_find, 3);
}

fn get_tx_pdu_by_id(pdu_id: u16) -> (r: Option<IoIf_TxPdu>)
    ensures
        r == (match spec_tx_find(spec_tx_pdu_config(), pdu_id, 0) {
            Some(p) => Some(p.1),
            None => None::<IoIf_TxPdu>,
        }),
{
    let tx_pdus = ioif_get_tx_pdu_config();
    let mut i: usize = 0;
    while i < tx_pdus.len()
        invariant
            tx_pdus@ == spec_tx_pdu_config(),
            0 <= i <= tx_pdus.len(),
            spec_tx_find(tx_pdus@, pdu_id, i as int) == spec_tx_find(spec_tx_pdu_config(), pdu_id, 0),
        decreases tx_pdus.len() - i,
    {
        if tx_pdus[i].id == pdu_id {
            return Some(tx_pdus[i]);
        }
        i = i + 1;
    }
    None
}

fn get_tx_pdu_group_by_id(pdu_group_id: u16) -> (r: Option<IoIf_TxPduGroup>)
    ensures
        r == (match spec_group_find(spec_tx_pdu_group_config(), pdu_group_id, 0) {
            Some(p) => Some(p.1),
            None => None::<IoIf_TxPduGroup>,
        }),
{
    let groups = ioif_get_tx_pdu_group_config();
    let mut i: usize = 0;
    while i < groups.len()
        invariant
            groups@ == spec_tx_pdu_group_config(),
            0 <= i <= groups.len(),
            spec_group_find(groups@, pdu_group_id, i as int) == spec_group_find(spec_tx_pdu_group_config(), pdu_group_id, 0),
        decreases groups.len() - i,
    {
        if groups[i].id == pdu_group_id {
            return Some(groups[i]);
        }
        i = i + 1;
    }
    None
}

fn ioif_get_index_by_id(pdu_id: u16, isGroup: bool) -> (r: Option<usize>)
    ensures
        isGroup ==> r == (match spec_group_find(spec_tx_pdu_group_config(), pdu_id, 0) {
            Some(p) => Some(p.0 as usize),
            None => None::<usize>,
        }),
        !isGroup ==> r == (match spec_tx_find(spec_tx_pdu_config(), pdu_id, 0) {
            Some(p) => Some(p.0 as usize),
            None => None::<usize>,
        }),
{
    if isGroup {
        let groups = ioif_get_tx_pdu_group_config();
        let mut i: usize = 0;
        while i < groups.len()
            invariant
                groups@ == spec_tx_pdu_group_config(),
                0 <= i <= groups.len(),
                isGroup,
                spec_group_find(groups@, pdu_id, i as int) == spec_group_find(spec_tx_pdu_group_config(), pdu_id, 0),
            decreases groups.len() - i,
        {
            if groups[i].id == pdu_id {
                assert(spec_group_find(groups@, pdu_id, i as int) == Some((i as int, groups@[i as int])));
                return Some(i);
            }
            i = i + 1;
        }
    } else {
        let tx_pdus = ioif_get_tx_pdu_config();
        let mut i: usize = 0;
        while i < tx_pdus.len()
            invariant
                tx_pdus@ == spec_tx_pdu_config(),
                0 <= i <= tx_pdus.len(),
                !isGroup,
                spec_tx_find(tx_pdus@, pdu_id, i as int) == spec_tx_find(spec_tx_pdu_config(), pdu_id, 0),
            decreases tx_pdus.len() - i,
        {
            if tx_pdus[i].id == pdu_id {
                assert(spec_tx_find(tx_pdus@, pdu_id, i as int) == Some((i as int, tx_pdus@[i as int])));
                return Some(i);
            }
            i = i + 1;
        }
    }
    None
}

/// Clears every confirmation to "not confirmed", every recorded output to 0
/// and every status to idle.
pub fn ioif_clearall_tx_runtime_status(tx: &mut IoIfTxState)
    requires
        old(tx).wf(),
    ensures
        final(tx).wf(),
        forall|i: int| 0 <= i < 4 ==> final(tx).confirmation@[i] == 1,
        forall|i: int| 0 <= i < 4 ==> final(tx).output_status@[i] == 0,
        forall|i: int| 0 <= i < 4 ==> final(tx).pdu_status@[i] == spec_with_status(old(tx).pdu_status@[i], 0),
        forall|j: int| 0 <= j < 2 ==> final(tx).group_confirmation@[j] == 1,
        forall|j: int| 0 <= j < 2 ==> final(tx).group_output_status@[j] == 0,
        forall|j: int| 0 <= j < 2 ==> final(tx).group_status@[j] == spec_with_status(old(tx).group_status@[j], 0),
{
    let ghost t0 = *tx;
    let mut i: usize = 0;
    while i < IOIF_TX_PDU_COUNT
        invariant
            tx.wf(),
            0 <= i <= 4,
            tx.same_group(t0),
            tx.output_status@ == t0.output_status@,
            tx.pdu_status@ == t0.pdu_status@,
            forall|k: int| 0 <= k < i ==> tx.confirmation@[k] == 1,
        decreases 4 - i,
    {
        tx.confirmation.set(i, confirmation_code(IoIf_ConfirmationType::CONFIRMED_NOT_OK));
        i = i + 1;
    }
    let ghost t1 = *tx;
    let mut i: usize = 0;
    while i < IOIF_TX_PDU_GROUP_COUNT
        invariant
            tx.wf(),
            0 <= i <= 2,
            tx.same_single(t1),
            tx.group_output_status@ == t1.group_output_status@,
            tx.group_status@ == t1.group_status@,
            forall|k: int| 0 <= k < i ==> tx.group_confirmation@[k] == 1,
        decreases 2 - i,
    {
        tx.group_confirmation.set(i, confirmation_code(IoIf_ConfirmationType::CONFIRMED_NOT_OK));
        i = i + 1;
    }
    let ghost t2 = *tx;
    let mut i: usize = 0;
    while i < IOIF_TX_PDU_COUNT
        invariant
            tx.wf(),
            0 <= i <= 4,
            tx.same_group(t2),
            tx.confirmation@ == t2.confirmation@,
            tx.pdu_status@ == t2.pdu_status@,
            forall|k: int| 0 <= k < i ==> tx.output_status@[k] == 0,
        decreases 4 - i,
    {
        tx.output_status.set(i, 0);
        i = i + 1;
    }
    let ghost t3 = *tx;
    let mut i: usize = 0;
    while i < IOIF_TX_PDU_GROUP_COUNT
        invariant
            tx.wf(),
            0 <= i <= 2,
            tx.same_single(t3),
            tx.group_confirmation@ == t3.group_confirmation@,
            tx.group_status@ == t3.group_status@,
            forall|k: int| 0 <= k < i ==> tx.group_output_status@[k] == 0,
        decreases 2 - i,
    {
        tx.group_output_status.set(i, 0);
        i = i + 1;
    }
    let ghost t4 = *tx;
    let mut i: usize = 0;
    while i < IOIF_TX_PDU_COUNT
        invariant
            tx.wf(),
            0 <= i <= 4,
            tx.same_group(t4),
            tx.confirmation@ == t4.confirmation@,
            tx.output_status@ == t4.output_status@,
            forall|k: int| 0 <= k < 4 ==> tx.pdu_status@[k] == (if k < i {
                spec_with_status(t0.pdu_status@[k], 0)
            } else {
                t0.pdu_status@[k]
            }),
        decreases 4 - i,
    {
        let e = tx.pdu_status[i];
        tx.pdu_status.set(i, IoIf_PduRuntimeStatus { pdu_id: e.pdu_id, status: pdu_status_code(IoIf_PduStatusType::IOIF_IDLE) });
        i = i + 1;
    }
    let ghost t5 = *tx;
    let mut i: usize = 0;
    while i < IOIF_TX_PDU_GROUP_COUNT
        invariant
            tx.wf(),
            0 <= i <= 2,
            tx.same_single(t5),
            tx.group_confirmation@ == t5.group_confirmation@,
            tx.group_output_status@ == t5.group_output_status@,
            forall|k: int| 0 <= k < 2 ==> tx.group_status@[k] == (if k < i {
                spec_with_status(t0.group_status@[k], 0)
            } else {
                t0.group_status@[k]
            }),
        decreases 2 - i,
    {
        let e = tx.group_status[i];
        tx.group_status.set(i, IoIf_PduRuntimeStatus { pdu_id: e.pdu_id, status: pdu_status_code(IoIf_PduStatusType::IOIF_IDLE) });
        i = i + 1;
    }
}

/// Resets the recorded output of one PDU (or PDU group) to 0.
pub fn ioif_clear_tx_output_status_by_index(tx: &mut IoIfTxState, index: usize, isGroup: bool)
    requires
        old(tx).wf(),
        isGroup ==> index < IOIF_TX_PDU_GROUP_COUNT,
        !isGroup ==> index < IOIF_TX_PDU_COUNT,
    ensures
        final(tx).wf(),
        final(tx).confirmation@ == old(tx).confirmation@,
        final(tx).group_confirmation@ == old(tx).group_confirmation@,
        final(tx).pdu_status@ == old(tx).pdu_status@,
        final(tx).group_status@ == old(tx).group_status@,
        isGroup ==> final(tx).group_output_status@ == old(tx).group_output_status@.update(index as int, 0)
            && final(tx).output_status@ == old(tx).output_status@,
        !isGroup ==> final(tx).output_status@ == old(tx).output_status@.update(index as int, 0)
            && final(tx).group_output_status@ == old(tx).group_output_status@,
{
    if isGroup {
        tx.group_output_status.set(index, 0);
    } else {
        tx.output_status.set(index, 0);
    }
}

fn decode_pdu_status(value: u8) -> (r: Option<IoIf_PduStatusType>)
    ensures
        r == crate::bsw::ioif_type::spec_decode_pdu_status(value),
{
    match value {
        0 => Some(IoIf_PduStatusType::IOIF_IDLE),
        1 => Some(IoIf_PduStatusType::IOIF_PENDING),
        2 => Some(IoIf_PduStatusType::IOIF_BUSY),
        3 => Some(IoIf_PduStatusType::IOIF_COMPLETED),
        4 => Some(IoIf_PduStatusType::IOIF_ERROR),
        _ => None,
    }
}

fn ioif_get_tx_pdu_status_by_index(tx: &IoIfTxState, index: usize, isGroup: bool) -> (r: Option<IoIf_PduStatusType>)
    requires
        tx.wf(),
    ensures
        isGroup ==> r == (if index < 2 {
            crate::bsw::ioif_type::spec_decode_pdu_status(tx.group_status@[index as int].status)
        } else {
            None::<IoIf_PduStatusType>
        }),
        !isGroup ==> r == (if index < 4 {
            crate::bsw::ioif_type::spec_decode_pdu_status(tx.pdu_status@[index as int].status)
        } else {
            None::<IoIf_PduStatusType>
        }),
        isGroup && index < 2 ==> r.is_some(),
        !isGroup && index < 4 ==> r.is_some(),
{
    if isGroup {
        if index >= IOIF_TX_PDU_GROUP_COUNT {
            return None;
        }
        let value = tx.group_status[index].status;
        decode_pdu_status(value)
    } else {
        if index >= IOIF_TX_PDU_COUNT {
            return None;
        }
        let value = tx.pdu_status[index].status;
        decode_pdu_status(value)
    }
}

fn ioif_set_tx_pdu_status_by_id(tx: &mut IoIfTxState, id: u16, status: IoIf_PduStatusType, isGroup: bool) -> (r: IoIf_ReturnType)
    requires
        old(tx).wf(),
    ensures
        final(tx).wf(),
        final(tx).confirmation@ == old(tx).confirmation@,
        final(tx).group_confirmation@ == old(tx).group_confirmation@,
        final(tx).output_status@ == old(tx).output_status@,
        final(tx).group_output_status@ == old(tx).group_output_status@,
        isGroup ==> final(tx).pdu_status@ == old(tx).pdu_status@ && match spec_group_index(id) {
            Some(j) => r == IoIf_ReturnType::IOIF_E_OK && final(tx).group_status@ == old(tx).group_status@.update(
                j,
                spec_with_status(old(tx).group_status@[j], spec_pdu_status_code(status)),
            ),
            None => r == IoIf_ReturnType::IOIF_E_NOT_OK && final(tx).group_status@ == old(tx).group_status@,
        },
        !isGroup ==> final(tx).group_status@ == old(tx).group_status@ && match spec_tx_index(id) {
            Some(i) => r == IoIf_ReturnType::IOIF_E_OK && final(tx).pdu_status@ == old(tx).pdu_status@.update(
                i,
                spec_with_status(old(tx).pdu_status@[i], spec_pdu_status_code(status)),
            ),
            None => r == IoIf_ReturnType::IOIF_E_NOT_OK && final(tx).pdu_status@ == old(tx).pdu_status@,
        },
{
    proof {
        lemma_tx_lookup(id);
    }
    if isGroup {
        let index = ioif_get_index_by_id(id, true);
        if let Some(index) = index {
            if index >= IOIF_TX_PDU_GROUP_COUNT {
                return IoIf_ReturnType::IOIF_E_NOT_OK;
            }
            let e = tx.group_status[index];
            tx.group_status.set(index, IoIf_PduRuntimeStatus { pdu_id: e.pdu_id, status: pdu_status_code(status) });
        } else {
            return IoIf_ReturnType::IOIF_E_NOT_OK;
        }
    } else {
        if let Some(index) = ioif_get_index_by_id(id, false) {
            if index >= IOIF_TX_PDU_COUNT {
                return IoIf_ReturnType::IOIF_E_NOT_OK;
            }
            let e = tx.pdu_status[index];
            tx.pdu_status.set(index, IoIf_PduRuntimeStatus { pdu_id: e.pdu_id, status: pdu_status_code(status) });
        } else {
            return IoIf_ReturnType::IOIF_E_NOT_OK;
        }
    }
    IoIf_ReturnType::IOIF_E_OK
}

/// The recorded output of one PDU (or PDU group), `None` past the table.
pub fn ioif_get_tx_output_status_by_index(tx: &IoIfTxState, index: usize, isGroup: bool) -> (r: Option<u32>)
    requires
        tx.wf(),
    ensures
        isGroup ==> r == (if index < 2 { Some(tx.group_output_status@[index as int]) } else { None::<u32> }),
        !isGroup ==> r == (if index < 4 { Some(tx.output_status@[index as int] as u32) } else { None::<u32> }),
{
    if isGroup {
        if index >= IOIF_TX_PDU_GROUP_COUNT {
            return None;
        }
        Some(tx.group_output_status[index])
    } else {
        if index >= IOIF_TX_PDU_COUNT {
            return None;
        }
        Some(tx.output_status[index] as u32)
    }
}

fn ioif_txchannel_to_ledcolor(channel: IoIf_TxChannelType) -> (r: Option<LedColor>)
    ensures
        r == (match channel {
            IoIf_TxChannelType::LED_RED => Some(LedColor::Red),
            IoIf_TxChannelType::LED_ORANGE => Some(LedColor::Orange),
            IoIf_TxChannelType::LED_BLUE => Some(LedColor::Blue),
            IoIf_TxChannelType::LED_YELLOW => Some(LedColor::Yellow),
            _ => None::<LedColor>,
        }),
{
    match channel {
        IoIf_TxChannelType::LED_RED => Some(LedColor::Red),
        IoIf_TxChannelType::LED_ORANGE => Some(LedColor::Orange),
        IoIf_TxChannelType::LED_BLUE => Some(LedColor::Blue),
        IoIf_TxChannelType::LED_YELLOW => Some(LedColor::Yellow),
        _ => None,
    }
}

fn ioif_txchannelgroup_to_ledgroup(channel_group: IoIf_TxChannelGroupType) -> (r: Option<LedGroup>)
    ensures
        r == Some(match channel_group {
            IoIf_TxChannelGroupType::LED_GROUP_RED_BLUE => LedGroup::RedBlue,
            IoIf_TxChannelGroupType::LED_GROUP_ORANGE_YELLOW => LedGroup::OrangeYellow,
        }),
{
    match channel_group {
        IoIf_TxChannelGroupType::LED_GROUP_RED_BLUE => Some(LedGroup::RedBlue),
        IoIf_TxChannelGroupType::LED_GROUP_ORANGE_YELLOW => Some(LedGroup::OrangeYellow),
    }
}

fn ioif_ledstate_to_ledstate(state: IoIf_OutputType) -> (r: LedState)
    ensures
        r == spec_output_to_led_state(state),
{
    match state {
        IoIf_OutputType::STD_ON => LedState::On,
        IoIf_OutputType::STD_OFF => LedState::Off,
        IoIf_OutputType::TOGGLE => LedState::Toggle,
    }
}

fn ioif_set_tx_output_status_table(tx: &mut IoIfTxState, g: &GpioRegisters, pdu_cfg: &IoIf_TxPdu, state: IoIf_OutputType) -> (r: IoIf_ReturnType)
    requires
        old(tx).wf(),
        g.wf(),
        pdu_cfg.index < 4,
        pdu_cfg.channel == spec_tx_pdu_config()[pdu_cfg.index as int].channel,
    ensures
        final(tx).wf(),
        r == IoIf_ReturnType::IOIF_E_OK,
        final(tx).same_group(*old(tx)),
        final(tx).confirmation@ == old(tx).confirmation@,
        final(tx).pdu_status@ == old(tx).pdu_status@,
        final(tx).output_status@ == old(tx).output_status@.update(
            pdu_cfg.index as int,
            spec_recorded_output(g.odr@[3], spec_tx_color(pdu_cfg.index as int), state),
        ),
{
    proof {
        lemma_tx_lookup(0);
    }
    let index = pdu_cfg.index;
    if index >= IOIF_TX_PDU_COUNT {
        return IoIf_ReturnType::IOIF_E_NOT_OK;
    }
    if state == IoIf_OutputType::TOGGLE {
        let channel = ioif_txchannel_to_ledcolor(pdu_cfg.channel);
        if let Some(channel) = channel {
            let level = get_led_state(g, channel);
            let code: u8 = match level {
                Dio_LevelType::LOW => 0,
                Dio_LevelType::HIGH => 1,
            };
            tx.output_status.set(index, code);
        } else {
            return IoIf_ReturnType::IOIF_E_NOT_OK;
        }
    } else {
        tx.output_status.set(index, output_code(state));
    }
    IoIf_ReturnType::IOIF_E_OK
}

fn ioif_set_tx_group_output_status_table_by_index(tx: &mut IoIfTxState, pdu_group_cfg: &IoIf_TxPduGroup, value: u32) -> (r: IoIf_ReturnType)
    requires
        old(tx).wf(),
        pdu_group_cfg.index < 2,
    ensures
        final(tx).wf(),
        r == IoIf_ReturnType::IOIF_E_OK,
        final(tx).same_single(*old(tx)),
        final(tx).group_confirmation@ == old(tx).group_confirmation@,
        final(tx).group_status@ == old(tx).group_status@,
        final(tx).group_output_status@ == old(tx).group_output_status@.update(pdu_group_cfg.index as int, value),
{
    let index = pdu_group_cfg.index;
    if index >= IOIF_TX_PDU_GROUP_COUNT {
        return IoIf_ReturnType::IOIF_E_NOT_OK;
    }
    tx.group_output_status.set(index, value);
    IoIf_ReturnType::IOIF_E_OK
}

fn ioif_set_tx_confirmation_table_by_index(tx: &mut IoIfTxState, index: usize, result: IoIf_ConfirmationType, isGroup: bool) -> (r: IoIf_ReturnType)
    requires
        old(tx).wf(),
    ensures
        final(tx).wf(),
        final(tx).output_status@ == old(tx).output_status@,
        final(tx).group_output_status@ == old(tx).group_output_status@,
        final(tx).pdu_status@ == old(tx).pdu_status@,
        final(tx).group_status@ == old(tx).group_status@,
        isGroup ==> final(tx).confirmation@ == old(tx).confirmation@ && if index < 2 {
            r == IoIf_ReturnType::IOIF_E_OK && final(tx).group_confirmation@ == old(tx).group_confirmation@.update(
                index as int,
                spec_confirmation_code(result),
            )
        } else {
            r == IoIf_ReturnType::IOIF_E_NOT_OK && final(tx).group_confirmation@ == old(tx).group_confirmation@
        },
        !isGroup ==> final(tx).group_confirmation@ == old(tx).group_confirmation@ && if index < 4 {
            r == IoIf_ReturnType::IOIF_E_OK && final(tx).confirmation@ == old(tx).confirmation@.update(
                index as int,
                spec_confirmation_code(result),
            )
        } else {
            r == IoIf_ReturnType::IOIF_E_NOT_OK && final(tx).confirmation@ == old(tx).confirmation@
        },
{
    if isGroup {
        if index >= IOIF_TX_PDU_GROUP_COUNT {
            return IoIf_ReturnType::IOIF_E_NOT_OK;
        }
        tx.group_confirmation.set(index, confirmation_code(result));
    } else {
        if index >= IOIF_TX_PDU_COUNT {
            return IoIf_ReturnType::IOIF_E_NOT_OK;
        }
        tx.confirmation.set(index, confirmation_code(result));
    }
    IoIf_ReturnType::IOIF_E_OK
}

fn ioif_switch_led(g: &mut GpioRegisters, led_color: LedColor, led_state: LedState)
    requires
        old(g).wf(),
    ensures
        final(g).wf(),
        final(g).idr@ == old(g).idr@,
        final(g).odr@ == old(g).odr@.update(3, if led_state == LedState::Toggle {
            old(g).odr@[3] ^ (1u32 << spec_pin_number(spec_led_pin(led_color)))
        } else {
            spec_write_bit(old(g).odr@[3], spec_pin_number(spec_led_pin(led_color)), spec_led_state_to_level(led_state))
        }),
{
    if led_state == LedState::Toggle {
        led_toggle(g, led_color);
    } else {
        set_led_state(g, led_color, led_state);
    }
}

fn ioif_switchtxchannel(g: &mut GpioRegisters, pdu_cfg: &IoIf_TxPdu, state: IoIf_OutputType) -> (r: IoIf_ReturnType)
    requires
        old(g).wf(),
    ensures
        final(g).wf(),
        final(g).idr@ == old(g).idr@,
        match pdu_cfg.channel {
            IoIf_TxChannelType::LED_RED => r == IoIf_ReturnType::IOIF_E_OK
                && final(g).odr@ == old(g).odr@.update(3, spec_led_word_after(old(g).odr@[3], LedColor::Red, state)),
            IoIf_TxChannelType::LED_ORANGE => r == IoIf_ReturnType::IOIF_E_OK
                && final(g).odr@ == old(g).odr@.update(3, spec_led_word_after(old(g).odr@[3], LedColor::Orange, state)),
            IoIf_TxChannelType::LED_BLUE => r == IoIf_ReturnType::IOIF_E_OK
                && final(g).odr@ == old(g).odr@.update(3, spec_led_word_after(old(g).odr@[3], LedColor::Blue, state)),
            IoIf_TxChannelType::LED_YELLOW => r == IoIf_ReturnType::IOIF_E_OK
                && final(g).odr@ == old(g).odr@.update(3, spec_led_word_after(old(g).odr@[3], LedColor::Yellow, state)),
            _ => r == IoIf_ReturnType::IOIF_E_NOT_OK && final(g).odr@ == old(g).odr@,
        },
{
    let led_state = ioif_ledstate_to_ledstate(state);
    let led_color = ioif_txchannel_to_ledcolor(pdu_cfg.channel);
    match pdu_cfg.channel {
        IoIf_TxChannelType::LED_RED => {
            if let Some(led_color) = led_color {
                ioif_switch_led(g, led_color, led_state);
                IoIf_ReturnType::IOIF_E_OK
            } else {
                IoIf_ReturnType::IOIF_E_NOT_OK
            }
        },
        IoIf_TxChannelType::LED_ORANGE => {
            if let Some(led_color) = led_color {
                ioif_switch_led(g, led_color, led_state);
                IoIf_ReturnType::IOIF_E_OK
            } else {
                IoIf_ReturnType::IOIF_E_NOT_OK
            }
        },
        IoIf_TxChannelType::LED_BLUE => {
            if let Some(led_color) = led_color {
                ioif_switch_led(g, led_color, led_state);
                IoIf_ReturnType::IOIF_E_OK
            } else {
                IoIf_ReturnType::IOIF_E_NOT_OK
            }
        },
        IoIf_TxChannelType::LED_YELLOW => {
            if let Some(led_color) = led_color {
                ioif_switch_led(g, led_color, led_state);
                IoIf_ReturnType::IOIF_E_OK
            } else {
                IoIf_ReturnType::IOIF_E_NOT_OK
            }
        },
        _ => IoIf_ReturnType::IOIF_E_NOT_OK,
    }
}

fn ioif_switchtxchannel_group(g: &mut GpioRegisters, pdu_group_cfg: &IoIf_TxPduGroup, value: u32) -> (r: IoIf_ReturnType)
    requires
        old(g).wf(),
    ensures
        final(g).wf(),
        final(g).idr@ == old(g).idr@,
        r == IoIf_ReturnType::IOIF_E_OK,
        final(g).odr@ == old(g).odr@.update(3, spec_group_write(
            old(g).odr@[3],
            spec_led_group(match pdu_group_cfg.channel_group {
                IoIf_TxChannelGroupType::LED_GROUP_RED_BLUE => LedGroup::RedBlue,
                IoIf_TxChannelGroupType::LED_GROUP_ORANGE_YELLOW => LedGroup::OrangeYellow,
            }),
            value,
        )),
{
    let led_group = ioif_txchannelgroup_to_ledgroup(pdu_group_cfg.channel_group);
    match pdu_group_cfg.channel_group {
        IoIf_TxChannelGroupType::LED_GROUP_RED_BLUE => {
            if let Some(led_group) = led_group {
                led_set_state_group(g, led_group, value);
                IoIf_ReturnType::IOIF_E_OK
            } else {
                IoIf_ReturnType::IOIF_E_NOT_OK
            }
        },
        IoIf_TxChannelGroupType::LED_GROUP_ORANGE_YELLOW => {
            if let Some(led_group) = led_group {
                led_set_state_group(g, led_group, value);
                IoIf_ReturnType::IOIF_E_OK
            } else {
                IoIf_ReturnType::IOIF_E_NOT_OK
            }
        },
    }
}

/// The status code a confirmation leaves: completed when confirmed,
/// error otherwise.
pub open spec fn spec_confirmed_status(result: IoIf_ConfirmationType) -> u8 {
    if result == IoIf_ConfirmationType::CONFIRMED_OK {
        3
    } else {
        4
    }
}

/// Records the outcome of a transmission: the PDU's (or group's)
/// confirmation takes `result` and its status becomes completed or error.
/// An identifier that names neither is refused with no change.
pub fn ioif_txconfirmation(tx: &mut IoIfTxState, pdu_id: u16, result: IoIf_ConfirmationType) -> (r: IoIf_ReturnType)
    requires
        old(tx).wf(),
    ensures
        final(tx).wf(),
        final(tx).output_status@ == old(tx).output_status@,
        final(tx).group_output_status@ == old(tx).group_output_status@,
        match spec_tx_index(pdu_id) {
            Some(i) => {
                &&& r == IoIf_ReturnType::IOIF_E_OK
                &&& final(tx).confirmation@ == old(tx).confirmation@.update(i, spec_confirmation_code(result))
                &&& final(tx).pdu_status@ == old(tx).pdu_status@.update(i, spec_with_status(old(tx).pdu_status@[i], spec_confirmed_status(result)))
                &&& final(tx).same_group(*old(tx))
            },
            None => match spec_group_index(pdu_id) {
                Some(j) => {
                    &&& r == IoIf_ReturnType::IOIF_E_OK
                    &&& final(tx).group_confirmation@ == old(tx).group_confirmation@.update(j, spec_confirmation_code(result))
                    &&& final(tx).group_status@ == old(tx).group_status@.update(j, spec_with_status(old(tx).group_status@[j], spec_confirmed_status(result)))
                    &&& final(tx).same_single(*old(tx))
                },
                None => {
                    &&& r == IoIf_ReturnType::IOIF_E_NOT_OK
                    &&& final(tx).same_single(*old(tx))
                    &&& final(tx).same_group(*old(tx))
                },
            },
        },
{
    proof {
        lemma_tx_lookup(pdu_id);
    }
    let pdu_cfg = get_tx_pdu_by_id(pdu_id);
    if let Some(pdu) = pdu_cfg {
        if pdu.index >= IOIF_TX_PDU_COUNT {
            return IoIf_ReturnType::IOIF_E_NOT_OK;
        }
        let _ = ioif_set_tx_confirmation_table_by_index(tx, pdu.index, result, false);
        if result == IoIf_ConfirmationType::CONFIRMED_OK {
            let _ = ioif_set_tx_pdu_status_by_id(tx, pdu_id, IoIf_PduStatusType::IOIF_COMPLETED, false);
        } else {
            let _ = ioif_set_tx_pdu_status_by_id(tx, pdu_id, IoIf_PduStatusType::IOIF_ERROR, false);
        }
        return IoIf_ReturnType::IOIF_E_OK;
    }
    if let Some(pdu_group) = get_tx_pdu_group_by_id(pdu_id) {
        if pdu_group.index >= IOIF_TX_PDU_GROUP_COUNT {
            return IoIf_ReturnType::IOIF_E_NOT_OK;
        }
        let _ = ioif_set_tx_confirmation_table_by_index(tx, pdu_group.index, result, true);
        if result == IoIf_ConfirmationType::CONFIRMED_OK {
            let _ = ioif_set_tx_pdu_status_by_id(tx, pdu_id, IoIf_PduStatusType::IOIF_COMPLETED, true);
        } else {
            let _ = ioif_set_tx_pdu_status_by_id(tx, pdu_id, IoIf_PduStatusType::IOIF_ERROR, true);
        }
        return IoIf_ReturnType::IOIF_E_OK;
    }
    IoIf_ReturnType::IOIF_E_NOT_OK
}

fn ioif_error_recovery(tx: &mut IoIfTxState, pdu_id: u16) -> (r: IoIf_ReturnType)
    requires
        old(tx).wf(),
    ensures
        final(tx).wf(),
        final(tx).output_status@ == old(tx).output_status@,
        final(tx).group_output_status@ == old(tx).group_output_status@,
        match spec_tx_index(pdu_id) {
            Some(i) => {
                &&& r == IoIf_ReturnType::IOIF_E_OK
                &&& final(tx).confirmation@ == old(tx).confirmation@.update(i, 1)
                &&& final(tx).pdu_status@ == old(tx).pdu_status@.update(i, spec_with_status(old(tx).pdu_status@[i], 0))
                &&& final(tx).same_group(*old(tx))
            },
            None => match spec_group_index(pdu_id) {
                Some(j) => {
                    &&& r == IoIf_ReturnType::IOIF_E_OK
                    &&& final(tx).group_confirmation@ == old(tx).group_confirmation@.update(j, 1)
                    &&& final(tx).group_status@ == old(tx).group_status@.update(j, spec_with_status(old(tx).group_status@[j], 0))
                    &&& final(tx).same_single(*old(tx))
                },
                None => {
                    &&& r == IoIf_ReturnType::IOIF_E_NOT_OK
                    &&& final(tx).same_single(*old(tx))
                    &&& final(tx).same_group(*old(tx))
                },
            },
        },
{
    proof {
        lemma_tx_lookup(pdu_id);
    }
    let pdu_cfg = get_tx_pdu_by_id(pdu_id);
    if let Some(pdu) = pdu_cfg {
        if pdu.index >= IOIF_TX_PDU_COUNT {
            return IoIf_ReturnType::IOIF_E_NOT_OK;
        }
        let _ = ioif_set_tx_pdu_status_by_id(tx, pdu_id, IoIf_PduStatusType::IOIF_IDLE, false);
        let _ = ioif_set_tx_confirmation_table_by_index(tx, pdu.index, IoIf_ConfirmationType::CONFIRMED_NOT_OK, false);
        return IoIf_ReturnType::IOIF_E_OK;
    }
    if let Some(pdu_group) = get_tx_pdu_group_by_id(pdu_id) {
        if pdu_group.index >= IOIF_TX_PDU_GROUP_COUNT {
            return IoIf_ReturnType::IOIF_E_NOT_OK;
        }
        let _ = ioif_set_tx_pdu_status_by_id(tx, pdu_id, IoIf_PduStatusType::IOIF_IDLE, true);
        let _ = ioif_set_tx_confirmation_table_by_index(tx, pdu_group.index, IoIf_ConfirmationType::CONFIRMED_NOT_OK, true);
        return IoIf_ReturnType::IOIF_E_OK;
    }
    IoIf_ReturnType::IOIF_E_NOT_OK
}

/// What a write of `state` to PDU `pdu_id` does, from tables `t0` and LED
/// port word `w0` to tables `t1` and word `w1`, with result `r`.
pub open spec fn spec_write_tx_state(
    t0: IoIfTxState,
    w0: u32,
    t1: IoIfTxState,
    w1: u32,
    pdu_id: u16,
    state: IoIf_OutputType,
    r: IoIf_ReturnType,
) -> bool {
    &&& t1.same_group(t0)
    &&& match spec_tx_index(pdu_id) {
        None => {
            &&& r == IoIf_ReturnType::IOIF_E_NOT_OK
            &&& t1.same_single(t0)
            &&& w1 == w0
        },
        Some(i) => {
            let st = t0.pdu_status@[i].status;
            if st == 4 {
                &&& r == IoIf_ReturnType::IOIF_E_NOT_OK
                &&& w1 == w0
                &&& t1.confirmation@ == t0.confirmation@.update(i, 1)
                &&& t1.pdu_status@ == t0.pdu_status@.update(i, spec_with_status(t0.pdu_status@[i], 0))
                &&& t1.output_status@ == t0.output_status@
            } else if st != 0 && st != 3 {
                &&& r == IoIf_ReturnType::IOIF_E_NOT_OK
                &&& w1 == w0
                &&& t1.same_single(t0)
            } else {
                &&& r == IoIf_ReturnType::IOIF_E_OK
                &&& w1 == spec_led_word_after(w0, spec_tx_color(i), state)
                &&& t1.confirmation@ == t0.confirmation@.update(i, 0)
                &&& t1.pdu_status@ == t0.pdu_status@.update(i, spec_with_status(t0.pdu_status@[i], 3))
                &&& t1.output_status@ == t0.output_status@.update(i, spec_recorded_output(w1, spec_tx_color(i), state))
            }
        },
    }
}

/// Writes `state` (on, off, toggle) to the LED of a transmitted PDU.
/// - An identifier outside 0x200..=0x203 is refused with no change.
/// - A PDU in error is recovered instead: it goes back to idle and
///   unconfirmed, and the write is refused.
/// - A PDU that is neither idle nor completed is busy: refused, no change.
/// - Otherwise the LED is driven, the written output is recorded (for a
///   toggle, the level the LED ended at), and the PDU ends completed and
///   confirmed.
pub fn ioif_write_tx_state(tx: &mut IoIfTxState, g: &mut GpioRegisters, pdu_id: u16, state: IoIf_OutputType) -> (r: IoIf_ReturnType)
    requires
        old(tx).wf(),
        old(g).wf(),
    ensures
        final(tx).wf(),
        final(g).wf(),
        final(g).idr@ == old(g).idr@,
        final(g).odr@ == old(g).odr@.update(3, final(g).odr@[3]),
        spec_write_tx_state(*old(tx), old(g).odr@[3], *final(tx), final(g).odr@[3], pdu_id, state, r),
{
    proof {
        lemma_tx_lookup(pdu_id);
    }
    let pdu_cfg = get_tx_pdu_by_id(pdu_id);
    if let Some(pdu) = pdu_cfg {
        if pdu.index >= IOIF_TX_PDU_COUNT {
            return IoIf_ReturnType::IOIF_E_NOT_OK;
        }
        let current_status = ioif_get_tx_pdu_status_by_index(tx, pdu.index, false).unwrap();
        if current_status == IoIf_PduStatusType::IOIF_ERROR {
            let _ = ioif_error_recovery(tx, pdu_id);
            return IoIf_ReturnType::IOIF_E_NOT_OK;
        }
        if current_status != IoIf_PduStatusType::IOIF_IDLE && current_status != IoIf_PduStatusType::IOIF_COMPLETED {
            return IoIf_ReturnType::IOIF_E_NOT_OK;
        }
        let _ = ioif_set_tx_confirmation_table_by_index(tx, pdu.index, IoIf_ConfirmationType::CONFIRMED_NOT_OK, false);
        let _ = ioif_set_tx_pdu_status_by_id(tx, pdu_id, IoIf_PduStatusType::IOIF_PENDING, false);
        ioif_clear_tx_output_status_by_index(tx, pdu.index, false);
        match pdu.peripheral {
            IoIf_PeripheralType::DIO => {
                let _ = ioif_set_tx_pdu_status_by_id(tx, pdu_id, IoIf_PduStatusType::IOIF_BUSY, false);
                let result = ioif_switchtxchannel(g, &pdu, state);
                if result == IoIf_ReturnType::IOIF_E_OK {
                    let st_set = ioif_set_tx_output_status_table(tx, g, &pdu, state);
                    if st_set == IoIf_ReturnType::IOIF_E_OK {
                        let r = ioif_txconfirmation(tx, pdu_id, IoIf_ConfirmationType::CONFIRMED_OK);
                        assert(tx.confirmation@ =~= old(tx).confirmation@.update(pdu.index as int, 0));
                        assert(tx.pdu_status@ =~= old(tx).pdu_status@.update(pdu.index as int, spec_with_status(old(tx).pdu_status@[pdu.index as int], 3)));
                        assert(g.odr@[3] == spec_led_word_after(old(g).odr@[3], spec_tx_color(pdu.index as int), state));
                        assert(tx.output_status@ == old(tx).output_status@.update(pdu.index as int, spec_recorded_output(g.odr@[3], spec_tx_color(pdu.index as int), state)));
                        assert(tx.same_group(*old(tx)));
                        assert(spec_tx_index(pdu_id) == Some(pdu.index as int));
                        return r;
                    } else {
                        return ioif_txconfirmation(tx, pdu_id, IoIf_ConfirmationType::CONFIRMED_NOT_OK);
                    }
                } else {
                    return ioif_txconfirmation(tx, pdu_id, IoIf_ConfirmationType::CONFIRMED_NOT_OK);
                }
            },
            _ => {
                let _ = ioif_txconfirmation(tx, pdu_id, IoIf_ConfirmationType::CONFIRMED_NOT_OK);
                return IoIf_ReturnType::IOIF_E_NOT_OK;
            },
        }
    } else {
        return IoIf_ReturnType::IOIF_E_NOT_OK;
    }
}

/// Writes `value` to the LED pair of a transmitted PDU group, with the same
/// status handling as `ioif_write_tx_state`: 0x300 and 0x301 are the only
/// groups; a group in error is recovered and refused, a busy one refused;
/// otherwise the pair is written, `value` recorded, and the group ends
/// completed and confirmed.
pub fn ioif_write_tx_group_state(tx: &mut IoIfTxState, g: &mut GpioRegisters, pdu_group_id: u16, value: u32) -> (r: IoIf_ReturnType)
    requires
        old(tx).wf(),
        old(g).wf(),
    ensures
        final(tx).wf(),
        final(g).wf(),
        final(g).idr@ == old(g).idr@,
        final(tx).same_single(*old(tx)),
        match spec_group_index(pdu_group_id) {
            None => {
                &&& r == IoIf_ReturnType::IOIF_E_NOT_OK
                &&& final(tx).same_group(*old(tx))
                &&& final(g).odr@ == old(g).odr@
            },
            Some(j) => {
                let st = old(tx).group_status@[j].status;
                if st == 4 {
                    &&& r == IoIf_ReturnType::IOIF_E_NOT_OK
                    &&& final(g).odr@ == old(g).odr@
                    &&& final(tx).group_confirmation@ == old(tx).group_confirmation@.update(j, 1)
                    &&& final(tx).group_status@ == old(tx).group_status@.update(j, spec_with_status(old(tx).group_status@[j], 0))
                    &&& final(tx).group_output_status@ == old(tx).group_output_status@
                } else if st != 0 && st != 3 {
                    &&& r == IoIf_ReturnType::IOIF_E_NOT_OK
                    &&& final(g).odr@ == old(g).odr@
                    &&& final(tx).same_group(*old(tx))
                } else {
                    &&& r == IoIf_ReturnType::IOIF_E_OK
                    &&& final(g).odr@ == old(g).odr@.update(3, spec_group_write(old(g).odr@[3], spec_led_group(spec_tx_group(j)), value))
                    &&& final(tx).group_confirmation@ == old(tx).group_confirmation@.update(j, 0)
                    &&& final(tx).group_status@ == old(tx).group_status@.update(j, spec_with_status(old(tx).group_status@[j], 3))
                    &&& final(tx).group_output_status@ == old(tx).group_output_status@.update(j, value)
                }
            },
        },
{
    proof {
        lemma_tx_lookup(pdu_group_id);
    }
    let pdu_group_cfg = get_tx_pdu_group_by_id(pdu_group_id);
    if let Some(pdu_group) = pdu_group_cfg {
        if pdu_group.index >= IOIF_TX_PDU_GROUP_COUNT {
            return IoIf_ReturnType::IOIF_E_NOT_OK;
        }
        let current_status = ioif_get_tx_pdu_status_by_index(tx, pdu_group.index, true).unwrap();
        if current_status == IoIf_PduStatusType::IOIF_ERROR {
            let _ = ioif_error_recovery(tx, pdu_group_id);
            return IoIf_ReturnType::IOIF_E_NOT_OK;
        }
        if current_status != IoIf_PduStatusType::IOIF_IDLE && current_status != IoIf_PduStatusType::IOIF_COMPLETED {
            return IoIf_ReturnType::IOIF_E_NOT_OK;
        }
        let _ = ioif_set_tx_confirmation_table_by_index(tx, pdu_group.index, IoIf_ConfirmationType::CONFIRMED_NOT_OK, true);
        let _ = ioif_set_tx_pdu_status_by_id(tx, pdu_group_id, IoIf_PduStatusType::IOIF_PENDING, true);
        ioif_clear_tx_output_status_by_index(tx, pdu_group.index, true);
        match pdu_group.peripheral {
            IoIf_PeripheralType::DIO => {
                let _ = ioif_set_tx_pdu_status_by_id(tx, pdu_group_id, IoIf_PduStatusType::IOIF_BUSY, true);
                let result = ioif_switchtxchannel_group(g, &pdu_group, value);
                if result == IoIf_ReturnType::IOIF_E_OK {
                    let st_set = ioif_set_tx_group_output_status_table_by_index(tx, &pdu_group, value);
                    if st_set == IoIf_ReturnType::IOIF_E_OK {
                        let _ = ioif_set_tx_pdu_status_by_id(tx, pdu_group_id, IoIf_PduStatusType::IOIF_COMPLETED, true);
                        return ioif_txconfirmation(tx, pdu_group_id, IoIf_ConfirmationType::CONFIRMED_OK);
                    } else {
                        let _ = ioif_set_tx_pdu_status_by_id(tx, pdu_group_id, IoIf_PduStatusType::IOIF_ERROR, true);
                        return ioif_txconfirmation(tx, pdu_group_id, IoIf_ConfirmationType::CONFIRMED_NOT_OK);
                    }
                } else {
                    let _ = ioif_set_tx_pdu_status_by_id(tx, pdu_group_id, IoIf_PduStatusType::IOIF_ERROR, true);
                    return ioif_txconfirmation(tx, pdu_group_id, IoIf_ConfirmationType::CONFIRMED_NOT_OK);
                }
            },
            _ => {
                let _ = ioif_txconfirmation(tx, pdu_group_id, IoIf_ConfirmationType::CONFIRMED_NOT_OK);
                return IoIf_ReturnType::IOIF_E_NOT_OK;
            },
        }
    } else {
        return IoIf_ReturnType::IOIF_E_NOT_OK;
    }
}

} // verus!
