use vstd::prelude::*;
use crate::register::UsartNumber;
use crate::bsw::usartif_type::{
    PduInfoType, UsartIf_ReturnType, UsartIf_TxPduType, UsartIf_TxConfirmationStatus, USARTIF_INVALID_PDU_ID,
    UsartIf_PduStatus, UsartIf_TxPduStatusType, usartif_status_code, decode_usartif_status,
    spec_decode_usartif_status,
};
use crate::bsw::usartif_cfg::{get_usartif_txpdu_config, spec_usartif_txpdu_config, USART_TXPDUCONFIG_SIZE};
use crate::mcal::usart::{UsartState, usart_get_tx_status, usart_start_send_async, spec_usart_send_started};
use crate::mcal::usart_type::{UsartTxStatus, UsartReturnType, UsartCommand, UsartRegisterOp};

verus! {

/// Transmit-side state of the USART interface: the confirmation of each
/// transmitted PDU, the PDU in flight on each channel (0xFFFF for none),
/// and the status code of each PDU.
pub struct UsartIfTxState {
    pub confirmation: Vec<u8>,
    pub active_txpdu: Vec<u16>,
    pub pdu_status: Vec<UsartIf_TxPduStatusType>,
}

impl UsartIfTxState {
    pub open spec fn wf(&self) -> bool {
        &&& self.confirmation@.len() == USART_TXPDUCONFIG_SIZE
        &&& self.active_txpdu@.len() == 3
        &&& self.pdu_status@.len() == USART_TXPDUCONFIG_SIZE
        &&& self.pdu_status@[0].pdu_id == 0
    }

    /// Nothing confirmed, nothing in flight, PDU 0 idle.
    pub fn new() -> (r: UsartIfTxState)
        ensures
            r.wf(),
            r.confirmation@ == seq![1u8],
            r.active_txpdu@ == seq![0xFFFFu16, 0xFFFFu16, 0xFFFFu16],
            r.pdu_status@[0].status == 0,
    {
        UsartIfTxState {
            confirmation: vec![1u8],
            active_txpdu: vec![0xFFFFu16, 0xFFFF, 0xFFFF],
            pdu_status: vec![UsartIf_TxPduStatusType { pdu_id: 0, status: 0 }],
        }
    }

    /// The status code of PDU 0.
    pub open spec fn status0(&self) -> u8 {
        self.pdu_status@[0].status
    }
}

pub open spec fn spec_with_tx_status(e: UsartIf_TxPduStatusType, code: u8) -> UsartIf_TxPduStatusType {
    UsartIf_TxPduStatusType { pdu_id: e.pdu_id, status: code }
}

pub open spec fn spec_channel_index(ch: UsartNumber) -> int {
    match ch {
        UsartNumber::USART1 => 0,
        UsartNumber::USART2 => 1,
        UsartNumber::USART6 => 2,
    }
}

fn usartif_set_pdu_status(st: &mut UsartIfTxState, txpduid: u16, status: UsartIf_PduStatus)
    requires
        old(st).wf(),
    ensures
        final(st).wf(),
        final(st).confirmation@ == old(st).confirmation@,
        final(st).active_txpdu@ == old(st).active_txpdu@,
        txpduid == 0 ==> final(st).pdu_status@ == old(st).pdu_status@.update(
            0,
            spec_with_tx_status(old(st).pdu_status@[0], crate::bsw::usartif_type::spec_usartif_status_code(status)),
        ),
        txpduid != 0 ==> final(st).pdu_status@ == old(st).pdu_status@,
{
    let mut i: usize = 0;
    while i < st.pdu_status.len()
        invariant
            st.wf(),
            0 <= i <= 1,
            i == 1 ==> txpduid != 0,
            st.confirmation@ == old(st).confirmation@,
            st.active_txpdu@ == old(st).active_txpdu@,
            st.pdu_status@ == old(st).pdu_status@,
        decreases st.pdu_status.len() - i,
    {
        if st.pdu_status[i].pdu_id == txpduid {
            let e = st.pdu_status[i];
            st.pdu_status.set(i, UsartIf_TxPduStatusType { pdu_id: e.pdu_id, status: usartif_status_code(status) });
            return;
        }
        i = i + 1;
    }
}

fn usartif_get_pdu_status(st: &UsartIfTxState, txpduid: u16) -> (r: Option<UsartIf_PduStatus>)
    requires
        st.wf(),
    ensures
        r == (if txpduid == 0 { spec_decode_usartif_status(st.status0()) } else { None::<UsartIf_PduStatus> }),
{
    let mut i: usize = 0;
    while i < st.pdu_status.len()
        invariant
            st.wf(),
            0 <= i <= 1,
            i == 1 ==> txpduid != 0,
        decreases st.pdu_status.len() - i,
    {
        if st.pdu_status[i].pdu_id == txpduid {
            return decode_usartif_status(st.pdu_status[i].status);
        }
        i = i + 1;
    }
    None
}

fn usartif_channel_to_index(channel: UsartNumber) -> (r: Option<usize>)
    ensures
        r == Some(spec_channel_index(channel) as usize),
{
    match channel {
        UsartNumber::USART1 => Some(0),
        UsartNumber::USART2 => Some(1),
        UsartNumber::USART6 => Some(2),
    }
}

fn usart_set_pdu_active(st: &mut UsartIfTxState, channel: UsartNumber, txpduid: u16)
    requires
        old(st).wf(),
    ensures
        final(st).wf(),
        final(st).confirmation@ == old(st).confirmation@,
        final(st).pdu_status@ == old(st).pdu_status@,
        final(st).active_txpdu@ == old(st).active_txpdu@.update(spec_channel_index(channel), txpduid),
{
    if let Some(index) = usartif_channel_to_index(channel) {
        st.active_txpdu.set(index, txpduid);
    }
}

fn usartif_reset_pdu_active(st: &mut UsartIfTxState, channel: UsartNumber)
    requires
        old(st).wf(),
    ensures
        final(st).wf(),
        final(st).confirmation@ == old(st).confirmation@,
        final(st).pdu_status@ == old(st).pdu_status@,
        final(st).active_txpdu@ == old(st).active_txpdu@.update(spec_channel_index(channel), 0xFFFF),
{
    if let Some(index) = usartif_channel_to_index(channel) {
        st.active_txpdu.set(index, USARTIF_INVALID_PDU_ID);
    }
}

fn usartif_get_txpducfg_from_id(txpduid: u16) -> (r: Option<UsartIf_TxPduType>)
    ensures
        r == (if txpduid == 0 { Some(spec_usartif_txpdu_config()[0]) } else { None::<UsartIf_TxPduType> }),
{
    let cfgs = get_usartif_txpdu_config();
    let mut i: usize = 0;
    while i < cfgs.tx_pdu.len()
        invariant
            cfgs.tx_pdu@ == spec_usartif_txpdu_config(),
            0 <= i <= 1,
            i == 1 ==> txpduid != 0,
        decreases cfgs.tx_pdu.len() - i,
    {
        if cfgs.tx_pdu[i].tx_pdu_id == txpduid {
            return Some(cfgs.tx_pdu[i]);
        }
        i = i + 1;
    }
    None
}

/// The development checks of a transmit request: a PDU description with a
/// buffer, a nonzero length whose low byte is at most the configured 16,
/// and the configured identifier 0.
pub open spec fn spec_tx_det_ok(txpduid: u16, info: Option<&PduInfoType>) -> bool {
    match info {
        None => false,
        Some(p) => p.data.is_some() && p.length != 0 && txpduid == 0 && (p.length as u8) <= 16,
    }
}

fn usartif_det_check(txpduid: u16, pduinfo: Option<&PduInfoType>) -> (r: UsartIf_ReturnType)
    ensures
        r == (if spec_tx_det_ok(txpduid, pduinfo) { UsartIf_ReturnType::USARTIF_OK } else { UsartIf_ReturnType::USARTIF_NOT_OK }),
{
    match pduinfo {
        None => UsartIf_ReturnType::USARTIF_NOT_OK,
        Some(info) => {
            if info.data.is_none() {
                return UsartIf_ReturnType::USARTIF_NOT_OK;
            }
            if info.length == 0 {
                return UsartIf_ReturnType::USARTIF_NOT_OK;
            } else {
                let txpducfg = usartif_get_txpducfg_from_id(txpduid);
                if let Some(txpducfg) = txpducfg {
                    if (info.length as u8) > txpducfg.tx_pdu_length {
                        return UsartIf_ReturnType::USARTIF_NOT_OK;
                    }
                    return UsartIf_ReturnType::USARTIF_OK;
                }
            }
            UsartIf_ReturnType::USARTIF_NOT_OK
        },
    }
}

fn copy_prefix(data: &Vec<u8>, length: usize) -> (r: Vec<u8>)
    requires
        length <= data@.len(),
    ensures
        r@ == data@.subrange(0, length as int),
{
    let mut out: Vec<u8> = Vec::new();
    let mut i: usize = 0;
    while i < length
        invariant
            length <= data@.len(),
            0 <= i <= length,
            out@ == data@.subrange(0, i as int),
        decreases length - i,
    {
        out.push(data[i]);
        i = i + 1;
    }
    out
}

/// A transmission request from `st0`, `u0`, `o0` to `st1`, `u1`, `o1`
/// answered with `r`.
pub open spec fn spec_usartif_transmit(
    st0: UsartIfTxState,
    u0: UsartState,
    o0: Seq<UsartCommand>,
    st1: UsartIfTxState,
    u1: UsartState,
    o1: Seq<UsartCommand>,
    txpduid: u16,
    txpduinfo: Option<&PduInfoType>,
    r: UsartIf_ReturnType,
) -> bool {
    let refused = !spec_tx_det_ok(txpduid, txpduinfo) || u0.error@[1] || u0.tx_busy@[1]
        || st0.status0() == 1 || st0.status0() == 2;
    if refused {
        &&& r == UsartIf_ReturnType::USARTIF_NOT_OK
        &&& st1 == st0
        &&& u1 == u0
        &&& o1 == o0
    } else {
        let p = txpduinfo.unwrap();
        let data = p.data.unwrap()@.subrange(0, p.length as int);
        &&& st1.confirmation@ =~= st0.confirmation@.update(0, 1)
        &&& if p.length <= 128 {
            &&& r == UsartIf_ReturnType::USARTIF_OK
            &&& st1.pdu_status@ =~= st0.pdu_status@.update(0, spec_with_tx_status(st0.pdu_status@[0], 2))
            &&& st1.active_txpdu@ =~= st0.active_txpdu@.update(1, 0)
            &&& o1 =~= o0.push(UsartCommand { usart: UsartNumber::USART2, op: UsartRegisterOp::ClearTcFlag })
                .push(UsartCommand { usart: UsartNumber::USART2, op: UsartRegisterOp::EnableTxInterrupt })
            &&& spec_usart_send_started(u0, u1, 1, data)
        } else {
            &&& r == UsartIf_ReturnType::USARTIF_NOT_OK
            &&& st1.pdu_status@ =~= st0.pdu_status@.update(0, spec_with_tx_status(st0.pdu_status@[0], 4))
            &&& st1.active_txpdu@ =~= st0.active_txpdu@.update(1, 0xFFFF)
            &&& o1 == o0
            &&& u1 == u0
        }
    }
}

/// Sends a PDU through the USART driver in the background. Refused, with no
/// change, when the development checks fail, the USART is busy or in error,
/// or the PDU is already pending or busy. Otherwise the PDU becomes pending
/// and unconfirmed and is recorded in flight on USART2; if the driver takes
/// the bytes (at most 128) the PDU is busy and the call succeeds, else it
/// is refused, the PDU is in error and nothing is in flight.
pub fn usartif_transmit(
    st: &mut UsartIfTxState,
    usart: &mut UsartState,
    ops: &mut Vec<UsartCommand>,
    txpduid: u16,
    txpduinfo: Option<&PduInfoType>,
) -> (r: UsartIf_ReturnType)
    requires
        old(st).wf(),
        old(usart).wf(),
        match txpduinfo {
            Some(p) => match p.data {
                Some(d) => p.length as int <= d@.len(),
                None => true,
            },
            None => true,
        },
    ensures
        final(st).wf(),
        final(usart).wf(),
        spec_usartif_transmit(*old(st), *old(usart), old(ops)@, *final(st), *final(usart), final(ops)@, txpduid, txpduinfo, r),
{
    let det_check_result = usartif_det_check(txpduid, txpduinfo);
    if det_check_result == UsartIf_ReturnType::USARTIF_NOT_OK {
        return UsartIf_ReturnType::USARTIF_NOT_OK;
    }
    let txpducfg = usartif_get_txpducfg_from_id(txpduid).unwrap();
    let tx_status = usart_get_tx_status(usart, txpducfg.lower_channel);
    if tx_status == UsartTxStatus::Busy || tx_status == UsartTxStatus::Error {
        return UsartIf_ReturnType::USARTIF_NOT_OK;
    }
    let info = txpduinfo.unwrap();
    let data = match &info.data {
        Some(d) => copy_prefix(d, info.length as usize),
        None => Vec::new(),
    };
    let current_state = usartif_get_pdu_status(st, txpduid);
    if current_state == Some(UsartIf_PduStatus::USARTIF_BUSY) || current_state == Some(UsartIf_PduStatus::USARTIF_PENDING) {
        return UsartIf_ReturnType::USARTIF_NOT_OK;
    }
    usartif_set_pdu_status(st, txpduid, UsartIf_PduStatus::USARTIF_PENDING);
    usartif_set_tx_confirmation_status(st, &txpducfg, UsartIf_TxConfirmationStatus::USARTIF_TX_CONFIRMATION_NOT_OK);
    usart_set_pdu_active(st, txpducfg.lower_channel, txpduid);
    let result = usart_start_send_async(usart, ops, txpducfg.lower_channel, &data);
    if result == UsartReturnType::USART_OK {
        usartif_set_pdu_status(st, txpduid, UsartIf_PduStatus::USARTIF_BUSY);
        UsartIf_ReturnType::USARTIF_OK
    } else {
        usartif_reset_pdu_active(st, txpducfg.lower_channel);
        usartif_set_pdu_status(st, txpduid, UsartIf_PduStatus::USARTIF_ERROR);
        UsartIf_ReturnType::USARTIF_NOT_OK
    }
}

fn usartif_set_tx_confirmation_status(st: &mut UsartIfTxState, txpdu: &UsartIf_TxPduType, status: UsartIf_TxConfirmationStatus)
    requires
        old(st).wf(),
    ensures
        final(st).wf(),
        final(st).active_txpdu@ == old(st).active_txpdu@,
        final(st).pdu_status@ == old(st).pdu_status@,
        txpdu.confirmation_index == 0 ==> final(st).confirmation@ == old(st).confirmation@.update(0, match status {
            UsartIf_TxConfirmationStatus::USARTIF_TX_CONFIRMATION_OK => 0u8,
            UsartIf_TxConfirmationStatus::USARTIF_TX_CONFIRMATION_NOT_OK => 1u8,
        }),
        txpdu.confirmation_index != 0 ==> final(st).confirmation@ == old(st).confirmation@,
{
    let index = txpdu.confirmation_index as usize;
    if index < st.confirmation.len() {
        let code: u8 = match status {
            UsartIf_TxConfirmationStatus::USARTIF_TX_CONFIRMATION_OK => 0,
            UsartIf_TxConfirmationStatus::USARTIF_TX_CONFIRMATION_NOT_OK => 1,
        };
        st.confirmation.set(index, code);
    }
}

fn usartif_tx_confirmation(st: &mut UsartIfTxState, txpduid: u16)
    requires
        old(st).wf(),
    ensures
        final(st).wf(),
        final(st).active_txpdu@ == old(st).active_txpdu@,
        txpduid == 0 ==> {
            &&& final(st).confirmation@ == old(st).confirmation@.update(0, 0)
            &&& final(st).pdu_status@ == old(st).pdu_status@.update(0, spec_with_tx_status(old(st).pdu_status@[0], 3))
        },
        txpduid != 0 ==> *final(st) == *old(st),
{
    let txpdu = usartif_get_txpducfg_from_id(txpduid);
    if let Some(txpdu) = txpdu {
        usartif_set_tx_confirmation_status(st, &txpdu, UsartIf_TxConfirmationStatus::USARTIF_TX_CONFIRMATION_OK);
        usartif_set_pdu_status(st, txpduid, UsartIf_PduStatus::USARTIF_COMPLETED);
    }
}

/// Called when a channel's transmission has finished: the PDU in flight on
/// it (if any) is confirmed and completed, and the channel has none in
/// flight any more.
pub fn usartif_tx_confirmation_by_channel(st: &mut UsartIfTxState, channel: UsartNumber)
    requires
        old(st).wf(),
    ensures
        final(st).wf(),
        ({
            let c = spec_channel_index(channel);
            let id = old(st).active_txpdu@[c];
            if id == 0xFFFF {
                *final(st) == *old(st)
            } else {
                &&& final(st).active_txpdu@ == old(st).active_txpdu@.update(c, 0xFFFF)
                &&& id == 0 ==> {
                    &&& final(st).confirmation@ == old(st).confirmation@.update(0, 0)
                    &&& final(st).pdu_status@ == old(st).pdu_status@.update(0, spec_with_tx_status(old(st).pdu_status@[0], 3))
                }
                &&& id != 0 ==> final(st).confirmation@ == old(st).confirmation@ && final(st).pdu_status@ == old(st).pdu_status@
            }
        }),
{
    if let Some(index) = usartif_channel_to_index(channel) {
        let txpduid = st.active_txpdu[index];
        if txpduid != USARTIF_INVALID_PDU_ID {
            usartif_tx_confirmation(st, txpduid);
            usartif_reset_pdu_active(st, channel);
        }
    }
}

/// Whether PDU `txpduid` has been confirmed since it was last sent.
pub fn usartif_get_tx_confirmation_status(st: &UsartIfTxState, txpduid: u16) -> (r: UsartIf_TxConfirmationStatus)
    requires
        st.wf(),
    ensures
        r == (if txpduid == 0 && st.confirmation@[0] == 0 {
            UsartIf_TxConfirmationStatus::USARTIF_TX_CONFIRMATION_OK
        } else {
            UsartIf_TxConfirmationStatus::USARTIF_TX_CONFIRMATION_NOT_OK
        }),
{
    let txpdu = usartif_get_txpducfg_from_id(txpduid);
    if let Some(txpdu) = txpdu {
        let index = txpdu.confirmation_index as usize;
        if index < st.confirmation.len() {
            let status = st.confirmation[index];
            if status == 0 {
                return UsartIf_TxConfirmationStatus::USARTIF_TX_CONFIRMATION_OK;
            }
        }
    }
    UsartIf_TxConfirmationStatus::USARTIF_TX_CONFIRMATION_NOT_OK
}

} // verus!
