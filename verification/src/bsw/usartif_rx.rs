use vstd::prelude::*;
use crate::register::UsartNumber;
use crate::bsw::usartif_type::{
    PduInfoType, UsartIf_ReturnType, UsartIf_RxPduType, UsartIf_PduStatus, UsartIf_RxPduStatusType,
    usartif_status_code, decode_usartif_status, spec_decode_usartif_status, USARTIF_INVALID_PDU_ID,
};
use crate::bsw::usartif_cfg::{get_usartif_rxpdu_config, spec_usartif_rxpdu_config};
use crate::mcal::usart::{
    UsartState, usart_clear_error_status, usart_get_rx_status, usart_start_receive_async, usart_rx_ring_pop,
    usart_rx_ring_is_empty,
};
use crate::mcal::usart_type::{UsartRxStatus, UsartReturnType, UsartCommand, UsartRegisterOp};
use crate::mcal::mcu::{McuState, mcu_get_system_tick_count};
use crate::bsw::usartif_tx::spec_channel_index;

verus! {

/// Receive-side state of the USART interface, by channel: the buffer the
/// upper layer handed over and how many of its bytes count, the write
/// position, the indication code (0 raised, 1 cleared), the channel code
/// of an active reception (0xFFFF for none), the tick of the last byte,
/// and the status code of the configured PDU on USART2.
pub struct UsartIfRxState {
    pub buffers: Vec<Vec<u8>>,
    pub buffer_len: Vec<usize>,
    pub rx_index: Vec<usize>,
    pub indication: Vec<u8>,
    pub active_channel: Vec<u16>,
    pub last_byte_tick: Vec<u32>,
    pub pdu_status: Vec<UsartIf_RxPduStatusType>,
}

impl UsartIfRxState {
    pub open spec fn wf(&self) -> bool {
        &&& self.buffers@.len() == 3
        &&& self.buffer_len@.len() == 3
        &&& self.rx_index@.len() == 3
        &&& self.indication@.len() == 3
        &&& self.active_channel@.len() == 3
        &&& self.last_byte_tick@.len() == 3
        &&& self.pdu_status@.len() == 1
        &&& self.pdu_status@[0].channel == UsartNumber::USART2
        &&& self.pdu_status@[0].status < 5
        &&& forall|c: int| 0 <= c < 3 ==> #[trigger] self.rx_index@[c] <= self.buffer_len@[c]
        &&& forall|c: int| 0 <= c < 3 ==> #[trigger] self.buffer_len@[c] <= self.buffers@[c]@.len()
    }

    /// The bytes of channel `c`'s buffer.
    pub open spec fn buf(&self, c: int) -> Seq<u8> {
        self.buffers@[c]@
    }

    /// The status code of the USART2 PDU.
    pub open spec fn status0(&self) -> u8 {
        self.pdu_status@[0].status
    }

    /// No buffer handed over, nothing received, the PDU idle.
    pub fn new() -> (r: UsartIfRxState)
        ensures
            r.wf(),
            r.status0() == 0,
            forall|c: int| 0 <= c < 3 ==> {
                &&& #[trigger] r.buffer_len@[c] == 0
                &&& r.rx_index@[c] == 0
                &&& r.indication@[c] == 1
                &&& r.active_channel@[c] == 0xFFFF
                &&& r.last_byte_tick@[c] == 0
                &&& r.buf(c).len() == 0
            },
    {
        let r = UsartIfRxState {
            buffers: vec![Vec::new(), Vec::new(), Vec::new()],
            buffer_len: vec![0usize, 0, 0],
            rx_index: vec![0usize, 0, 0],
            indication: vec![1u8, 1, 1],
            active_channel: vec![0xFFFFu16, 0xFFFF, 0xFFFF],
            last_byte_tick: vec![0u32, 0, 0],
            pdu_status: vec![UsartIf_RxPduStatusType { channel: UsartNumber::USART2, status: 0 }],
        };
        assert(r.buffers@[0]@.len() == 0 && r.buffers@[1]@.len() == 0 && r.buffers@[2]@.len() == 0);
        r
    }
}

/// The fields of `a` and `b` other than the buffers, lengths and write
/// positions agree.
pub open spec fn spec_same_flags(a: UsartIfRxState, b: UsartIfRxState) -> bool {
    &&& a.indication@ == b.indication@
    &&& a.active_channel@ == b.active_channel@
    &&& a.last_byte_tick@ == b.last_byte_tick@
    &&& a.pdu_status@ == b.pdu_status@
}

/// The buffers, lengths and write positions of `a` and `b` agree.
pub open spec fn spec_same_buffers(a: UsartIfRxState, b: UsartIfRxState) -> bool {
    &&& a.buffers@ == b.buffers@
    &&& a.buffer_len@ == b.buffer_len@
    &&& a.rx_index@ == b.rx_index@
}

pub open spec fn spec_with_rx_status(e: UsartIf_RxPduStatusType, code: u8) -> UsartIf_RxPduStatusType {
    UsartIf_RxPduStatusType { channel: e.channel, status: code }
}

/// The code stored for an active channel.
pub open spec fn spec_channel_code(ch: UsartNumber) -> u16 {
    match ch {
        UsartNumber::USART1 => 0,
        UsartNumber::USART2 => 1,
        UsartNumber::USART6 => 2,
    }
}

/// A buffer with its first `n` bytes zeroed.
pub open spec fn spec_zero_prefix(b: Seq<u8>, n: int) -> Seq<u8> {
    Seq::new(b.len(), |k: int| if k < n { 0u8 } else { b[k] })
}

fn usartif_channel_to_index(channel: UsartNumber) -> (r: Option<usize>)
    ensures
        r == Some(spec_channel_index(channel) as usize),
{
    match channel {
        UsartNumber::USART1 => Some(0),
        UsartNumber::USART2 => Some(1),
        UsartNumber::USART6 => Some(2),
    }
}

fn usartif_update_last_byte_tick(st: &mut UsartIfRxState, mcu: &McuState, channel: UsartNumber)
    requires
        old(st).wf(),
    ensures
        final(st).wf(),
        spec_same_buffers(*final(st), *old(st)),
        final(st).indication@ == old(st).indication@,
        final(st).active_channel@ == old(st).active_channel@,
        final(st).pdu_status@ == old(st).pdu_status@,
        final(st).last_byte_tick@ == old(st).last_byte_tick@.update(spec_channel_index(channel), mcu.system_tick_count),
{
    if let Some(index) = usartif_channel_to_index(channel) {
        let current_tick = mcu_get_system_tick_count(mcu);
        st.last_byte_tick.set(index, current_tick);
    }
}

fn usartif_get_last_byte_tick(st: &UsartIfRxState, channel: UsartNumber) -> (r: Option<u32>)
    requires
        st.wf(),
    ensures
        r == Some(st.last_byte_tick@[spec_channel_index(channel)]),
{
    if let Some(index) = usartif_channel_to_index(channel) {
        return Some(st.last_byte_tick[index]);
    }
    None
}

fn usartif_get_rx_index(st: &UsartIfRxState, index: usize) -> (r: usize)
    requires
        st.wf(),
    ensures
        r == (if index < 3 { st.rx_index@[index as int] } else { 0 }),
{
    if index < st.rx_index.len() {
        return st.rx_index[index];
    }
    0
}

fn usartif_reset_rx_index(st: &mut UsartIfRxState, index: usize)
    requires
        old(st).wf(),
    ensures
        final(st).wf(),
        spec_same_flags(*final(st), *old(st)),
        final(st).buffers@ == old(st).buffers@,
        final(st).buffer_len@ == old(st).buffer_len@,
        final(st).rx_index@ == (if index < 3 { old(st).rx_index@.update(index as int, 0) } else { old(st).rx_index@ }),
{
    if index < st.rx_index.len() {
        st.rx_index.set(index, 0);
    }
}

/// Zeroes the first `len` bytes of a buffer.
fn usartif_clear_upper_buffer(buffer: &mut Vec<u8>, len: usize)
    requires
        len <= old(buffer)@.len(),
    ensures
        final(buffer)@ == spec_zero_prefix(old(buffer)@, len as int),
{
    let mut k: usize = 0;
    while k < len
        invariant
            len <= buffer@.len(),
            buffer@.len() == old(buffer)@.len(),
            0 <= k <= len,
            forall|j: int| 0 <= j < buffer@.len() ==> #[trigger] buffer@[j] == (if j < k { 0u8 } else { old(buffer)@[j] }),
        decreases len - k,
    {
        buffer.set(k, 0);
        k = k + 1;
    }
    assert(buffer@ =~= spec_zero_prefix(old(buffer)@, len as int));
}

/// Zeroes the counted part of channel `index`'s saved buffer.
fn usartif_clear_saved_buffer(st: &mut UsartIfRxState, index: usize)
    requires
        old(st).wf(),
        index < 3,
    ensures
        final(st).wf(),
        spec_same_flags(*final(st), *old(st)),
        final(st).buffer_len@ == old(st).buffer_len@,
        final(st).rx_index@ == old(st).rx_index@,
        final(st).buffers@.len() == 3,
        final(st).buf(index as int) == spec_zero_prefix(old(st).buf(index as int), old(st).buffer_len@[index as int] as int),
        forall|c: int| 0 <= c < 3 && c != index ==> #[trigger] final(st).buffers@[c] == old(st).buffers@[c],
{
    let len = st.buffer_len[index];
    let mut b: Vec<u8> = Vec::new();
    st.buffers.set_and_swap(index, &mut b);
    usartif_clear_upper_buffer(&mut b, len);
    st.buffers.set_and_swap(index, &mut b);
}

fn usart_save_rx_buffer(st: &mut UsartIfRxState, index: usize, buffer: Vec<u8>, buffer_len: usize)
    requires
        old(st).wf(),
        index < 3,
        buffer_len <= buffer@.len(),
    ensures
        final(st).wf(),
        spec_same_flags(*final(st), *old(st)),
        final(st).buffers@ == old(st).buffers@.update(index as int, buffer),
        final(st).buffer_len@ == old(st).buffer_len@.update(index as int, buffer_len),
        final(st).rx_index@ == old(st).rx_index@.update(index as int, 0),
{
    st.rx_index.set(index, 0);
    st.buffers.set(index, buffer);
    st.buffer_len.set(index, buffer_len);
}

fn usartif_set_channel_indication(st: &mut UsartIfRxState, channel: UsartNumber)
    requires
        old(st).wf(),
    ensures
        final(st).wf(),
        spec_same_buffers(*final(st), *old(st)),
        final(st).active_channel@ == old(st).active_channel@,
        final(st).last_byte_tick@ == old(st).last_byte_tick@,
        final(st).pdu_status@ == old(st).pdu_status@,
        final(st).indication@ == old(st).indication@.update(spec_channel_index(channel), 0),
{
    if let Some(index) = usartif_channel_to_index(channel) {
        st.indication.set(index, 0);
    }
}

fn usartif_clear_channel_indication(st: &mut UsartIfRxState, channel: UsartNumber)
    requires
        old(st).wf(),
    ensures
        final(st).wf(),
        spec_same_buffers(*final(st), *old(st)),
        final(st).active_channel@ == old(st).active_channel@,
        final(st).last_byte_tick@ == old(st).last_byte_tick@,
        final(st).pdu_status@ == old(st).pdu_status@,
        final(st).indication@ == old(st).indication@.update(spec_channel_index(channel), 1),
{
    if let Some(index) = usartif_channel_to_index(channel) {
        st.indication.set(index, 1);
    }
}

fn usartif_channel_code(channel: UsartNumber) -> (r: u16)
    ensures
        r == spec_channel_code(channel),
{
    match channel {
        UsartNumber::USART1 => 0,
        UsartNumber::USART2 => 1,
        UsartNumber::USART6 => 2,
    }
}

fn usartif_set_channel_active(st: &mut UsartIfRxState, channel: UsartNumber)
    requires
        old(st).wf(),
    ensures
        final(st).wf(),
        spec_same_buffers(*final(st), *old(st)),
        final(st).indication@ == old(st).indication@,
        final(st).last_byte_tick@ == old(st).last_byte_tick@,
        final(st).pdu_status@ == old(st).pdu_status@,
        final(st).active_channel@ == old(st).active_channel@.update(spec_channel_index(channel), spec_channel_code(channel)),
{
    if let Some(index) = usartif_channel_to_index(channel) {
        st.active_channel.set(index, usartif_channel_code(channel));
    }
}

fn usartif_get_channel_active(st: &UsartIfRxState, channel: UsartNumber) -> (r: Option<UsartNumber>)
    requires
        st.wf(),
    ensures
        ({
            let code = st.active_channel@[spec_channel_index(channel)];
            r == (if code == 0 {
                Some(UsartNumber::USART1)
            } else if code == 1 {
                Some(UsartNumber::USART2)
            } else if code == 2 {
                Some(UsartNumber::USART6)
            } else {
                None::<UsartNumber>
            })
        }),
{
    if let Some(index) = usartif_channel_to_index(channel) {
        let active = st.active_channel[index];
        return if active == 0 {
            Some(UsartNumber::USART1)
        } else if active == 1 {
            Some(UsartNumber::USART2)
        } else if active == 2 {
            Some(UsartNumber::USART6)
        } else {
            None
        };
    }
    None
}

fn usartif_reset_channel_active(st: &mut UsartIfRxState, channel: UsartNumber)
    requires
        old(st).wf(),
    ensures
        final(st).wf(),
        spec_same_buffers(*final(st), *old(st)),
        final(st).indication@ == old(st).indication@,
        final(st).last_byte_tick@ == old(st).last_byte_tick@,
        final(st).pdu_status@ == old(st).pdu_status@,
        final(st).active_channel@ == old(st).active_channel@.update(spec_channel_index(channel), 0xFFFF),
{
    if let Some(index) = usartif_channel_to_index(channel) {
        st.active_channel.set(index, USARTIF_INVALID_PDU_ID);
    }
}

fn usartif_set_pdu_status(st: &mut UsartIfRxState, channel: UsartNumber, status: UsartIf_PduStatus)
    requires
        old(st).wf(),
    ensures
        final(st).wf(),
        spec_same_buffers(*final(st), *old(st)),
        final(st).indication@ == old(st).indication@,
        final(st).last_byte_tick@ == old(st).last_byte_tick@,
        final(st).active_channel@ == old(st).active_channel@,
        channel == UsartNumber::USART2 ==> final(st).pdu_status@ == old(st).pdu_status@.update(
            0,
            spec_with_rx_status(old(st).pdu_status@[0], crate::bsw::usartif_type::spec_usartif_status_code(status)),
        ),
        channel != UsartNumber::USART2 ==> final(st).pdu_status@ == old(st).pdu_status@,
{
    let mut i: usize = 0;
    while i < st.pdu_status.len()
        invariant
            st.wf(),
            0 <= i <= 1,
            i == 1 ==> channel != UsartNumber::USART2,
            *st == *old(st),
        decreases st.pdu_status.len() - i,
    {
        if st.pdu_status[i].channel == channel {
            let e = st.pdu_status[i];
            st.pdu_status.set(i, UsartIf_RxPduStatusType { channel: e.channel, status: usartif_status_code(status) });
            return;
        }
        i = i + 1;
    }
}

/// The status of the PDU received on `channel`; only USART2 has one.
pub fn usartif_get_pdu_status(st: &UsartIfRxState, channel: UsartNumber) -> (r: Option<UsartIf_PduStatus>)
    requires
        st.wf(),
    ensures
        r == (if channel == UsartNumber::USART2 {
            spec_decode_usartif_status(st.status0())
        } else {
            None::<UsartIf_PduStatus>
        }),
        channel == UsartNumber::USART2 ==> r.is_some(),
{
    let mut i: usize = 0;
    while i < st.pdu_status.len()
        invariant
            st.wf(),
            0 <= i <= 1,
            i == 1 ==> channel != UsartNumber::USART2,
        decreases st.pdu_status.len() - i,
    {
        if st.pdu_status[i].channel == channel {
            return decode_usartif_status(st.pdu_status[i].status);
        }
        i = i + 1;
    }
    None
}

fn usartif_get_rxpducfg_from_id(channel: UsartNumber) -> (r: Option<UsartIf_RxPduType>)
    ensures
        r == (if channel == UsartNumber::USART2 {
            Some(spec_usartif_rxpdu_config()[0])
        } else {
            None::<UsartIf_RxPduType>
        }),
{
    let cfg = get_usartif_rxpdu_config();
    let mut i: usize = 0;
    while i < cfg.rx_pdu.len()
        invariant
            cfg.rx_pdu@ == spec_usartif_rxpdu_config(),
            0 <= i <= 1,
            i == 1 ==> channel != UsartNumber::USART2,
        decreases cfg.rx_pdu.len() - i,
    {
        if cfg.rx_pdu[i].lower_channel == channel {
            return Some(cfg.rx_pdu[i]);
        }
        i = i + 1;
    }
    None
}

/// Whether the USART driver holds received bytes for `channel`.
pub fn usartif_rx_data_is_available(usart: &UsartState, channel: UsartNumber) -> (r: bool)
    requires
        usart.wf(),
    ensures
        r == (usart.rx_queue(crate::mcal::usart::spec_usart_index(channel)).len() > 0),
{
    !usart_rx_ring_is_empty(usart, channel)
}

/// Recovers a channel from a reception error: the counted part of its saved
/// buffer is zeroed, no reception is active, the indication is cleared, the
/// PDU is idle, and the driver's error is cleared.
pub fn usartif_recover_rx_error(st: &mut UsartIfRxState, usart: &mut UsartState, ops: &mut Vec<UsartCommand>, channel: UsartNumber)
    requires
        old(st).wf(),
        old(usart).wf(),
    ensures
        final(st).wf(),
        final(usart).wf(),
        ({
            let c = spec_channel_index(channel);
            &&& final(st).buffer_len@ == old(st).buffer_len@
            &&& final(st).rx_index@ == old(st).rx_index@
            &&& final(st).buf(c) == spec_zero_prefix(old(st).buf(c), old(st).buffer_len@[c] as int)
            &&& forall|d: int| 0 <= d < 3 && d != c ==> #[trigger] final(st).buffers@[d] == old(st).buffers@[d]
            &&& final(st).active_channel@ == old(st).active_channel@.update(c, 0xFFFF)
            &&& final(st).indication@ == old(st).indication@.update(c, 1)
            &&& final(st).last_byte_tick@ == old(st).last_byte_tick@
            &&& channel == UsartNumber::USART2 ==> final(st).pdu_status@ == old(st).pdu_status@.update(0, spec_with_rx_status(old(st).pdu_status@[0], 0))
            &&& channel != UsartNumber::USART2 ==> final(st).pdu_status@ == old(st).pdu_status@
            &&& final(ops)@ == old(ops)@.push(UsartCommand { usart: channel, op: UsartRegisterOp::ClearErrorFlags })
            &&& final(usart).error@ == old(usart).error@.update(crate::mcal::usart::spec_usart_index(channel), false)
            &&& final(usart).rx_busy@ == old(usart).rx_busy@
            &&& final(usart).tx_busy@ == old(usart).tx_busy@
            &&& final(usart).head@ == old(usart).head@
            &&& final(usart).tail@ == old(usart).tail@
            &&& final(usart).rx_buffer@ == old(usart).rx_buffer@
            &&& final(usart).tx_buffer@ == old(usart).tx_buffer@
            &&& final(usart).tx_len@ == old(usart).tx_len@
            &&& final(usart).tx_index@ == old(usart).tx_index@
            &&& final(usart).tx_done@ == old(usart).tx_done@
            &&& final(usart).initialized@ == old(usart).initialized@
        }),
{
    if let Some(index) = usartif_channel_to_index(channel) {
        let buffer_len = st.buffer_len[index];
        if buffer_len > 0 {
            usartif_clear_saved_buffer(st, index);
        } else {
            assert(st.buf(index as int) =~= spec_zero_prefix(st.buf(index as int), 0));
        }
    }
    usartif_reset_channel_active(st, channel);
    usartif_clear_channel_indication(st, channel);
    usartif_set_pdu_status(st, channel, UsartIf_PduStatus::USARTIF_IDLE);
    usart_clear_error_status(usart, ops, channel);
}

/// The development checks of a reception request: a PDU description with a
/// buffer, a nonzero length whose low byte is at most the configured 16,
/// on the configured channel USART2.
pub open spec fn spec_rx_det_ok(channel: UsartNumber, info: Option<PduInfoType>) -> bool {
    match info {
        None => false,
        Some(p) => p.data.is_some() && p.length != 0 && channel == UsartNumber::USART2 && (p.length as u8) <= 16,
    }
}

fn usartif_det_check(channel: UsartNumber, pduinfo: &Option<PduInfoType>) -> (r: UsartIf_ReturnType)
    ensures
        r == (if spec_rx_det_ok(channel, *pduinfo) { UsartIf_ReturnType::USARTIF_OK } else { UsartIf_ReturnType::USARTIF_NOT_OK }),
{
    match pduinfo {
        None => UsartIf_ReturnType::USARTIF_NOT_OK,
        Some(info) => {
            if info.data.is_none() {
                return UsartIf_ReturnType::USARTIF_NOT_OK;
            }
            if info.length == 0 {
                return UsartIf_ReturnType::USARTIF_NOT_OK;
            } else {
                let rxpdu = usartif_get_rxpducfg_from_id(channel);
                if let Some(rxpdu) = rxpdu {
                    if (info.length as u8) > rxpdu.rx_pdu_length {
                        return UsartIf_ReturnType::USARTIF_NOT_OK;
                    }
                    return UsartIf_ReturnType::USARTIF_OK;
                }
            }
            UsartIf_ReturnType::USARTIF_NOT_OK
        },
    }
}

/// The USART driver state is the same in `a` and `b`.
pub open spec fn spec_usart_same(a: UsartState, b: UsartState) -> bool {
    &&& a.initialized@ == b.initialized@
    &&& a.tx_buffer@ == b.tx_buffer@
    &&& a.rx_buffer@ == b.rx_buffer@
    &&& a.tx_len@ == b.tx_len@
    &&& a.tx_index@ == b.tx_index@
    &&& a.tx_busy@ == b.tx_busy@
    &&& a.rx_busy@ == b.rx_busy@
    &&& a.tx_done@ == b.tx_done@
    &&& a.error@ == b.error@
    &&& a.head@ == b.head@
    &&& a.tail@ == b.tail@
}

/// A request to start a reception, from `s0`, `u0`, `o0` to `s1`, `u1`,
/// `o1`, answered with `r`.
pub open spec fn spec_start_reception(
    s0: UsartIfRxState,
    u0: UsartState,
    o0: Seq<UsartCommand>,
    s1: UsartIfRxState,
    u1: UsartState,
    o1: Seq<UsartCommand>,
    channel: UsartNumber,
    pduinfo: Option<PduInfoType>,
    r: UsartIf_ReturnType,
) -> bool {
    &&& !spec_rx_det_ok(channel, pduinfo) ==> ({
        &&& r == UsartIf_ReturnType::USARTIF_NOT_OK
        &&& s1 == s0
        &&& u1 == u0
        &&& o1 == o0
    })
    &&& spec_rx_det_ok(channel, pduinfo) && (u0.error@[1] || s0.status0() == 4) ==> ({
        &&& r == UsartIf_ReturnType::USARTIF_NOT_OK
        &&& s1.buffer_len@ =~= s0.buffer_len@
        &&& s1.rx_index@ =~= s0.rx_index@
        &&& s1.buf(1) =~= spec_zero_prefix(s0.buf(1), s0.buffer_len@[1] as int)
        &&& s1.active_channel@ =~= s0.active_channel@.update(1, 0xFFFF)
        &&& s1.indication@ =~= s0.indication@.update(1, 1)
        &&& s1.pdu_status@ =~= s0.pdu_status@.update(0, spec_with_rx_status(s0.pdu_status@[0], 0))
        &&& o1 =~= o0.push(UsartCommand { usart: UsartNumber::USART2, op: UsartRegisterOp::ClearErrorFlags })
        &&& u1.error@ =~= u0.error@.update(1, false)
        &&& u1.rx_busy@ =~= u0.rx_busy@
        &&& u1.tx_busy@ =~= u0.tx_busy@
        &&& u1.head@ =~= u0.head@
        &&& u1.tail@ =~= u0.tail@
        &&& u1.rx_buffer@ =~= u0.rx_buffer@
        &&& u1.tx_buffer@ =~= u0.tx_buffer@
        &&& u1.tx_len@ =~= u0.tx_len@
        &&& u1.tx_index@ =~= u0.tx_index@
        &&& u1.tx_done@ =~= u0.tx_done@
        &&& u1.initialized@ =~= u0.initialized@
        &&& s1.last_byte_tick@ =~= s0.last_byte_tick@
        &&& forall|d: int| 0 <= d < 3 && d != 1 ==> #[trigger] s1.buffers@[d] == s0.buffers@[d]
    })
    &&& spec_rx_det_ok(channel, pduinfo) && !u0.error@[1] && (s0.status0() == 0 || s0.status0() == 3) ==> ({
        let p = pduinfo.unwrap();
        let n = p.length as int;
        &&& s1.buf(1) =~= spec_zero_prefix(p.data.unwrap()@, n)
        &&& s1.buffer_len@ =~= s0.buffer_len@.update(1, n as usize)
        &&& s1.rx_index@ =~= s0.rx_index@.update(1, 0)
        &&& s1.indication@ =~= s0.indication@.update(1, 1)
        &&& s1.last_byte_tick@ =~= s0.last_byte_tick@
        &&& forall|d: int| 0 <= d < 3 && d != 1 ==> #[trigger] s1.buffers@[d] == s0.buffers@[d]
        &&& if u0.rx_busy@[1] {
            &&& r == UsartIf_ReturnType::USARTIF_OK
            &&& s1.pdu_status@ =~= s0.pdu_status@.update(0, spec_with_rx_status(s0.pdu_status@[0], 2))
            &&& s1.active_channel@ =~= s0.active_channel@.update(1, 1)
            &&& u1 == u0
            &&& o1 == o0
        } else if n > 128 {
            &&& r == UsartIf_ReturnType::USARTIF_NOT_OK
            &&& s1.pdu_status@ =~= s0.pdu_status@.update(0, spec_with_rx_status(s0.pdu_status@[0], 4))
            &&& s1.active_channel@ =~= s0.active_channel@.update(1, 0xFFFF)
            &&& u1 == u0
            &&& o1 == o0
        } else {
            &&& r == UsartIf_ReturnType::USARTIF_OK
            &&& s1.pdu_status@ =~= s0.pdu_status@.update(0, spec_with_rx_status(s0.pdu_status@[0], 2))
            &&& s1.active_channel@ =~= s0.active_channel@.update(1, 1)
            &&& u1.rx_busy@ =~= u0.rx_busy@.update(1, true)
            &&& u1.initialized@ =~= u0.initialized@
            &&& u1.tx_buffer@ =~= u0.tx_buffer@
            &&& u1.rx_buffer@ =~= u0.rx_buffer@
            &&& u1.tx_len@ =~= u0.tx_len@
            &&& u1.tx_index@ =~= u0.tx_index@
            &&& u1.tx_busy@ =~= u0.tx_busy@
            &&& u1.tx_done@ =~= u0.tx_done@
            &&& u1.error@ =~= u0.error@
            &&& u1.head@ =~= u0.head@
            &&& u1.tail@ =~= u0.tail@
            &&& o1 =~= o0.push(UsartCommand { usart: UsartNumber::USART2, op: UsartRegisterOp::EnableRxInterrupt })
        }
    })
    &&& spec_rx_det_ok(channel, pduinfo) && !u0.error@[1] && (s0.status0() == 1 || s0.status0() == 2) ==> ({
        &&& r == UsartIf_ReturnType::USARTIF_NOT_OK
        &&& spec_same_buffers(s1, s0)
        &&& s1.indication@ =~= s0.indication@
        &&& s1.last_byte_tick@ =~= s0.last_byte_tick@
        &&& s1.pdu_status@ =~= s0.pdu_status@.update(0, spec_with_rx_status(s0.pdu_status@[0], 4))
        &&& s1.active_channel@ =~= s0.active_channel@.update(1, 0xFFFF)
        &&& u1 == u0
        &&& o1 == o0
    })
}

/// Starts receiving a PDU on `channel` into the buffer of `pduinfo`.
/// - Failing the development checks: refused, no change.
/// - With the driver or the PDU in error: the channel is recovered (as by
///   `usartif_recover_rx_error`) and the request refused.
/// - With the PDU idle or completed: the buffer is taken over with its
///   first `length` bytes zeroed, the write position reset, the indication
///   cleared and the channel active; the driver is asked to receive. When
///   it accepts or is already receiving, the PDU is busy and the call
///   succeeds; otherwise the PDU is in error, the channel inactive, and the
///   call refused.
/// - With the PDU pending or busy: the PDU is put in error, the channel
///   inactive, and the call refused.
#[verifier::rlimit(60)]
pub fn usartif_startofreception(
    st: &mut UsartIfRxState,
    usart: &mut UsartState,
    ops: &mut Vec<UsartCommand>,
    channel: UsartNumber,
    pduinfo: Option<PduInfoType>,
) -> (r: UsartIf_ReturnType)
    requires
        old(st).wf(),
        old(usart).wf(),
        match pduinfo {
            Some(p) => match p.data {
                Some(d) => p.length as int <= d@.len(),
                None => true,
            },
            None => true,
        },
    ensures
        final(st).wf(),
        final(usart).wf(),
        spec_start_reception(*old(st), *old(usart), old(ops)@, *final(st), *final(usart), final(ops)@, channel, pduinfo, r),
{
    let det_check_result = usartif_det_check(channel, &pduinfo);
    if det_check_result == UsartIf_ReturnType::USARTIF_OK {
        let rxpdu = usartif_get_rxpducfg_from_id(channel).unwrap();
        let lower_status = usart_get_rx_status(usart, rxpdu.lower_channel);
        let current_status = usartif_get_pdu_status(st, rxpdu.lower_channel).unwrap();
        if lower_status == UsartRxStatus::Error || current_status == UsartIf_PduStatus::USARTIF_ERROR {
            usartif_recover_rx_error(st, usart, ops, rxpdu.lower_channel);
            return UsartIf_ReturnType::USARTIF_NOT_OK;
        }
        let info = pduinfo.unwrap();
        let buffer_len = info.length as usize;
        if current_status == UsartIf_PduStatus::USARTIF_IDLE || current_status == UsartIf_PduStatus::USARTIF_COMPLETED {
            let index = usartif_channel_to_index(rxpdu.lower_channel).unwrap();
            let buffer = info.data.unwrap();
            usart_save_rx_buffer(st, index, buffer, buffer_len);
            usartif_clear_channel_indication(st, rxpdu.lower_channel);
            usartif_clear_saved_buffer(st, index);
            usartif_reset_rx_index(st, index);
            usartif_set_pdu_status(st, rxpdu.lower_channel, UsartIf_PduStatus::USARTIF_PENDING);
            usartif_set_channel_active(st, rxpdu.lower_channel);
            let status = usart_start_receive_async(usart, ops, rxpdu.lower_channel, buffer_len);
            if status == UsartReturnType::USART_OK || status == UsartReturnType::USART_BUSY {
                usartif_set_pdu_status(st, rxpdu.lower_channel, UsartIf_PduStatus::USARTIF_BUSY);
                return UsartIf_ReturnType::USARTIF_OK;
            } else {
                let ghost before = st.buf(1);
                usartif_set_pdu_status(st, rxpdu.lower_channel, UsartIf_PduStatus::USARTIF_ERROR);
                usartif_clear_saved_buffer(st, index);
                assert(st.buf(1) =~= before);
                usartif_reset_channel_active(st, rxpdu.lower_channel);
                return UsartIf_ReturnType::USARTIF_NOT_OK;
            }
        } else {
            usartif_set_pdu_status(st, rxpdu.lower_channel, UsartIf_PduStatus::USARTIF_ERROR);
            usartif_reset_channel_active(st, rxpdu.lower_channel);
            return UsartIf_ReturnType::USARTIF_NOT_OK;
        }
    } else {
        return det_check_result;
    }
}

/// Ends a reception in error after a timeout: the counted part of the buffer
/// is zeroed, the write position reset, no reception active, the indication
/// cleared, and the PDU in error.
fn usartif_pdu_timeout_processing(st: &mut UsartIfRxState, channel: UsartNumber)
    requires
        old(st).wf(),
        channel == UsartNumber::USART2,
    ensures
        final(st).wf(),
        final(st).buffer_len@ == old(st).buffer_len@,
        final(st).buf(1) == spec_zero_prefix(old(st).buf(1), old(st).buffer_len@[1] as int),
        forall|d: int| 0 <= d < 3 && d != 1 ==> #[trigger] final(st).buffers@[d] == old(st).buffers@[d],
        final(st).rx_index@ == old(st).rx_index@.update(1, 0),
        final(st).active_channel@ == old(st).active_channel@.update(1, 0xFFFF),
        final(st).indication@ == old(st).indication@.update(1, 1),
        final(st).last_byte_tick@ == old(st).last_byte_tick@,
        final(st).pdu_status@ == old(st).pdu_status@.update(0, spec_with_rx_status(old(st).pdu_status@[0], 4)),
{
    if let Some(index) = usartif_channel_to_index(channel) {
        let buffer_len = st.buffer_len[index];
        if buffer_len > 0 {
            usartif_clear_saved_buffer(st, index);
        } else {
            assert(st.buf(1) =~= spec_zero_prefix(st.buf(1), 0));
        }
    }
    if let Some(index) = usartif_channel_to_index(channel) {
        usartif_reset_rx_index(st, index);
    }
    usartif_reset_channel_active(st, channel);
    usartif_clear_channel_indication(st, channel);
    usartif_set_pdu_status(st, channel, UsartIf_PduStatus::USARTIF_ERROR);
}

fn usartif_rx_data_is_timeout(st: &UsartIfRxState, mcu: &McuState, channel: UsartNumber, timeout_ms: u32) -> (r: bool)
    requires
        st.wf(),
    ensures
        r == (crate::bsw::button::spec_elapsed(mcu.system_tick_count, st.last_byte_tick@[spec_channel_index(channel)]) >= timeout_ms),
{
    if let Some(last_byte_tick) = usartif_get_last_byte_tick(st, channel) {
        let current_tick = mcu_get_system_tick_count(mcu);
        let elapsed_time = current_tick.wrapping_sub(last_byte_tick);
        return elapsed_time >= timeout_ms;
    }
    false
}

/// A timeout check on USART2 from `s0` to `s1` at tick `tick`.
pub open spec fn spec_rx_timeout(s0: UsartIfRxState, s1: UsartIfRxState, tick: u32) -> bool {
    let timed_out = s0.rx_index@[1] != 0 && s0.status0() == 2
        && crate::bsw::button::spec_elapsed(tick, s0.last_byte_tick@[1]) >= 1000;
    if timed_out {
        &&& s1.buffer_len@ =~= s0.buffer_len@
        &&& s1.buf(1) =~= spec_zero_prefix(s0.buf(1), s0.buffer_len@[1] as int)
        &&& forall|d: int| 0 <= d < 3 && d != 1 ==> #[trigger] s1.buffers@[d] == s0.buffers@[d]
        &&& s1.rx_index@ =~= s0.rx_index@.update(1, 0)
        &&& s1.active_channel@ =~= s0.active_channel@.update(1, 0xFFFF)
        &&& s1.indication@ =~= s0.indication@.update(1, 1)
        &&& s1.last_byte_tick@ =~= s0.last_byte_tick@
        &&& s1.pdu_status@ =~= s0.pdu_status@.update(0, spec_with_rx_status(s0.pdu_status@[0], 4))
    } else {
        s1 == s0
    }
}

/// Ends a running reception in error when bytes have arrived but none for
/// the configured 1000 ms; otherwise nothing changes.
pub fn usartif_rx_timeout_processing(st: &mut UsartIfRxState, mcu: &McuState, channel: UsartNumber)
    requires
        old(st).wf(),
        channel == UsartNumber::USART2,
    ensures
        final(st).wf(),
        spec_rx_timeout(*old(st), *final(st), mcu.system_tick_count),
{
    let index = usartif_channel_to_index(channel).unwrap();
    let buffer_index = usartif_get_rx_index(st, index);
    let current_status = usartif_get_pdu_status(st, channel).unwrap();
    if buffer_index == 0 {
        return;
    }
    if current_status != UsartIf_PduStatus::USARTIF_BUSY {
        return;
    }
    if let Some(rxpdu) = usartif_get_rxpducfg_from_id(channel) {
        if usartif_rx_data_is_timeout(st, mcu, channel, rxpdu.rx_timeout) {
            usartif_pdu_timeout_processing(st, channel);
        }
    }
}

/// One CRC-8 shift step (polynomial x^8 + x^2 + x + 1).
pub open spec fn spec_crc_shift(c: u8) -> u8 {
    if c & 0x80u8 != 0 {
        (c << 1u8) ^ 0x07u8
    } else {
        c << 1u8
    }
}

pub open spec fn spec_crc_rounds(c: u8, n: nat) -> u8
    decreases n,
{
    if n == 0 {
        c
    } else {
        spec_crc_rounds(spec_crc_shift(c), (n - 1) as nat)
    }
}

/// CRC-8 of a byte string: initial value 0, each byte xored in and then
/// shifted eight times.
pub open spec fn spec_crc8(s: Seq<u8>) -> u8
    decreases s.len(),
{
    if s.len() == 0 {
        0
    } else {
        spec_crc_rounds(spec_crc8(s.drop_last()) ^ s.last(), 8)
    }
}

/// The CRC-8 of `data`.
fn usartif_crc8_calc(data: &[u8]) -> (r: u8)
    ensures
        r == spec_crc8(data@),
{
    let mut crc: u8 = 0x00;
    let mut i: usize = 0;
    while i < data.len()
        invariant
            0 <= i <= data@.len(),
            crc == spec_crc8(data@.subrange(0, i as int)),
        decreases data@.len() - i,
    {
        let byte = data[i];
        crc = crc ^ byte;
        let ghost start = crc;
        let mut j: usize = 0;
        while j < 8
            invariant
                0 <= j <= 8,
                spec_crc_rounds(crc, (8 - j) as nat) == spec_crc_rounds(start, 8),
            decreases 8 - j,
        {
            if (crc & 0x80) != 0 {
                crc = (crc << 1u8) ^ 0x07;
            } else {
                crc = crc << 1u8;
            }
            j = j + 1;
        }
        assert(data@.subrange(0, i + 1).drop_last() =~= data@.subrange(0, i as int));
        i = i + 1;
    }
    assert(data@.subrange(0, data@.len() as int) =~= data@);
    crc
}

/// The value of a hexadecimal digit; any other byte counts as 0.
pub open spec fn spec_ascii_to_hex(b: u8) -> u8 {
    if 48 <= b <= 57 {
        (b - 48) as u8
    } else if 65 <= b <= 70 {
        (b - 65 + 10) as u8
    } else if 97 <= b <= 102 {
        (b - 97 + 10) as u8
    } else {
        0
    }
}

fn usartif_ascii_to_hex(byte: u8) -> (r: u8)
    ensures
        r == spec_ascii_to_hex(byte),
        r < 16,
{
    if 48u8 <= byte && byte <= 57u8 {
        byte - 48u8
    } else if 65u8 <= byte && byte <= 70u8 {
        byte - 65u8 + 10
    } else if 97u8 <= byte && byte <= 102u8 {
        byte - 97u8 + 10
    } else {
        0
    }
}

/// The byte written as two hexadecimal digits, high digit first.
pub open spec fn spec_pair_ascii_to_hex(high: u8, low: u8) -> u8 {
    (spec_ascii_to_hex(high) * 16 + spec_ascii_to_hex(low)) as u8
}

fn usartif_pair_ascii_to_hex(high: u8, low: u8) -> (r: u8)
    ensures
        r == spec_pair_ascii_to_hex(high, low),
{
    let h = usartif_ascii_to_hex(high);
    let l = usartif_ascii_to_hex(low);
    assert((h << 4u8) | l == h * 16 + l) by (bit_vector)
        requires h < 16u8, l < 16u8;
    (h << 4u8) | l
}

fn usartif_write_buffer_byte(st: &mut UsartIfRxState, index: usize, k: usize, byte: u8)
    requires
        old(st).wf(),
        index < 3,
        k < old(st).buffer_len@[index as int],
    ensures
        final(st).wf(),
        spec_same_flags(*final(st), *old(st)),
        final(st).buffer_len@ == old(st).buffer_len@,
        final(st).rx_index@ == old(st).rx_index@,
        final(st).buffers@.len() == 3,
        final(st).buf(index as int) == old(st).buf(index as int).update(k as int, byte),
        forall|c: int| 0 <= c < 3 && c != index ==> #[trigger] final(st).buffers@[c] == old(st).buffers@[c],
{
    let mut b: Vec<u8> = Vec::new();
    st.buffers.set_and_swap(index, &mut b);
    b.set(k, byte);
    st.buffers.set_and_swap(index, &mut b);
}

fn usartif_increase_rx_index(st: &mut UsartIfRxState, index: usize)
    requires
        old(st).wf(),
        index < 3 ==> old(st).rx_index@[index as int] < old(st).buffer_len@[index as int],
    ensures
        final(st).wf(),
        spec_same_flags(*final(st), *old(st)),
        final(st).buffers@ == old(st).buffers@,
        final(st).buffer_len@ == old(st).buffer_len@,
        final(st).rx_index@ == (if index < 3 {
            old(st).rx_index@.update(index as int, (old(st).rx_index@[index as int] + 1) as usize)
        } else {
            old(st).rx_index@
        }),
{
    if index < st.rx_index.len() {
        let current_index = st.rx_index[index];
        let new_index = current_index + 1;
        st.rx_index.set(index, new_index);
    }
}

/// A frame buffer with its two trailing CRC characters zeroed.
pub open spec fn spec_strip_crc(buf: Seq<u8>, index: int) -> Seq<u8> {
    if index >= 2 {
        buf.update(index - 2, 0).update(index - 1, 0)
    } else {
        buf
    }
}

fn usartif_remove_crc_from_buffer(st: &mut UsartIfRxState, channel: UsartNumber)
    requires
        old(st).wf(),
        channel == UsartNumber::USART2,
    ensures
        final(st).wf(),
        spec_same_flags(*final(st), *old(st)),
        final(st).buffer_len@ == old(st).buffer_len@,
        final(st).buffers@.len() == 3,
        final(st).buf(1) == spec_strip_crc(old(st).buf(1), old(st).rx_index@[1] as int),
        forall|c: int| 0 <= c < 3 && c != 1 ==> #[trigger] final(st).buffers@[c] == old(st).buffers@[c],
        final(st).rx_index@ == (if old(st).rx_index@[1] >= 2 {
            old(st).rx_index@.update(1, (old(st).rx_index@[1] - 2) as usize)
        } else {
            old(st).rx_index@
        }),
{
    let index = usartif_channel_to_index(channel).unwrap();
    let current_index = usartif_get_rx_index(st, index);
    if current_index >= 2 {
        usartif_write_buffer_byte(st, index, current_index - 2, 0);
        usartif_write_buffer_byte(st, index, current_index - 1, 0);
        st.rx_index.set(index, current_index - 2);
    }
}

/// Whether a terminated frame of `index` bytes passes the CRC check: with
/// the check on, it holds at least three bytes and the last two are the
/// hexadecimal CRC-8 of the bytes before them.
pub open spec fn spec_frame_ok(buf: Seq<u8>, index: int, crc_on: bool) -> bool {
    !crc_on || (index >= 3 && spec_crc8(buf.subrange(0, index - 2)) == spec_pair_ascii_to_hex(buf[index - 2], buf[index - 1]))
}

/// Feeds the received bytes `bytes[k..]` to a reception with buffer `buf`,
/// write position `index` and length `len`. Returns the buffer, the write
/// position, the outcome as a status code (2 still busy, 3 completed,
/// 4 error), the number of bytes consumed, and whether a byte was stored.
/// A carriage return or line feed ends the frame; a full buffer is an error.
pub open spec fn spec_rx_scan(
    buf: Seq<u8>,
    index: int,
    len: int,
    crc_on: bool,
    bytes: Seq<u8>,
    k: int,
    stored: bool,
) -> (Seq<u8>, int, u8, int, bool)
    decreases bytes.len() - k,
{
    if k < 0 || k >= bytes.len() {
        (buf, index, 2u8, k, stored)
    } else if index >= len {
        (buf, index, 4u8, k + 1, stored)
    } else if bytes[k] == 13 || bytes[k] == 10 {
        if spec_frame_ok(buf, index, crc_on) {
            (spec_strip_crc(buf, index), 0, 3u8, k + 1, stored)
        } else {
            (buf, index, 4u8, k + 1, stored)
        }
    } else if index + 1 >= len {
        (buf.update(index, bytes[k]), index + 1, 4u8, k + 1, true)
    } else {
        spec_rx_scan(buf.update(index, bytes[k]), index + 1, len, crc_on, bytes, k + 1, true)
    }
}



/// The buffer of channel `c` in `st`, unchanged for every other channel.
pub open spec fn spec_rx_others_same(a: UsartIfRxState, b: UsartIfRxState, i: int) -> bool {
    &&& a.buffer_len@ == b.buffer_len@
    &&& a.buffers@.len() == b.buffers@.len()
    &&& forall|c: int| 0 <= c < 3 && c != i ==> #[trigger] a.buffers@[c] == b.buffers@[c]
    &&& forall|c: int| 0 <= c < 3 && c != i ==> #[trigger] a.rx_index@[c] == b.rx_index@[c]
    &&& forall|c: int| 0 <= c < 3 && c != i ==> #[trigger] a.last_byte_tick@[c] == b.last_byte_tick@[c]
    &&& forall|c: int| 0 <= c < 3 && c != i ==> #[trigger] a.indication@[c] == b.indication@[c]
    &&& forall|c: int| 0 <= c < 3 && c != i ==> #[trigger] a.active_channel@[c] == b.active_channel@[c]
    &&& a.indication@.len() == 3 && a.active_channel@.len() == 3
    &&& a.last_byte_tick@.len() == 3 && a.rx_index@.len() == 3
}

/// Only the receive ring of channel `i` moved, and only by consuming bytes.
pub open spec fn spec_usart_only_ring(a: UsartState, b: UsartState, i: int) -> bool {
    &&& a.wf()
    &&& a.initialized@ == b.initialized@
    &&& a.tx_buffer@ == b.tx_buffer@
    &&& a.rx_buffer@ == b.rx_buffer@
    &&& a.tx_len@ == b.tx_len@
    &&& a.tx_index@ == b.tx_index@
    &&& a.tx_busy@ == b.tx_busy@
    &&& a.rx_busy@ == b.rx_busy@
    &&& a.tx_done@ == b.tx_done@
    &&& a.error@ == b.error@
    &&& a.head@ == b.head@
    &&& forall|c: int| 0 <= c < 3 && c != i ==> #[trigger] a.rx_queue(c) == b.rx_queue(c)
}

/// A pass of `usartif_rx_processing` on `channel` from `s0`, `u0` to `s1`,
/// `u1`, at tick `tick`.
pub open spec fn spec_rx_processing(s0: UsartIfRxState, u0: UsartState, s1: UsartIfRxState, u1: UsartState, tick: u32, channel: UsartNumber) -> bool {
    &&& spec_usart_only_ring(u1, u0, spec_channel_index(channel))
    &&& spec_rx_others_same(s1, s0, spec_channel_index(channel))
    &&& {
        let i = spec_channel_index(channel);
        let q = u0.rx_queue(i);
        if s0.buffer_len@[i] == 0 {
            &&& s1.buffers@ =~= s0.buffers@
            &&& s1.rx_index@ =~= s0.rx_index@
            &&& s1.indication@ =~= s0.indication@
            &&& s1.active_channel@ =~= s0.active_channel@
            &&& s1.last_byte_tick@ =~= s0.last_byte_tick@
            &&& u1.rx_queue(i) =~= q
            &&& s1.pdu_status@ =~= (if channel == UsartNumber::USART2 {
                s0.pdu_status@.update(0, spec_with_rx_status(s0.pdu_status@[0], 4))
            } else {
                s0.pdu_status@
            })
        } else if s0.status0() != 2 {
            &&& s1 == s0
            &&& u1.rx_queue(i) =~= q
        } else {
            let r = spec_rx_scan(
                s0.buf(1),
                s0.rx_index@[1] as int,
                s0.buffer_len@[1] as int,
                spec_usartif_rxpdu_config()[0].crc,
                q,
                0,
                false,
            );
            &&& s1.buf(1) =~= r.0
            &&& s1.rx_index@[1] == r.1
            &&& s1.status0() == r.2
            &&& s1.pdu_status@[0].channel == UsartNumber::USART2
            &&& 0 <= r.3 <= q.len()
            &&& u1.rx_queue(1) =~= q.subrange(r.3, q.len() as int)
            &&& s1.last_byte_tick@[1] == (if r.4 { tick } else { s0.last_byte_tick@[1] })
            &&& s1.indication@[1] == (if r.2 == 3 { 0u8 } else { s0.indication@[1] })
            &&& s1.active_channel@[1] == (if r.2 == 3 { 0xFFFFu16 } else { s0.active_channel@[1] })
        }
    }
}

/// Moves the bytes waiting in the receive ring of `channel` into the buffer
/// handed over by `usartif_startofreception`, while the PDU is busy. A
/// carriage return or line feed ends the frame: with the CRC check of the
/// PDU configuration on, the frame must hold at least three bytes whose last
/// two are the hexadecimal CRC-8 of the rest, which are then zeroed; the PDU
/// is then completed, the indication raised and the channel released. A
/// frame that fails the check, or that fills the buffer, sets the PDU in
/// error. With no buffer handed over the PDU is set in error at once.
pub fn usartif_rx_processing(st: &mut UsartIfRxState, usart: &mut UsartState, mcu: &McuState, channel: UsartNumber)
    requires
        old(st).wf(),
        old(usart).wf(),
        channel == UsartNumber::USART2 || old(st).buffer_len@[spec_channel_index(channel)] == 0,
    ensures
        final(st).wf(),
        spec_rx_processing(*old(st), *old(usart), *final(st), *final(usart), mcu.system_tick_count, channel),
{
    let index = usartif_channel_to_index(channel).unwrap();
    let buffer_len = st.buffer_len[index];
    if buffer_len == 0 {
        usartif_set_pdu_status(st, channel, UsartIf_PduStatus::USARTIF_ERROR);
        return;
    }
    let current_status = usartif_get_pdu_status(st, channel).unwrap();
    if current_status != UsartIf_PduStatus::USARTIF_BUSY {
        return;
    }
    let ghost s0 = *st;
    let ghost u0 = *usart;
    let ghost q = u0.rx_queue(1);
    let ghost crc_on = spec_usartif_rxpdu_config()[0].crc;
    let ghost target = spec_rx_scan(s0.buf(1), s0.rx_index@[1] as int, buffer_len as int, crc_on, q, 0, false);
    let ghost mut k: int = 0;
    let ghost mut stored: bool = false;
    loop
        invariant
            index == 1,
            channel == UsartNumber::USART2,
            s0 == *old(st),
            u0 == *old(usart),
            s0.wf(),
            u0.wf(),
            q == u0.rx_queue(1),
            crc_on == spec_usartif_rxpdu_config()[0].crc,
            s0.buffer_len@[1] == buffer_len,
            buffer_len > 0,
            s0.status0() == 2,
            target == spec_rx_scan(s0.buf(1), s0.rx_index@[1] as int, buffer_len as int, crc_on, q, 0, false),
            st.wf(),
            st.status0() == 2,
            st.pdu_status@ == s0.pdu_status@,
            0 <= k <= q.len(),
            spec_usart_only_ring(*usart, u0, 1),
            usart.rx_queue(1) == q.subrange(k, q.len() as int),
            spec_rx_others_same(*st, s0, 1),
            st.indication@ == s0.indication@,
            st.active_channel@ == s0.active_channel@,
            st.last_byte_tick@[1] == (if stored { mcu.system_tick_count } else { s0.last_byte_tick@[1] }),
            spec_rx_scan(st.buf(1), st.rx_index@[1] as int, buffer_len as int, crc_on, q, k, stored) == target,
        decreases q.len() - k,
    {
        let popped = usart_rx_ring_pop(usart, channel);
        let byte = match popped {
            Some(b) => b,
            None => {
                assert(k == q.len());
                return;
            }
        };
        assert(q.subrange(k, q.len() as int).drop_first() =~= q.subrange(k + 1, q.len() as int));
        assert(byte == q[k]);
        let current_index = usartif_get_rx_index(st, index);
        if current_index >= buffer_len {
            usartif_set_pdu_status(st, channel, UsartIf_PduStatus::USARTIF_ERROR);
            return;
        }
        if byte == 13u8 || byte == 10u8 {
            let pducfg = usartif_get_rxpducfg_from_id(channel).unwrap();
            if pducfg.crc {
                if current_index < 3 {
                    usartif_set_pdu_status(st, channel, UsartIf_PduStatus::USARTIF_ERROR);
                    return;
                }
                let crc_calc = usartif_crc8_calc(&st.buffers[index].as_slice()[0..current_index - 2]);
                let crc_received = usartif_pair_ascii_to_hex(
                    st.buffers[index][current_index - 2],
                    st.buffers[index][current_index - 1],
                );
                if crc_calc != crc_received {
                    usartif_set_pdu_status(st, channel, UsartIf_PduStatus::USARTIF_ERROR);
                    return;
                }
            }
            usartif_remove_crc_from_buffer(st, channel);
            usartif_set_pdu_status(st, channel, UsartIf_PduStatus::USARTIF_COMPLETED);
            usartif_reset_rx_index(st, index);
            usartif_set_channel_indication(st, channel);
            usartif_reset_channel_active(st, channel);
            return;
        }
        usartif_write_buffer_byte(st, index, current_index, byte);
        if usartif_get_last_byte_tick(st, channel).is_some() {
            usartif_update_last_byte_tick(st, mcu, channel);
        }
        usartif_increase_rx_index(st, index);
        proof {
            k = k + 1;
            stored = true;
        }
        let new_index = usartif_get_rx_index(st, index);
        if new_index >= buffer_len {
            usartif_set_pdu_status(st, channel, UsartIf_PduStatus::USARTIF_ERROR);
            return;
        }
    }
}

} // verus!
