use vstd::prelude::*;
use vstd::string::StringSliceAdditionalSpecFns;
use crate::register::{UsartNumber, IRQn, UsartFlags};
use crate::bsw::usartif_tx::{UsartIfTxState, usartif_tx_confirmation_by_channel};
use crate::mcal::usart_type::{
    UsartReturnType, UsartRxStatus, UsartTxStatus, Usart_ChannelConfigType, Usart_ConfigType, UsartTxRxMode,
    UsartParityType, UsartRegisterOp, UsartCommand,
};

verus! {

/// Bytes held by each channel's transmit buffer and receive ring.
pub const USART_BUFFER_SIZE: usize = 128;

/// Number of USART channels (USART1, USART2, USART6).
pub const USART_CHANNEL_COUNT: usize = 3;

pub open spec fn spec_usart_index(u: UsartNumber) -> int {
    match u {
        UsartNumber::USART1 => 0,
        UsartNumber::USART2 => 1,
        UsartNumber::USART6 => 2,
    }
}

fn usart_channel_to_index(usart_number: UsartNumber) -> (r: usize)
    ensures
        r == spec_usart_index(usart_number),
{
    match usart_number {
        UsartNumber::USART1 => 0,
        UsartNumber::USART2 => 1,
        UsartNumber::USART6 => 2,
    }
}

/// USART2 at 9600 baud, no parity, interrupt driven.
pub open spec fn spec_usart_config() -> Seq<Usart_ChannelConfigType> {
    seq![
        Usart_ChannelConfigType {
            usart_number: UsartNumber::USART2,
            baud_rate: 9600,
            parity: UsartParityType::NONE,
            mode: UsartTxRxMode::INTERRUPT,
            irq_line: IRQn::USART2,
        },
    ]
}

pub fn usart_config() -> (r: Usart_ConfigType)
    ensures
        r.channels@ == spec_usart_config(),
{
    Usart_ConfigType {
        channels: vec![
            Usart_ChannelConfigType {
                usart_number: UsartNumber::USART2,
                baud_rate: 9600,
                parity: UsartParityType::NONE,
                mode: UsartTxRxMode::INTERRUPT,
                irq_line: IRQn::USART2,
            },
        ],
    }
}

/// Driver state of the three USART channels: the transmit buffers and
/// receive rings (128 bytes each, channel after channel), the progress of
/// an asynchronous transmission, the busy/done/error flags and the ring
/// indices.
pub struct UsartState {
    pub initialized: Vec<bool>,
    pub tx_buffer: Vec<u8>,
    pub rx_buffer: Vec<u8>,
    pub tx_len: Vec<usize>,
    pub tx_index: Vec<usize>,
    pub tx_busy: Vec<bool>,
    pub rx_busy: Vec<bool>,
    pub tx_done: Vec<bool>,
    pub error: Vec<bool>,
    pub head: Vec<usize>,
    pub tail: Vec<usize>,
}

/// The bytes queued in a channel's receive ring, oldest first.
pub open spec fn spec_ring(buf: Seq<u8>, c: int, head: int, tail: int) -> Seq<u8> {
    let base = c * 128;
    if tail <= head {
        buf.subrange(base + tail, base + head)
    } else {
        buf.subrange(base + tail, base + 128) + buf.subrange(base, base + head)
    }
}

impl UsartState {
    pub open spec fn wf(&self) -> bool {
        &&& self.initialized@.len() == 3
        &&& self.tx_buffer@.len() == 384
        &&& self.rx_buffer@.len() == 384
        &&& self.tx_len@.len() == 3
        &&& self.tx_index@.len() == 3
        &&& self.tx_busy@.len() == 3
        &&& self.rx_busy@.len() == 3
        &&& self.tx_done@.len() == 3
        &&& self.error@.len() == 3
        &&& self.head@.len() == 3
        &&& self.tail@.len() == 3
        &&& forall|c: int| 0 <= c < 3 ==> #[trigger] self.head@[c] < 128
        &&& forall|c: int| 0 <= c < 3 ==> #[trigger] self.tail@[c] < 128
        &&& forall|c: int| 0 <= c < 3 ==> #[trigger] self.tx_len@[c] <= 128
    }

    /// The bytes waiting in channel `c`'s receive ring.
    pub open spec fn rx_queue(&self, c: int) -> Seq<u8> {
        spec_ring(self.rx_buffer@, c, self.head@[c] as int, self.tail@[c] as int)
    }

    /// Every channel uninitialised, idle, with empty buffers.
    pub fn new() -> (r: UsartState)
        ensures
            r.wf(),
            forall|c: int| 0 <= c < 3 ==> {
                &&& !#[trigger] r.initialized@[c]
                &&& !r.tx_busy@[c]
                &&& !r.rx_busy@[c]
                &&& !r.tx_done@[c]
                &&& !r.error@[c]
                &&& r.head@[c] == 0
                &&& r.tail@[c] == 0
                &&& r.tx_len@[c] == 0
                &&& r.tx_index@[c] == 0
            },
    {
        let mut tx_buffer: Vec<u8> = Vec::new();
        let mut rx_buffer: Vec<u8> = Vec::new();
        let mut i: usize = 0;
        while i < 384
            invariant
                0 <= i <= 384,
                tx_buffer@.len() == i,
                rx_buffer@.len() == i,
            decreases 384 - i,
        {
            tx_buffer.push(0);
            rx_buffer.push(0);
            i = i + 1;
        }
        UsartState {
            initialized: vec![false, false, false],
            tx_buffer,
            rx_buffer,
            tx_len: vec![0usize, 0, 0],
            tx_index: vec![0usize, 0, 0],
            tx_busy: vec![false, false, false],
            rx_busy: vec![false, false, false],
            tx_done: vec![false, false, false],
            error: vec![false, false, false],
            head: vec![0usize, 0, 0],
            tail: vec![0usize, 0, 0],
        }
    }
}

/// The register steps that set up one configured channel.
pub open spec fn spec_usart_channel_init_ops(c: Usart_ChannelConfigType) -> Seq<UsartCommand> {
    let u = c.usart_number;
    seq![UsartCommand { usart: u, op: UsartRegisterOp::EnablePeripheralClock }]
        + (if c.baud_rate != 0 {
        seq![UsartCommand { usart: u, op: UsartRegisterOp::SetBaudRate(c.baud_rate) }]
    } else {
        Seq::empty()
    }) + seq![
        UsartCommand { usart: u, op: UsartRegisterOp::EnableTxRx },
        UsartCommand { usart: u, op: UsartRegisterOp::Enable },
    ] + (if c.parity != UsartParityType::NONE {
        seq![UsartCommand { usart: u, op: UsartRegisterOp::SetParity(c.parity) }]
    } else {
        Seq::empty()
    }) + (if c.mode == UsartTxRxMode::INTERRUPT {
        seq![UsartCommand { usart: u, op: UsartRegisterOp::EnableIrq(c.irq_line) }]
    } else {
        Seq::empty()
    })
}

/// Initialisation of the USART driver from `s0`, `o0` to `s1`, `o1`.
pub open spec fn spec_usart_init(s0: UsartState, o0: Seq<UsartCommand>, s1: UsartState, o1: Seq<UsartCommand>) -> bool {
    let c = spec_usart_config()[0];
    let i = spec_usart_index(c.usart_number);
    if s0.initialized@[i] {
        s1 == s0 && o1 =~= o0
    } else {
        &&& o1 =~= o0 + spec_usart_channel_init_ops(c)
        &&& s1.initialized@ =~= s0.initialized@.update(i, true)
        &&& s1.head@ =~= s0.head@.update(i, 0)
        &&& s1.tail@ =~= s0.tail@.update(i, 0)
        &&& s1.error@ =~= s0.error@.update(i, false)
        &&& s1.tx_buffer@ =~= s0.tx_buffer@
        &&& s1.rx_buffer@ =~= s0.rx_buffer@
        &&& s1.tx_len@ =~= s0.tx_len@
        &&& s1.tx_index@ =~= s0.tx_index@
        &&& s1.tx_busy@ =~= s0.tx_busy@
        &&& s1.rx_busy@ =~= s0.rx_busy@
        &&& s1.tx_done@ =~= s0.tx_done@
    }
}

/// Sets up every configured channel that is not yet initialised: clock,
/// baud rate (unless 0), transmitter and receiver, parity (unless none), its
/// interrupt line when interrupt driven; then an empty receive ring, no
/// error, and the channel marked initialised. Initialised channels are
/// left alone.
pub fn usart_init(st: &mut UsartState, ops: &mut Vec<UsartCommand>)
    requires
        old(st).wf(),
    ensures
        final(st).wf(),
        spec_usart_init(*old(st), old(ops)@, *final(st), final(ops)@),
{
    let cfg = usart_config();
    let mut k: usize = 0;
    while k < cfg.channels.len()
        invariant
            cfg.channels@ == spec_usart_config(),
            0 <= k <= 1,
            st.wf(),
            k == 0 ==> *st == *old(st) && ops@ == old(ops)@,
            k == 1 ==> ({
                let c = spec_usart_config()[0];
                let i = spec_usart_index(c.usart_number);
                if old(st).initialized@[i] {
                    *st == *old(st) && ops@ == old(ops)@
                } else {
                    &&& ops@ == old(ops)@ + spec_usart_channel_init_ops(c)
                    &&& st.initialized@ == old(st).initialized@.update(i, true)
                    &&& st.head@ == old(st).head@.update(i, 0)
                    &&& st.tail@ == old(st).tail@.update(i, 0)
                    &&& st.error@ == old(st).error@.update(i, false)
                    &&& st.tx_buffer@ == old(st).tx_buffer@
                    &&& st.rx_buffer@ == old(st).rx_buffer@
                    &&& st.tx_len@ == old(st).tx_len@
                    &&& st.tx_index@ == old(st).tx_index@
                    &&& st.tx_busy@ == old(st).tx_busy@
                    &&& st.rx_busy@ == old(st).rx_busy@
                    &&& st.tx_done@ == old(st).tx_done@
                }
            }),
        decreases cfg.channels.len() - k,
    {
        let channel = cfg.channels[k];
        let index = usart_channel_to_index(channel.usart_number);
        if !st.initialized[index] {
            let ghost before = ops@;
            ops.push(UsartCommand { usart: channel.usart_number, op: UsartRegisterOp::EnablePeripheralClock });
            if channel.baud_rate != 0 {
                ops.push(UsartCommand { usart: channel.usart_number, op: UsartRegisterOp::SetBaudRate(channel.baud_rate) });
            }
            ops.push(UsartCommand { usart: channel.usart_number, op: UsartRegisterOp::EnableTxRx });
            ops.push(UsartCommand { usart: channel.usart_number, op: UsartRegisterOp::Enable });
            if channel.parity != UsartParityType::NONE {
                ops.push(UsartCommand { usart: channel.usart_number, op: UsartRegisterOp::SetParity(channel.parity) });
            }
            if channel.mode == UsartTxRxMode::INTERRUPT {
                usart_init_interrupt(ops, &channel);
            }
            assert(ops@ =~= before + spec_usart_channel_init_ops(channel));
            usart_rx_ring_clear(st, channel.usart_number);
            usart_set_error(st, channel.usart_number, false);
            st.initialized.set(index, true);
        }
        k = k + 1;
    }
}

/// Enables a channel's interrupt line.
pub fn usart_init_interrupt(ops: &mut Vec<UsartCommand>, config: &Usart_ChannelConfigType)
    ensures
        final(ops)@ == old(ops)@.push(UsartCommand { usart: config.usart_number, op: UsartRegisterOp::EnableIrq(config.irq_line) }),
{
    ops.push(UsartCommand { usart: config.usart_number, op: UsartRegisterOp::EnableIrq(config.irq_line) });
}

fn usart_set_error(st: &mut UsartState, usart_number: UsartNumber, error: bool)
    requires
        old(st).wf(),
    ensures
        final(st).wf(),
        final(st).error@ == old(st).error@.update(spec_usart_index(usart_number), error),
        final(st).initialized@ == old(st).initialized@,
        final(st).tx_buffer@ == old(st).tx_buffer@,
        final(st).rx_buffer@ == old(st).rx_buffer@,
        final(st).tx_len@ == old(st).tx_len@,
        final(st).tx_index@ == old(st).tx_index@,
        final(st).tx_busy@ == old(st).tx_busy@,
        final(st).rx_busy@ == old(st).rx_busy@,
        final(st).tx_done@ == old(st).tx_done@,
        final(st).head@ == old(st).head@,
        final(st).tail@ == old(st).tail@,
{
    let i = usart_channel_to_index(usart_number);
    st.error.set(i, error);
}

fn usart_get_error(st: &UsartState, usart_number: UsartNumber) -> (r: bool)
    requires
        st.wf(),
    ensures
        r == st.error@[spec_usart_index(usart_number)],
{
    st.error[usart_channel_to_index(usart_number)]
}

fn usart_get_busy(st: &UsartState, usart_number: UsartNumber, is_tx: bool) -> (r: bool)
    requires
        st.wf(),
    ensures
        r == (if is_tx { st.tx_busy@[spec_usart_index(usart_number)] } else { st.rx_busy@[spec_usart_index(usart_number)] }),
{
    let i = usart_channel_to_index(usart_number);
    if is_tx {
        st.tx_busy[i]
    } else {
        st.rx_busy[i]
    }
}

fn usart_tx_get_done(st: &UsartState, usart_number: UsartNumber) -> (r: bool)
    requires
        st.wf(),
    ensures
        r == st.tx_done@[spec_usart_index(usart_number)],
{
    st.tx_done[usart_channel_to_index(usart_number)]
}

fn usart_tx_set_len(st: &mut UsartState, usart_number: UsartNumber, len: usize)
    requires
        old(st).wf(),
        len <= 128,
    ensures
        final(st).wf(),
        final(st).tx_len@ == old(st).tx_len@.update(spec_usart_index(usart_number), len),
        final(st).initialized@ == old(st).initialized@,
        final(st).tx_buffer@ == old(st).tx_buffer@,
        final(st).rx_buffer@ == old(st).rx_buffer@,
        final(st).tx_index@ == old(st).tx_index@,
        final(st).tx_busy@ == old(st).tx_busy@,
        final(st).rx_busy@ == old(st).rx_busy@,
        final(st).tx_done@ == old(st).tx_done@,
        final(st).error@ == old(st).error@,
        final(st).head@ == old(st).head@,
        final(st).tail@ == old(st).tail@,
{
    let index = usart_channel_to_index(usart_number);
    st.tx_len.set(index, len);
}

fn usart_tx_set_index(st: &mut UsartState, usart_number: UsartNumber, index: usize)
    requires
        old(st).wf(),
    ensures
        final(st).wf(),
        final(st).tx_index@ == old(st).tx_index@.update(spec_usart_index(usart_number), index),
        final(st).initialized@ == old(st).initialized@,
        final(st).tx_buffer@ == old(st).tx_buffer@,
        final(st).rx_buffer@ == old(st).rx_buffer@,
        final(st).tx_len@ == old(st).tx_len@,
        final(st).tx_busy@ == old(st).tx_busy@,
        final(st).rx_busy@ == old(st).rx_busy@,
        final(st).tx_done@ == old(st).tx_done@,
        final(st).error@ == old(st).error@,
        final(st).head@ == old(st).head@,
        final(st).tail@ == old(st).tail@,
{
    let channel_index = usart_channel_to_index(usart_number);
    st.tx_index.set(channel_index, index);
}

fn usart_set_busy(st: &mut UsartState, usart_number: UsartNumber, busy: bool, is_tx: bool)
    requires
        old(st).wf(),
    ensures
        final(st).wf(),
        final(st).tx_busy@ == (if is_tx { old(st).tx_busy@.update(spec_usart_index(usart_number), busy) } else { old(st).tx_busy@ }),
        final(st).rx_busy@ == (if is_tx { old(st).rx_busy@ } else { old(st).rx_busy@.update(spec_usart_index(usart_number), busy) }),
        final(st).initialized@ == old(st).initialized@,
        final(st).tx_buffer@ == old(st).tx_buffer@,
        final(st).rx_buffer@ == old(st).rx_buffer@,
        final(st).tx_len@ == old(st).tx_len@,
        final(st).tx_index@ == old(st).tx_index@,
        final(st).tx_done@ == old(st).tx_done@,
        final(st).error@ == old(st).error@,
        final(st).head@ == old(st).head@,
        final(st).tail@ == old(st).tail@,
{
    let channel_index = usart_channel_to_index(usart_number);
    if is_tx {
        st.tx_busy.set(channel_index, busy);
    } else {
        st.rx_busy.set(channel_index, busy);
    }
}

fn usart_tx_set_done(st: &mut UsartState, usart_number: UsartNumber, done: bool)
    requires
        old(st).wf(),
    ensures
        final(st).wf(),
        final(st).tx_done@ == old(st).tx_done@.update(spec_usart_index(usart_number), done),
        final(st).initialized@ == old(st).initialized@,
        final(st).tx_buffer@ == old(st).tx_buffer@,
        final(st).rx_buffer@ == old(st).rx_buffer@,
        final(st).tx_len@ == old(st).tx_len@,
        final(st).tx_index@ == old(st).tx_index@,
        final(st).tx_busy@ == old(st).tx_busy@,
        final(st).rx_busy@ == old(st).rx_busy@,
        final(st).error@ == old(st).error@,
        final(st).head@ == old(st).head@,
        final(st).tail@ == old(st).tail@,
{
    let channel_index = usart_channel_to_index(usart_number);
    st.tx_done.set(channel_index, done);
}

fn usart_tx_get_len(st: &UsartState, usart_number: UsartNumber) -> (r: usize)
    requires
        st.wf(),
    ensures
        r == st.tx_len@[spec_usart_index(usart_number)],
{
    st.tx_len[usart_channel_to_index(usart_number)]
}

fn usart_tx_get_index(st: &UsartState, usart_number: UsartNumber) -> (r: usize)
    requires
        st.wf(),
    ensures
        r == st.tx_index@[spec_usart_index(usart_number)],
{
    st.tx_index[usart_channel_to_index(usart_number)]
}

fn usart_tx_set_data_to_channel(st: &mut UsartState, usart_number: UsartNumber, index: usize, byte: u8)
    requires
        old(st).wf(),
        index < 128,
    ensures
        final(st).wf(),
        final(st).tx_buffer@ == old(st).tx_buffer@.update(spec_usart_index(usart_number) * 128 + index, byte),
        final(st).initialized@ == old(st).initialized@,
        final(st).rx_buffer@ == old(st).rx_buffer@,
        final(st).tx_len@ == old(st).tx_len@,
        final(st).tx_index@ == old(st).tx_index@,
        final(st).tx_busy@ == old(st).tx_busy@,
        final(st).rx_busy@ == old(st).rx_busy@,
        final(st).tx_done@ == old(st).tx_done@,
        final(st).error@ == old(st).error@,
        final(st).head@ == old(st).head@,
        final(st).tail@ == old(st).tail@,
{
    let channel_index = usart_channel_to_index(usart_number);
    st.tx_buffer.set(channel_index * USART_BUFFER_SIZE + index, byte);
}

fn usart_get_tx_data_from_channel(st: &UsartState, usart_number: UsartNumber, index: usize) -> (r: u8)
    requires
        st.wf(),
        index < 128,
    ensures
        r == st.tx_buffer@[spec_usart_index(usart_number) * 128 + index],
{
    let channel_index = usart_channel_to_index(usart_number);
    st.tx_buffer[channel_index * USART_BUFFER_SIZE + index]
}

fn usart_set_rx_data_to_channel(st: &mut UsartState, usart_number: UsartNumber, index: usize, byte: u8)
    requires
        old(st).wf(),
        index < 128,
    ensures
        final(st).wf(),
        final(st).rx_buffer@ == old(st).rx_buffer@.update(spec_usart_index(usart_number) * 128 + index, byte),
        final(st).initialized@ == old(st).initialized@,
        final(st).tx_buffer@ == old(st).tx_buffer@,
        final(st).tx_len@ == old(st).tx_len@,
        final(st).tx_index@ == old(st).tx_index@,
        final(st).tx_busy@ == old(st).tx_busy@,
        final(st).rx_busy@ == old(st).rx_busy@,
        final(st).tx_done@ == old(st).tx_done@,
        final(st).error@ == old(st).error@,
        final(st).head@ == old(st).head@,
        final(st).tail@ == old(st).tail@,
{
    let channel_index = usart_channel_to_index(usart_number);
    st.rx_buffer.set(channel_index * USART_BUFFER_SIZE + index, byte);
}

fn usart_get_rx_data_from_channel(st: &UsartState, usart_number: UsartNumber, index: usize) -> (r: u8)
    requires
        st.wf(),
        index < 128,
    ensures
        r == st.rx_buffer@[spec_usart_index(usart_number) * 128 + index],
{
    let channel_index = usart_channel_to_index(usart_number);
    st.rx_buffer[channel_index * USART_BUFFER_SIZE + index]
}

/// Starts bookkeeping for an asynchronous transmission of `len` bytes.
fn usart_start_transmit_async(st: &mut UsartState, usart_number: UsartNumber, len: usize) -> (r: UsartReturnType)
    requires
        old(st).wf(),
        len <= 128,
    ensures
        final(st).wf(),
        final(st).initialized@ == old(st).initialized@,
        final(st).tx_buffer@ == old(st).tx_buffer@,
        final(st).rx_buffer@ == old(st).rx_buffer@,
        final(st).rx_busy@ == old(st).rx_busy@,
        final(st).error@ == old(st).error@,
        final(st).head@ == old(st).head@,
        final(st).tail@ == old(st).tail@,
        ({
            let i = spec_usart_index(usart_number);
            if len == 0 {
                r == UsartReturnType::USART_NOT_OK && *final(st) == *old(st)
            } else if old(st).tx_busy@[i] {
                r == UsartReturnType::USART_BUSY && *final(st) == *old(st)
            } else {
                &&& r == UsartReturnType::USART_OK
                &&& final(st).tx_index@ == old(st).tx_index@.update(i, 0)
                &&& final(st).tx_len@ == old(st).tx_len@.update(i, len)
                &&& final(st).tx_busy@ == old(st).tx_busy@.update(i, true)
                &&& final(st).tx_done@ == old(st).tx_done@.update(i, false)
            }
        }),
{
    let i = usart_channel_to_index(usart_number);
    if len == 0 {
        return UsartReturnType::USART_NOT_OK;
    }
    if st.tx_busy[i] {
        return UsartReturnType::USART_BUSY;
    }
    usart_tx_set_index(st, usart_number, 0);
    usart_tx_set_len(st, usart_number, len);
    usart_set_busy(st, usart_number, true, true);
    usart_tx_set_done(st, usart_number, false);
    UsartReturnType::USART_OK
}

/// Copies `data` into the channel's transmit buffer and enables the
/// transmit interrupt, which then sends it byte by byte.
fn usart_send_async(st: &mut UsartState, ops: &mut Vec<UsartCommand>, usart_number: UsartNumber, data: &Vec<u8>) -> (r: UsartReturnType)
    requires
        old(st).wf(),
    ensures
        final(st).wf(),
        final(st).initialized@ == old(st).initialized@,
        final(st).rx_buffer@ == old(st).rx_buffer@,
        final(st).tx_len@ == old(st).tx_len@,
        final(st).tx_index@ == old(st).tx_index@,
        final(st).tx_busy@ == old(st).tx_busy@,
        final(st).rx_busy@ == old(st).rx_busy@,
        final(st).tx_done@ == old(st).tx_done@,
        final(st).error@ == old(st).error@,
        final(st).head@ == old(st).head@,
        final(st).tail@ == old(st).tail@,
        data@.len() > 128 ==> r == UsartReturnType::USART_NOT_OK && final(st).tx_buffer@ == old(st).tx_buffer@
            && final(ops)@ == old(ops)@,
        data@.len() <= 128 ==> {
            let base = spec_usart_index(usart_number) * 128;
            &&& r == UsartReturnType::USART_OK
            &&& final(ops)@ == old(ops)@.push(UsartCommand { usart: usart_number, op: UsartRegisterOp::EnableTxInterrupt })
            &&& final(st).tx_buffer@.len() == 384
            &&& forall|k: int| 0 <= k < 384 ==> #[trigger] final(st).tx_buffer@[k] == (if base <= k < base + data@.len() {
                data@[k - base]
            } else {
                old(st).tx_buffer@[k]
            })
        },
{
    if data.len() > USART_BUFFER_SIZE {
        return UsartReturnType::USART_NOT_OK;
    }
    let base = usart_channel_to_index(usart_number) * USART_BUFFER_SIZE;
    let mut index: usize = 0;
    while index < data.len()
        invariant
            st.wf(),
            data@.len() <= 128,
            base == spec_usart_index(usart_number) * 128,
            0 <= index <= data@.len(),
            st.initialized@ == old(st).initialized@,
            st.rx_buffer@ == old(st).rx_buffer@,
            st.tx_len@ == old(st).tx_len@,
            st.tx_index@ == old(st).tx_index@,
            st.tx_busy@ == old(st).tx_busy@,
            st.rx_busy@ == old(st).rx_busy@,
            st.tx_done@ == old(st).tx_done@,
            st.error@ == old(st).error@,
            st.head@ == old(st).head@,
            st.tail@ == old(st).tail@,
            forall|k: int| 0 <= k < 384 ==> #[trigger] st.tx_buffer@[k] == (if base <= k < base + index {
                data@[k - base]
            } else {
                old(st).tx_buffer@[k]
            }),
        decreases data@.len() - index,
    {
        usart_tx_set_data_to_channel(st, usart_number, index, data[index]);
        index = index + 1;
    }
    ops.push(UsartCommand { usart: usart_number, op: UsartRegisterOp::EnableTxInterrupt });
    UsartReturnType::USART_OK
}

/// The driver state after a transmission of `data` has been started on
/// channel `i`: progress reset, busy, not done, and `data` at the start of
/// the channel's transmit buffer; everything else as before.
pub open spec fn spec_usart_send_started(s0: UsartState, s1: UsartState, i: int, data: Seq<u8>) -> bool {
    let base = i * 128;
    &&& s1.initialized@ == s0.initialized@
    &&& s1.rx_buffer@ == s0.rx_buffer@
    &&& s1.rx_busy@ == s0.rx_busy@
    &&& s1.error@ == s0.error@
    &&& s1.head@ == s0.head@
    &&& s1.tail@ == s0.tail@
    &&& s1.tx_index@ == s0.tx_index@.update(i, 0)
    &&& s1.tx_len@ == s0.tx_len@.update(i, data.len() as usize)
    &&& s1.tx_busy@ == s0.tx_busy@.update(i, true)
    &&& s1.tx_done@ == s0.tx_done@.update(i, false)
    &&& s1.tx_buffer@.len() == 384
    &&& forall|k: int| 0 <= k < 384 ==> #[trigger] s1.tx_buffer@[k] == (if base <= k < base + data.len() {
        data[k - base]
    } else {
        s0.tx_buffer@[k]
    })
}

/// Starts sending `data` (1 to 128 bytes) in the background. Refused when
/// the data is empty or too long, or the channel has an error; reports busy
/// while an earlier transmission runs. The transmission-complete flag is
/// cleared first whenever the data and channel pass those checks.
pub fn usart_start_send_async(st: &mut UsartState, ops: &mut Vec<UsartCommand>, usart_number: UsartNumber, data: &Vec<u8>) -> (r: UsartReturnType)
    requires
        old(st).wf(),
    ensures
        final(st).wf(),
        final(st).initialized@ == old(st).initialized@,
        final(st).rx_buffer@ == old(st).rx_buffer@,
        final(st).rx_busy@ == old(st).rx_busy@,
        final(st).error@ == old(st).error@,
        final(st).head@ == old(st).head@,
        final(st).tail@ == old(st).tail@,
        ({
            let i = spec_usart_index(usart_number);
            let base = i * 128;
            let clear = UsartCommand { usart: usart_number, op: UsartRegisterOp::ClearTcFlag };
            if data@.len() == 0 || data@.len() > 128 || old(st).error@[i] {
                r == UsartReturnType::USART_NOT_OK && *final(st) == *old(st) && final(ops)@ == old(ops)@
            } else if old(st).tx_busy@[i] {
                r == UsartReturnType::USART_BUSY && *final(st) == *old(st) && final(ops)@ == old(ops)@.push(clear)
            } else {
                &&& r == UsartReturnType::USART_OK
                &&& final(ops)@ == old(ops)@.push(clear).push(UsartCommand { usart: usart_number, op: UsartRegisterOp::EnableTxInterrupt })
                &&& spec_usart_send_started(*old(st), *final(st), i, data@)
            }
        }),
{
    if data.len() == 0 || data.len() > USART_BUFFER_SIZE {
        return UsartReturnType::USART_NOT_OK;
    }
    if usart_get_error(st, usart_number) {
        return UsartReturnType::USART_NOT_OK;
    }
    ops.push(UsartCommand { usart: usart_number, op: UsartRegisterOp::ClearTcFlag });
    let s = usart_start_transmit_async(st, usart_number, data.len());
    if s == UsartReturnType::USART_OK {
        usart_send_async(st, ops, usart_number, data)
    } else {
        s
    }
}

/// The transmit status: error, busy, completed or idle, in that order of
/// precedence.
pub fn usart_get_tx_status(st: &UsartState, usart_number: UsartNumber) -> (r: UsartTxStatus)
    requires
        st.wf(),
    ensures
        ({
            let i = spec_usart_index(usart_number);
            r == (if st.error@[i] {
                UsartTxStatus::Error
            } else if st.tx_busy@[i] {
                UsartTxStatus::Busy
            } else if st.tx_done@[i] {
                UsartTxStatus::Completed
            } else {
                UsartTxStatus::Idle
            })
        }),
{
    if usart_get_error(st, usart_number) {
        UsartTxStatus::Error
    } else if usart_get_busy(st, usart_number, true) {
        UsartTxStatus::Busy
    } else if usart_tx_get_done(st, usart_number) {
        UsartTxStatus::Completed
    } else {
        UsartTxStatus::Idle
    }
}

/// Arms reception of up to `len` (1..=128) bytes through the receive
/// interrupt. Refused on an error or a bad length; busy while armed.
pub fn usart_start_receive_async(st: &mut UsartState, ops: &mut Vec<UsartCommand>, usart_number: UsartNumber, len: usize) -> (r: UsartReturnType)
    requires
        old(st).wf(),
    ensures
        final(st).wf(),
        ({
            let i = spec_usart_index(usart_number);
            if old(st).error@[i] {
                r == UsartReturnType::USART_NOT_OK && *final(st) == *old(st) && final(ops)@ == old(ops)@
            } else if old(st).rx_busy@[i] {
                r == UsartReturnType::USART_BUSY && *final(st) == *old(st) && final(ops)@ == old(ops)@
            } else if len == 0 || len > 128 {
                r == UsartReturnType::USART_NOT_OK && *final(st) == *old(st) && final(ops)@ == old(ops)@
            } else {
                &&& r == UsartReturnType::USART_OK
                &&& final(st).rx_busy@ == old(st).rx_busy@.update(i, true)
                &&& final(st).initialized@ == old(st).initialized@
                &&& final(st).tx_buffer@ == old(st).tx_buffer@
                &&& final(st).rx_buffer@ == old(st).rx_buffer@
                &&& final(st).tx_len@ == old(st).tx_len@
                &&& final(st).tx_index@ == old(st).tx_index@
                &&& final(st).tx_busy@ == old(st).tx_busy@
                &&& final(st).tx_done@ == old(st).tx_done@
                &&& final(st).error@ == old(st).error@
                &&& final(st).head@ == old(st).head@
                &&& final(st).tail@ == old(st).tail@
                &&& final(ops)@ == old(ops)@.push(UsartCommand { usart: usart_number, op: UsartRegisterOp::EnableRxInterrupt })
            }
        }),
{
    if usart_get_error(st, usart_number) {
        return UsartReturnType::USART_NOT_OK;
    }
    if usart_get_busy(st, usart_number, false) {
        return UsartReturnType::USART_BUSY;
    }
    if len == 0 || len > USART_BUFFER_SIZE {
        return UsartReturnType::USART_NOT_OK;
    }
    usart_set_busy(st, usart_number, true, false);
    ops.push(UsartCommand { usart: usart_number, op: UsartRegisterOp::EnableRxInterrupt });
    UsartReturnType::USART_OK
}

/// The receive status: error, busy or idle, in that order of precedence.
pub fn usart_get_rx_status(st: &UsartState, usart_number: UsartNumber) -> (r: UsartRxStatus)
    requires
        st.wf(),
    ensures
        ({
            let i = spec_usart_index(usart_number);
            r == (if st.error@[i] {
                UsartRxStatus::Error
            } else if st.rx_busy@[i] {
                UsartRxStatus::Busy
            } else {
                UsartRxStatus::Idle
            })
        }),
{
    if usart_get_error(st, usart_number) {
        UsartRxStatus::Error
    } else if usart_get_busy(st, usart_number, false) {
        UsartRxStatus::Busy
    } else {
        UsartRxStatus::Idle
    }
}

/// Whether the channel has recorded an error.
pub fn usart_get_error_status(st: &UsartState, usart_number: UsartNumber) -> (r: bool)
    requires
        st.wf(),
    ensures
        r == st.error@[spec_usart_index(usart_number)],
{
    usart_get_error(st, usart_number)
}

/// Clears the hardware error flags and the recorded error.
pub fn usart_clear_error_status(st: &mut UsartState, ops: &mut Vec<UsartCommand>, usart_number: UsartNumber)
    requires
        old(st).wf(),
    ensures
        final(st).wf(),
        final(ops)@ == old(ops)@.push(UsartCommand { usart: usart_number, op: UsartRegisterOp::ClearErrorFlags }),
        final(st).error@ == old(st).error@.update(spec_usart_index(usart_number), false),
        final(st).initialized@ == old(st).initialized@,
        final(st).tx_buffer@ == old(st).tx_buffer@,
        final(st).rx_buffer@ == old(st).rx_buffer@,
        final(st).tx_len@ == old(st).tx_len@,
        final(st).tx_index@ == old(st).tx_index@,
        final(st).tx_busy@ == old(st).tx_busy@,
        final(st).rx_busy@ == old(st).rx_busy@,
        final(st).tx_done@ == old(st).tx_done@,
        final(st).head@ == old(st).head@,
        final(st).tail@ == old(st).tail@,
{
    ops.push(UsartCommand { usart: usart_number, op: UsartRegisterOp::ClearErrorFlags });
    usart_set_error(st, usart_number, false);
}

fn usart_get_rx_buffer_length(usart_number: UsartNumber) -> (r: usize)
    ensures
        r == 128,
{
    match usart_number {
        UsartNumber::USART1 => USART_BUFFER_SIZE,
        UsartNumber::USART2 => USART_BUFFER_SIZE,
        UsartNumber::USART6 => USART_BUFFER_SIZE,
    }
}

/// Queues a received byte; when the ring is full (127 bytes) the byte is
/// dropped and the channel's error is set.
#[verifier::rlimit(40)]
fn usart_rx_ring_push(st: &mut UsartState, usart_number: UsartNumber, byte: u8)
    requires
        old(st).wf(),
    ensures
        final(st).wf(),
        final(st).initialized@ == old(st).initialized@,
        final(st).tx_buffer@ == old(st).tx_buffer@,
        final(st).tx_len@ == old(st).tx_len@,
        final(st).tx_index@ == old(st).tx_index@,
        final(st).tx_busy@ == old(st).tx_busy@,
        final(st).rx_busy@ == old(st).rx_busy@,
        final(st).tx_done@ == old(st).tx_done@,
        final(st).tail@ == old(st).tail@,
        forall|c: int| 0 <= c < 3 && c != spec_usart_index(usart_number) ==> #[trigger] final(st).rx_queue(c) == old(st).rx_queue(c),
        ({
            let i = spec_usart_index(usart_number);
            if old(st).rx_queue(i).len() < 127 {
                &&& final(st).rx_queue(i) == old(st).rx_queue(i).push(byte)
                &&& final(st).error@ == old(st).error@
            } else {
                &&& final(st).rx_queue(i) == old(st).rx_queue(i)
                &&& final(st).rx_buffer@ == old(st).rx_buffer@
                &&& final(st).head@ == old(st).head@
                &&& final(st).error@ == old(st).error@.update(i, true)
            }
        }),
{
    let c = usart_channel_to_index(usart_number);
    let head = st.head[c];
    let tail = st.tail[c];
    let rx_buffer_length = usart_get_rx_buffer_length(usart_number);
    let next_head = (head + 1) % rx_buffer_length;
    let ghost old_st = *st;
    proof {
        lemma_ring_len(old_st.rx_buffer@, c as int, head as int, tail as int);
    }
    if next_head != tail {
        usart_set_rx_data_to_channel(st, usart_number, head, byte);
        st.head.set(c, next_head);
        proof {
            let ci = c as int;
            assert(st.rx_queue(ci) =~= old_st.rx_queue(ci).push(byte));
            assert forall|d: int| 0 <= d < 3 && d != ci implies #[trigger] st.rx_queue(d) == old_st.rx_queue(d) by {
                assert(st.rx_queue(d) =~= old_st.rx_queue(d));
            }
        }
    } else {
        usart_set_error(st, usart_number, true);
    }
}

/// The ring holds (head - tail) mod 128 bytes.
proof fn lemma_ring_len(buf: Seq<u8>, c: int, head: int, tail: int)
    requires
        0 <= c < 3,
        buf.len() == 384,
        0 <= head < 128,
        0 <= tail < 128,
    ensures
        spec_ring(buf, c, head, tail).len() == (if tail <= head { head - tail } else { 128 - tail + head }),
{
}

/// Taking the oldest byte of a receive ring, from `s0` to `s1`, giving `r`.
pub open spec fn spec_ring_pop(s0: UsartState, s1: UsartState, usart_number: UsartNumber, r: Option<u8>) -> bool {
    &&& s1.initialized@ =~= s0.initialized@
    &&& s1.tx_buffer@ =~= s0.tx_buffer@
    &&& s1.rx_buffer@ =~= s0.rx_buffer@
    &&& s1.tx_len@ =~= s0.tx_len@
    &&& s1.tx_index@ =~= s0.tx_index@
    &&& s1.tx_busy@ =~= s0.tx_busy@
    &&& s1.rx_busy@ =~= s0.rx_busy@
    &&& s1.tx_done@ =~= s0.tx_done@
    &&& s1.error@ =~= s0.error@
    &&& s1.head@ =~= s0.head@
    &&& forall|c: int| 0 <= c < 3 && c != spec_usart_index(usart_number) ==> #[trigger] s1.rx_queue(c) == s0.rx_queue(c)
    &&& {
        let i = spec_usart_index(usart_number);
        if s0.rx_queue(i).len() == 0 {
            r == None::<u8> && s1.tail@ =~= s0.tail@
        } else {
            &&& r == Some(s0.rx_queue(i)[0])
            &&& s1.rx_queue(i) =~= s0.rx_queue(i).drop_first()
        }
    }
}

/// Takes the oldest byte out of the receive ring, if there is one.
pub fn usart_rx_ring_pop(st: &mut UsartState, usart_number: UsartNumber) -> (r: Option<u8>)
    requires
        old(st).wf(),
    ensures
        final(st).wf(),
        spec_ring_pop(*old(st), *final(st), usart_number, r),
{
    let c = usart_channel_to_index(usart_number);
    let head = st.head[c];
    let tail = st.tail[c];
    let ghost old_st = *st;
    proof {
        lemma_ring_len(old_st.rx_buffer@, c as int, head as int, tail as int);
    }
    if head == tail {
        None
    } else {
        let byte = usart_get_rx_data_from_channel(st, usart_number, tail);
        let next_tail = (tail + 1) % usart_get_rx_buffer_length(usart_number);
        st.tail.set(c, next_tail);
        proof {
            let ci = c as int;
            assert(old_st.rx_queue(ci)[0] == byte);
            assert(st.rx_queue(ci) =~= old_st.rx_queue(ci).drop_first());
            assert forall|d: int| 0 <= d < 3 && d != ci implies #[trigger] st.rx_queue(d) == old_st.rx_queue(d) by {
                assert(st.rx_queue(d) =~= old_st.rx_queue(d));
            }
        }
        Some(byte)
    }
}

/// Whether the receive ring is empty.
pub fn usart_rx_ring_is_empty(st: &UsartState, usart_number: UsartNumber) -> (r: bool)
    requires
        st.wf(),
    ensures
        r == (st.rx_queue(spec_usart_index(usart_number)).len() == 0),
{
    let c = usart_channel_to_index(usart_number);
    proof {
        lemma_ring_len(st.rx_buffer@, c as int, st.head@[c as int] as int, st.tail@[c as int] as int);
    }
    st.head[c] == st.tail[c]
}

/// Empties the receive ring.
pub fn usart_rx_ring_clear(st: &mut UsartState, usart_number: UsartNumber)
    requires
        old(st).wf(),
    ensures
        final(st).wf(),
        final(st).head@ == old(st).head@.update(spec_usart_index(usart_number), 0),
        final(st).tail@ == old(st).tail@.update(spec_usart_index(usart_number), 0),
        final(st).rx_queue(spec_usart_index(usart_number)).len() == 0,
        final(st).initialized@ == old(st).initialized@,
        final(st).tx_buffer@ == old(st).tx_buffer@,
        final(st).rx_buffer@ == old(st).rx_buffer@,
        final(st).tx_len@ == old(st).tx_len@,
        final(st).tx_index@ == old(st).tx_index@,
        final(st).tx_busy@ == old(st).tx_busy@,
        final(st).rx_busy@ == old(st).rx_busy@,
        final(st).tx_done@ == old(st).tx_done@,
        final(st).error@ == old(st).error@,
{
    let c = usart_channel_to_index(usart_number);
    st.head.set(c, 0);
    st.tail.set(c, 0);
}

/// An interrupt of `usart_number` with `flags`, from `s0`, `o0` to `s1`, `o1`.
pub open spec fn spec_usart_irq(s0: UsartState, o0: Seq<UsartCommand>, s1: UsartState, o1: Seq<UsartCommand>, usart_number: UsartNumber, flags: UsartFlags) -> bool {
    &&& s1.initialized@ =~= s0.initialized@
    &&& s1.tx_buffer@ =~= s0.tx_buffer@
    &&& s1.tx_len@ =~= s0.tx_len@
    &&& s1.tx_busy@ =~= s0.tx_busy@
    &&& s1.rx_busy@ =~= s0.rx_busy@
    &&& s1.tx_done@ =~= s0.tx_done@
    &&& s1.tail@ =~= s0.tail@
    &&& forall|c: int| 0 <= c < 3 && c != spec_usart_index(usart_number) ==> #[trigger] s1.rx_queue(c) == s0.rx_queue(c)
    &&& {
        let i = spec_usart_index(usart_number);
        let u = usart_number;
        if flags.has_error {
            &&& s1.error@ =~= s0.error@.update(i, true)
            &&& s1.rx_buffer@ =~= s0.rx_buffer@
            &&& s1.head@ =~= s0.head@
            &&& s1.tx_index@ =~= s0.tx_index@
            &&& o1 =~= o0 + seq![
                UsartCommand { usart: u, op: UsartRegisterOp::DisableRxInterrupt },
                UsartCommand { usart: u, op: UsartRegisterOp::ClearErrorFlags },
            ]
        } else {
            let idx = s0.tx_index@[i];
            let go = flags.tx_empty && s0.tx_busy@[i] && idx < s0.tx_len@[i];
            &&& if flags.rx_not_empty {
                if s0.rx_queue(i).len() < 127 {
                    s1.rx_queue(i) =~= s0.rx_queue(i).push(flags.rx_data) && s1.error@ =~= s0.error@
                } else {
                    s1.rx_queue(i) =~= s0.rx_queue(i) && s1.error@ =~= s0.error@.update(i, true)
                }
            } else {
                &&& s1.rx_buffer@ =~= s0.rx_buffer@
                &&& s1.head@ =~= s0.head@
                &&& s1.error@ =~= s0.error@
            }
            &&& if go {
                &&& s1.tx_index@ =~= s0.tx_index@.update(i, (idx + 1) as usize)
                &&& o1 =~= o0 + seq![UsartCommand { usart: u, op: UsartRegisterOp::WriteData(s0.tx_buffer@[i * 128 + idx]) }]
                    + (if idx + 1 >= s0.tx_len@[i] {
                    seq![
                        UsartCommand { usart: u, op: UsartRegisterOp::DisableTxInterrupt },
                        UsartCommand { usart: u, op: UsartRegisterOp::EnableTcInterrupt },
                    ]
                } else {
                    Seq::<UsartCommand>::empty()
                })
            } else {
                s1.tx_index@ =~= s0.tx_index@ && o1 =~= o0
            }
        }
    }
}

/// The data part of the USART interrupt. With the error flag set, the error
/// is recorded, reception is disabled and the hardware flags cleared.
/// Otherwise a received byte is queued in the ring, and when the transmit
/// register is empty during a transmission the next byte is written; after
/// the last one the transmit interrupt gives way to the
/// transmission-complete interrupt.
#[verifier::rlimit(40)]
pub fn usart_irq_data(st: &mut UsartState, ops: &mut Vec<UsartCommand>, usart_number: UsartNumber, flags: UsartFlags)
    requires
        old(st).wf(),
    ensures
        final(st).wf(),
        spec_usart_irq(*old(st), old(ops)@, *final(st), final(ops)@, usart_number, flags),
{
    let c = usart_channel_to_index(usart_number);
    if flags.has_error {
        usart_set_error(st, usart_number, true);
        ops.push(UsartCommand { usart: usart_number, op: UsartRegisterOp::DisableRxInterrupt });
        ops.push(UsartCommand { usart: usart_number, op: UsartRegisterOp::ClearErrorFlags });
        return;
    }
    if flags.rx_not_empty {
        usart_rx_ring_push(st, usart_number, flags.rx_data);
    }
    let ghost before = ops@;
    let ghost mid = *st;
    if flags.tx_empty && usart_get_busy(st, usart_number, true) {
        let index = usart_tx_get_index(st, usart_number);
        if index < usart_tx_get_len(st, usart_number) {
            let byte = usart_get_tx_data_from_channel(st, usart_number, index);
            ops.push(UsartCommand { usart: usart_number, op: UsartRegisterOp::WriteData(byte) });
            let next_index = index + 1;
            usart_tx_set_index(st, usart_number, next_index);
            if next_index >= usart_tx_get_len(st, usart_number) {
                ops.push(UsartCommand { usart: usart_number, op: UsartRegisterOp::DisableTxInterrupt });
                ops.push(UsartCommand { usart: usart_number, op: UsartRegisterOp::EnableTcInterrupt });
            }
            assert(ops@ =~= before + seq![UsartCommand { usart: usart_number, op: UsartRegisterOp::WriteData(byte) }]
                + (if next_index >= st.tx_len@[c as int] {
                seq![
                    UsartCommand { usart: usart_number, op: UsartRegisterOp::DisableTxInterrupt },
                    UsartCommand { usart: usart_number, op: UsartRegisterOp::EnableTcInterrupt },
                ]
            } else {
                Seq::<UsartCommand>::empty()
            }));
        }
    }
    assert forall|d: int| 0 <= d < 3 implies #[trigger] st.rx_queue(d) == mid.rx_queue(d) by {
        assert(st.rx_buffer@ == mid.rx_buffer@ && st.head@ == mid.head@ && st.tail@ == mid.tail@);
    }
}

/// The transmission-complete part of the USART interrupt, from `s0`, `u0`,
/// `o0` to `s1`, `u1`, `o1`: when the complete flag is set during a
/// transmission, its interrupt is disabled, the channel is idle and done, and
/// the USART interface confirms the PDU in flight; otherwise nothing changes.
pub open spec fn spec_usart_tx_complete(
    s0: UsartState,
    u0: UsartIfTxState,
    o0: Seq<UsartCommand>,
    s1: UsartState,
    u1: UsartIfTxState,
    o1: Seq<UsartCommand>,
    usart_number: UsartNumber,
    tx_complete: bool,
) -> bool {
    let i = spec_usart_index(usart_number);
    if tx_complete && s0.tx_busy@[i] {
        &&& o1 =~= o0.push(UsartCommand { usart: usart_number, op: UsartRegisterOp::DisableTcInterrupt })
        &&& s1.tx_busy@ =~= s0.tx_busy@.update(i, false)
        &&& s1.tx_done@ =~= s0.tx_done@.update(i, true)
        &&& s1.initialized@ =~= s0.initialized@
        &&& s1.tx_buffer@ =~= s0.tx_buffer@
        &&& s1.rx_buffer@ =~= s0.rx_buffer@
        &&& s1.tx_len@ =~= s0.tx_len@
        &&& s1.tx_index@ =~= s0.tx_index@
        &&& s1.rx_busy@ =~= s0.rx_busy@
        &&& s1.error@ =~= s0.error@
        &&& s1.head@ =~= s0.head@
        &&& s1.tail@ =~= s0.tail@
        &&& ({
            let id = u0.active_txpdu@[i];
            if id == 0xFFFF {
                u1 == u0
            } else {
                &&& u1.active_txpdu@ =~= u0.active_txpdu@.update(i, 0xFFFF)
                &&& id == 0 ==> {
                    &&& u1.confirmation@ =~= u0.confirmation@.update(0, 0)
                    &&& u1.pdu_status@ =~= u0.pdu_status@.update(
                        0,
                        crate::bsw::usartif_tx::spec_with_tx_status(u0.pdu_status@[0], 3),
                    )
                }
                &&& id != 0 ==> u1.confirmation@ =~= u0.confirmation@ && u1.pdu_status@ =~= u0.pdu_status@
            }
        })
    } else {
        s1 == s0 && u1 == u0 && o1 == o0
    }
}

/// The transmission-complete part of the USART interrupt (see
/// `spec_usart_tx_complete`).
pub fn usart_irq_tx_complete(
    st: &mut UsartState,
    usartif: &mut UsartIfTxState,
    ops: &mut Vec<UsartCommand>,
    usart_number: UsartNumber,
    tx_complete: bool,
)
    requires
        old(st).wf(),
        old(usartif).wf(),
    ensures
        final(st).wf(),
        final(usartif).wf(),
        spec_usart_tx_complete(*old(st), *old(usartif), old(ops)@, *final(st), *final(usartif), final(ops)@, usart_number, tx_complete),
{
    let c = usart_channel_to_index(usart_number);
    if tx_complete && st.tx_busy[c] {
        ops.push(UsartCommand { usart: usart_number, op: UsartRegisterOp::DisableTcInterrupt });
        usart_set_busy(st, usart_number, false, true);
        usart_tx_set_done(st, usart_number, true);
        usartif_tx_confirmation_by_channel(usartif, usart_number);
    }
}

/// The USART interrupt of `usart_number`, with the status flags `flags` and
/// the transmission-complete flag `tx_complete` read for it. With the error
/// flag set, only the error handling of `usart_irq_data` runs. Otherwise the
/// data part runs, then the transmission-complete part.
pub fn usart_irq_handler(
    st: &mut UsartState,
    usartif: &mut UsartIfTxState,
    ops: &mut Vec<UsartCommand>,
    usart_number: UsartNumber,
    flags: UsartFlags,
    tx_complete: bool,
)
    requires
        old(st).wf(),
        old(usartif).wf(),
    ensures
        final(st).wf(),
        final(usartif).wf(),
        flags.has_error ==> {
            &&& spec_usart_irq(*old(st), old(ops)@, *final(st), final(ops)@, usart_number, flags)
            &&& *final(usartif) == *old(usartif)
        },
        !flags.has_error ==> exists|mid: UsartState, o_mid: Seq<UsartCommand>|
            #![trigger spec_usart_irq(*old(st), old(ops)@, mid, o_mid, usart_number, flags)]
            {
                &&& mid.wf()
                &&& spec_usart_irq(*old(st), old(ops)@, mid, o_mid, usart_number, flags)
                &&& spec_usart_tx_complete(mid, *old(usartif), o_mid, *final(st), *final(usartif), final(ops)@, usart_number, tx_complete)
            },
        ({
            let i = spec_usart_index(usart_number);
            let done = !flags.has_error && tx_complete && old(st).tx_busy@[i];
            &&& final(st).tx_busy@ == (if done { old(st).tx_busy@.update(i, false) } else { old(st).tx_busy@ })
            &&& final(st).tx_done@ == (if done { old(st).tx_done@.update(i, true) } else { old(st).tx_done@ })
            &&& !done ==> *final(usartif) == *old(usartif)
        }),
{
    usart_irq_data(st, ops, usart_number, flags);
    if flags.has_error {
        return;
    }
    let ghost mid = *st;
    let ghost o_mid = ops@;
    usart_irq_tx_complete(st, usartif, ops, usart_number, tx_complete);
    assert(spec_usart_irq(*old(st), old(ops)@, mid, o_mid, usart_number, flags));
}

/// Each byte as one step of kind `direct` (direct or waiting write).
pub open spec fn spec_write_ops(u: UsartNumber, bytes: Seq<u8>, direct: bool) -> Seq<UsartCommand> {
    Seq::new(bytes.len(), |k: int| UsartCommand {
        usart: u,
        op: if direct { UsartRegisterOp::WriteDataDirect(bytes[k]) } else { UsartRegisterOp::WriteData(bytes[k]) },
    })
}

fn usart_push_writes(ops: &mut Vec<UsartCommand>, usart_number: UsartNumber, data: &[u8], direct: bool)
    ensures
        final(ops)@ == old(ops)@ + spec_write_ops(usart_number, data@, direct),
{
    let mut i: usize = 0;
    while i < data.len()
        invariant
            0 <= i <= data@.len(),
            ops@ == old(ops)@ + spec_write_ops(usart_number, data@.subrange(0, i as int), direct),
        decreases data@.len() - i,
    {
        let byte = data[i];
        if direct {
            ops.push(UsartCommand { usart: usart_number, op: UsartRegisterOp::WriteDataDirect(byte) });
        } else {
            ops.push(UsartCommand { usart: usart_number, op: UsartRegisterOp::WriteData(byte) });
        }
        i = i + 1;
        assert(ops@ =~= old(ops)@ + spec_write_ops(usart_number, data@.subrange(0, i as int), direct));
    }
    assert(data@.subrange(0, data@.len() as int) =~= data@);
}

/// Polled transmission: refused when there is nothing to send; otherwise
/// each byte is written as the transmit register empties, then the
/// transmission is awaited.
pub fn usart_write_bytes(ops: &mut Vec<UsartCommand>, usart_number: UsartNumber, data: &[u8]) -> (r: UsartReturnType)
    ensures
        data@.len() == 0 ==> r == UsartReturnType::USART_NOT_OK && final(ops)@ == old(ops)@,
        data@.len() != 0 ==> r == UsartReturnType::USART_OK && final(ops)@ == old(ops)@
            + spec_write_ops(usart_number, data@, false)
            + seq![UsartCommand { usart: usart_number, op: UsartRegisterOp::WaitTxComplete }],
{
    if data.len() == 0 {
        return UsartReturnType::USART_NOT_OK;
    }
    usart_push_writes(ops, usart_number, data, false);
    let ghost mid = ops@;
    ops.push(UsartCommand { usart: usart_number, op: UsartRegisterOp::WaitTxComplete });
    assert(ops@ =~= mid + seq![UsartCommand { usart: usart_number, op: UsartRegisterOp::WaitTxComplete }]);
    UsartReturnType::USART_OK
}

/// `usart_write_bytes` on the bytes of a string.
pub fn usart_write_string(ops: &mut Vec<UsartCommand>, usart_number: UsartNumber, data: &str) -> (r: UsartReturnType)
    ensures
        data.spec_bytes().len() == 0 ==> r == UsartReturnType::USART_NOT_OK && final(ops)@ == old(ops)@,
        data.spec_bytes().len() != 0 ==> r == UsartReturnType::USART_OK && final(ops)@ == old(ops)@
            + spec_write_ops(usart_number, data.spec_bytes(), false)
            + seq![UsartCommand { usart: usart_number, op: UsartRegisterOp::WaitTxComplete }],
{
    let bytes = data.as_bytes();
    usart_write_bytes(ops, usart_number, bytes)
}

/// Polled reception into `data`: refused when `data` is empty; otherwise
/// each byte of `data` takes the next byte read (`incoming`, as many as
/// `data` holds, read by the caller in order).
pub fn usart_read_bytes(data: &mut [u8], incoming: &[u8]) -> (r: UsartReturnType)
    requires
        old(data)@.len() == 0 || incoming@.len() == old(data)@.len(),
    ensures
        old(data)@.len() == 0 ==> r == UsartReturnType::USART_NOT_OK && final(data)@ == old(data)@,
        old(data)@.len() != 0 ==> r == UsartReturnType::USART_OK && final(data)@ == incoming@,
{
    if data.len() == 0 {
        return UsartReturnType::USART_NOT_OK;
    }
    usart_copy_bytes(data, incoming);
    UsartReturnType::USART_OK
}

fn usart_copy_bytes(data: &mut [u8], incoming: &[u8])
    requires
        incoming@.len() == old(data)@.len(),
    ensures
        final(data)@ == incoming@,
{
    let mut i: usize = 0;
    while i < data.len()
        invariant
            incoming@.len() == data@.len(),
            0 <= i <= data@.len(),
            forall|j: int| 0 <= j < i ==> #[trigger] data@[j] == incoming@[j],
        decreases data@.len() - i,
    {
        data[i] = incoming[i];
        i = i + 1;
    }
    assert(data@ =~= incoming@);
}

/// One byte of a line read into `buffer` at `index`: a line feed or
/// carriage return ends the line (`None`, nothing stored); any other byte
/// is stored and the next position returned.
pub open spec fn spec_read_string_step(b0: Seq<u8>, index: int, byte: u8, b1: Seq<u8>, r: Option<usize>) -> bool {
    if byte == 10 || byte == 13 {
        r == None::<usize> && b1 == b0
    } else {
        r == Some((index + 1) as usize) && b1 == b0.update(index, byte)
    }
}

fn usart_read_string_step(buffer: &mut [u8], index: usize, byte: u8) -> (r: Option<usize>)
    requires
        index < old(buffer)@.len(),
    ensures
        spec_read_string_step(old(buffer)@, index as int, byte, final(buffer)@, r),
{
    if byte != 10u8 && byte != 13u8 {
        buffer[index] = byte;
        Some(index + 1)
    } else {
        None
    }
}

/// Reading a line: the caller reads bytes while fewer than `buffer.len()`
/// are stored and hands each one here with the number stored so far; the
/// line ends at a line feed or carriage return, and its length is the
/// number stored.
pub fn usart_read_string(buffer: &mut [u8], index: usize, byte: u8) -> (r: Option<usize>)
    requires
        index < old(buffer)@.len(),
    ensures
        spec_read_string_step(old(buffer)@, index as int, byte, final(buffer)@, r),
{
    usart_read_string_step(buffer, index, byte)
}

/// Direct transmission: each byte written at once.
pub fn usart_write_bytes_direct(ops: &mut Vec<UsartCommand>, usart_number: UsartNumber, data: &[u8])
    ensures
        final(ops)@ == old(ops)@ + spec_write_ops(usart_number, data@, true),
{
    usart_push_writes(ops, usart_number, data, true);
}

/// `usart_write_bytes_direct` on the bytes of a string.
pub fn usart_write_string_direct(ops: &mut Vec<UsartCommand>, usart_number: UsartNumber, data: &str)
    ensures
        final(ops)@ == old(ops)@ + spec_write_ops(usart_number, data.spec_bytes(), true),
{
    let bytes = data.as_bytes();
    usart_push_writes(ops, usart_number, bytes, true);
}

/// Direct reception: each byte of `data` takes the next byte read
/// (`incoming`, read by the caller in order).
pub fn usart_read_bytes_direct(data: &mut [u8], incoming: &[u8])
    requires
        incoming@.len() == old(data)@.len(),
    ensures
        final(data)@ == incoming@,
{
    usart_copy_bytes(data, incoming);
}

/// Reading a line with direct reads, one byte at a time as for
/// `usart_read_string`.
pub fn usart_read_string_direct(buffer: &mut [u8], index: usize, byte: u8) -> (r: Option<usize>)
    requires
        index < old(buffer)@.len(),
    ensures
        spec_read_string_step(old(buffer)@, index as int, byte, final(buffer)@, r),
{
    usart_read_string_step(buffer, index, byte)
}

/// The received byte, when one is waiting (by the flags as read now).
pub fn usart_read_byte_non_blocking(flags: UsartFlags) -> (r: Option<u8>)
    ensures
        r == (if flags.rx_not_empty { Some(flags.rx_data) } else { None::<u8> }),
{
    if flags.rx_not_empty {
        Some(flags.rx_data)
    } else {
        None
    }
}

/// Writes `byte` at once when the transmit register is empty (by the flags
/// as read now); refused otherwise.
pub fn usart_write_byte_non_blocking(
    ops: &mut Vec<UsartCommand>,
    usart_number: UsartNumber,
    byte: u8,
    flags: UsartFlags,
) -> (r: UsartReturnType)
    ensures
        flags.tx_empty ==> r == UsartReturnType::USART_OK
            && final(ops)@ == old(ops)@.push(UsartCommand { usart: usart_number, op: UsartRegisterOp::WriteDataDirect(byte) }),
        !flags.tx_empty ==> r == UsartReturnType::USART_NOT_OK && final(ops)@ == old(ops)@,
{
    if flags.tx_empty {
        ops.push(UsartCommand { usart: usart_number, op: UsartRegisterOp::WriteDataDirect(byte) });
        UsartReturnType::USART_OK
    } else {
        UsartReturnType::USART_NOT_OK
    }
}

/// Whether the last transmission has completed, by the transmission
/// complete flag as read now.
pub fn usart_get_tx_complete_status(tx_complete: bool) -> (r: UsartReturnType)
    ensures
        r == (if tx_complete { UsartReturnType::USART_OK } else { UsartReturnType::USART_NOT_OK }),
{
    if tx_complete {
        UsartReturnType::USART_OK
    } else {
        UsartReturnType::USART_NOT_OK
    }
}

} // verus!
