use vstd::prelude::*;
use crate::bsw::usartif_rx::{UsartIfRxState, spec_rx_scan, spec_rx_processing};
use crate::bsw::usartif_cfg::spec_usartif_rxpdu_config;
use crate::mcal::usart::UsartState;
use crate::register::UsartNumber;
use crate::laws::{spec_crc_line, spec_written, law_crc_line_accepted};

verus! {

/// Scanning the bytes `p + b` from position `p.len() + j` is scanning `b`
/// from `j`, with the count of consumed bytes shifted by `p.len()`.
proof fn lemma_scan_suffix(buf: Seq<u8>, index: int, len: int, crc_on: bool, p: Seq<u8>, b: Seq<u8>, j: int, stored: bool)
    requires
        0 <= j,
    ensures
        ({
            let x = spec_rx_scan(buf, index, len, crc_on, p + b, p.len() + j, stored);
            let y = spec_rx_scan(buf, index, len, crc_on, b, j, stored);
            &&& x.0 == y.0
            &&& x.1 == y.1
            &&& x.2 == y.2
            &&& x.3 == y.3 + p.len()
            &&& x.4 == y.4
        }),
    decreases b.len() - j,
{
    if j < b.len() {
        assert((p + b)[p.len() + j] == b[j]);
        lemma_scan_suffix(buf.update(index, b[j]), index + 1, len, crc_on, p, b, j + 1, true);
        assert(p.len() + j + 1 == p.len() + (j + 1));
    }
}

/// A scan of `a` from `k` that stays busy to the end of `a` runs the same
/// on `a + b`, up to the end of `a`.
proof fn lemma_scan_prefix_busy(buf: Seq<u8>, index: int, len: int, crc_on: bool, a: Seq<u8>, b: Seq<u8>, k: int, stored: bool)
    requires
        0 <= k <= a.len(),
        spec_rx_scan(buf, index, len, crc_on, a, k, stored).2 == 2,
    ensures
        ({
            let r = spec_rx_scan(buf, index, len, crc_on, a, k, stored);
            spec_rx_scan(buf, index, len, crc_on, a + b, k, stored) == spec_rx_scan(r.0, r.1, len, crc_on, a + b, a.len() as int, r.4)
        }),
    decreases a.len() - k,
{
    if k < a.len() {
        assert((a + b)[k] == a[k]);
        if index < len && !(a[k] == 13 || a[k] == 10) && index + 1 < len {
            lemma_scan_prefix_busy(buf.update(index, a[k]), index + 1, len, crc_on, a, b, k + 1, true);
        }
    }
}

/// The outcome of a scan does not depend on whether a byte was stored
/// before it.
proof fn lemma_scan_stored(buf: Seq<u8>, index: int, len: int, crc_on: bool, bytes: Seq<u8>, k: int, s1: bool, s2: bool)
    ensures
        ({
            let x = spec_rx_scan(buf, index, len, crc_on, bytes, k, s1);
            let y = spec_rx_scan(buf, index, len, crc_on, bytes, k, s2);
            x.0 == y.0 && x.1 == y.1 && x.2 == y.2 && x.3 == y.3
        }),
    decreases bytes.len() - k,
{
    if 0 <= k < bytes.len() && index < len && !(bytes[k] == 13 || bytes[k] == 10) && index + 1 < len {
        lemma_scan_stored(buf.update(index, bytes[k]), index + 1, len, crc_on, bytes, k + 1, true, true);
    }
}

/// A pass that leaves the reception busy, then a pass over the bytes that
/// came in since, end where one scan of all those bytes from the state
/// before the first pass ends.
proof fn lemma_two_passes(
    s0: UsartIfRxState,
    u0: UsartState,
    s1: UsartIfRxState,
    v1: UsartState,
    t1: u32,
    u1: UsartState,
    s2: UsartIfRxState,
    u2: UsartState,
    t2: u32,
)
    requires
        s0.buffer_len@[1] > 0,
        s0.status0() == 2,
        s1.status0() == 2,
        spec_rx_processing(s0, u0, s1, v1, t1, UsartNumber::USART2),
        spec_rx_processing(s1, u1, s2, u2, t2, UsartNumber::USART2),
    ensures
        ({
            let q = u0.rx_queue(1) + u1.rx_queue(1);
            let r = spec_rx_scan(
                s0.buf(1),
                s0.rx_index@[1] as int,
                s0.buffer_len@[1] as int,
                spec_usartif_rxpdu_config()[0].crc,
                q,
                0,
                false,
            );
            &&& s2.buf(1) == r.0
            &&& s2.rx_index@[1] == r.1
            &&& s2.status0() == r.2
            &&& 0 <= r.3 <= q.len()
            &&& u2.rx_queue(1) == q.subrange(r.3, q.len() as int)
            &&& s2.indication@[1] == (if r.2 == 3 { 0u8 } else { s0.indication@[1] })
            &&& s2.active_channel@[1] == (if r.2 == 3 { 0xFFFFu16 } else { s0.active_channel@[1] })
        }),
{
    let crc = spec_usartif_rxpdu_config()[0].crc;
    let len = s0.buffer_len@[1] as int;
    let a = u0.rx_queue(1);
    let b = u1.rx_queue(1);
    let r1 = spec_rx_scan(s0.buf(1), s0.rx_index@[1] as int, len, crc, a, 0, false);
    assert(r1.2 == 2);
    assert(s1.buffer_len@[1] == s0.buffer_len@[1]);
    lemma_scan_prefix_busy(s0.buf(1), s0.rx_index@[1] as int, len, crc, a, b, 0, false);
    lemma_scan_suffix(r1.0, r1.1, len, crc, a, b, 0, r1.4);
    assert(a.len() + 0 == a.len());
    lemma_scan_stored(r1.0, r1.1, len, crc, b, 0, r1.4, false);
    let r2 = spec_rx_scan(s1.buf(1), s1.rx_index@[1] as int, len, crc, b, 0, false);
    let q = a + b;
    let r = spec_rx_scan(s0.buf(1), s0.rx_index@[1] as int, len, crc, q, 0, false);
    assert(r.3 == r2.3 + a.len());
    assert(q.subrange(r.3, q.len() as int) =~= b.subrange(r2.3, b.len() as int));
}

/// UsartIf reception does not depend on how the received bytes are split
/// between processing passes: a pass that leaves the PDU busy, followed by a
/// pass over the bytes received since, ends exactly as one pass over all of
/// them: same buffer, write position, PDU status, indication, channel
/// activity, and the same bytes left in the ring.
pub proof fn law_usartif_split_reception(
    s0: UsartIfRxState,
    u0: UsartState,
    s1: UsartIfRxState,
    v1: UsartState,
    t1: u32,
    u1: UsartState,
    s2: UsartIfRxState,
    u2: UsartState,
    t2: u32,
    w0: UsartState,
    s3: UsartIfRxState,
    w3: UsartState,
    t3: u32,
)
    requires
        s0.buffer_len@[1] > 0,
        s0.status0() == 2,
        spec_rx_processing(s0, u0, s1, v1, t1, UsartNumber::USART2),
        s1.status0() == 2,
        spec_rx_processing(s1, u1, s2, u2, t2, UsartNumber::USART2),
        w0.rx_queue(1) == u0.rx_queue(1) + u1.rx_queue(1),
        spec_rx_processing(s0, w0, s3, w3, t3, UsartNumber::USART2),
    ensures
        s2.buf(1) == s3.buf(1),
        s2.rx_index@[1] == s3.rx_index@[1],
        s2.status0() == s3.status0(),
        s2.indication@[1] == s3.indication@[1],
        s2.active_channel@[1] == s3.active_channel@[1],
        u2.rx_queue(1) == w3.rx_queue(1),
{
    lemma_two_passes(s0, u0, s1, v1, t1, u1, s2, u2, t2);
}

/// UsartIf: a line carrying its CRC-8, received in two parts by a reception
/// started at position 0 (the first part without the closing carriage
/// return, processed in a pass of its own), completes the PDU: status
/// completed, the payload at the start of the buffer, the write position
/// back at 0, the indication raised, and exactly the line consumed.
pub proof fn law_usartif_line_in_two_parts(
    s0: UsartIfRxState,
    u0: UsartState,
    s1: UsartIfRxState,
    v1: UsartState,
    t1: u32,
    u1: UsartState,
    s2: UsartIfRxState,
    u2: UsartState,
    t2: u32,
    d: Seq<u8>,
    m: int,
    rest: Seq<u8>,
)
    requires
        s0.wf(),
        s0.status0() == 2,
        s0.rx_index@[1] == 0,
        1 <= d.len(),
        d.len() + 2 < s0.buffer_len@[1],
        forall|j: int| 0 <= j < d.len() ==> d[j] != 10 && d[j] != 13,
        0 <= m < d.len() + 3,
        u0.rx_queue(1) == spec_crc_line(d).take(m),
        spec_rx_processing(s0, u0, s1, v1, t1, UsartNumber::USART2),
        u1.rx_queue(1) == spec_crc_line(d).skip(m) + rest,
        spec_rx_processing(s1, u1, s2, u2, t2, UsartNumber::USART2),
    ensures
        s1.status0() == 2,
        s2.status0() == 3,
        s2.buf(1).subrange(0, d.len() as int) == d,
        s2.rx_index@[1] == 0,
        s2.indication@[1] == 0,
        u2.rx_queue(1) == rest,
{
    reveal_with_fuel(crate::bsw::usartif_cfg::spec_usartif_rxpdu_config, 1);
    let crc = spec_usartif_rxpdu_config()[0].crc;
    assert(crc);
    let len = s0.buffer_len@[1] as int;
    let line = spec_crc_line(d);
    let p = line.take(m);
    let buf = s0.buf(1);
    assert(s0.buffer_len@[1] <= s0.buffers@[1]@.len());
    // the first part stores every byte and stays busy
    let c = crate::bsw::usartif_rx::spec_crc8(d);
    assert(c >> 4u8 < 16 && c & 15u8 < 16) by (bit_vector);
    assert forall|j: int| 0 <= j < m implies p[j] != 10 && p[j] != 13 by {
        if j < d.len() {
            assert(p[j] == d[j]);
        }
    }
    crate::laws::lemma_scan_stores(buf, len, crc, p, m, 0, false);
    assert(spec_written(buf, p, 0) =~= buf);
    assert(s1.status0() == 2);
    // the two parts make the line
    assert(p + (line.skip(m) + rest) =~= line + rest);
    lemma_two_passes(s0, u0, s1, v1, t1, u1, s2, u2, t2);
    law_crc_line_accepted(buf, len, d, rest);
    assert(s2.buf(1).subrange(0, d.len() as int) =~= d);
    let q = line + rest;
    assert(q.subrange(d.len() as int + 3, q.len() as int) =~= rest);
}

} // verus!
