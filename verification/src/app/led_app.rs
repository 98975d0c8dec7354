use vstd::prelude::*;
use crate::register::GpioRegisters;
use crate::bsw::ioif_type::{IoIf_OutputType, IoIf_ReturnType};
use crate::bsw::ioif_tx::{IoIfTxState, ioif_write_tx_state, spec_write_tx_state};

verus! {

/// The outputs a status value asks of the red (0x200) and orange (0x201)
/// LEDs; `None` for a value with no pattern.
pub open spec fn spec_led_pattern(status: u8) -> Option<(IoIf_OutputType, IoIf_OutputType)> {
    if status == 1 {
        Some((IoIf_OutputType::STD_OFF, IoIf_OutputType::STD_OFF))
    } else if status == 2 {
        Some((IoIf_OutputType::STD_OFF, IoIf_OutputType::STD_ON))
    } else if status == 3 {
        Some((IoIf_OutputType::STD_ON, IoIf_OutputType::STD_OFF))
    } else if status == 4 {
        Some((IoIf_OutputType::STD_ON, IoIf_OutputType::STD_ON))
    } else if status == 5 {
        Some((IoIf_OutputType::STD_OFF, IoIf_OutputType::STD_ON))
    } else if status == 6 {
        Some((IoIf_OutputType::STD_ON, IoIf_OutputType::STD_OFF))
    } else if status == 7 {
        Some((IoIf_OutputType::STD_OFF, IoIf_OutputType::STD_OFF))
    } else {
        None
    }
}

/// Two PDU writes one after the other: `first` to `id1`, then `second` to `id2`.
pub open spec fn spec_two_writes(
    t0: IoIfTxState,
    w0: u32,
    t2: IoIfTxState,
    w2: u32,
    id1: u16,
    first: IoIf_OutputType,
    id2: u16,
    second: IoIf_OutputType,
) -> bool {
    exists|t1: IoIfTxState, w1: u32, r1: IoIf_ReturnType, r2: IoIf_ReturnType|
        #![trigger spec_write_tx_state(t0, w0, t1, w1, id1, first, r1), spec_write_tx_state(t1, w1, t2, w2, id2, second, r2)]
        spec_write_tx_state(t0, w0, t1, w1, id1, first, r1) && spec_write_tx_state(t1, w1, t2, w2, id2, second, r2)
}

fn write_two(tx: &mut IoIfTxState, g: &mut GpioRegisters, id1: u16, first: IoIf_OutputType, id2: u16, second: IoIf_OutputType)
    requires
        old(tx).wf(),
        old(g).wf(),
    ensures
        final(tx).wf(),
        final(g).wf(),
        final(g).idr@ == old(g).idr@,
        final(g).odr@ == old(g).odr@.update(3, final(g).odr@[3]),
        spec_two_writes(*old(tx), old(g).odr@[3], *final(tx), final(g).odr@[3], id1, first, id2, second),
{
    let r1 = ioif_write_tx_state(tx, g, id1, first);
    let ghost t1 = *tx;
    let ghost w1 = g.odr@[3];
    let r2 = ioif_write_tx_state(tx, g, id2, second);
    assert(spec_write_tx_state(*old(tx), old(g).odr@[3], t1, w1, id1, first, r1));
    assert(spec_write_tx_state(t1, w1, *tx, g.odr@[3], id2, second, r2));
}

/// What the LED application does with `status`: the pattern's two writes
/// (red first) on the port-D output word, or nothing.
pub open spec fn spec_led_app_1ms(t0: IoIfTxState, o0: Seq<u32>, t1: IoIfTxState, o1: Seq<u32>, status: u8) -> bool {
    match spec_led_pattern(status) {
        Some((red, orange)) => {
            &&& o1 =~= o0.update(3, o1[3])
            &&& spec_two_writes(t0, o0[3], t1, o1[3], 0x200, red, 0x201, orange)
        },
        None => t1 == t0 && o1 == o0,
    }
}

/// The LED application: status 1..=7 sets the red and orange LEDs to the
/// pattern of `spec_led_pattern` (red first); other values do nothing.
pub fn led_app_1ms(tx: &mut IoIfTxState, g: &mut GpioRegisters, status: u8)
    requires
        old(tx).wf(),
        old(g).wf(),
    ensures
        final(tx).wf(),
        final(g).wf(),
        final(g).idr@ == old(g).idr@,
        spec_led_app_1ms(*old(tx), old(g).odr@, *final(tx), final(g).odr@, status),
{
    match status {
        1 => {
            write_two(tx, g, 0x200, IoIf_OutputType::STD_OFF, 0x201, IoIf_OutputType::STD_OFF);
        },
        2 => {
            write_two(tx, g, 0x200, IoIf_OutputType::STD_OFF, 0x201, IoIf_OutputType::STD_ON);
        },
        3 => {
            write_two(tx, g, 0x200, IoIf_OutputType::STD_ON, 0x201, IoIf_OutputType::STD_OFF);
        },
        4 => {
            write_two(tx, g, 0x200, IoIf_OutputType::STD_ON, 0x201, IoIf_OutputType::STD_ON);
        },
        5 => {
            write_two(tx, g, 0x200, IoIf_OutputType::STD_OFF, 0x201, IoIf_OutputType::STD_ON);
        },
        6 => {
            write_two(tx, g, 0x200, IoIf_OutputType::STD_ON, 0x201, IoIf_OutputType::STD_OFF);
        },
        7 => {
            write_two(tx, g, 0x200, IoIf_OutputType::STD_OFF, 0x201, IoIf_OutputType::STD_OFF);
        },
        _ => {},
    }
}

/// The 200 ms LED slot, which has nothing to do.
pub fn led_app_200ms() {
}

/// The 500 ms LED work: the yellow LED (0x203) toggled, then the blue one
/// (0x202), on the port-D output word.
pub open spec fn spec_led_app_500ms(t0: IoIfTxState, o0: Seq<u32>, t1: IoIfTxState, o1: Seq<u32>) -> bool {
    &&& o1 =~= o0.update(3, o1[3])
    &&& spec_two_writes(t0, o0[3], t1, o1[3], 0x203, IoIf_OutputType::TOGGLE, 0x202, IoIf_OutputType::TOGGLE)
}

/// Every 500 ms: toggles the yellow LED (0x203), then the blue one (0x202).
pub fn led_app_500ms(tx: &mut IoIfTxState, g: &mut GpioRegisters)
    requires
        old(tx).wf(),
        old(g).wf(),
    ensures
        final(tx).wf(),
        final(g).wf(),
        final(g).idr@ == old(g).idr@,
        spec_led_app_500ms(*old(tx), old(g).odr@, *final(tx), final(g).odr@),
{
    write_two(tx, g, 0x203, IoIf_OutputType::TOGGLE, 0x202, IoIf_OutputType::TOGGLE);
}

} // verus!
