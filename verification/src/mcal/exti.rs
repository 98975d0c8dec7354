use vstd::prelude::*;
use crate::register::{PORT, EXTILINE, Exti_TriggerType, IRQn, spec_exti_line_number, exti_line_number};
use crate::mcal::exti_type::{ExtiCallback, Exti_Config, Exti_ConfigType, ExtiRegisterOp};
use crate::mcal::mcu::McuState;
use crate::bsw::button::{ButtonState, button_exti_notification, spec_press, spec_press_accepted};
use crate::bsw::ioif_rx::{IoIfRxState, spec_with_status};

verus! {

/// The user button on PA0, rising edge, routed to the button handler.
pub open spec fn spec_exti_config() -> Seq<Exti_Config> {
    seq![
        Exti_Config {
            port: PORT::A,
            line: EXTILINE::LINE0,
            trigger: Exti_TriggerType::RISING,
            enabled: true,
            callbackfn: Some(ExtiCallback::ButtonExtiNotification),
        },
    ]
}

pub fn exti_config() -> (r: Exti_ConfigType)
    ensures
        r.exti@ == spec_exti_config(),
{
    let r = Exti_ConfigType {
        exti: vec![
            Exti_Config {
                port: PORT::A,
                line: EXTILINE::LINE0,
                trigger: Exti_TriggerType::RISING,
                enabled: true,
                callbackfn: Some(ExtiCallback::ButtonExtiNotification),
            },
        ],
    };
    assert(r.exti@ =~= spec_exti_config());
    r
}

/// The handler routed to each of the sixteen lines.
pub struct ExtiState {
    pub callbacks: Vec<Option<ExtiCallback>>,
}

impl ExtiState {
    pub open spec fn wf(&self) -> bool {
        self.callbacks@.len() == 16
    }

    /// The handler of line `l`.
    pub open spec fn callback(&self, l: EXTILINE) -> Option<ExtiCallback> {
        self.callbacks@[spec_exti_line_number(l)]
    }

    /// No line routed.
    pub fn new() -> (r: ExtiState)
        ensures
            r.wf(),
            forall|i: int| 0 <= i < 16 ==> #[trigger] r.callbacks@[i] == None::<ExtiCallback>,
    {
        let mut callbacks: Vec<Option<ExtiCallback>> = Vec::new();
        let mut i: usize = 0;
        while i < 16
            invariant
                0 <= i <= 16,
                callbacks@.len() == i,
                forall|j: int| 0 <= j < i ==> #[trigger] callbacks@[j] == None::<ExtiCallback>,
            decreases 16 - i,
        {
            callbacks.push(None);
            i = i + 1;
        }
        ExtiState { callbacks }
    }
}

/// Routes `line` to `callback`.
pub fn register_exti_callback(st: &mut ExtiState, line: EXTILINE, callback: ExtiCallback)
    requires
        old(st).wf(),
    ensures
        final(st).wf(),
        final(st).callbacks@ == old(st).callbacks@.update(spec_exti_line_number(line), Some(callback)),
{
    let n = exti_line_number(line);
    st.callbacks.set(n, Some(callback));
}

/// The handler `line` is routed to, if any.
pub fn register_get_exti_callback(st: &ExtiState, line: EXTILINE) -> (r: Option<ExtiCallback>)
    requires
        st.wf(),
    ensures
        r == st.callback(line),
{
    let n = exti_line_number(line);
    st.callbacks[n]
}

/// The NVIC line serving an external interrupt line: lines 0 to 4 have one
/// each, lines 5 to 9 share one and lines 10 to 15 share one.
pub open spec fn spec_exti_irq(line: EXTILINE) -> IRQn {
    let n = spec_exti_line_number(line);
    if n == 0 {
        IRQn::EXTI0
    } else if n == 1 {
        IRQn::EXTI1
    } else if n == 2 {
        IRQn::EXTI2
    } else if n == 3 {
        IRQn::EXTI3
    } else if n == 4 {
        IRQn::EXTI4
    } else if n <= 9 {
        IRQn::EXTI9_5
    } else {
        IRQn::EXTI15_10
    }
}

fn exti_get_irq(line: EXTILINE) -> (r: IRQn)
    ensures
        r == spec_exti_irq(line),
{
    let n = exti_line_number(line);
    if n == 0 {
        IRQn::EXTI0
    } else if n == 1 {
        IRQn::EXTI1
    } else if n == 2 {
        IRQn::EXTI2
    } else if n == 3 {
        IRQn::EXTI3
    } else if n == 4 {
        IRQn::EXTI4
    } else if n <= 9 {
        IRQn::EXTI9_5
    } else {
        IRQn::EXTI15_10
    }
}

/// Clears a stale pending flag, unmasks the line and enables its NVIC line.
pub fn exti_enable_notification(ops: &mut Vec<ExtiRegisterOp>, line: EXTILINE)
    ensures
        final(ops)@ == old(ops)@ + seq![
            ExtiRegisterOp::ClearPending(line),
            ExtiRegisterOp::EnableLine(line),
            ExtiRegisterOp::NvicEnable(spec_exti_irq(line)),
        ],
{
    ops.push(ExtiRegisterOp::ClearPending(line));
    ops.push(ExtiRegisterOp::EnableLine(line));
    let irq = exti_get_irq(line);
    ops.push(ExtiRegisterOp::NvicEnable(irq));
    assert(ops@ =~= old(ops)@ + seq![
        ExtiRegisterOp::ClearPending(line),
        ExtiRegisterOp::EnableLine(line),
        ExtiRegisterOp::NvicEnable(spec_exti_irq(line)),
    ]);
}

/// Masks the line and disables its NVIC line.
pub fn exti_disable_notification(ops: &mut Vec<ExtiRegisterOp>, line: EXTILINE)
    ensures
        final(ops)@ == old(ops)@ + seq![
            ExtiRegisterOp::DisableLine(line),
            ExtiRegisterOp::NvicDisable(spec_exti_irq(line)),
        ],
{
    ops.push(ExtiRegisterOp::DisableLine(line));
    let irq = exti_get_irq(line);
    ops.push(ExtiRegisterOp::NvicDisable(irq));
    assert(ops@ =~= old(ops)@ + seq![
        ExtiRegisterOp::DisableLine(line),
        ExtiRegisterOp::NvicDisable(spec_exti_irq(line)),
    ]);
}

/// The register steps that set up one enabled line.
pub open spec fn spec_exti_line_init_ops(c: Exti_Config) -> Seq<ExtiRegisterOp> {
    seq![
        ExtiRegisterOp::EnableSyscfgClock,
        ExtiRegisterOp::ConfigureLine(c.line, c.port),
        ExtiRegisterOp::SetTrigger(c.line, c.trigger),
        ExtiRegisterOp::ClearPending(c.line),
        ExtiRegisterOp::EnableLine(c.line),
        ExtiRegisterOp::NvicEnable(spec_exti_irq(c.line)),
    ]
}

/// Sets up each enabled line of the configuration: the SYSCFG clock, the
/// port routed to the line, its edge, its handler, and its notification.
pub fn exti_init(st: &mut ExtiState, ops: &mut Vec<ExtiRegisterOp>)
    requires
        old(st).wf(),
    ensures
        final(st).wf(),
        ({
            let c = spec_exti_config()[0];
            &&& final(ops)@ == old(ops)@ + spec_exti_line_init_ops(c)
            &&& final(st).callbacks@ == old(st).callbacks@.update(spec_exti_line_number(c.line), c.callbackfn)
        }),
{
    let cfg = exti_config();
    let mut i: usize = 0;
    while i < cfg.exti.len()
        invariant
            cfg.exti@ == spec_exti_config(),
            0 <= i <= 1,
            st.wf(),
            i == 0 ==> ops@ == old(ops)@ && st.callbacks@ == old(st).callbacks@,
            i == 1 ==> ({
                let c = spec_exti_config()[0];
                &&& ops@ == old(ops)@ + spec_exti_line_init_ops(c)
                &&& st.callbacks@ == old(st).callbacks@.update(spec_exti_line_number(c.line), c.callbackfn)
            }),
        decreases cfg.exti.len() - i,
    {
        let c = cfg.exti[i];
        if c.enabled {
            let ghost before = ops@;
            ops.push(ExtiRegisterOp::EnableSyscfgClock);
            ops.push(ExtiRegisterOp::ConfigureLine(c.line, c.port));
            ops.push(ExtiRegisterOp::SetTrigger(c.line, c.trigger));
            if let Some(callback) = c.callbackfn {
                register_exti_callback(st, c.line, callback);
            }
            exti_enable_notification(ops, c.line);
            assert(ops@ =~= before + spec_exti_line_init_ops(c));
        }
        i = i + 1;
    }
}

/// Handles an interrupt of `line`: clears its pending flag and runs the
/// handler the line is routed to, if any.
pub fn exti_irq_handler(
    st: &ExtiState,
    ops: &mut Vec<ExtiRegisterOp>,
    line: EXTILINE,
    button: &mut ButtonState,
    mcu: &McuState,
    rx: &mut IoIfRxState,
)
    requires
        st.wf(),
        old(rx).wf(),
    ensures
        final(rx).wf(),
        final(ops)@ == old(ops)@.push(ExtiRegisterOp::ClearPending(line)),
        ({
            let fires = st.callback(line) == Some(ExtiCallback::ButtonExtiNotification)
                && spec_press_accepted(*old(button), mcu.system_tick_count);
            if fires {
                &&& *final(button) == spec_press(*old(button), mcu.system_tick_count)
                &&& final(rx).indication@ == old(rx).indication@.update(0, 1)
                &&& final(rx).status@ == old(rx).status@.update(0, spec_with_status(old(rx).status@[0], 1))
            } else {
                &&& *final(button) == *old(button)
                &&& final(rx).indication@ == old(rx).indication@
                &&& final(rx).status@ == old(rx).status@
            }
        }),
{
    ops.push(ExtiRegisterOp::ClearPending(line));
    let callback = register_get_exti_callback(st, line);
    if callback == Some(ExtiCallback::ButtonExtiNotification) {
        button_exti_notification(button, mcu, rx);
    }
}

/// The pending lines among `lines` (by the pending-register snapshot) that
/// are routed to the button handler, counted.
pub open spec fn spec_fired(st: ExtiState, lines: Seq<EXTILINE>, pending: u32) -> nat
    decreases lines.len(),
{
    if lines.len() == 0 {
        0
    } else {
        let l = lines.last();
        spec_fired(st, lines.drop_last(), pending) + (if (pending >> (spec_exti_line_number(l) as u32)) & 1u32 == 1u32
            && st.callback(l) == Some(ExtiCallback::ButtonExtiNotification) { 1nat } else { 0nat })
    }
}

/// The steps taken for `lines`: a pending-flag clear for each pending one.
pub open spec fn spec_group_ops(lines: Seq<EXTILINE>, pending: u32) -> Seq<ExtiRegisterOp>
    decreases lines.len(),
{
    if lines.len() == 0 {
        Seq::empty()
    } else {
        let l = lines.last();
        spec_group_ops(lines.drop_last(), pending) + (if (pending >> (spec_exti_line_number(l) as u32)) & 1u32 == 1u32 {
            seq![ExtiRegisterOp::ClearPending(l)]
        } else {
            Seq::empty()
        })
    }
}

/// Handles an interrupt shared by several lines: each line of `lines`, in
/// order, whose flag is set in the pending-register snapshot `pending` is
/// handled as by `exti_irq_handler`.
pub fn exti_group_irq_handler(
    st: &ExtiState,
    ops: &mut Vec<ExtiRegisterOp>,
    lines: &[EXTILINE],
    pending: u32,
    button: &mut ButtonState,
    mcu: &McuState,
    rx: &mut IoIfRxState,
)
    requires
        st.wf(),
        old(rx).wf(),
    ensures
        final(rx).wf(),
        final(ops)@ == old(ops)@ + spec_group_ops(lines@, pending),
        ({
            let n = spec_fired(*st, lines@, pending);
            if n > 0 && spec_press_accepted(*old(button), mcu.system_tick_count) {
                &&& *final(button) == spec_press(*old(button), mcu.system_tick_count)
                &&& final(rx).indication@ == old(rx).indication@.update(0, 1)
                &&& final(rx).status@ == old(rx).status@.update(0, spec_with_status(old(rx).status@[0], 1))
            } else {
                &&& *final(button) == *old(button)
                &&& final(rx).indication@ == old(rx).indication@
                &&& final(rx).status@ == old(rx).status@
            }
        }),
{
    let mut i: usize = 0;
    while i < lines.len()
        invariant
            st.wf(),
            rx.wf(),
            old(rx).wf(),
            0 <= i <= lines@.len(),
            ops@ == old(ops)@ + spec_group_ops(lines@.subrange(0, i as int), pending),
            ({
                let n = spec_fired(*st, lines@.subrange(0, i as int), pending);
                if n > 0 && spec_press_accepted(*old(button), mcu.system_tick_count) {
                    &&& *button == spec_press(*old(button), mcu.system_tick_count)
                    &&& rx.indication@ == old(rx).indication@.update(0, 1)
                    &&& rx.status@ == old(rx).status@.update(0, spec_with_status(old(rx).status@[0], 1))
                } else {
                    &&& *button == *old(button)
                    &&& rx.indication@ == old(rx).indication@
                    &&& rx.status@ == old(rx).status@
                }
            }),
        decreases lines@.len() - i,
    {
        let line = lines[i];
        let n = exti_line_number(line);
        let ghost pre = lines@.subrange(0, i as int);
        assert(lines@.subrange(0, i + 1).drop_last() =~= pre);
        assert(lines@.subrange(0, i + 1).last() == line);
        let ghost hit: bool = (pending >> (spec_exti_line_number(line) as u32)) & 1u32 == 1u32
            && st.callback(line) == Some(ExtiCallback::ButtonExtiNotification);
        assert(spec_fired(*st, lines@.subrange(0, i + 1), pending) == spec_fired(*st, pre, pending) + (if hit { 1nat } else { 0nat }));
        assert(vstd::wrapping::u32_specs::wrapping_sub(mcu.system_tick_count, mcu.system_tick_count) == 0) by (bit_vector);
        if (pending >> (n as u32)) & 1u32 == 1u32 {
            exti_irq_handler(st, ops, line, button, mcu, rx);
            proof {
                assert(old(rx).indication@.update(0, 1).update(0, 1) =~= old(rx).indication@.update(0, 1));
                assert(old(rx).status@.update(0, spec_with_status(old(rx).status@[0], 1)).update(
                    0,
                    spec_with_status(old(rx).status@.update(0, spec_with_status(old(rx).status@[0], 1))[0], 1),
                ) =~= old(rx).status@.update(0, spec_with_status(old(rx).status@[0], 1)));
            }
        }
        i = i + 1;
    }
    assert(lines@.subrange(0, lines@.len() as int) =~= lines@);
}

} // verus!
