use vstd::prelude::*;
use crate::register::{GpioRegisters, AdcRegisters, UsartNumber};
use crate::mcal::mcu::{McuState, mcu_get_system_tick_count};
use crate::mcal::usart::UsartState;
use crate::mcal::usart_type::UsartCommand;
use crate::bsw::scheduler_type::{SchedulerRunnableType, SchedulerRunnableFn, SchedulerRunnableConfig, SchedulerTasksTable};
use crate::bsw::comm::{ComMState, comm_getcurrentcommode, comm_mainfunction, spec_decode_current, spec_comm_main};
use crate::bsw::comm_type::{ComMMode, ComM_NetWorkHandleType, spec_handle_index};
use crate::bsw::sensor::{SensorState, iohwab_sensor_mainfunction, spec_sensor_main};
use crate::bsw::iohwab_type::SensorStatusType;
use crate::bsw::ioif_rx::{IoIfRxState, ioif_read_rx_value, spec_with_status};
use crate::bsw::ioif_tx::IoIfTxState;
use crate::bsw::ioif_type::IoIf_ReturnType;
use crate::bsw::button::ButtonState;
use crate::bsw::usartif_type::{PduInfoType, UsartIf_ReturnType, UsartIf_PduStatus, spec_decode_usartif_status};
use crate::bsw::usartif_tx::{UsartIfTxState, usartif_transmit, spec_usartif_transmit};
use crate::bsw::usartif_rx::{
    UsartIfRxState, usartif_startofreception, usartif_rx_data_is_available, usartif_rx_processing,
    usartif_rx_timeout_processing, usartif_get_pdu_status, spec_start_reception, spec_rx_processing, spec_rx_timeout,
};
use crate::app::button_app::{ButtonAppState, button_app_1ms};
use crate::register::{RccRegisters, SysTickRegisters, ClockResourceType, Dio_LevelType, spec_write_bit};
use crate::mcal::mcu::{mcu_init, mcu_init_systick_1ms, spec_system_clock_hz};
use crate::mcal::port::{PortRegisterOp, port_init, spec_port_init_ops, spec_port_config};
use crate::mcal::exti::{ExtiState, exti_init, spec_exti_config, spec_exti_line_init_ops};
use crate::mcal::exti_type::ExtiRegisterOp;
use crate::mcal::usart::{usart_init, spec_usart_init};
use crate::mcal::adc::{adc_init, spec_adc_init_ops_upto, spec_adc_config, AdcRegisterOp};
use crate::mcal::spi::{spi_init, spec_spi_init_ops, spec_spi_config};
use crate::mcal::spi_type::SpiCommand;
use crate::mcal::mcp2515::{mcp2515_init, spec_mcp2515_init_steps, spec_mcp2515_config_set};
use crate::mcal::mcp2515_type::Mcp2515Step;
use crate::register::spec_exti_line_number;
use crate::bsw::ioif::{ioif_init, spec_ioif_init};
use crate::bsw::comm::{comm_init, spec_comm_init};
use crate::app::led_app::{led_app_1ms, led_app_500ms, spec_led_app_1ms, spec_led_app_500ms};

verus! {

/// Number of tasks in the table.
pub const SCHEDULER_TASK_COUNT: usize = 4;

/// The task table: 1 ms, 10 ms, 100 ms and 500 ms periodic tasks. The 100 ms
/// slot runs the sensor-and-report runnable (`scheduler_runnable_5ms`); no
/// other runnable exists for that period.
pub open spec fn spec_scheduler_table() -> Seq<SchedulerRunnableConfig> {
    seq![
        SchedulerRunnableConfig { task_type: SchedulerRunnableType::Periodic, period_ms: 1, task_fn: SchedulerRunnableFn::Runnable1ms },
        SchedulerRunnableConfig { task_type: SchedulerRunnableType::Periodic, period_ms: 10, task_fn: SchedulerRunnableFn::Runnable10ms },
        SchedulerRunnableConfig { task_type: SchedulerRunnableType::Periodic, period_ms: 100, task_fn: SchedulerRunnableFn::Runnable5ms },
        SchedulerRunnableConfig { task_type: SchedulerRunnableType::Periodic, period_ms: 500, task_fn: SchedulerRunnableFn::Runnable500ms },
    ]
}

pub fn scheduler_tasks_table() -> (r: SchedulerTasksTable)
    ensures
        r.tasks@ == spec_scheduler_table(),
{
    let r = SchedulerTasksTable {
        tasks: vec![
            SchedulerRunnableConfig { task_type: SchedulerRunnableType::Periodic, period_ms: 1, task_fn: SchedulerRunnableFn::Runnable1ms },
            SchedulerRunnableConfig { task_type: SchedulerRunnableType::Periodic, period_ms: 10, task_fn: SchedulerRunnableFn::Runnable10ms },
            SchedulerRunnableConfig { task_type: SchedulerRunnableType::Periodic, period_ms: 100, task_fn: SchedulerRunnableFn::Runnable5ms },
            SchedulerRunnableConfig { task_type: SchedulerRunnableType::Periodic, period_ms: 500, task_fn: SchedulerRunnableFn::Runnable500ms },
        ],
    };
    assert(r.tasks@ =~= spec_scheduler_table());
    r
}

/// The scheduler's own data: the tick at which each task last ran, whether
/// the test reception on USART2 is running, the last temperature and how
/// many 1 ms cycles in a row it has been above 30.
pub struct SchedulerState {
    pub last_run: Vec<u32>,
    pub rx_started: bool,
    pub temperature: u16,
    pub count: u16,
}

impl SchedulerState {
    pub open spec fn wf(&self) -> bool {
        self.last_run@.len() == SCHEDULER_TASK_COUNT
    }

    pub fn new() -> (r: SchedulerState)
        ensures
            r.wf(),
            r.last_run@ == seq![0u32, 0u32, 0u32, 0u32],
            !r.rx_started,
            r.temperature == 0,
            r.count == 0,
    {
        let r = SchedulerState { last_run: vec![0u32, 0, 0, 0], rx_started: false, temperature: 0, count: 0 };
        assert(r.last_run@ =~= seq![0u32, 0u32, 0u32, 0u32]);
        r
    }
}

/// Milliseconds from `last` to `now` on the wrapping tick counter.
pub open spec fn spec_ticks_since(now: u32, last: u32) -> u32 {
    vstd::wrapping::u32_specs::wrapping_sub(now, last)
}

/// Whether task `i` is due at `now`, given when it last ran.
pub open spec fn spec_task_due(last: Seq<u32>, now: u32, i: int) -> bool {
    spec_ticks_since(now, last[i]) >= spec_scheduler_table()[i].period_ms
}

/// The runnables of the due tasks among the first `k`, in table order.
pub open spec fn spec_due_tasks(last: Seq<u32>, now: u32, k: int) -> Seq<SchedulerRunnableFn>
    decreases k,
{
    if k <= 0 {
        Seq::empty()
    } else if spec_task_due(last, now, k - 1) {
        spec_due_tasks(last, now, k - 1).push(spec_scheduler_table()[k - 1].task_fn)
    } else {
        spec_due_tasks(last, now, k - 1)
    }
}

/// Makes every task count as just run.
pub fn scheduler_init(sched: &mut SchedulerState, mcu: &McuState)
    requires
        old(sched).wf(),
    ensures
        final(sched).wf(),
        final(sched).last_run@ == seq![mcu.system_tick_count; 4],
        final(sched).rx_started == old(sched).rx_started,
        final(sched).temperature == old(sched).temperature,
        final(sched).count == old(sched).count,
{
    let now = mcu_get_system_tick_count(mcu);
    let mut index: usize = 0;
    while index < sched.last_run.len()
        invariant
            sched.last_run@.len() == 4,
            0 <= index <= 4,
            sched.rx_started == old(sched).rx_started,
            sched.temperature == old(sched).temperature,
            sched.count == old(sched).count,
            forall|j: int| 0 <= j < index ==> #[trigger] sched.last_run@[j] == now,
        decreases 4 - index,
    {
        sched.last_run.set(index, now);
        index = index + 1;
    }
    assert(sched.last_run@ =~= seq![mcu.system_tick_count; 4]);
}

/// One pass of the cyclic scheduler: each task whose period has elapsed
/// since it last ran (on the wrapping tick counter) is due; its last-run
/// tick becomes now. Returns the runnables of the due tasks, in table
/// order, for the caller to run.
pub fn scheduler_mainfunction(sched: &mut SchedulerState, mcu: &McuState) -> (due: Vec<SchedulerRunnableFn>)
    requires
        old(sched).wf(),
    ensures
        final(sched).wf(),
        due@ == spec_due_tasks(old(sched).last_run@, mcu.system_tick_count, 4),
        forall|i: int| 0 <= i < 4 ==> #[trigger] final(sched).last_run@[i] == (
            if spec_task_due(old(sched).last_run@, mcu.system_tick_count, i) { mcu.system_tick_count } else { old(sched).last_run@[i] }),
        final(sched).rx_started == old(sched).rx_started,
        final(sched).temperature == old(sched).temperature,
        final(sched).count == old(sched).count,
{
    let table = scheduler_tasks_table();
    let mut due: Vec<SchedulerRunnableFn> = Vec::new();
    let mut index: usize = 0;
    while index < table.tasks.len()
        invariant
            table.tasks@ == spec_scheduler_table(),
            sched.last_run@.len() == 4,
            0 <= index <= 4,
            due@ == spec_due_tasks(old(sched).last_run@, mcu.system_tick_count, index as int),
            forall|i: int| 0 <= i < 4 ==> #[trigger] sched.last_run@[i] == (
                if i < index && spec_task_due(old(sched).last_run@, mcu.system_tick_count, i) {
                    mcu.system_tick_count
                } else {
                    old(sched).last_run@[i]
                }),
            sched.rx_started == old(sched).rx_started,
            sched.temperature == old(sched).temperature,
            sched.count == old(sched).count,
        decreases 4 - index,
    {
        let task = table.tasks[index];
        let now = mcu_get_system_tick_count(mcu);
        let last = sched.last_run[index];
        let elapsed = now.wrapping_sub(last);
        if elapsed >= task.period_ms {
            due.push(task.task_fn);
            sched.last_run.set(index, now);
        }
        index = index + 1;
    }
    due
}

/// Whether the GPIO network is in full communication.
pub open spec fn spec_fullcom(comm: ComMState) -> bool {
    spec_decode_current(comm.current@[spec_handle_index(ComM_NetWorkHandleType::GPIO)]) == ComMMode::FULL_COMMUNICATION
}

fn scheduler_is_network_fullcom(comm: &ComMState) -> (r: bool)
    requires
        comm.wf(),
    ensures
        r == spec_fullcom(*comm),
{
    let mode = comm_getcurrentcommode(comm, ComM_NetWorkHandleType::GPIO);
    if let Some(mode) = mode {
        mode == ComMMode::FULL_COMMUNICATION
    } else {
        false
    }
}

/// The 1 ms task up to the temperature reading: the button application,
/// the LED application on the low four bits of the count it returns, then a
/// read of the sensor PDU (0x101) into a value starting at 0. Returns the
/// read's outcome and the raw value, which the caller turns into a
/// temperature and hands to `scheduler_record_temperature`.
pub fn scheduler_runnable_1ms(
    app: &mut ButtonAppState,
    rx: &mut IoIfRxState,
    button: &ButtonState,
    g: &mut GpioRegisters,
    sensor: &mut SensorState,
    tx: &mut IoIfTxState,
) -> (r: (IoIf_ReturnType, u16))
    requires
        old(rx).wf(),
        old(g).wf(),
        old(sensor).wf(),
        old(tx).wf(),
    ensures
        final(rx).wf(),
        final(g).wf(),
        final(sensor).wf(),
        final(tx).wf(),
        final(g).idr@ == old(g).idr@,
        final(sensor).values@ == old(sensor).values@,
        final(rx).indication@ == (if old(rx).indication@[0] != 0 {
            old(rx).indication@.update(0, 0)
        } else {
            old(rx).indication@
        }),
        ({
            let status = if old(rx).indication@[0] != 0 { button.count as u16 } else { old(app).last_button_status };
            &&& final(app).last_button_status == status
            &&& spec_led_app_1ms(*old(tx), old(g).odr@, *final(tx), final(g).odr@, (status & 0xf) as u8)
        }),
        ({
            let st0 = if old(rx).indication@[0] != 0 {
                old(rx).status@.update(0, spec_with_status(old(rx).status@[0], 0))
            } else {
                old(rx).status@
            };
            if old(sensor).status_of(0) == SensorStatusType::SENSOR_COMPLETE {
                &&& r == (IoIf_ReturnType::IOIF_E_OK, old(sensor).values@[0])
                &&& final(sensor).status@ == old(sensor).status@.update(0, 0)
                &&& final(rx).status@ == st0.update(1, spec_with_status(st0[1], 0))
            } else {
                &&& r == (IoIf_ReturnType::IOIF_E_NOT_OK, 0u16)
                &&& final(sensor).status@ == old(sensor).status@
                &&& final(rx).status@ == st0.update(1, spec_with_status(st0[1], 4))
            }
        }),
{
    let button_status = button_app_1ms(app, rx, button, g, sensor);
    led_app_1ms(tx, g, (button_status & 0xf) as u8);
    let mut adc_raw_value: u16 = 0;
    let ret = ioif_read_rx_value(rx, button, g, sensor, 0x101, &mut adc_raw_value);
    (ret, adc_raw_value)
}

/// Keeps the temperature the 1 ms task measured and counts the cycles in a
/// row above 30 (wrapping), resetting the count otherwise.
pub fn scheduler_record_temperature(sched: &mut SchedulerState, temperature: u16)
    ensures
        final(sched).temperature == temperature,
        final(sched).count == (if temperature > 30 {
            vstd::wrapping::u16_specs::wrapping_add(old(sched).count, 1)
        } else {
            0u16
        }),
        final(sched).last_run@ == old(sched).last_run@,
        final(sched).rx_started == old(sched).rx_started,
{
    sched.temperature = temperature;
    if temperature > 30 {
        sched.count = sched.count.wrapping_add(1);
    } else {
        sched.count = 0;
    }
}

/// The 10 ms task: a ComM cycle, then a sensor cycle.
pub fn scheduler_runnable_10ms(comm: &mut ComMState, sensor: &mut SensorState, adc: &mut AdcRegisters)
    requires
        old(comm).wf(),
        old(sensor).wf(),
    ensures
        final(comm).wf(),
        final(sensor).wf(),
        spec_comm_main(*old(comm), *final(comm)),
        spec_sensor_main(*old(sensor), *old(adc), *final(sensor), *final(adc)),
{
    comm_mainfunction(comm);
    iohwab_sensor_mainfunction(sensor, adc);
}

/// The 500 ms task: the 500 ms LED work, in full communication only.
pub fn scheduler_runnable_500ms(comm: &ComMState, tx: &mut IoIfTxState, g: &mut GpioRegisters)
    requires
        comm.wf(),
        old(tx).wf(),
        old(g).wf(),
    ensures
        final(tx).wf(),
        final(g).wf(),
        final(g).idr@ == old(g).idr@,
        spec_fullcom(*comm) ==> spec_led_app_500ms(*old(tx), old(g).odr@, *final(tx), final(g).odr@),
        !spec_fullcom(*comm) ==> *final(tx) == *old(tx) && *final(g) == *old(g),
{
    if scheduler_is_network_fullcom(comm) {
        led_app_500ms(tx, g);
    }
}

/// "Hello, USART!\n".
pub open spec fn spec_hello_bytes() -> Seq<u8> {
    seq![72u8, 101, 108, 108, 111, 44, 32, 85, 83, 65, 82, 84, 33, 10]
}

/// "successfully!\n".
pub open spec fn spec_success_bytes() -> Seq<u8> {
    seq![115u8, 117, 99, 99, 101, 115, 115, 102, 117, 108, 108, 121, 33, 10]
}

/// A PDU of exactly the bytes `b`.
pub open spec fn spec_pdu_of(p: PduInfoType, b: Seq<u8>) -> bool {
    &&& p.length == b.len()
    &&& p.data is Some
    &&& p.data->0@ == b
}

/// The 1000 ms task: in full communication, sends "Hello, USART!\n" as
/// PDU 0 through UsartIf.
pub fn scheduler_runnable_1000ms(
    comm: &ComMState,
    ut: &mut UsartIfTxState,
    usart: &mut UsartState,
    ops: &mut Vec<UsartCommand>,
)
    requires
        comm.wf(),
        old(ut).wf(),
        old(usart).wf(),
    ensures
        final(ut).wf(),
        final(usart).wf(),
        !spec_fullcom(*comm) ==> *final(ut) == *old(ut) && *final(usart) == *old(usart) && final(ops)@ == old(ops)@,
        spec_fullcom(*comm) ==> exists|p: PduInfoType, r: UsartIf_ReturnType|
            spec_pdu_of(p, spec_hello_bytes())
            && #[trigger] spec_usartif_transmit(*old(ut), *old(usart), old(ops)@, *final(ut), *final(usart), final(ops)@, 0, Some(&p), r),
{
    if scheduler_is_network_fullcom(comm) {
        let pdu_info = PduInfoType {
            data: Some(vec![72u8, 101, 108, 108, 111, 44, 32, 85, 83, 65, 82, 84, 33, 10]),
            length: 14,
        };
        assert(pdu_info.data.unwrap()@ =~= spec_hello_bytes());
        let r = usartif_transmit(ut, usart, ops, 0, Some(&pdu_info));
    }
}

/// Whether the first three bytes of a received frame read "111".
pub open spec fn spec_is_111(b: Seq<u8>) -> bool {
    b.len() >= 3 && b[0] == 49 && b[1] == 49 && b[2] == 49
}

/// Start of the test reception: unless one is running, a six-byte zeroed
/// buffer is handed to UsartIf on USART2 and the reception counts as
/// running when UsartIf accepts it.
pub open spec fn spec_5ms_start(
    started0: bool,
    s0: UsartIfRxState,
    u0: UsartState,
    o0: Seq<UsartCommand>,
    started1: bool,
    s1: UsartIfRxState,
    u1: UsartState,
    o1: Seq<UsartCommand>,
) -> bool {
    if started0 {
        started1 && s1 == s0 && u1 == u0 && o1 == o0
    } else {
        exists|p: PduInfoType, r: UsartIf_ReturnType|
            spec_pdu_of(p, seq![0u8; 6])
            && #[trigger] spec_start_reception(s0, u0, o0, s1, u1, o1, UsartNumber::USART2, Some(p), r)
            && started1 == (r == UsartIf_ReturnType::USARTIF_OK)
    }
}

/// While the test reception runs and bytes wait in the USART2 ring, one
/// pass of reception processing.
pub open spec fn spec_5ms_process(
    started: bool,
    s0: UsartIfRxState,
    u0: UsartState,
    s1: UsartIfRxState,
    u1: UsartState,
    tick: u32,
) -> bool {
    if started && u0.rx_queue(1).len() > 0 {
        spec_rx_processing(s0, u0, s1, u1, tick, UsartNumber::USART2)
    } else {
        s1 == s0 && u1 == u0
    }
}

/// The outcome of the test reception: once completed, a frame starting
/// with "111" is answered with "successfully!\n" (PDU 0) and the reception
/// stops; in error it stops; otherwise it goes on.
pub open spec fn spec_5ms_finish(
    started: bool,
    s: UsartIfRxState,
    ut0: UsartIfTxState,
    u0: UsartState,
    o0: Seq<UsartCommand>,
    started1: bool,
    ut1: UsartIfTxState,
    u1: UsartState,
    o1: Seq<UsartCommand>,
) -> bool {
    let status = spec_decode_usartif_status(s.status0());
    if status == Some(UsartIf_PduStatus::USARTIF_COMPLETED) {
        &&& !started1
        &&& if spec_is_111(s.buf(1)) {
            exists|p: PduInfoType, r: UsartIf_ReturnType|
                spec_pdu_of(p, spec_success_bytes())
                && #[trigger] spec_usartif_transmit(ut0, u0, o0, ut1, u1, o1, 0, Some(&p), r)
        } else {
            ut1 == ut0 && u1 == u0 && o1 == o0
        }
    } else if status == Some(UsartIf_PduStatus::USARTIF_ERROR) {
        !started1 && ut1 == ut0 && u1 == u0 && o1 == o0
    } else {
        started1 == started && ut1 == ut0 && u1 == u0 && o1 == o0
    }
}

/// The 5 ms task from (`started0`, `s0`, `u0`, `ut0`, `o0`) to (`started1`,
/// `s1`, `u1`, `ut1`, `o1`): nothing outside full communication; in it, the
/// start, processing, timeout check and outcome of the test reception, in
/// that order.
pub open spec fn spec_runnable_5ms(
    comm: ComMState,
    tick: u32,
    started0: bool,
    s0: UsartIfRxState,
    u0: UsartState,
    ut0: UsartIfTxState,
    o0: Seq<UsartCommand>,
    started1: bool,
    s1: UsartIfRxState,
    u1: UsartState,
    ut1: UsartIfTxState,
    o1: Seq<UsartCommand>,
) -> bool {
    if !spec_fullcom(comm) {
        started1 == started0 && s1 == s0 && u1 == u0 && ut1 == ut0 && o1 == o0
    } else {
        exists|sa: bool, xa: UsartIfRxState, ua: UsartState, oa: Seq<UsartCommand>, xb: UsartIfRxState, ub: UsartState|
            #![trigger spec_5ms_start(started0, s0, u0, o0, sa, xa, ua, oa), spec_5ms_process(sa, xa, ua, xb, ub, tick)]
            spec_5ms_start(started0, s0, u0, o0, sa, xa, ua, oa)
            && spec_5ms_process(sa, xa, ua, xb, ub, tick)
            && spec_rx_timeout(xb, s1, tick)
            && spec_5ms_finish(sa, s1, ut0, ub, oa, started1, ut1, u1, o1)
    }
}

/// The 5 ms task: in full communication, runs the USART2 test reception:
/// starts it into a zeroed six-byte buffer when none is running, processes
/// waiting bytes, checks the reception timeout, and when the frame is
/// complete answers a frame starting with "111" with "successfully!\n".
pub fn scheduler_runnable_5ms(
    sched: &mut SchedulerState,
    comm: &ComMState,
    ur: &mut UsartIfRxState,
    usart: &mut UsartState,
    ut: &mut UsartIfTxState,
    mcu: &McuState,
    ops: &mut Vec<UsartCommand>,
)
    requires
        comm.wf(),
        old(ur).wf(),
        old(usart).wf(),
        old(ut).wf(),
    ensures
        final(ur).wf(),
        final(usart).wf(),
        final(ut).wf(),
        final(sched).last_run@ == old(sched).last_run@,
        final(sched).temperature == old(sched).temperature,
        final(sched).count == old(sched).count,
        spec_runnable_5ms(
            *comm,
            mcu.system_tick_count,
            old(sched).rx_started,
            *old(ur),
            *old(usart),
            *old(ut),
            old(ops)@,
            final(sched).rx_started,
            *final(ur),
            *final(usart),
            *final(ut),
            final(ops)@,
        ),
{
    if !scheduler_is_network_fullcom(comm) {
        return;
    }
    let ghost s0 = *ur;
    let ghost u0 = *usart;
    let ghost o0 = ops@;
    let ghost started0 = sched.rx_started;
    if !sched.rx_started {
        let pdu_info = PduInfoType { data: Some(scheduler_clean_rx_buffer()), length: 6 };
        let ghost gp = pdu_info;
        assert(spec_pdu_of(gp, seq![0u8; 6]));
        let status = usartif_startofreception(ur, usart, ops, UsartNumber::USART2, Some(pdu_info));
        assert(spec_start_reception(s0, u0, o0, *ur, *usart, ops@, UsartNumber::USART2, Some(gp), status));
        if status == UsartIf_ReturnType::USARTIF_OK {
            sched.rx_started = true;
        }
    }
    let ghost sa = sched.rx_started;
    let ghost xa = *ur;
    let ghost ua = *usart;
    let ghost oa = ops@;
    assert(spec_5ms_start(started0, s0, u0, o0, sa, xa, ua, oa));
    if sched.rx_started {
        if usartif_rx_data_is_available(usart, UsartNumber::USART2) {
            usartif_rx_processing(ur, usart, mcu, UsartNumber::USART2);
        }
    }
    let ghost xb = *ur;
    let ghost ub = *usart;
    assert(spec_5ms_process(sa, xa, ua, xb, ub, mcu.system_tick_count));
    usartif_rx_timeout_processing(ur, mcu, UsartNumber::USART2);
    let rx_status = usartif_get_pdu_status(ur, UsartNumber::USART2);
    if rx_status == Some(UsartIf_PduStatus::USARTIF_COMPLETED) {
        let buf = &ur.buffers[1];
        if buf.len() >= 3 && buf[0] == 49u8 && buf[1] == 49u8 && buf[2] == 49u8 {
            let pdu_info1 = PduInfoType {
                data: Some(vec![115u8, 117, 99, 99, 101, 115, 115, 102, 117, 108, 108, 121, 33, 10]),
                length: 14,
            };
            assert(pdu_info1.data.unwrap()@ =~= spec_success_bytes());
            let ghost ut0 = *ut;
            let r = usartif_transmit(ut, usart, ops, 0, Some(&pdu_info1));
            assert(spec_usartif_transmit(ut0, ub, oa, *ut, *usart, ops@, 0, Some(&pdu_info1), r));
        }
        sched.rx_started = false;
    } else if rx_status == Some(UsartIf_PduStatus::USARTIF_ERROR) {
        sched.rx_started = false;
    }
}

/// A zeroed six-byte receive buffer.
fn scheduler_clean_rx_buffer() -> (r: Vec<u8>)
    ensures
        r@ == seq![0u8; 6],
{
    let r = vec![0u8; 6];
    r
}

/// The register steps of start-up, by peripheral, each in the order taken.
pub struct SchedulerInitOps {
    pub port: Vec<PortRegisterOp>,
    pub exti: Vec<ExtiRegisterOp>,
    pub usart: Vec<UsartCommand>,
    pub adc: Vec<AdcRegisterOp>,
    pub spi: Vec<SpiCommand>,
    pub mcp2515: Vec<Mcp2515Step>,
}

/// System start-up, once: clocks and the 1 ms SysTick, the scheduler's
/// task ticks, the pins, the external interrupts, IoIf, ComM, the USART,
/// the ADC, the SPIs and the MCP2515. Returns the register steps taken, by
/// peripheral.
pub fn scheduler_oneshot_task(
    rcc: &mut RccRegisters,
    systick: &mut SysTickRegisters,
    mcu: &McuState,
    sched: &mut SchedulerState,
    exti: &mut ExtiState,
    rx: &mut IoIfRxState,
    tx: &mut IoIfTxState,
    comm: &mut ComMState,
    usart: &mut UsartState,
    g: &mut GpioRegisters,
) -> (r: SchedulerInitOps)
    requires
        old(sched).wf(),
        old(exti).wf(),
        old(rx).wf(),
        old(tx).wf(),
        old(comm).wf(),
        old(usart).wf(),
        old(g).wf(),
    ensures
        final(sched).wf(),
        final(exti).wf(),
        final(rx).wf(),
        final(tx).wf(),
        final(comm).wf(),
        final(usart).wf(),
        final(g).wf(),
        final(rcc).clock_source == old(rcc).clock_source,
        final(rcc).hsi_on == (old(rcc).hsi_on || old(rcc).clock_source == ClockResourceType::HSI),
        final(systick).core_clock_hz == spec_system_clock_hz(old(rcc).clock_source),
        final(systick).tick_rate_hz == 1000,
        final(systick).configured,
        final(sched).last_run@ == seq![mcu.system_tick_count; 4],
        final(sched).rx_started == old(sched).rx_started,
        final(sched).temperature == old(sched).temperature,
        final(sched).count == old(sched).count,
        r.port@ == spec_port_init_ops(spec_port_config(), spec_port_config().len() as int),
        r.exti@ == spec_exti_line_init_ops(spec_exti_config()[0]),
        final(exti).callbacks@ == old(exti).callbacks@.update(
            spec_exti_line_number(spec_exti_config()[0].line),
            spec_exti_config()[0].callbackfn,
        ),
        spec_ioif_init(*old(rx), *old(tx), *final(rx), *final(tx)),
        spec_comm_init(*old(comm), *final(comm)),
        spec_usart_init(*old(usart), Seq::empty(), *final(usart), r.usart@),
        r.adc@ == spec_adc_init_ops_upto(spec_adc_config(), spec_adc_config().len() as int),
        final(g).idr@ == old(g).idr@,
        final(g).odr@ == old(g).odr@.update(4, spec_write_bit(old(g).odr@[4], 3, Dio_LevelType::HIGH)),
        r.spi@ == spec_spi_init_ops(spec_spi_config(), 2),
        r.mcp2515@ == spec_mcp2515_init_steps(spec_mcp2515_config_set()[0]),
{
    mcu_init(rcc);
    mcu_init_systick_1ms(rcc, systick);
    scheduler_init(sched, mcu);
    let mut port_ops: Vec<PortRegisterOp> = Vec::new();
    port_init(&mut port_ops);
    let mut exti_ops: Vec<ExtiRegisterOp> = Vec::new();
    exti_init(exti, &mut exti_ops);
    ioif_init(rx, tx);
    comm_init(comm);
    let mut usart_ops: Vec<UsartCommand> = Vec::new();
    usart_init(usart, &mut usart_ops);
    let adc_ops = adc_init();
    let mut spi_ops: Vec<SpiCommand> = Vec::new();
    spi_init(g, &mut spi_ops);
    let mut mcp_steps: Vec<Mcp2515Step> = Vec::new();
    mcp2515_init(&mut mcp_steps);
    assert(port_ops@ =~= spec_port_init_ops(spec_port_config(), spec_port_config().len() as int));
    assert(exti_ops@ =~= spec_exti_line_init_ops(spec_exti_config()[0]));
    assert(spi_ops@ =~= spec_spi_init_ops(spec_spi_config(), 2));
    assert(mcp_steps@ =~= spec_mcp2515_init_steps(spec_mcp2515_config_set()[0]));
    SchedulerInitOps { port: port_ops, exti: exti_ops, usart: usart_ops, adc: adc_ops, spi: spi_ops, mcp2515: mcp_steps }
}

} // verus!
