use vstd::prelude::*;
use crate::register::{PORT, EXTILINE, Exti_TriggerType, IRQn};

verus! {

/// The handlers a line can be routed to.
#[derive(Clone, Copy, Debug, PartialEq, Eq, Structural)]
pub enum ExtiCallback {
    ButtonExtiNotification,
}

/// One external interrupt line: the port whose pin drives it, its edge,
/// whether it is used, and the handler it is routed to.
#[derive(Clone, Copy, Debug, PartialEq, Eq, Structural)]
pub struct Exti_Config {
    pub port: PORT,
    pub line: EXTILINE,
    pub trigger: Exti_TriggerType,
    pub enabled: bool,
    pub callbackfn: Option<ExtiCallback>,
}

pub struct Exti_ConfigType {
    pub exti: Vec<Exti_Config>,
}

/// A register-level step of the EXTI driver.
#[derive(Clone, Copy, Debug, PartialEq, Eq, Structural)]
pub enum ExtiRegisterOp {
    EnableSyscfgClock,
    ConfigureLine(EXTILINE, PORT),
    SetTrigger(EXTILINE, Exti_TriggerType),
    ClearPending(EXTILINE),
    EnableLine(EXTILINE),
    DisableLine(EXTILINE),
    NvicEnable(IRQn),
    NvicDisable(IRQn),
}

} // verus!
