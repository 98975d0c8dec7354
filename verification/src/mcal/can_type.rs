use vstd::prelude::*;

verus! {

#[derive(Clone, Copy, Debug, PartialEq, Eq, Structural)]
pub enum CanControllerIdType {
    CAN0,
    CAN1,
}

#[derive(Clone, Copy, Debug, PartialEq, Eq, Structural)]
pub enum CanModeType {
    CAN_MODE_NORMAL,
    CAN_MODE_LOOPBACK,
    CAN_MODE_SILENT,
    CAN_MODE_SILENT_LOOPBACK,
}

#[derive(Clone, Copy, Debug, PartialEq, Eq, Structural)]
pub enum CanHardwareControllerType {
    MCP2515_0,
}

#[derive(Clone, Copy, Debug, PartialEq, Eq, Structural)]
pub enum CanBaudrateType {
    CAN_BAUDRATE_125K,
    CAN_BAUDRATE_250K,
    CAN_BAUDRATE_500K,
    CAN_BAUDRATE_1M,
}

#[derive(Clone, Copy, Debug, PartialEq, Eq, Structural)]
pub struct CanChannelConfigType {
    pub controller_id: CanControllerIdType,
    pub mode: CanModeType,
    pub baudrate: CanBaudrateType,
    pub interrupt_enable: bool,
    pub hw_controler: CanHardwareControllerType,
}

} // verus!
