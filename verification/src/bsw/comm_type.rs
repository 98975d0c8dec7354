use vstd::prelude::*;

verus! {

/// Communication mode reported for a network.
#[derive(Clone, Copy, Debug, PartialEq, Eq, Structural)]
pub enum ComMMode {
    NO_COMMUNICATION,
    SILENT_COMMUNICATION,
    FULL_COMMUNICATION,
}

#[derive(Clone, Copy, Debug, PartialEq, Eq, Structural)]
pub enum ComMReturnType {
    COMM_E_OK,
    COMM_E_NOT_OK,
}

#[derive(Clone, Copy, Debug, PartialEq, Eq, Structural)]
pub enum ComM_NetWorkHandleType {
    GPIO,
    USART,
    CAN,
    SPI,
}

#[derive(Clone, Copy, Debug, PartialEq, Eq, Structural)]
pub enum ComM_StateType {
    COMM_NO_COM_NO_PENDING_REQUEST,
    COMM_NO_COM_REQUEST_PENDING,
    COMM_FULL_COM_NETWORK_REQUESTED,
    COMM_FULL_COM_READY_SLEEP,
    COMM_SILENT_COM,
}

#[derive(Clone, Copy, Debug, PartialEq, Eq, Structural)]
pub enum ComMRequestedMode {
    NO_COMMUNICATION,
    FULL_COMMUNICATION,
}

/// Users of the communication manager, each bound to one network.
#[derive(Clone, Copy, Debug, PartialEq, Eq, Structural)]
pub enum ComMUser {
    APP_GPIO,
    DIAG_USART,
    MANAGEMENT_CAN,
    APP_SPI,
}

#[derive(Clone, Copy, Debug, PartialEq, Eq, Structural)]
pub struct ComM_NetWorkHandleConfig {
    pub network_handle: ComM_NetWorkHandleType,
    pub user: ComMUser,
}

pub open spec fn spec_handle_index(h: ComM_NetWorkHandleType) -> int {
    match h {
        ComM_NetWorkHandleType::GPIO => 0,
        ComM_NetWorkHandleType::USART => 1,
        ComM_NetWorkHandleType::CAN => 2,
        ComM_NetWorkHandleType::SPI => 3,
    }
}

/// The discriminant of a network handle, used to index the runtime tables.
pub fn comm_handle_index(h: ComM_NetWorkHandleType) -> (r: usize)
    ensures
        r == spec_handle_index(h),
{
    match h {
        ComM_NetWorkHandleType::GPIO => 0,
        ComM_NetWorkHandleType::USART => 1,
        ComM_NetWorkHandleType::CAN => 2,
        ComM_NetWorkHandleType::SPI => 3,
    }
}

pub open spec fn spec_mode_code(m: ComMMode) -> u8 {
    match m {
        ComMMode::NO_COMMUNICATION => 0,
        ComMMode::SILENT_COMMUNICATION => 1,
        ComMMode::FULL_COMMUNICATION => 2,
    }
}

pub fn comm_mode_code(m: ComMMode) -> (r: u8)
    ensures
        r == spec_mode_code(m),
{
    match m {
        ComMMode::NO_COMMUNICATION => 0,
        ComMMode::SILENT_COMMUNICATION => 1,
        ComMMode::FULL_COMMUNICATION => 2,
    }
}

pub open spec fn spec_requested_code(m: ComMRequestedMode) -> u8 {
    match m {
        ComMRequestedMode::NO_COMMUNICATION => 0,
        ComMRequestedMode::FULL_COMMUNICATION => 1,
    }
}

pub fn comm_requested_code(m: ComMRequestedMode) -> (r: u8)
    ensures
        r == spec_requested_code(m),
{
    match m {
        ComMRequestedMode::NO_COMMUNICATION => 0,
        ComMRequestedMode::FULL_COMMUNICATION => 1,
    }
}

pub open spec fn spec_state_code(s: ComM_StateType) -> u8 {
    match s {
        ComM_StateType::COMM_NO_COM_NO_PENDING_REQUEST => 0,
        ComM_StateType::COMM_NO_COM_REQUEST_PENDING => 1,
        ComM_StateType::COMM_FULL_COM_NETWORK_REQUESTED => 2,
        ComM_StateType::COMM_FULL_COM_READY_SLEEP => 3,
        ComM_StateType::COMM_SILENT_COM => 4,
    }
}

pub fn comm_state_code(s: ComM_StateType) -> (r: u8)
    ensures
        r == spec_state_code(s),
{
    match s {
        ComM_StateType::COMM_NO_COM_NO_PENDING_REQUEST => 0,
        ComM_StateType::COMM_NO_COM_REQUEST_PENDING => 1,
        ComM_StateType::COMM_FULL_COM_NETWORK_REQUESTED => 2,
        ComM_StateType::COMM_FULL_COM_READY_SLEEP => 3,
        ComM_StateType::COMM_SILENT_COM => 4,
    }
}

} // verus!
