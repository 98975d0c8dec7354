use vstd::prelude::*;
use crate::bsw::comm_type::{ComM_NetWorkHandleConfig, ComM_NetWorkHandleType, ComMUser};

verus! {

/// Number of slots in the ComM runtime tables (one per network handle).
pub const COMM_NETWORK_HANDLE_COUNT: usize = 4;

/// The configured user-to-network bindings, in table order.
pub open spec fn spec_comm_config() -> Seq<ComM_NetWorkHandleConfig> {
    seq![
        ComM_NetWorkHandleConfig { network_handle: ComM_NetWorkHandleType::GPIO, user: ComMUser::APP_GPIO },
        ComM_NetWorkHandleConfig { network_handle: ComM_NetWorkHandleType::USART, user: ComMUser::DIAG_USART },
        ComM_NetWorkHandleConfig { network_handle: ComM_NetWorkHandleType::CAN, user: ComMUser::MANAGEMENT_CAN },
    ]
}

/// The network handle configuration table.
pub fn comm_get_network_handle_config() -> (r: Vec<ComM_NetWorkHandleConfig>)
    ensures
        r@ == spec_comm_config(),
{
    vec![
        ComM_NetWorkHandleConfig { network_handle: ComM_NetWorkHandleType::GPIO, user: ComMUser::APP_GPIO },
        ComM_NetWorkHandleConfig { network_handle: ComM_NetWorkHandleType::USART, user: ComMUser::DIAG_USART },
        ComM_NetWorkHandleConfig { network_handle: ComM_NetWorkHandleType::CAN, user: ComMUser::MANAGEMENT_CAN },
    ]
}

} // verus!
