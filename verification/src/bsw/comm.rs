use vstd::prelude::*;
use crate::bsw::comm_type::{
    ComMMode, ComMReturnType, ComM_NetWorkHandleType, ComM_StateType, ComMRequestedMode, ComMUser,
    ComM_NetWorkHandleConfig, spec_handle_index, comm_handle_index, spec_mode_code, comm_mode_code,
    spec_requested_code, comm_requested_code, spec_state_code, comm_state_code,
};
use crate::bsw::comm_cfg::{COMM_NETWORK_HANDLE_COUNT, spec_comm_config, comm_get_network_handle_config};

verus! {

/// Runtime tables of the communication manager: one code per network handle
/// for the current mode, the requested mode and the internal state (the
/// code of a ComM state, 0..=4).
pub struct ComMState {
    pub current: Vec<u8>,
    pub requested: Vec<u8>,
    pub internal: Vec<u8>,
}

impl ComMState {
    pub open spec fn wf(&self) -> bool {
        &&& self.current@.len() == COMM_NETWORK_HANDLE_COUNT
        &&& self.requested@.len() == COMM_NETWORK_HANDLE_COUNT
        &&& self.internal@.len() == COMM_NETWORK_HANDLE_COUNT
        &&& forall|i: int| 0 <= i < 4 ==> #[trigger] self.internal@[i] <= 4
    }

    /// All tables start at code 0.
    pub fn new() -> (r: ComMState)
        ensures
            r.wf(),
            forall|i: int| 0 <= i < 4 ==> r.current@[i] == 0 && r.requested@[i] == 0 && r.internal@[i] == 0,
    {
        ComMState { current: vec![0u8, 0, 0, 0], requested: vec![0u8, 0, 0, 0], internal: vec![0u8, 0, 0, 0] }
    }
}

pub open spec fn spec_decode_current(c: u8) -> ComMMode {
    if c == 1 {
        ComMMode::SILENT_COMMUNICATION
    } else if c == 2 {
        ComMMode::FULL_COMMUNICATION
    } else {
        ComMMode::NO_COMMUNICATION
    }
}

pub open spec fn spec_decode_requested(c: u8) -> ComMRequestedMode {
    if c == 1 {
        ComMRequestedMode::FULL_COMMUNICATION
    } else {
        ComMRequestedMode::NO_COMMUNICATION
    }
}

pub open spec fn spec_decode_internal(c: u8) -> Option<ComM_StateType> {
    if c == 0 {
        Some(ComM_StateType::COMM_NO_COM_NO_PENDING_REQUEST)
    } else if c == 1 {
        Some(ComM_StateType::COMM_NO_COM_REQUEST_PENDING)
    } else if c == 2 {
        Some(ComM_StateType::COMM_FULL_COM_NETWORK_REQUESTED)
    } else if c == 3 {
        Some(ComM_StateType::COMM_FULL_COM_READY_SLEEP)
    } else if c == 4 {
        Some(ComM_StateType::COMM_SILENT_COM)
    } else {
        None
    }
}

/// The ComM state machine: a full request advances from "no communication"
/// through "request pending" to "network requested"; a release steps back
/// through "ready sleep" to "no communication", and from any other state
/// straight to "no communication".
pub open spec fn spec_transition(state: ComM_StateType, requested: ComMRequestedMode) -> ComM_StateType {
    match (state, requested) {
        (ComM_StateType::COMM_NO_COM_NO_PENDING_REQUEST, ComMRequestedMode::FULL_COMMUNICATION) =>
            ComM_StateType::COMM_NO_COM_REQUEST_PENDING,
        (ComM_StateType::COMM_NO_COM_REQUEST_PENDING, ComMRequestedMode::FULL_COMMUNICATION) =>
            ComM_StateType::COMM_FULL_COM_NETWORK_REQUESTED,
        (ComM_StateType::COMM_FULL_COM_NETWORK_REQUESTED, ComMRequestedMode::NO_COMMUNICATION) =>
            ComM_StateType::COMM_FULL_COM_READY_SLEEP,
        (ComM_StateType::COMM_FULL_COM_READY_SLEEP, ComMRequestedMode::NO_COMMUNICATION) =>
            ComM_StateType::COMM_NO_COM_NO_PENDING_REQUEST,
        (_, ComMRequestedMode::NO_COMMUNICATION) => ComM_StateType::COMM_NO_COM_NO_PENDING_REQUEST,
        (s, _) => s,
    }
}

pub open spec fn spec_state_to_mode(state: ComM_StateType) -> ComMMode {
    match state {
        ComM_StateType::COMM_NO_COM_NO_PENDING_REQUEST => ComMMode::NO_COMMUNICATION,
        ComM_StateType::COMM_NO_COM_REQUEST_PENDING => ComMMode::NO_COMMUNICATION,
        ComM_StateType::COMM_FULL_COM_NETWORK_REQUESTED => ComMMode::FULL_COMMUNICATION,
        ComM_StateType::COMM_FULL_COM_READY_SLEEP => ComMMode::FULL_COMMUNICATION,
        ComM_StateType::COMM_SILENT_COM => ComMMode::SILENT_COMMUNICATION,
    }
}

/// The first configuration entry bound to `user`, searching from entry `i`.
pub open spec fn spec_find_cfg_by_user(cfg: Seq<ComM_NetWorkHandleConfig>, user: ComMUser, i: int)
    -> Option<ComM_NetWorkHandleConfig>
    decreases cfg.len() - i,
{
    if i < 0 || i >= cfg.len() {
        None
    } else if cfg[i].user == user {
        Some(cfg[i])
    } else {
        spec_find_cfg_by_user(cfg, user, i + 1)
    }
}

pub open spec fn spec_cfg_by_user(user: ComMUser) -> Option<ComM_NetWorkHandleConfig> {
    spec_find_cfg_by_user(spec_comm_config(), user, 0)
}

/// Whether a table slot belongs to a configured network.
pub open spec fn spec_comm_configured(i: int) -> bool {
    exists|k: int| 0 <= k < spec_comm_config().len() && spec_handle_index(#[trigger] spec_comm_config()[k].network_handle) == i
}

/// The internal-state code of a slot after one main-function cycle.
pub open spec fn spec_internal_after_main(req: u8, int_code: u8) -> u8 {
    match spec_decode_internal(int_code) {
        Some(st) => spec_state_code(spec_transition(st, spec_decode_requested(req))),
        None => int_code,
    }
}

/// The current-mode code of a slot after one main-function cycle.
pub open spec fn spec_current_after_main(req: u8, int_code: u8, cur: u8) -> u8 {
    match spec_decode_internal(int_code) {
        Some(st) => spec_mode_code(spec_state_to_mode(spec_transition(st, spec_decode_requested(req)))),
        None => cur,
    }
}

pub proof fn lemma_comm_configured()
    ensures
        forall|i: int| spec_comm_configured(i) <==> 0 <= i < 3,
        spec_comm_config().len() == 3,
        forall|k: int| 0 <= k < 3 ==> spec_handle_index(#[trigger] spec_comm_config()[k].network_handle) == k,
{
    assert forall|i: int| spec_comm_configured(i) <==> 0 <= i < 3 by {
        if 0 <= i < 3 {
            assert(spec_handle_index(spec_comm_config()[i].network_handle) == i);
        }
    }
}

/// The current communication mode of a network.
pub fn comm_getcurrentcommode(s: &ComMState, network_handle: ComM_NetWorkHandleType) -> (r: Option<ComMMode>)
    requires
        s.wf(),
    ensures
        r == Some(spec_decode_current(s.current@[spec_handle_index(network_handle)])),
{
    let index = comm_handle_index(network_handle);
    if index >= COMM_NETWORK_HANDLE_COUNT {
        return None;
    }
    let c = s.current[index];
    if c == 0 {
        Some(ComMMode::NO_COMMUNICATION)
    } else if c == 1 {
        Some(ComMMode::SILENT_COMMUNICATION)
    } else if c == 2 {
        Some(ComMMode::FULL_COMMUNICATION)
    } else {
        Some(ComMMode::NO_COMMUNICATION)
    }
}

fn comm_get_requestedmode(s: &ComMState, network_handle: ComM_NetWorkHandleType) -> (r: Option<ComMRequestedMode>)
    requires
        s.wf(),
    ensures
        r == Some(spec_decode_requested(s.requested@[spec_handle_index(network_handle)])),
{
    let index = comm_handle_index(network_handle);
    if index >= COMM_NETWORK_HANDLE_COUNT {
        return None;
    }
    let c = s.requested[index];
    if c == 0 {
        Some(ComMRequestedMode::NO_COMMUNICATION)
    } else if c == 1 {
        Some(ComMRequestedMode::FULL_COMMUNICATION)
    } else {
        Some(ComMRequestedMode::NO_COMMUNICATION)
    }
}

fn comm_setcurrentcommode(s: &mut ComMState, network_handle: ComM_NetWorkHandleType, mode: ComMMode) -> (r: ComMReturnType)
    requires
        old(s).wf(),
    ensures
        final(s).wf(),
        r == ComMReturnType::COMM_E_OK,
        final(s).current@ == old(s).current@.update(spec_handle_index(network_handle), spec_mode_code(mode)),
        final(s).requested@ == old(s).requested@,
        final(s).internal@ == old(s).internal@,
{
    let index = comm_handle_index(network_handle);
    if index >= COMM_NETWORK_HANDLE_COUNT {
        return ComMReturnType::COMM_E_NOT_OK;
    }
    s.current.set(index, comm_mode_code(mode));
    ComMReturnType::COMM_E_OK
}

fn comm_set_requestedcommode(s: &mut ComMState, network_handle: ComM_NetWorkHandleType, mode: ComMRequestedMode) -> (r: ComMReturnType)
    requires
        old(s).wf(),
    ensures
        final(s).wf(),
        r == ComMReturnType::COMM_E_OK,
        final(s).requested@ == old(s).requested@.update(spec_handle_index(network_handle), spec_requested_code(mode)),
        final(s).current@ == old(s).current@,
        final(s).internal@ == old(s).internal@,
{
    let index = comm_handle_index(network_handle);
    if index >= COMM_NETWORK_HANDLE_COUNT {
        return ComMReturnType::COMM_E_NOT_OK;
    }
    s.requested.set(index, comm_requested_code(mode));
    ComMReturnType::COMM_E_OK
}

fn comm_get_cfg_by_user(user: ComMUser) -> (r: Option<ComM_NetWorkHandleConfig>)
    ensures
        r == spec_cfg_by_user(user),
{
    let cfg = comm_get_network_handle_config();
    let mut i: usize = 0;
    while i < cfg.len()
        invariant
            cfg@ == spec_comm_config(),
            0 <= i <= cfg.len(),
            spec_find_cfg_by_user(cfg@, user, i as int) == spec_cfg_by_user(user),
        decreases cfg.len() - i,
    {
        if cfg[i].user == user {
            return Some(cfg[i]);
        }
        i = i + 1;
    }
    None
}

fn comm_get_internal_state(s: &ComMState, network_handle: ComM_NetWorkHandleType) -> (r: Option<ComM_StateType>)
    requires
        s.wf(),
    ensures
        r == spec_decode_internal(s.internal@[spec_handle_index(network_handle)]),
{
    let index = comm_handle_index(network_handle);
    if index >= COMM_NETWORK_HANDLE_COUNT {
        return None;
    }
    let c = s.internal[index];
    if c == 0 {
        Some(ComM_StateType::COMM_NO_COM_NO_PENDING_REQUEST)
    } else if c == 1 {
        Some(ComM_StateType::COMM_NO_COM_REQUEST_PENDING)
    } else if c == 2 {
        Some(ComM_StateType::COMM_FULL_COM_NETWORK_REQUESTED)
    } else if c == 3 {
        Some(ComM_StateType::COMM_FULL_COM_READY_SLEEP)
    } else if c == 4 {
        Some(ComM_StateType::COMM_SILENT_COM)
    } else {
        None
    }
}

fn comm_set_internal_state(s: &mut ComMState, network_handle: ComM_NetWorkHandleType, state: ComM_StateType) -> (r: ComMReturnType)
    requires
        old(s).wf(),
    ensures
        final(s).wf(),
        r == ComMReturnType::COMM_E_OK,
        final(s).internal@ == old(s).internal@.update(spec_handle_index(network_handle), spec_state_code(state)),
        final(s).current@ == old(s).current@,
        final(s).requested@ == old(s).requested@,
{
    let index = comm_handle_index(network_handle);
    if index >= COMM_NETWORK_HANDLE_COUNT {
        return ComMReturnType::COMM_E_NOT_OK;
    }
    s.internal.set(index, comm_state_code(state));
    ComMReturnType::COMM_E_OK
}

fn comm_transition_state(state: ComM_StateType, requested: ComMRequestedMode) -> (r: ComM_StateType)
    ensures
        r == spec_transition(state, requested),
{
    match (state, requested) {
        (ComM_StateType::COMM_NO_COM_NO_PENDING_REQUEST, ComMRequestedMode::FULL_COMMUNICATION) =>
            ComM_StateType::COMM_NO_COM_REQUEST_PENDING,
        (ComM_StateType::COMM_NO_COM_REQUEST_PENDING, ComMRequestedMode::FULL_COMMUNICATION) =>
            ComM_StateType::COMM_FULL_COM_NETWORK_REQUESTED,
        (ComM_StateType::COMM_FULL_COM_NETWORK_REQUESTED, ComMRequestedMode::NO_COMMUNICATION) =>
            ComM_StateType::COMM_FULL_COM_READY_SLEEP,
        (ComM_StateType::COMM_FULL_COM_READY_SLEEP, ComMRequestedMode::NO_COMMUNICATION) =>
            ComM_StateType::COMM_NO_COM_NO_PENDING_REQUEST,
        (_, ComMRequestedMode::NO_COMMUNICATION) => ComM_StateType::COMM_NO_COM_NO_PENDING_REQUEST,
        (s, _) => s,
    }
}

fn comm_internal_state_to_current_mode(state: ComM_StateType) -> (r: ComMMode)
    ensures
        r == spec_state_to_mode(state),
{
    match state {
        ComM_StateType::COMM_NO_COM_NO_PENDING_REQUEST => ComMMode::NO_COMMUNICATION,
        ComM_StateType::COMM_NO_COM_REQUEST_PENDING => ComMMode::NO_COMMUNICATION,
        ComM_StateType::COMM_FULL_COM_NETWORK_REQUESTED => ComMMode::FULL_COMMUNICATION,
        ComM_StateType::COMM_FULL_COM_READY_SLEEP => ComMMode::FULL_COMMUNICATION,
        ComM_StateType::COMM_SILENT_COM => ComMMode::SILENT_COMMUNICATION,
    }
}

/// A mode request by `user` from `s0` to `s1`, answered with `r`.
pub open spec fn spec_comm_request(s0: ComMState, s1: ComMState, user: ComMUser, mode: ComMRequestedMode, r: ComMReturnType) -> bool {
    &&& s1.current@ =~= s0.current@
    &&& s1.internal@ =~= s0.internal@
    &&& match spec_cfg_by_user(user) {
        Some(c) => r == ComMReturnType::COMM_E_OK && s1.requested@ =~= s0.requested@.update(
            spec_handle_index(c.network_handle),
            spec_requested_code(mode),
        ),
        None => r == ComMReturnType::COMM_E_NOT_OK && s1.requested@ =~= s0.requested@,
    }
}

/// Records `mode` as the requested mode of the network bound to `user`;
/// a user without a configured network is refused with no change.
pub fn comm_requestcommode(s: &mut ComMState, user: ComMUser, mode: ComMRequestedMode) -> (r: ComMReturnType)
    requires
        old(s).wf(),
    ensures
        final(s).wf(),
        spec_comm_request(*old(s), *final(s), user, mode, r),
{
    let cfg = comm_get_cfg_by_user(user);
    if let Some(cfg) = cfg {
        return comm_set_requestedcommode(s, cfg.network_handle, mode);
    }
    ComMReturnType::COMM_E_NOT_OK
}

/// Initialisation of the manager from `s0` to `s1`.
pub open spec fn spec_comm_init(s0: ComMState, s1: ComMState) -> bool {
    &&& forall|i: int|
        0 <= i < 4 ==> {
            &&& s1.current@[i] == (if spec_comm_configured(i) { 0 } else { s0.current@[i] })
            &&& s1.requested@[i] == (if spec_comm_configured(i) { 0 } else { s0.requested@[i] })
            &&& s1.internal@[i] == (if spec_comm_configured(i) { 0 } else { s0.internal@[i] })
        }
}

/// Resets every configured network to no communication, nothing requested.
pub fn comm_init(s: &mut ComMState)
    requires
        old(s).wf(),
    ensures
        final(s).wf(),
        spec_comm_init(*old(s), *final(s)),
{
    proof {
        lemma_comm_configured();
    }
    let cfg = comm_get_network_handle_config();
    let mut k: usize = 0;
    while k < cfg.len()
        invariant
            cfg@ == spec_comm_config(),
            0 <= k <= cfg.len(),
            s.wf(),
            forall|i: int|
                0 <= i < 4 ==> {
                    &&& s.current@[i] == (if i < k { 0 } else { old(s).current@[i] })
                    &&& s.requested@[i] == (if i < k { 0 } else { old(s).requested@[i] })
                    &&& s.internal@[i] == (if i < k { 0 } else { old(s).internal@[i] })
                },
            forall|i: int| spec_comm_configured(i) <==> 0 <= i < 3,
            forall|j: int| 0 <= j < 3 ==> spec_handle_index(#[trigger] spec_comm_config()[j].network_handle) == j,
        decreases cfg.len() - k,
    {
        let index = comm_handle_index(cfg[k].network_handle);
        s.current.set(index, 0);
        s.requested.set(index, 0);
        s.internal.set(index, 0);
        k = k + 1;
    }
}

/// One cycle of the manager from `s0` to `s1`.
pub open spec fn spec_comm_main(s0: ComMState, s1: ComMState) -> bool {
    &&& s1.requested@ == s0.requested@
    &&& forall|i: int|
        0 <= i < 4 ==> {
            &&& #[trigger] s1.internal@[i] == (if spec_comm_configured(i) {
                spec_internal_after_main(s0.requested@[i], s0.internal@[i])
            } else {
                s0.internal@[i]
            })
            &&& s1.current@[i] == (if spec_comm_configured(i) {
                spec_current_after_main(s0.requested@[i], s0.internal@[i], s0.current@[i])
            } else {
                s0.current@[i]
            })
        }
}

/// One cycle of the manager: every configured network advances its internal
/// state by the requested mode and publishes the matching current mode.
pub fn comm_mainfunction(s: &mut ComMState)
    requires
        old(s).wf(),
    ensures
        final(s).wf(),
        spec_comm_main(*old(s), *final(s)),
{
    proof {
        lemma_comm_configured();
    }
    let cfg = comm_get_network_handle_config();
    let mut k: usize = 0;
    while k < cfg.len()
        invariant
            cfg@ == spec_comm_config(),
            0 <= k <= cfg.len(),
            s.wf(),
            s.requested@ == old(s).requested@,
            forall|i: int|
                0 <= i < 4 ==> {
                    &&& s.internal@[i] == (if i < k {
                        spec_internal_after_main(old(s).requested@[i], old(s).internal@[i])
                    } else {
                        old(s).internal@[i]
                    })
                    &&& s.current@[i] == (if i < k {
                        spec_current_after_main(old(s).requested@[i], old(s).internal@[i], old(s).current@[i])
                    } else {
                        old(s).current@[i]
                    })
                },
            forall|i: int| spec_comm_configured(i) <==> 0 <= i < 3,
            forall|j: int| 0 <= j < 3 ==> spec_handle_index(#[trigger] spec_comm_config()[j].network_handle) == j,
        decreases cfg.len() - k,
    {
        let handle = cfg[k].network_handle;
        let requested_mode = comm_get_requestedmode(s, handle);
        if let Some(requested_mode) = requested_mode {
            let internal_state = comm_get_internal_state(s, handle);
            if let Some(internal_state) = internal_state {
                let new_state = comm_transition_state(internal_state, requested_mode);
                let _ = comm_set_internal_state(s, handle, new_state);
                let new_current_mode = comm_internal_state_to_current_mode(new_state);
                let _ = comm_setcurrentcommode(s, handle, new_current_mode);
            }
        }
        k = k + 1;
    }
}

} // verus!
