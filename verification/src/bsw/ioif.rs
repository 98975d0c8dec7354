use vstd::prelude::*;
use crate::bsw::ioif_rx::{IoIfRxState, ioif_clear_all_rx_runtime_status, spec_with_status};
use crate::bsw::ioif_tx::{IoIfTxState, ioif_clearall_tx_runtime_status};

verus! {

/// Initialisation of the IoIf tables from `rx0`, `tx0` to `rx1`, `tx1`.
pub open spec fn spec_ioif_init(rx0: IoIfRxState, tx0: IoIfTxState, rx1: IoIfRxState, tx1: IoIfTxState) -> bool {
    &&& forall|i: int| 0 <= i < 2 ==> #[trigger] rx1.indication@[i] == 0
    &&& forall|i: int| 0 <= i < 2 ==> #[trigger] rx1.status@[i] == spec_with_status(rx0.status@[i], 0)
    &&& forall|i: int| 0 <= i < 4 ==> tx1.confirmation@[i] == 1
    &&& forall|i: int| 0 <= i < 4 ==> tx1.output_status@[i] == 0
    &&& forall|i: int| 0 <= i < 4 ==> tx1.pdu_status@[i] == spec_with_status(tx0.pdu_status@[i], 0)
    &&& forall|j: int| 0 <= j < 2 ==> tx1.group_confirmation@[j] == 1
    &&& forall|j: int| 0 <= j < 2 ==> tx1.group_output_status@[j] == 0
    &&& forall|j: int| 0 <= j < 2 ==> tx1.group_status@[j] == spec_with_status(tx0.group_status@[j], 0)
}

/// Start-up of the I/O interface: every received PDU idle with no
/// indication; every transmitted PDU and group idle, unconfirmed, with no
/// recorded output.
pub fn ioif_init(rx: &mut IoIfRxState, tx: &mut IoIfTxState)
    requires
        old(rx).wf(),
        old(tx).wf(),
    ensures
        final(rx).wf(),
        final(tx).wf(),
        spec_ioif_init(*old(rx), *old(tx), *final(rx), *final(tx)),
{
    ioif_clear_all_rx_runtime_status(rx);
    ioif_clearall_tx_runtime_status(tx);
}

} // verus!
