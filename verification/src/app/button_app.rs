use vstd::prelude::*;
use crate::register::GpioRegisters;
use crate::bsw::ioif_type::IoIf_ReturnType;
use crate::bsw::ioif_rx::{IoIfRxState, ioif_read_rx_value, spec_with_status};
use crate::bsw::button::ButtonState;
use crate::bsw::sensor::SensorState;

verus! {

/// The last button count the application has seen.
pub struct ButtonAppState {
    pub last_button_status: u16,
}

impl ButtonAppState {
    pub fn new() -> (r: ButtonAppState)
        ensures
            r.last_button_status == 0,
    {
        ButtonAppState { last_button_status: 0 }
    }
}

/// The button application: takes the press count through the button PDU
/// when a new press has been indicated, and otherwise keeps the last one.
/// Returns the count it holds afterwards.
pub fn button_app_1ms(
    app: &mut ButtonAppState,
    rx: &mut IoIfRxState,
    button: &ButtonState,
    g: &GpioRegisters,
    sensor: &mut SensorState,
) -> (r: u16)
    requires
        old(rx).wf(),
        g.wf(),
        old(sensor).wf(),
    ensures
        final(rx).wf(),
        final(sensor).wf(),
        final(sensor).values@ == old(sensor).values@,
        final(sensor).status@ == old(sensor).status@,
        r == final(app).last_button_status,
        old(rx).indication@[0] != 0 ==> {
            &&& r == button.count as u16
            &&& final(rx).indication@ == old(rx).indication@.update(0, 0)
            &&& final(rx).status@ == old(rx).status@.update(0, spec_with_status(old(rx).status@[0], 0))
        },
        old(rx).indication@[0] == 0 ==> {
            &&& r == old(app).last_button_status
            &&& final(rx).indication@ == old(rx).indication@
            &&& final(rx).status@ == old(rx).status@
        },
{
    let mut count: u16 = app.last_button_status;
    if ioif_read_rx_value(rx, button, g, sensor, 0x100, &mut count) == IoIf_ReturnType::IOIF_E_OK {
        app.last_button_status = count;
    }
    count
}

} // verus!
