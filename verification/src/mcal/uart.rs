use vstd::prelude::*;
use crate::register::UsartNumber;
use crate::mcal::usart_type::{UsartRegisterOp, UsartCommand};

verus! {

/// Polled bring-up of a serial port: clock, baud rate, transmitter and
/// receiver, then the peripheral.
pub fn uart_init(ops: &mut Vec<UsartCommand>, usart_number: UsartNumber, baud_rate: u32)
    ensures
        final(ops)@ == old(ops)@ + seq![
            UsartCommand { usart: usart_number, op: UsartRegisterOp::EnablePeripheralClock },
            UsartCommand { usart: usart_number, op: UsartRegisterOp::SetBaudRate(baud_rate) },
            UsartCommand { usart: usart_number, op: UsartRegisterOp::EnableTxRx },
            UsartCommand { usart: usart_number, op: UsartRegisterOp::Enable },
        ],
{
    ops.push(UsartCommand { usart: usart_number, op: UsartRegisterOp::EnablePeripheralClock });
    ops.push(UsartCommand { usart: usart_number, op: UsartRegisterOp::SetBaudRate(baud_rate) });
    ops.push(UsartCommand { usart: usart_number, op: UsartRegisterOp::EnableTxRx });
    ops.push(UsartCommand { usart: usart_number, op: UsartRegisterOp::Enable });
    assert(ops@ =~= old(ops)@ + seq![
        UsartCommand { usart: usart_number, op: UsartRegisterOp::EnablePeripheralClock },
        UsartCommand { usart: usart_number, op: UsartRegisterOp::SetBaudRate(baud_rate) },
        UsartCommand { usart: usart_number, op: UsartRegisterOp::EnableTxRx },
        UsartCommand { usart: usart_number, op: UsartRegisterOp::Enable },
    ]);
}

} // verus!
