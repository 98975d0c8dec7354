# mini_autosar

A small AUTOSAR-style layered firmware for an STM32F411 board, written as a
verified library with Verus, plus the thin program that runs it on the board.

## Layout

- `src/register.rs` — the hardware state the drivers read and write, held as
  plain values (GPIO output and input words, RCC, SysTick, ADC, and the flag
  snapshots of the USART and SPI peripherals).
- `src/mcal/` — the microcontroller drivers: DIO, port, MCU clock and tick,
  EXTI, ADC, USART (interrupt driven, with its receive ring), UART, SPI
  (non-blocking state machines and polled helpers) and the MCP2515 CAN
  controller over SPI. Register writes come out as lists of register steps.
- `src/bsw/` — the basic software: IoHwAb (LEDs, button, LM35 sensor), IoIf
  (RX indications and reads, TX writes and confirmations), ComM, UsartIf
  (PDU transmission, framed reception with CRC-8) and the cyclic scheduler.
- `src/app/` — the button and LED applications.
- `src/laws.rs` — properties that span several operations, proved.
- `tests/` — tests of the library on concrete values.
- `app/` — the firmware program: it applies the register steps to the
  peripherals, feeds interrupt flags to the library, runs the scheduler loop,
  and holds the temperature conversion, which is floating point.
