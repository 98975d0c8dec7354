//! A mini AUTOSAR-style layered firmware for an STM32F411 board: the MCAL
//! drivers, the basic software (IoHwAb, IoIf, ComM, UsartIf, scheduler) and the
//! small applications, with the hardware registers held as plain values that
//! the board's startup code mirrors to and from the peripherals.
#![allow(non_camel_case_types)]
#![allow(non_snake_case)]
#![allow(dead_code)]

pub mod register;
pub mod mcal;
pub mod bsw;
pub mod app;
pub mod laws;
pub mod rx_laws;
pub mod driver_laws;
