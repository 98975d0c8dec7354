use vstd::prelude::*;
use crate::register::{PORT, PIN};

verus! {

/// Pin modes.
#[derive(Clone, Copy, Debug, PartialEq, Eq, Structural)]
pub enum MODE {
    INPUT,
    OUTPUT,
    ALTERNATE,
    ANALOG,
}

#[derive(Clone, Copy, Debug, PartialEq, Eq, Structural)]
pub enum OUTPUTTYPE {
    PUSHPULL,
    OPENDRAIN,
}

#[derive(Clone, Copy, Debug, PartialEq, Eq, Structural)]
pub enum OUTPUTSPEED {
    LOW,
    MEDIUM,
    HIGH,
    VERYHIGH,
}

#[derive(Clone, Copy, Debug, PartialEq, Eq, Structural)]
pub enum PULL {
    NONE,
    PULLUP,
    PULLDOWN,
}

/// The alternate function routed to a pin, if any.
#[derive(Clone, Copy, Debug, PartialEq, Eq, Structural)]
pub enum Dio_AlternateFunctionType {
    NONE,
    AF0,
    AF1,
    AF2,
    AF3,
    AF4,
    AF5,
    AF6,
    AF7,
    AF8,
    AF9,
    AF10,
    AF11,
    AF12,
    AF13,
    AF14,
    AF15,
}

/// The setting of one pin.
#[derive(Clone, Copy, Debug, PartialEq, Eq, Structural)]
pub struct PortPinConfig {
    pub port: PORT,
    pub pin: PIN,
    pub mode: MODE,
    pub output_type: OUTPUTTYPE,
    pub output_speed: OUTPUTSPEED,
    pub pull: PULL,
    pub alternate_function: Dio_AlternateFunctionType,
}

pub struct PortConfig {
    pub ports: Vec<PortPinConfig>,
}

/// A register-level step of the port driver on one pin (or, for the
/// clock, one port).
#[derive(Clone, Copy, Debug, PartialEq, Eq, Structural)]
pub enum PortRegisterOp {
    EnableClock(PORT),
    WriteMode(PORT, PIN, MODE),
    WriteOutputType(PORT, PIN, OUTPUTTYPE),
    WriteOutputSpeed(PORT, PIN, OUTPUTSPEED),
    WritePull(PORT, PIN, PULL),
    WriteAlternateFunction(PORT, PIN, u8),
}

/// The number of an alternate function (AFn is n).
pub open spec fn spec_af_number(af: Dio_AlternateFunctionType) -> u8 {
    match af {
        Dio_AlternateFunctionType::NONE => 0,
        Dio_AlternateFunctionType::AF0 => 0,
        Dio_AlternateFunctionType::AF1 => 1,
        Dio_AlternateFunctionType::AF2 => 2,
        Dio_AlternateFunctionType::AF3 => 3,
        Dio_AlternateFunctionType::AF4 => 4,
        Dio_AlternateFunctionType::AF5 => 5,
        Dio_AlternateFunctionType::AF6 => 6,
        Dio_AlternateFunctionType::AF7 => 7,
        Dio_AlternateFunctionType::AF8 => 8,
        Dio_AlternateFunctionType::AF9 => 9,
        Dio_AlternateFunctionType::AF10 => 10,
        Dio_AlternateFunctionType::AF11 => 11,
        Dio_AlternateFunctionType::AF12 => 12,
        Dio_AlternateFunctionType::AF13 => 13,
        Dio_AlternateFunctionType::AF14 => 14,
        Dio_AlternateFunctionType::AF15 => 15,
    }
}

fn af_number(af: Dio_AlternateFunctionType) -> (r: u8)
    ensures
        r == spec_af_number(af),
{
    match af {
        Dio_AlternateFunctionType::NONE => 0,
        Dio_AlternateFunctionType::AF0 => 0,
        Dio_AlternateFunctionType::AF1 => 1,
        Dio_AlternateFunctionType::AF2 => 2,
        Dio_AlternateFunctionType::AF3 => 3,
        Dio_AlternateFunctionType::AF4 => 4,
        Dio_AlternateFunctionType::AF5 => 5,
        Dio_AlternateFunctionType::AF6 => 6,
        Dio_AlternateFunctionType::AF7 => 7,
        Dio_AlternateFunctionType::AF8 => 8,
        Dio_AlternateFunctionType::AF9 => 9,
        Dio_AlternateFunctionType::AF10 => 10,
        Dio_AlternateFunctionType::AF11 => 11,
        Dio_AlternateFunctionType::AF12 => 12,
        Dio_AlternateFunctionType::AF13 => 13,
        Dio_AlternateFunctionType::AF14 => 14,
        Dio_AlternateFunctionType::AF15 => 15,
    }
}

/// The board's pins: the four LEDs on PD12..PD15, the user button on PA0,
/// USART2 on PA2/PA3, the ADC input on PB0, the onboard sensor's chip
/// select on PE3, SPI1 on PA4..PA7 with the MCP2515 interrupt on PA8, and
/// SPI2 on PA12 and PB13..PB15.
pub open spec fn spec_port_config() -> Seq<PortPinConfig> {
    seq![
        PortPinConfig {
            port: PORT::D,
            pin: PIN::P12,
            mode: MODE::OUTPUT,
            output_type: OUTPUTTYPE::PUSHPULL,
            output_speed: OUTPUTSPEED::HIGH,
            pull: PULL::NONE,
            alternate_function: Dio_AlternateFunctionType::NONE,
        },
        PortPinConfig {
            port: PORT::D,
            pin: PIN::P13,
            mode: MODE::OUTPUT,
            output_type: OUTPUTTYPE::PUSHPULL,
            output_speed: OUTPUTSPEED::HIGH,
            pull: PULL::NONE,
            alternate_function: Dio_AlternateFunctionType::NONE,
        },
        PortPinConfig {
            port: PORT::D,
            pin: PIN::P14,
            mode: MODE::OUTPUT,
            output_type: OUTPUTTYPE::PUSHPULL,
            output_speed: OUTPUTSPEED::HIGH,
            pull: PULL::NONE,
            alternate_function: Dio_AlternateFunctionType::NONE,
        },
        PortPinConfig {
            port: PORT::D,
            pin: PIN::P15,
            mode: MODE::OUTPUT,
            output_type: OUTPUTTYPE::PUSHPULL,
            output_speed: OUTPUTSPEED::HIGH,
            pull: PULL::NONE,
            alternate_function: Dio_AlternateFunctionType::NONE,
        },
        PortPinConfig {
            port: PORT::A,
            pin: PIN::P0,
            mode: MODE::INPUT,
            output_type: OUTPUTTYPE::PUSHPULL,
            output_speed: OUTPUTSPEED::LOW,
            pull: PULL::PULLDOWN,
            alternate_function: Dio_AlternateFunctionType::NONE,
        },
        PortPinConfig {
            port: PORT::A,
            pin: PIN::P2,
            mode: MODE::ALTERNATE,
            output_type: OUTPUTTYPE::PUSHPULL,
            output_speed: OUTPUTSPEED::VERYHIGH,
            pull: PULL::NONE,
            alternate_function: Dio_AlternateFunctionType::AF7,
        },
        PortPinConfig {
            port: PORT::A,
            pin: PIN::P3,
            mode: MODE::ALTERNATE,
            output_type: OUTPUTTYPE::PUSHPULL,
            output_speed: OUTPUTSPEED::VERYHIGH,
            pull: PULL::NONE,
            alternate_function: Dio_AlternateFunctionType::AF7,
        },
        PortPinConfig {
            port: PORT::B,
            pin: PIN::P0,
            mode: MODE::ANALOG,
            output_type: OUTPUTTYPE::PUSHPULL,
            output_speed: OUTPUTSPEED::VERYHIGH,
            pull: PULL::NONE,
            alternate_function: Dio_AlternateFunctionType::NONE,
        },
        PortPinConfig {
            port: PORT::E,
            pin: PIN::P3,
            mode: MODE::OUTPUT,
            output_type: OUTPUTTYPE::PUSHPULL,
            output_speed: OUTPUTSPEED::VERYHIGH,
            pull: PULL::NONE,
            alternate_function: Dio_AlternateFunctionType::NONE,
        },
        PortPinConfig {
            port: PORT::A,
            pin: PIN::P4,
            mode: MODE::OUTPUT,
            output_type: OUTPUTTYPE::PUSHPULL,
            output_speed: OUTPUTSPEED::VERYHIGH,
            pull: PULL::NONE,
            alternate_function: Dio_AlternateFunctionType::NONE,
        },
        PortPinConfig {
            port: PORT::A,
            pin: PIN::P5,
            mode: MODE::ALTERNATE,
            output_type: OUTPUTTYPE::PUSHPULL,
            output_speed: OUTPUTSPEED::VERYHIGH,
            pull: PULL::NONE,
            alternate_function: Dio_AlternateFunctionType::AF5,
        },
        PortPinConfig {
            port: PORT::A,
            pin: PIN::P6,
            mode: MODE::ALTERNATE,
            output_type: OUTPUTTYPE::PUSHPULL,
            output_speed: OUTPUTSPEED::VERYHIGH,
            pull: PULL::NONE,
            alternate_function: Dio_AlternateFunctionType::AF5,
        },
        PortPinConfig {
            port: PORT::A,
            pin: PIN::P7,
            mode: MODE::ALTERNATE,
            output_type: OUTPUTTYPE::PUSHPULL,
            output_speed: OUTPUTSPEED::VERYHIGH,
            pull: PULL::NONE,
            alternate_function: Dio_AlternateFunctionType::AF5,
        },
        PortPinConfig {
            port: PORT::A,
            pin: PIN::P8,
            mode: MODE::INPUT,
            output_type: OUTPUTTYPE::PUSHPULL,
            output_speed: OUTPUTSPEED::LOW,
            pull: PULL::PULLUP,
            alternate_function: Dio_AlternateFunctionType::NONE,
        },
        PortPinConfig {
            port: PORT::A,
            pin: PIN::P12,
            mode: MODE::OUTPUT,
            output_type: OUTPUTTYPE::PUSHPULL,
            output_speed: OUTPUTSPEED::VERYHIGH,
            pull: PULL::NONE,
            alternate_function: Dio_AlternateFunctionType::NONE,
        },
        PortPinConfig {
            port: PORT::B,
            pin: PIN::P13,
            mode: MODE::ALTERNATE,
            output_type: OUTPUTTYPE::PUSHPULL,
            output_speed: OUTPUTSPEED::VERYHIGH,
            pull: PULL::NONE,
            alternate_function: Dio_AlternateFunctionType::AF5,
        },
        PortPinConfig {
            port: PORT::B,
            pin: PIN::P14,
            mode: MODE::ALTERNATE,
            output_type: OUTPUTTYPE::PUSHPULL,
            output_speed: OUTPUTSPEED::VERYHIGH,
            pull: PULL::NONE,
            alternate_function: Dio_AlternateFunctionType::AF5,
        },
        PortPinConfig {
            port: PORT::B,
            pin: PIN::P15,
            mode: MODE::ALTERNATE,
            output_type: OUTPUTTYPE::PUSHPULL,
            output_speed: OUTPUTSPEED::VERYHIGH,
            pull: PULL::NONE,
            alternate_function: Dio_AlternateFunctionType::AF5,
        },
    ]
}

pub fn port_config() -> (r: PortConfig)
    ensures
        r.ports@ == spec_port_config(),
{
    let r = PortConfig {
        ports: vec![
            PortPinConfig {
                port: PORT::D,
                pin: PIN::P12,
                mode: MODE::OUTPUT,
                output_type: OUTPUTTYPE::PUSHPULL,
                output_speed: OUTPUTSPEED::HIGH,
                pull: PULL::NONE,
                alternate_function: Dio_AlternateFunctionType::NONE,
            },
            PortPinConfig {
                port: PORT::D,
                pin: PIN::P13,
                mode: MODE::OUTPUT,
                output_type: OUTPUTTYPE::PUSHPULL,
                output_speed: OUTPUTSPEED::HIGH,
                pull: PULL::NONE,
                alternate_function: Dio_AlternateFunctionType::NONE,
            },
            PortPinConfig {
                port: PORT::D,
                pin: PIN::P14,
                mode: MODE::OUTPUT,
                output_type: OUTPUTTYPE::PUSHPULL,
                output_speed: OUTPUTSPEED::HIGH,
                pull: PULL::NONE,
                alternate_function: Dio_AlternateFunctionType::NONE,
            },
            PortPinConfig {
                port: PORT::D,
                pin: PIN::P15,
                mode: MODE::OUTPUT,
                output_type: OUTPUTTYPE::PUSHPULL,
                output_speed: OUTPUTSPEED::HIGH,
                pull: PULL::NONE,
                alternate_function: Dio_AlternateFunctionType::NONE,
            },
            PortPinConfig {
                port: PORT::A,
                pin: PIN::P0,
                mode: MODE::INPUT,
                output_type: OUTPUTTYPE::PUSHPULL,
                output_speed: OUTPUTSPEED::LOW,
                pull: PULL::PULLDOWN,
                alternate_function: Dio_AlternateFunctionType::NONE,
            },
            PortPinConfig {
                port: PORT::A,
                pin: PIN::P2,
                mode: MODE::ALTERNATE,
                output_type: OUTPUTTYPE::PUSHPULL,
                output_speed: OUTPUTSPEED::VERYHIGH,
                pull: PULL::NONE,
                alternate_function: Dio_AlternateFunctionType::AF7,
            },
            PortPinConfig {
                port: PORT::A,
                pin: PIN::P3,
                mode: MODE::ALTERNATE,
                output_type: OUTPUTTYPE::PUSHPULL,
                output_speed: OUTPUTSPEED::VERYHIGH,
                pull: PULL::NONE,
                alternate_function: Dio_AlternateFunctionType::AF7,
            },
            PortPinConfig {
                port: PORT::B,
                pin: PIN::P0,
                mode: MODE::ANALOG,
                output_type: OUTPUTTYPE::PUSHPULL,
                output_speed: OUTPUTSPEED::VERYHIGH,
                pull: PULL::NONE,
                alternate_function: Dio_AlternateFunctionType::NONE,
            },
            PortPinConfig {
                port: PORT::E,
                pin: PIN::P3,
                mode: MODE::OUTPUT,
                output_type: OUTPUTTYPE::PUSHPULL,
                output_speed: OUTPUTSPEED::VERYHIGH,
                pull: PULL::NONE,
                alternate_function: Dio_AlternateFunctionType::NONE,
            },
            PortPinConfig {
                port: PORT::A,
                pin: PIN::P4,
                mode: MODE::OUTPUT,
                output_type: OUTPUTTYPE::PUSHPULL,
                output_speed: OUTPUTSPEED::VERYHIGH,
                pull: PULL::NONE,
                alternate_function: Dio_AlternateFunctionType::NONE,
            },
            PortPinConfig {
                port: PORT::A,
                pin: PIN::P5,
                mode: MODE::ALTERNATE,
                output_type: OUTPUTTYPE::PUSHPULL,
                output_speed: OUTPUTSPEED::VERYHIGH,
                pull: PULL::NONE,
                alternate_function: Dio_AlternateFunctionType::AF5,
            },
            PortPinConfig {
                port: PORT::A,
                pin: PIN::P6,
                mode: MODE::ALTERNATE,
                output_type: OUTPUTTYPE::PUSHPULL,
                output_speed: OUTPUTSPEED::VERYHIGH,
                pull: PULL::NONE,
                alternate_function: Dio_AlternateFunctionType::AF5,
            },
            PortPinConfig {
                port: PORT::A,
                pin: PIN::P7,
                mode: MODE::ALTERNATE,
                output_type: OUTPUTTYPE::PUSHPULL,
                output_speed: OUTPUTSPEED::VERYHIGH,
                pull: PULL::NONE,
                alternate_function: Dio_AlternateFunctionType::AF5,
            },
            PortPinConfig {
                port: PORT::A,
                pin: PIN::P8,
                mode: MODE::INPUT,
                output_type: OUTPUTTYPE::PUSHPULL,
                output_speed: OUTPUTSPEED::LOW,
                pull: PULL::PULLUP,
                alternate_function: Dio_AlternateFunctionType::NONE,
            },
            PortPinConfig {
                port: PORT::A,
                pin: PIN::P12,
                mode: MODE::OUTPUT,
                output_type: OUTPUTTYPE::PUSHPULL,
                output_speed: OUTPUTSPEED::VERYHIGH,
                pull: PULL::NONE,
                alternate_function: Dio_AlternateFunctionType::NONE,
            },
            PortPinConfig {
                port: PORT::B,
                pin: PIN::P13,
                mode: MODE::ALTERNATE,
                output_type: OUTPUTTYPE::PUSHPULL,
                output_speed: OUTPUTSPEED::VERYHIGH,
                pull: PULL::NONE,
                alternate_function: Dio_AlternateFunctionType::AF5,
            },
            PortPinConfig {
                port: PORT::B,
                pin: PIN::P14,
                mode: MODE::ALTERNATE,
                output_type: OUTPUTTYPE::PUSHPULL,
                output_speed: OUTPUTSPEED::VERYHIGH,
                pull: PULL::NONE,
                alternate_function: Dio_AlternateFunctionType::AF5,
            },
            PortPinConfig {
                port: PORT::B,
                pin: PIN::P15,
                mode: MODE::ALTERNATE,
                output_type: OUTPUTTYPE::PUSHPULL,
                output_speed: OUTPUTSPEED::VERYHIGH,
                pull: PULL::NONE,
                alternate_function: Dio_AlternateFunctionType::AF5,
            },
        ],
    };
    assert(r.ports@ =~= spec_port_config());
    r
}

/// The register steps that set up one pin.
pub open spec fn spec_pin_init_ops(c: PortPinConfig) -> Seq<PortRegisterOp> {
    seq![
        PortRegisterOp::EnableClock(c.port),
        PortRegisterOp::WriteMode(c.port, c.pin, c.mode),
        PortRegisterOp::WriteOutputType(c.port, c.pin, c.output_type),
        PortRegisterOp::WriteOutputSpeed(c.port, c.pin, c.output_speed),
        PortRegisterOp::WritePull(c.port, c.pin, c.pull),
    ] + (if c.mode == MODE::ALTERNATE && c.alternate_function != Dio_AlternateFunctionType::NONE {
        seq![PortRegisterOp::WriteAlternateFunction(c.port, c.pin, spec_af_number(c.alternate_function))]
    } else {
        Seq::empty()
    })
}

/// The set-up steps of the first `k` pins of `cfg`, in table order.
pub open spec fn spec_port_init_ops(cfg: Seq<PortPinConfig>, k: int) -> Seq<PortRegisterOp>
    decreases k,
{
    if k <= 0 {
        Seq::empty()
    } else {
        spec_port_init_ops(cfg, k - 1) + spec_pin_init_ops(cfg[k - 1])
    }
}

/// Sets up every configured pin: its port's clock, mode, output type,
/// speed and pull, and its alternate function where the pin is in
/// alternate mode with one chosen.
pub fn port_init(ops: &mut Vec<PortRegisterOp>)
    ensures
        final(ops)@ == old(ops)@ + spec_port_init_ops(spec_port_config(), spec_port_config().len() as int),
{
    let cfg = port_config();
    let mut k: usize = 0;
    while k < cfg.ports.len()
        invariant
            cfg.ports@ == spec_port_config(),
            0 <= k <= cfg.ports@.len(),
            ops@ == old(ops)@ + spec_port_init_ops(spec_port_config(), k as int),
        decreases cfg.ports.len() - k,
    {
        let c = cfg.ports[k];
        let ghost before = ops@;
        ops.push(PortRegisterOp::EnableClock(c.port));
        ops.push(PortRegisterOp::WriteMode(c.port, c.pin, c.mode));
        ops.push(PortRegisterOp::WriteOutputType(c.port, c.pin, c.output_type));
        ops.push(PortRegisterOp::WriteOutputSpeed(c.port, c.pin, c.output_speed));
        ops.push(PortRegisterOp::WritePull(c.port, c.pin, c.pull));
        if c.mode == MODE::ALTERNATE && c.alternate_function != Dio_AlternateFunctionType::NONE {
            ops.push(PortRegisterOp::WriteAlternateFunction(c.port, c.pin, af_number(c.alternate_function)));
        }
        assert(ops@ =~= before + spec_pin_init_ops(c));
        k = k + 1;
    }
}

} // verus!
