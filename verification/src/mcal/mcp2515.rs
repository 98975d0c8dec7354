use vstd::prelude::*;
use crate::register::{SPINumberType, Dio_LevelType};
use crate::mcal::dio_type::Dio_ChannelType;
use crate::mcal::mcp2515_type::{
    MCP2515ConfigType, MCP2515ConfigSetType, Mcp2515DeviceId, MCP2515Mode, MCP2515BaudRate, MCP2515Instruction,
    MCP2515Register, MCP2515ReturnType, Mcp2515Step, CTRL_MODE_MASK, spec_mode_bits, spec_instruction_code,
    spec_register_address, mcp2515_mode_bits, mcp2515_instruction_code, mcp2515_register_address,
};

verus! {

/// One MCP2515 on SPI1, chip select on its DIO channel, interrupt line
/// wired, 500 kbit/s with an 8 MHz oscillator.
pub open spec fn spec_mcp2515_config_set() -> Seq<MCP2515ConfigType> {
    seq![
        MCP2515ConfigType {
            device_id: Mcp2515DeviceId::MCP2515_1,
            spi_channel: SPINumberType::SPI1,
            cs_channel: Dio_ChannelType::Mcp2515Cs,
            int_channel: Some(Dio_ChannelType::mcp2515Int),
            baudrate: MCP2515BaudRate::BAUD_500KBPS,
            oscillator_hz: 8_000_000,
        },
    ]
}

pub fn mcp2515_config_set() -> (r: MCP2515ConfigSetType)
    ensures
        r.configs@ == spec_mcp2515_config_set(),
{
    let r = MCP2515ConfigSetType {
        configs: vec![
            MCP2515ConfigType {
                device_id: Mcp2515DeviceId::MCP2515_1,
                spi_channel: SPINumberType::SPI1,
                cs_channel: Dio_ChannelType::Mcp2515Cs,
                int_channel: Some(Dio_ChannelType::mcp2515Int),
                baudrate: MCP2515BaudRate::BAUD_500KBPS,
                oscillator_hz: 8_000_000,
            },
        ],
    };
    assert(r.configs@ =~= spec_mcp2515_config_set());
    r
}

/// The first entry of the configuration set for `device_id`, if any.
pub open spec fn spec_mcp2515_find(device_id: Mcp2515DeviceId) -> Option<MCP2515ConfigType> {
    if device_id == Mcp2515DeviceId::MCP2515_1 {
        Some(spec_mcp2515_config_set()[0])
    } else {
        None::<MCP2515ConfigType>
    }
}

/// Looks up the configuration of a device.
pub fn mcp2515_get_config(device_id: Mcp2515DeviceId) -> (r: Option<MCP2515ConfigType>)
    ensures
        r == spec_mcp2515_find(device_id),
{
    let set = mcp2515_config_set();
    let mut i: usize = 0;
    while i < set.configs.len()
        invariant
            set.configs@ == spec_mcp2515_config_set(),
            0 <= i <= 1,
            i == 1 ==> device_id != Mcp2515DeviceId::MCP2515_1,
        decreases set.configs.len() - i,
    {
        if set.configs[i].device_id == device_id {
            return Some(set.configs[i]);
        }
        i = i + 1;
    }
    None
}

/// An exchange with a device: chip select low, one transfer per byte, chip
/// select high.
pub open spec fn spec_frame(c: MCP2515ConfigType, bytes: Seq<u8>) -> Seq<Mcp2515Step> {
    seq![Mcp2515Step::ChipSelect(c.cs_channel, Dio_LevelType::LOW)]
        + Seq::new(bytes.len(), |i: int| Mcp2515Step::Transfer(c.spi_channel, bytes[i]))
        + seq![Mcp2515Step::ChipSelect(c.cs_channel, Dio_LevelType::HIGH)]
}

fn mcp2515_push_frame(steps: &mut Vec<Mcp2515Step>, c: &MCP2515ConfigType, bytes: &[u8])
    ensures
        final(steps)@ == old(steps)@ + spec_frame(*c, bytes@),
{
    steps.push(Mcp2515Step::ChipSelect(c.cs_channel, Dio_LevelType::LOW));
    let ghost start = steps@;
    let mut i: usize = 0;
    while i < bytes.len()
        invariant
            0 <= i <= bytes@.len(),
            steps@ == start + Seq::new(i as nat, |j: int| Mcp2515Step::Transfer(c.spi_channel, bytes@[j])),
        decreases bytes@.len() - i,
    {
        steps.push(Mcp2515Step::Transfer(c.spi_channel, bytes[i]));
        i = i + 1;
        assert(steps@ =~= start + Seq::new(i as nat, |j: int| Mcp2515Step::Transfer(c.spi_channel, bytes@[j])));
    }
    steps.push(Mcp2515Step::ChipSelect(c.cs_channel, Dio_LevelType::HIGH));
    assert(steps@ =~= old(steps)@ + spec_frame(*c, bytes@));
}

/// The outcome of a write-only exchange `bytes` with `device_id`: the steps
/// are added and E_OK returned for a configured device; otherwise nothing
/// is added and E_NOT_OK returned.
pub open spec fn spec_exchange(
    device_id: Mcp2515DeviceId,
    bytes: Seq<u8>,
    s0: Seq<Mcp2515Step>,
    s1: Seq<Mcp2515Step>,
    r: MCP2515ReturnType,
) -> bool {
    match spec_mcp2515_find(device_id) {
        Some(c) => s1 == s0 + spec_frame(c, bytes) && r == MCP2515ReturnType::MCP2515_E_OK,
        None => s1 == s0 && r == MCP2515ReturnType::MCP2515_E_NOT_OK,
    }
}

fn mcp2515_exchange(steps: &mut Vec<Mcp2515Step>, device_id: Mcp2515DeviceId, bytes: &[u8]) -> (r: MCP2515ReturnType)
    ensures
        spec_exchange(device_id, bytes@, old(steps)@, final(steps)@, r),
{
    if let Some(config) = mcp2515_get_config(device_id) {
        mcp2515_push_frame(steps, &config, bytes);
        MCP2515ReturnType::MCP2515_E_OK
    } else {
        MCP2515ReturnType::MCP2515_E_NOT_OK
    }
}

/// Resets the device with the RESET instruction.
pub fn mcp2515_reset(device_id: Mcp2515DeviceId, steps: &mut Vec<Mcp2515Step>) -> (r: MCP2515ReturnType)
    ensures
        spec_exchange(device_id, seq![0xC0u8], old(steps)@, final(steps)@, r),
{
    let bytes = [mcp2515_instruction_code(MCP2515Instruction::RESET)];
    assert(bytes@ =~= seq![0xC0u8]);
    mcp2515_exchange(steps, device_id, &bytes)
}

/// Sets the mode bits of CANCTRL with a BIT MODIFY under the mode mask; the
/// mode byte is the REQOP value: normal 0x00, sleep 0x20, loopback 0x40,
/// listen-only 0x60, configuration 0x80.
pub fn mcp2515_set_mode(device_id: Mcp2515DeviceId, mode: MCP2515Mode, steps: &mut Vec<Mcp2515Step>) -> (r: MCP2515ReturnType)
    ensures
        spec_exchange(device_id, seq![0x05u8, 0x0Fu8, 0xE0u8, spec_mode_bits(mode)], old(steps)@, final(steps)@, r),
        spec_exchange(
            device_id,
            seq![0x05u8, 0x0Fu8, 0xE0u8, (match mode {
                MCP2515Mode::NORMAL => 0x00u8,
                MCP2515Mode::SLEEP => 0x20u8,
                MCP2515Mode::LOOPBACK => 0x40u8,
                MCP2515Mode::LISTEN_ONLY => 0x60u8,
                MCP2515Mode::CONFIGURATION => 0x80u8,
            })],
            old(steps)@,
            final(steps)@,
            r,
        ),
{
    let bytes = [
        mcp2515_instruction_code(MCP2515Instruction::BIT_MODIFY),
        mcp2515_register_address(MCP2515Register::CANCTRL),
        CTRL_MODE_MASK,
        mcp2515_mode_bits(mode),
    ];
    assert(bytes@ =~= seq![0x05u8, 0x0Fu8, 0xE0u8, spec_mode_bits(mode)]);
    mcp2515_exchange(steps, device_id, &bytes)
}

/// The CNF1, CNF2, CNF3 values of each bit rate (8 MHz oscillator).
pub open spec fn spec_baud_cnf(b: MCP2515BaudRate) -> Seq<u8> {
    match b {
        MCP2515BaudRate::BAUD_1MBPS => seq![0x00u8, 0x80u8, 0x00u8],
        MCP2515BaudRate::BAUD_500KBPS => seq![0x00u8, 0x90u8, 0x02u8],
        MCP2515BaudRate::BAUD_250KBPS => seq![0x01u8, 0x90u8, 0x02u8],
        MCP2515BaudRate::BAUD_125KBPS => seq![0x03u8, 0x90u8, 0x02u8],
    }
}

fn mcp2515_set_cnf(device_id: Mcp2515DeviceId, cnf1: u8, cnf2: u8, cnf3: u8, steps: &mut Vec<Mcp2515Step>)
    ensures
        spec_exchange(
            device_id,
            seq![0x02u8, 0x2Au8, cnf1, cnf2, cnf3],
            old(steps)@,
            final(steps)@,
            if spec_mcp2515_find(device_id) is Some { MCP2515ReturnType::MCP2515_E_OK } else { MCP2515ReturnType::MCP2515_E_NOT_OK },
        ),
{
    let bytes = [
        mcp2515_instruction_code(MCP2515Instruction::WRITE),
        mcp2515_register_address(MCP2515Register::CNF1),
        cnf1,
        cnf2,
        cnf3,
    ];
    assert(bytes@ =~= seq![0x02u8, 0x2Au8, cnf1, cnf2, cnf3]);
    let _ = mcp2515_exchange(steps, device_id, &bytes);
}

fn mcp2515_set_baudrate_1mbps(device_id: Mcp2515DeviceId, steps: &mut Vec<Mcp2515Step>)
    ensures
        spec_exchange(
            device_id,
            seq![0x02u8, 0x2Au8] + spec_baud_cnf(MCP2515BaudRate::BAUD_1MBPS),
            old(steps)@,
            final(steps)@,
            if spec_mcp2515_find(device_id) is Some { MCP2515ReturnType::MCP2515_E_OK } else { MCP2515ReturnType::MCP2515_E_NOT_OK },
        ),
{
    assert(seq![0x02u8, 0x2Au8] + spec_baud_cnf(MCP2515BaudRate::BAUD_1MBPS) =~= seq![0x02u8, 0x2Au8, 0x00u8, 0x80u8, 0x00u8]);
    mcp2515_set_cnf(device_id, 0x00, 0x80, 0x00, steps);
}

fn mcp2515_set_baudrate_500kbps(device_id: Mcp2515DeviceId, steps: &mut Vec<Mcp2515Step>)
    ensures
        spec_exchange(
            device_id,
            seq![0x02u8, 0x2Au8] + spec_baud_cnf(MCP2515BaudRate::BAUD_500KBPS),
            old(steps)@,
            final(steps)@,
            if spec_mcp2515_find(device_id) is Some { MCP2515ReturnType::MCP2515_E_OK } else { MCP2515ReturnType::MCP2515_E_NOT_OK },
        ),
{
    assert(seq![0x02u8, 0x2Au8] + spec_baud_cnf(MCP2515BaudRate::BAUD_500KBPS) =~= seq![0x02u8, 0x2Au8, 0x00u8, 0x90u8, 0x02u8]);
    mcp2515_set_cnf(device_id, 0x00, 0x90, 0x02, steps);
}

fn mcp2515_set_baudrate_250kbps(device_id: Mcp2515DeviceId, steps: &mut Vec<Mcp2515Step>)
    ensures
        spec_exchange(
            device_id,
            seq![0x02u8, 0x2Au8] + spec_baud_cnf(MCP2515BaudRate::BAUD_250KBPS),
            old(steps)@,
            final(steps)@,
            if spec_mcp2515_find(device_id) is Some { MCP2515ReturnType::MCP2515_E_OK } else { MCP2515ReturnType::MCP2515_E_NOT_OK },
        ),
{
    assert(seq![0x02u8, 0x2Au8] + spec_baud_cnf(MCP2515BaudRate::BAUD_250KBPS) =~= seq![0x02u8, 0x2Au8, 0x01u8, 0x90u8, 0x02u8]);
    mcp2515_set_cnf(device_id, 0x01, 0x90, 0x02, steps);
}

fn mcp2515_set_baudrate_125kbps(device_id: Mcp2515DeviceId, steps: &mut Vec<Mcp2515Step>)
    ensures
        spec_exchange(
            device_id,
            seq![0x02u8, 0x2Au8] + spec_baud_cnf(MCP2515BaudRate::BAUD_125KBPS),
            old(steps)@,
            final(steps)@,
            if spec_mcp2515_find(device_id) is Some { MCP2515ReturnType::MCP2515_E_OK } else { MCP2515ReturnType::MCP2515_E_NOT_OK },
        ),
{
    assert(seq![0x02u8, 0x2Au8] + spec_baud_cnf(MCP2515BaudRate::BAUD_125KBPS) =~= seq![0x02u8, 0x2Au8, 0x03u8, 0x90u8, 0x02u8]);
    mcp2515_set_cnf(device_id, 0x03, 0x90, 0x02, steps);
}

/// Writes the bit-timing registers CNF1..CNF3 for a bit rate.
pub fn mcp2515_set_baudrate(device_id: Mcp2515DeviceId, baudrate: MCP2515BaudRate, steps: &mut Vec<Mcp2515Step>)
    ensures
        spec_exchange(
            device_id,
            seq![0x02u8, 0x2Au8] + spec_baud_cnf(baudrate),
            old(steps)@,
            final(steps)@,
            if spec_mcp2515_find(device_id) is Some { MCP2515ReturnType::MCP2515_E_OK } else { MCP2515ReturnType::MCP2515_E_NOT_OK },
        ),
{
    match baudrate {
        MCP2515BaudRate::BAUD_500KBPS => mcp2515_set_baudrate_500kbps(device_id, steps),
        MCP2515BaudRate::BAUD_250KBPS => mcp2515_set_baudrate_250kbps(device_id, steps),
        MCP2515BaudRate::BAUD_125KBPS => mcp2515_set_baudrate_125kbps(device_id, steps),
        MCP2515BaudRate::BAUD_1MBPS => mcp2515_set_baudrate_1mbps(device_id, steps),
    }
}

/// Writes `data` to consecutive registers from `address`.
pub fn mcp2515_write(device_id: Mcp2515DeviceId, address: u8, data: &[u8], steps: &mut Vec<Mcp2515Step>) -> (r: MCP2515ReturnType)
    ensures
        spec_exchange(device_id, seq![0x02u8, address] + data@, old(steps)@, final(steps)@, r),
{
    if let Some(config) = mcp2515_get_config(device_id) {
        let mut bytes: Vec<u8> = Vec::new();
        bytes.push(mcp2515_instruction_code(MCP2515Instruction::WRITE));
        bytes.push(address);
        let mut i: usize = 0;
        while i < data.len()
            invariant
                0 <= i <= data@.len(),
                bytes@ == seq![0x02u8, address] + data@.subrange(0, i as int),
            decreases data@.len() - i,
        {
            bytes.push(data[i]);
            i = i + 1;
            assert(bytes@ =~= seq![0x02u8, address] + data@.subrange(0, i as int));
        }
        assert(data@.subrange(0, data@.len() as int) =~= data@);
        mcp2515_push_frame(steps, &config, bytes.as_slice());
        MCP2515ReturnType::MCP2515_E_OK
    } else {
        MCP2515ReturnType::MCP2515_E_NOT_OK
    }
}

/// Reads `buffer.len()` consecutive registers from `address`: the exchange
/// clocks out a zero per register. The answers of those transfers are put
/// in the buffer by `mcp2515_read_fill`; the buffer is left as it is here.
pub fn mcp2515_read(device_id: Mcp2515DeviceId, address: u8, buffer: &[u8], steps: &mut Vec<Mcp2515Step>) -> (r: MCP2515ReturnType)
    ensures
        spec_exchange(
            device_id,
            seq![0x03u8, address] + Seq::new(buffer@.len(), |i: int| 0u8),
            old(steps)@,
            final(steps)@,
            r,
        ),
{
    if let Some(config) = mcp2515_get_config(device_id) {
        let mut bytes: Vec<u8> = Vec::new();
        bytes.push(mcp2515_instruction_code(MCP2515Instruction::READ));
        bytes.push(address);
        let mut i: usize = 0;
        while i < buffer.len()
            invariant
                0 <= i <= buffer@.len(),
                bytes@ == seq![0x03u8, address] + Seq::new(i as nat, |j: int| 0u8),
            decreases buffer@.len() - i,
        {
            bytes.push(0x00);
            i = i + 1;
            assert(bytes@ =~= seq![0x03u8, address] + Seq::new(i as nat, |j: int| 0u8));
        }
        mcp2515_push_frame(steps, &config, bytes.as_slice());
        MCP2515ReturnType::MCP2515_E_OK
    } else {
        MCP2515ReturnType::MCP2515_E_NOT_OK
    }
}

/// Stores the answers of a read exchange in `buffer`: register `i` is the
/// answer of transfer `i + 2` (after the instruction and the address); a
/// transfer that failed leaves its byte as it was.
pub fn mcp2515_read_fill(buffer: &mut [u8], replies: &[Option<u8>])
    ensures
        final(buffer)@.len() == old(buffer)@.len(),
        forall|i: int| 0 <= i < old(buffer)@.len() ==> #[trigger] final(buffer)@[i] == (
            if i + 2 < replies@.len() && replies@[i + 2] is Some { replies@[i + 2]->0 } else { old(buffer)@[i] }),
{
    let mut i: usize = 0;
    while i < buffer.len()
        invariant
            0 <= i <= buffer@.len(),
            buffer@.len() == old(buffer)@.len(),
            forall|j: int| 0 <= j < buffer@.len() ==> #[trigger] buffer@[j] == (
                if j < i && j + 2 < replies@.len() && replies@[j + 2] is Some { replies@[j + 2]->0 } else { old(buffer)@[j] }),
        decreases buffer@.len() - i,
    {
        if i < replies.len() && replies.len() - i > 2 {
            if let Some(b) = replies[i + 2] {
                buffer[i] = b;
            }
        }
        i = i + 1;
    }
}

fn mcp2515_write_caninte(device_id: Mcp2515DeviceId, value: u8, steps: &mut Vec<Mcp2515Step>)
    ensures
        spec_exchange(
            device_id,
            seq![0x02u8, 0x2Bu8, value],
            old(steps)@,
            final(steps)@,
            if spec_mcp2515_find(device_id) is Some { MCP2515ReturnType::MCP2515_E_OK } else { MCP2515ReturnType::MCP2515_E_NOT_OK },
        ),
{
    let bytes = [
        mcp2515_instruction_code(MCP2515Instruction::WRITE),
        mcp2515_register_address(MCP2515Register::CANINTE),
        value,
    ];
    assert(bytes@ =~= seq![0x02u8, 0x2Bu8, value]);
    let _ = mcp2515_exchange(steps, device_id, &bytes);
}

/// Enables the transmit interrupt (CANINTE = 0x01).
pub fn mcp2515_enable_interrupt_transmit(device_id: Mcp2515DeviceId, steps: &mut Vec<Mcp2515Step>)
    ensures
        spec_exchange(
            device_id,
            seq![0x02u8, 0x2Bu8, 0x01u8],
            old(steps)@,
            final(steps)@,
            if spec_mcp2515_find(device_id) is Some { MCP2515ReturnType::MCP2515_E_OK } else { MCP2515ReturnType::MCP2515_E_NOT_OK },
        ),
{
    mcp2515_write_caninte(device_id, 0x01, steps);
}

/// Disables the interrupts (CANINTE = 0x00).
pub fn mcp2515_disable_interrupt_transmit(device_id: Mcp2515DeviceId, steps: &mut Vec<Mcp2515Step>)
    ensures
        spec_exchange(
            device_id,
            seq![0x02u8, 0x2Bu8, 0x00u8],
            old(steps)@,
            final(steps)@,
            if spec_mcp2515_find(device_id) is Some { MCP2515ReturnType::MCP2515_E_OK } else { MCP2515ReturnType::MCP2515_E_NOT_OK },
        ),
{
    mcp2515_write_caninte(device_id, 0x00, steps);
}

/// Enables both receive interrupts (CANINTE = 0x03).
pub fn mcp2515_enable_interrupt_receive(device_id: Mcp2515DeviceId, steps: &mut Vec<Mcp2515Step>)
    ensures
        spec_exchange(
            device_id,
            seq![0x02u8, 0x2Bu8, 0x03u8],
            old(steps)@,
            final(steps)@,
            if spec_mcp2515_find(device_id) is Some { MCP2515ReturnType::MCP2515_E_OK } else { MCP2515ReturnType::MCP2515_E_NOT_OK },
        ),
{
    mcp2515_write_caninte(device_id, 0x03, steps);
}

/// Disables the interrupts (CANINTE = 0x00).
pub fn mcp2515_disable_interrupt_receive(device_id: Mcp2515DeviceId, steps: &mut Vec<Mcp2515Step>)
    ensures
        spec_exchange(
            device_id,
            seq![0x02u8, 0x2Bu8, 0x00u8],
            old(steps)@,
            final(steps)@,
            if spec_mcp2515_find(device_id) is Some { MCP2515ReturnType::MCP2515_E_OK } else { MCP2515ReturnType::MCP2515_E_NOT_OK },
        ),
{
    mcp2515_write_caninte(device_id, 0x00, steps);
}

/// The answer of transfer `k` of an exchange, or `initial` where that
/// transfer failed or did not happen.
pub open spec fn spec_reply(replies: Seq<Option<u8>>, k: int, initial: u8) -> u8 {
    if 0 <= k < replies.len() && replies[k] is Some {
        replies[k]->0
    } else {
        initial
    }
}

/// A one-byte read: the exchange `bytes` ends with a dummy transfer whose
/// answer is the value read. For a configured device the steps are added
/// and the position of that transfer is returned; otherwise nothing.
pub open spec fn spec_read_plan(
    device_id: Mcp2515DeviceId,
    bytes: Seq<u8>,
    s0: Seq<Mcp2515Step>,
    s1: Seq<Mcp2515Step>,
    r: Option<usize>,
) -> bool {
    match spec_mcp2515_find(device_id) {
        Some(c) => s1 == s0 + spec_frame(c, bytes) && r == Some((bytes.len() - 1) as usize),
        None => s1 == s0 && r == None::<usize>,
    }
}

/// The value of a one-byte read planned as `plan`, given the answers of its
/// transfers: 0 for a device that is not configured; the answer of the
/// final transfer, or 0xFF if that transfer failed.
pub fn mcp2515_read_value(plan: Option<usize>, replies: &[Option<u8>]) -> (r: u8)
    ensures
        r == (match plan {
            Some(k) => spec_reply(replies@, k as int, 0xFFu8),
            None => 0u8,
        }),
{
    match plan {
        Some(k) => {
            if k < replies.len() {
                match replies[k] {
                    Some(b) => b,
                    None => 0xFF,
                }
            } else {
                0xFF
            }
        },
        None => 0,
    }
}

fn mcp2515_read_byte(device_id: Mcp2515DeviceId, bytes: &[u8], steps: &mut Vec<Mcp2515Step>) -> (r: Option<usize>)
    requires
        1 <= bytes@.len() <= 3,
    ensures
        spec_read_plan(device_id, bytes@, old(steps)@, final(steps)@, r),
{
    if let Some(config) = mcp2515_get_config(device_id) {
        mcp2515_push_frame(steps, &config, bytes);
        Some(bytes.len() - 1)
    } else {
        None
    }
}

/// Reads the quick status byte (READ STATUS, then one dummy byte); the
/// value is `mcp2515_read_value` of the returned plan.
pub fn mcp2515_read_status(device_id: Mcp2515DeviceId, steps: &mut Vec<Mcp2515Step>) -> (r: Option<usize>)
    ensures
        spec_read_plan(device_id, seq![0xA0u8, 0x00u8], old(steps)@, final(steps)@, r),
{
    let bytes = [mcp2515_instruction_code(MCP2515Instruction::READ_STATUS), 0x00];
    assert(bytes@ =~= seq![0xA0u8, 0x00u8]);
    mcp2515_read_byte(device_id, &bytes, steps)
}

/// Reads CANSTAT; the value is `mcp2515_read_value` of the returned plan.
pub fn mcp2515_read_register_status(device_id: Mcp2515DeviceId, steps: &mut Vec<Mcp2515Step>) -> (r: Option<usize>)
    ensures
        spec_read_plan(device_id, seq![0x03u8, 0x0Eu8, 0x00u8], old(steps)@, final(steps)@, r),
{
    let bytes = [
        mcp2515_instruction_code(MCP2515Instruction::READ),
        mcp2515_register_address(MCP2515Register::CANSTAT),
        0x00,
    ];
    assert(bytes@ =~= seq![0x03u8, 0x0Eu8, 0x00u8]);
    mcp2515_read_byte(device_id, &bytes, steps)
}

/// Reads CANCTRL; the value is `mcp2515_read_value` of the returned plan.
pub fn mcp2515_read_register_ctrl(device_id: Mcp2515DeviceId, steps: &mut Vec<Mcp2515Step>) -> (r: Option<usize>)
    ensures
        spec_read_plan(device_id, seq![0x03u8, 0x0Fu8, 0x00u8], old(steps)@, final(steps)@, r),
{
    let bytes = [
        mcp2515_instruction_code(MCP2515Instruction::READ),
        mcp2515_register_address(MCP2515Register::CANCTRL),
        0x00,
    ];
    assert(bytes@ =~= seq![0x03u8, 0x0Fu8, 0x00u8]);
    mcp2515_read_byte(device_id, &bytes, steps)
}

/// The start-up steps of one configured device: chip select high, reset,
/// bit timing for its bit rate, normal mode.
pub open spec fn spec_mcp2515_init_steps(c: MCP2515ConfigType) -> Seq<Mcp2515Step> {
    seq![Mcp2515Step::ChipSelect(c.cs_channel, Dio_LevelType::HIGH)]
        + spec_frame(c, seq![0xC0u8])
        + spec_frame(c, seq![0x02u8, 0x2Au8] + spec_baud_cnf(c.baudrate))
        + spec_frame(c, seq![0x05u8, 0x0Fu8, 0xE0u8, spec_mode_bits(MCP2515Mode::NORMAL)])
}

/// Brings up every configured device: chip select high, reset, bit timing,
/// normal mode.
pub fn mcp2515_init(steps: &mut Vec<Mcp2515Step>)
    ensures
        final(steps)@ == old(steps)@ + spec_mcp2515_init_steps(spec_mcp2515_config_set()[0]),
{
    let set = mcp2515_config_set();
    let mut i: usize = 0;
    while i < set.configs.len()
        invariant
            set.configs@ == spec_mcp2515_config_set(),
            0 <= i <= 1,
            i == 0 ==> steps@ == old(steps)@,
            i == 1 ==> steps@ == old(steps)@ + spec_mcp2515_init_steps(spec_mcp2515_config_set()[0]),
        decreases set.configs.len() - i,
    {
        let config = set.configs[i];
        let ghost before = steps@;
        steps.push(Mcp2515Step::ChipSelect(config.cs_channel, Dio_LevelType::HIGH));
        let _ = mcp2515_reset(config.device_id, steps);
        mcp2515_set_baudrate(config.device_id, config.baudrate, steps);
        let _ = mcp2515_set_mode(config.device_id, MCP2515Mode::NORMAL, steps);
        assert(steps@ =~= before + spec_mcp2515_init_steps(config));
        i = i + 1;
    }
}

} // verus!
