use vstd::prelude::*;
use crate::register::{SPINumberType, SpiFlags, GpioRegisters, Dio_LevelType, spec_write_bit, spec_port_index, spec_pin_number};
use crate::mcal::dio::{dio_writechannel, spec_dio_cfg, lemma_dio_config_facts};
use crate::mcal::dio_type::Dio_ChannelType;
use crate::mcal::spi_type::{
    SPIReturnType, SPIMasterStatus, SPISlaveStatus, SPIModeType, SPIClockPolarityType, SPIClockPhaseType,
    SPIDataFrameFormatType, SPIBaudRatePrescalerType, SPIFrameFormatType, SPIFrameModeType, SPIMethodeType,
    SPINSSControlType, SPI_ChannelConfigType, SPI_ConfigType, SPIMasterStatusChannelType,
    SPIMasterStatusChannelConfig, SPISlaveStatusChannelType, SPISlaveStatusChannelConfig, SpiRegisterOp,
    SpiCommand, SpiTransferPhase,
};

verus! {

/// Polls allowed to each wait of the polled transfer helpers.
pub const SPI_POLL_TIMEOUT: u32 = 1000;

/// SPI1 master and SPI2 slave: mode 0, 8-bit frames, MSB first, prescaler
/// 256, software chip select, polled.
pub open spec fn spec_spi_config() -> Seq<SPI_ChannelConfigType> {
    seq![
        SPI_ChannelConfigType {
            spi_number: SPINumberType::SPI1,
            mode: SPIModeType::SPI_MODE_MASTER,
            clock_polarity: SPIClockPolarityType::SPI_CLOCK_POLARITY_LOW,
            clock_phase: SPIClockPhaseType::SPI_CLOCK_PHASE_1EDGE,
            data_frame_format: SPIDataFrameFormatType::SPI_8BIT,
            baud_rate_prescaler: SPIBaudRatePrescalerType::SPI_BAUDRATEPRESCALER_256,
            frame_format: SPIFrameFormatType::SPI_MSB_FIRST,
            frame_mode: SPIFrameModeType::SPI_FRAME_MOTOROLA,
            crc_enabled: false,
            nss_control: SPINSSControlType::SPI_NSS_SOFTWARE,
            methode: SPIMethodeType::SPI_POLLING,
        },
        SPI_ChannelConfigType {
            spi_number: SPINumberType::SPI2,
            mode: SPIModeType::SPI_MODE_SLAVE,
            clock_polarity: SPIClockPolarityType::SPI_CLOCK_POLARITY_LOW,
            clock_phase: SPIClockPhaseType::SPI_CLOCK_PHASE_1EDGE,
            data_frame_format: SPIDataFrameFormatType::SPI_8BIT,
            baud_rate_prescaler: SPIBaudRatePrescalerType::SPI_BAUDRATEPRESCALER_256,
            frame_format: SPIFrameFormatType::SPI_MSB_FIRST,
            frame_mode: SPIFrameModeType::SPI_FRAME_MOTOROLA,
            crc_enabled: false,
            nss_control: SPINSSControlType::SPI_NSS_SOFTWARE,
            methode: SPIMethodeType::SPI_POLLING,
        },
    ]
}

pub fn spi_config() -> (r: SPI_ConfigType)
    ensures
        r.channels@ == spec_spi_config(),
{
    let r = SPI_ConfigType {
        channels: vec![
            SPI_ChannelConfigType {
                spi_number: SPINumberType::SPI1,
                mode: SPIModeType::SPI_MODE_MASTER,
                clock_polarity: SPIClockPolarityType::SPI_CLOCK_POLARITY_LOW,
                clock_phase: SPIClockPhaseType::SPI_CLOCK_PHASE_1EDGE,
                data_frame_format: SPIDataFrameFormatType::SPI_8BIT,
                baud_rate_prescaler: SPIBaudRatePrescalerType::SPI_BAUDRATEPRESCALER_256,
                frame_format: SPIFrameFormatType::SPI_MSB_FIRST,
                frame_mode: SPIFrameModeType::SPI_FRAME_MOTOROLA,
                crc_enabled: false,
                nss_control: SPINSSControlType::SPI_NSS_SOFTWARE,
                methode: SPIMethodeType::SPI_POLLING,
            },
            SPI_ChannelConfigType {
                spi_number: SPINumberType::SPI2,
                mode: SPIModeType::SPI_MODE_SLAVE,
                clock_polarity: SPIClockPolarityType::SPI_CLOCK_POLARITY_LOW,
                clock_phase: SPIClockPhaseType::SPI_CLOCK_PHASE_1EDGE,
                data_frame_format: SPIDataFrameFormatType::SPI_8BIT,
                baud_rate_prescaler: SPIBaudRatePrescalerType::SPI_BAUDRATEPRESCALER_256,
                frame_format: SPIFrameFormatType::SPI_MSB_FIRST,
                frame_mode: SPIFrameModeType::SPI_FRAME_MOTOROLA,
                crc_enabled: false,
                nss_control: SPINSSControlType::SPI_NSS_SOFTWARE,
                methode: SPIMethodeType::SPI_POLLING,
            },
        ],
    };
    assert(r.channels@ =~= spec_spi_config());
    r
}

/// The master status table: SPI1 in slot 0.
pub fn spi_master_status_config() -> (r: SPIMasterStatusChannelConfig)
    ensures
        r.channels@ == seq![SPIMasterStatusChannelType { spi_number: SPINumberType::SPI1, status_index: 0 }],
{
    let r = SPIMasterStatusChannelConfig {
        channels: vec![SPIMasterStatusChannelType { spi_number: SPINumberType::SPI1, status_index: 0 }],
    };
    assert(r.channels@ =~= seq![SPIMasterStatusChannelType { spi_number: SPINumberType::SPI1, status_index: 0 }]);
    r
}

/// The slave status table: SPI2 in slot 0.
pub fn spi_slave_status_config() -> (r: SPISlaveStatusChannelConfig)
    ensures
        r.channels@ == seq![SPISlaveStatusChannelType { spi_number: SPINumberType::SPI2, status_index: 0 }],
{
    let r = SPISlaveStatusChannelConfig {
        channels: vec![SPISlaveStatusChannelType { spi_number: SPINumberType::SPI2, status_index: 0 }],
    };
    assert(r.channels@ =~= seq![SPISlaveStatusChannelType { spi_number: SPINumberType::SPI2, status_index: 0 }]);
    r
}

pub open spec fn spec_master_code(s: SPIMasterStatus) -> u8 {
    match s {
        SPIMasterStatus::SPI_MASTER_IDLE => 0,
        SPIMasterStatus::SPI_MASTER_REQUESTED => 1,
        SPIMasterStatus::SPI_MASTER_BUSY => 2,
        SPIMasterStatus::SPI_MASTER_COMPLETE => 3,
        SPIMasterStatus::SPI_MASTER_TIMEOUT => 4,
        SPIMasterStatus::SPI_MASTER_OVERRUN => 5,
        SPIMasterStatus::SPI_MASTER_ERROR => 6,
    }
}

/// A stored master code read back; an unknown code reads as an error.
pub open spec fn spec_decode_master(c: u8) -> SPIMasterStatus {
    if c == 0 {
        SPIMasterStatus::SPI_MASTER_IDLE
    } else if c == 1 {
        SPIMasterStatus::SPI_MASTER_REQUESTED
    } else if c == 2 {
        SPIMasterStatus::SPI_MASTER_BUSY
    } else if c == 3 {
        SPIMasterStatus::SPI_MASTER_COMPLETE
    } else if c == 4 {
        SPIMasterStatus::SPI_MASTER_TIMEOUT
    } else if c == 5 {
        SPIMasterStatus::SPI_MASTER_OVERRUN
    } else {
        SPIMasterStatus::SPI_MASTER_ERROR
    }
}

pub open spec fn spec_slave_code(s: SPISlaveStatus) -> u8 {
    match s {
        SPISlaveStatus::SPI_SLAVE_IDLE => 0,
        SPISlaveStatus::SPI_SLAVE_PRELOADED => 1,
        SPISlaveStatus::SPI_SLAVE_BUSY => 2,
        SPISlaveStatus::SPI_SLAVE_RECEIVED => 3,
        SPISlaveStatus::SPI_SLAVE_OVERRUN => 4,
        SPISlaveStatus::SPI_SLAVE_ERROR => 5,
    }
}

/// A stored slave code read back; an unknown code reads as an error.
pub open spec fn spec_decode_slave(c: u8) -> SPISlaveStatus {
    if c == 0 {
        SPISlaveStatus::SPI_SLAVE_IDLE
    } else if c == 1 {
        SPISlaveStatus::SPI_SLAVE_PRELOADED
    } else if c == 2 {
        SPISlaveStatus::SPI_SLAVE_BUSY
    } else if c == 3 {
        SPISlaveStatus::SPI_SLAVE_RECEIVED
    } else if c == 4 {
        SPISlaveStatus::SPI_SLAVE_OVERRUN
    } else {
        SPISlaveStatus::SPI_SLAVE_ERROR
    }
}

/// The slot of an SPI in the data tables (SPI1 0, SPI2 1, SPI3 2, SPI4 3);
/// the tables have a slot for each configured channel only.
pub open spec fn spec_spi_data_index(spi: SPINumberType) -> int {
    match spi {
        SPINumberType::SPI1 => 0,
        SPINumberType::SPI2 => 1,
        SPINumberType::SPI3 => 2,
        SPINumberType::SPI4 => 3,
    }
}

/// Driver state: the status of the master slot (SPI1) and of the slave
/// slot (SPI2) as codes, and the byte to send and the byte received for
/// each configured channel.
pub struct SpiState {
    pub master_status: Vec<u8>,
    pub slave_status: Vec<u8>,
    pub tx_data: Vec<u8>,
    pub rx_data: Vec<u8>,
}

impl SpiState {
    pub open spec fn wf(&self) -> bool {
        &&& self.master_status@.len() == 1
        &&& self.slave_status@.len() == 1
        &&& self.tx_data@.len() == 2
        &&& self.rx_data@.len() == 2
    }

    /// The master status of `spi`: SPI1 has the slot, any other reads as an error.
    pub open spec fn master(&self, spi: SPINumberType) -> SPIMasterStatus {
        if spi == SPINumberType::SPI1 {
            spec_decode_master(self.master_status@[0])
        } else {
            SPIMasterStatus::SPI_MASTER_ERROR
        }
    }

    /// The slave status of `spi`: SPI2 has the slot, any other reads as an error.
    pub open spec fn slave(&self, spi: SPINumberType) -> SPISlaveStatus {
        if spi == SPINumberType::SPI2 {
            spec_decode_slave(self.slave_status@[0])
        } else {
            SPISlaveStatus::SPI_SLAVE_ERROR
        }
    }

    /// Both slots idle, no data.
    pub fn new() -> (r: SpiState)
        ensures
            r.wf(),
            r.master_status@[0] == 0,
            r.slave_status@[0] == 0,
            r.tx_data@ == seq![0u8, 0u8],
            r.rx_data@ == seq![0u8, 0u8],
    {
        let r = SpiState { master_status: vec![0u8], slave_status: vec![0u8], tx_data: vec![0u8, 0], rx_data: vec![0u8, 0] };
        assert(r.tx_data@ =~= seq![0u8, 0u8]);
        assert(r.rx_data@ =~= seq![0u8, 0u8]);
        r
    }
}

/// The master status after setting `s` on `spi` (only SPI1 has a slot).
pub open spec fn spec_set_master(st: SpiState, spi: SPINumberType, s: SPIMasterStatus) -> Seq<u8> {
    if spi == SPINumberType::SPI1 {
        st.master_status@.update(0, spec_master_code(s))
    } else {
        st.master_status@
    }
}

/// The slave status after setting `s` on `spi` (only SPI2 has a slot).
pub open spec fn spec_set_slave(st: SpiState, spi: SPINumberType, s: SPISlaveStatus) -> Seq<u8> {
    if spi == SPINumberType::SPI2 {
        st.slave_status@.update(0, spec_slave_code(s))
    } else {
        st.slave_status@
    }
}

fn spi_get_status_index(spi_number: SPINumberType, ismaster: bool) -> (r: Option<usize>)
    ensures
        r == (if ismaster {
            if spi_number == SPINumberType::SPI1 { Some(0usize) } else { None::<usize> }
        } else {
            if spi_number == SPINumberType::SPI2 { Some(0usize) } else { None::<usize> }
        }),
{
    if ismaster {
        let cfg = spi_master_status_config();
        let mut i: usize = 0;
        while i < cfg.channels.len()
            invariant
                cfg.channels@ == seq![SPIMasterStatusChannelType { spi_number: SPINumberType::SPI1, status_index: 0 }],
                ismaster,
                0 <= i <= 1,
                i == 1 ==> spi_number != SPINumberType::SPI1,
            decreases cfg.channels.len() - i,
        {
            if cfg.channels[i].spi_number == spi_number {
                return Some(cfg.channels[i].status_index);
            }
            i = i + 1;
        }
    } else {
        let cfg = spi_slave_status_config();
        let mut i: usize = 0;
        while i < cfg.channels.len()
            invariant
                cfg.channels@ == seq![SPISlaveStatusChannelType { spi_number: SPINumberType::SPI2, status_index: 0 }],
                !ismaster,
                0 <= i <= 1,
                i == 1 ==> spi_number != SPINumberType::SPI2,
            decreases cfg.channels.len() - i,
        {
            if cfg.channels[i].spi_number == spi_number {
                return Some(cfg.channels[i].status_index);
            }
            i = i + 1;
        }
    }
    None
}

fn spi_master_code(s: SPIMasterStatus) -> (r: u8)
    ensures
        r == spec_master_code(s),
{
    match s {
        SPIMasterStatus::SPI_MASTER_IDLE => 0,
        SPIMasterStatus::SPI_MASTER_REQUESTED => 1,
        SPIMasterStatus::SPI_MASTER_BUSY => 2,
        SPIMasterStatus::SPI_MASTER_COMPLETE => 3,
        SPIMasterStatus::SPI_MASTER_TIMEOUT => 4,
        SPIMasterStatus::SPI_MASTER_OVERRUN => 5,
        SPIMasterStatus::SPI_MASTER_ERROR => 6,
    }
}

fn spi_slave_code(s: SPISlaveStatus) -> (r: u8)
    ensures
        r == spec_slave_code(s),
{
    match s {
        SPISlaveStatus::SPI_SLAVE_IDLE => 0,
        SPISlaveStatus::SPI_SLAVE_PRELOADED => 1,
        SPISlaveStatus::SPI_SLAVE_BUSY => 2,
        SPISlaveStatus::SPI_SLAVE_RECEIVED => 3,
        SPISlaveStatus::SPI_SLAVE_OVERRUN => 4,
        SPISlaveStatus::SPI_SLAVE_ERROR => 5,
    }
}

fn spi_get_master_status(st: &SpiState, spi_number: SPINumberType) -> (r: SPIMasterStatus)
    requires
        st.wf(),
    ensures
        r == st.master(spi_number),
{
    if let Some(index) = spi_get_status_index(spi_number, true) {
        let c = st.master_status[index];
        if c == 0 {
            SPIMasterStatus::SPI_MASTER_IDLE
        } else if c == 1 {
            SPIMasterStatus::SPI_MASTER_REQUESTED
        } else if c == 2 {
            SPIMasterStatus::SPI_MASTER_BUSY
        } else if c == 3 {
            SPIMasterStatus::SPI_MASTER_COMPLETE
        } else if c == 4 {
            SPIMasterStatus::SPI_MASTER_TIMEOUT
        } else if c == 5 {
            SPIMasterStatus::SPI_MASTER_OVERRUN
        } else {
            SPIMasterStatus::SPI_MASTER_ERROR
        }
    } else {
        SPIMasterStatus::SPI_MASTER_ERROR
    }
}

fn spi_set_master_status(st: &mut SpiState, spi_number: SPINumberType, status: SPIMasterStatus)
    requires
        old(st).wf(),
    ensures
        final(st).wf(),
        final(st).master_status@ == spec_set_master(*old(st), spi_number, status),
        final(st).slave_status@ == old(st).slave_status@,
        final(st).tx_data@ == old(st).tx_data@,
        final(st).rx_data@ == old(st).rx_data@,
{
    if let Some(index) = spi_get_status_index(spi_number, true) {
        st.master_status.set(index, spi_master_code(status));
    }
}

fn spi_get_slave_status(st: &SpiState, spi_number: SPINumberType) -> (r: SPISlaveStatus)
    requires
        st.wf(),
    ensures
        r == st.slave(spi_number),
{
    if let Some(index) = spi_get_status_index(spi_number, false) {
        let c = st.slave_status[index];
        if c == 0 {
            SPISlaveStatus::SPI_SLAVE_IDLE
        } else if c == 1 {
            SPISlaveStatus::SPI_SLAVE_PRELOADED
        } else if c == 2 {
            SPISlaveStatus::SPI_SLAVE_BUSY
        } else if c == 3 {
            SPISlaveStatus::SPI_SLAVE_RECEIVED
        } else if c == 4 {
            SPISlaveStatus::SPI_SLAVE_OVERRUN
        } else {
            SPISlaveStatus::SPI_SLAVE_ERROR
        }
    } else {
        SPISlaveStatus::SPI_SLAVE_ERROR
    }
}

fn spi_set_slave_status(st: &mut SpiState, spi_number: SPINumberType, status: SPISlaveStatus)
    requires
        old(st).wf(),
    ensures
        final(st).wf(),
        final(st).slave_status@ == spec_set_slave(*old(st), spi_number, status),
        final(st).master_status@ == old(st).master_status@,
        final(st).tx_data@ == old(st).tx_data@,
        final(st).rx_data@ == old(st).rx_data@,
{
    if let Some(index) = spi_get_status_index(spi_number, false) {
        st.slave_status.set(index, spi_slave_code(status));
    }
}

fn spi_data_index(spi_number: SPINumberType) -> (r: usize)
    ensures
        r == spec_spi_data_index(spi_number),
{
    match spi_number {
        SPINumberType::SPI1 => 0,
        SPINumberType::SPI2 => 1,
        SPINumberType::SPI3 => 2,
        SPINumberType::SPI4 => 3,
    }
}

fn spi_save_tx_data(st: &mut SpiState, spi_number: SPINumberType, data: u8)
    requires
        old(st).wf(),
        spec_spi_data_index(spi_number) < 2,
    ensures
        final(st).wf(),
        final(st).tx_data@ == old(st).tx_data@.update(spec_spi_data_index(spi_number), data),
        final(st).master_status@ == old(st).master_status@,
        final(st).slave_status@ == old(st).slave_status@,
        final(st).rx_data@ == old(st).rx_data@,
{
    let index = spi_data_index(spi_number);
    st.tx_data.set(index, data);
}

fn spi_get_tx_data(st: &SpiState, spi_number: SPINumberType) -> (r: u8)
    requires
        st.wf(),
        spec_spi_data_index(spi_number) < 2,
    ensures
        r == st.tx_data@[spec_spi_data_index(spi_number)],
{
    let index = spi_data_index(spi_number);
    st.tx_data[index]
}

fn spi_save_rx_data(st: &mut SpiState, spi_number: SPINumberType, data: u8)
    requires
        old(st).wf(),
        spec_spi_data_index(spi_number) < 2,
    ensures
        final(st).wf(),
        final(st).rx_data@ == old(st).rx_data@.update(spec_spi_data_index(spi_number), data),
        final(st).master_status@ == old(st).master_status@,
        final(st).slave_status@ == old(st).slave_status@,
        final(st).tx_data@ == old(st).tx_data@,
{
    let index = spi_data_index(spi_number);
    st.rx_data.set(index, data);
}

fn spi_get_rx_data(st: &SpiState, spi_number: SPINumberType) -> (r: u8)
    requires
        st.wf(),
        spec_spi_data_index(spi_number) < 2,
    ensures
        r == st.rx_data@[spec_spi_data_index(spi_number)],
{
    let index = spi_data_index(spi_number);
    st.rx_data[index]
}


pub open spec fn spec_prescaler_code(p: SPIBaudRatePrescalerType) -> u8 {
    match p {
        SPIBaudRatePrescalerType::SPI_BAUDRATEPRESCALER_2 => 0,
        SPIBaudRatePrescalerType::SPI_BAUDRATEPRESCALER_4 => 1,
        SPIBaudRatePrescalerType::SPI_BAUDRATEPRESCALER_8 => 2,
        SPIBaudRatePrescalerType::SPI_BAUDRATEPRESCALER_16 => 3,
        SPIBaudRatePrescalerType::SPI_BAUDRATEPRESCALER_32 => 4,
        SPIBaudRatePrescalerType::SPI_BAUDRATEPRESCALER_64 => 5,
        SPIBaudRatePrescalerType::SPI_BAUDRATEPRESCALER_128 => 6,
        SPIBaudRatePrescalerType::SPI_BAUDRATEPRESCALER_256 => 7,
    }
}

fn spi_prescaler_code(p: SPIBaudRatePrescalerType) -> (r: u8)
    ensures
        r == spec_prescaler_code(p),
{
    match p {
        SPIBaudRatePrescalerType::SPI_BAUDRATEPRESCALER_2 => 0,
        SPIBaudRatePrescalerType::SPI_BAUDRATEPRESCALER_4 => 1,
        SPIBaudRatePrescalerType::SPI_BAUDRATEPRESCALER_8 => 2,
        SPIBaudRatePrescalerType::SPI_BAUDRATEPRESCALER_16 => 3,
        SPIBaudRatePrescalerType::SPI_BAUDRATEPRESCALER_32 => 4,
        SPIBaudRatePrescalerType::SPI_BAUDRATEPRESCALER_64 => 5,
        SPIBaudRatePrescalerType::SPI_BAUDRATEPRESCALER_128 => 6,
        SPIBaudRatePrescalerType::SPI_BAUDRATEPRESCALER_256 => 7,
    }
}

pub open spec fn spec_frame_mode_code(m: SPIFrameModeType) -> u8 {
    match m {
        SPIFrameModeType::SPI_FRAME_MOTOROLA => 0,
        SPIFrameModeType::SPI_FRAME_TI => 1,
    }
}

pub open spec fn spec_clock_phase_code(p: SPIClockPhaseType) -> u8 {
    match p {
        SPIClockPhaseType::SPI_CLOCK_PHASE_1EDGE => 0,
        SPIClockPhaseType::SPI_CLOCK_PHASE_2EDGE => 1,
    }
}

/// The register steps that set up one configured SPI.
pub open spec fn spec_spi_channel_init_ops(c: SPI_ChannelConfigType) -> Seq<SpiCommand> {
    let s = c.spi_number;
    seq![
        SpiCommand { spi: s, op: SpiRegisterOp::EnablePeripheralClock },
        SpiCommand { spi: s, op: SpiRegisterOp::SetMasterOrSlave(c.mode) },
        SpiCommand { spi: s, op: SpiRegisterOp::SetBaudRate(spec_prescaler_code(c.baud_rate_prescaler)) },
        SpiCommand { spi: s, op: SpiRegisterOp::SetDataFrameFormat(c.data_frame_format) },
        SpiCommand { spi: s, op: SpiRegisterOp::SetFrameFormat(c.frame_format) },
        SpiCommand { spi: s, op: SpiRegisterOp::SetFrameMode(spec_frame_mode_code(c.frame_mode)) },
        SpiCommand { spi: s, op: SpiRegisterOp::SetChipSelect(c.nss_control, c.mode) },
        SpiCommand {
            spi: s,
            op: SpiRegisterOp::SetClockPolarity(
                if c.clock_polarity == SPIClockPolarityType::SPI_CLOCK_POLARITY_HIGH { 1u8 } else { 0u8 },
                spec_clock_phase_code(c.clock_phase),
            ),
        },
        SpiCommand {
            spi: s,
            op: if c.methode == SPIMethodeType::SPI_INTERRUPT {
                SpiRegisterOp::EnableInterrupt
            } else {
                SpiRegisterOp::DisableInterrupt
            },
        },
        SpiCommand { spi: s, op: SpiRegisterOp::Enable },
    ]
}

/// The set-up steps of the first `k` configured SPIs, in table order.
pub open spec fn spec_spi_init_ops(cfg: Seq<SPI_ChannelConfigType>, k: int) -> Seq<SpiCommand>
    decreases k,
{
    if k <= 0 {
        Seq::empty()
    } else {
        spec_spi_init_ops(cfg, k - 1) + spec_spi_channel_init_ops(cfg[k - 1])
    }
}

/// Drives the onboard sensor's chip select high, then sets up each
/// configured SPI: clock, role, prescaler, frame size and order, frame
/// mode, chip-select handling, clock polarity and phase, its interrupt
/// (enabled only when interrupt driven) and the peripheral itself.
pub fn spi_init(g: &mut GpioRegisters, ops: &mut Vec<SpiCommand>)
    requires
        old(g).wf(),
    ensures
        final(g).wf(),
        final(g).idr@ == old(g).idr@,
        final(g).odr@ == old(g).odr@.update(4, spec_write_bit(old(g).odr@[4], 3, Dio_LevelType::HIGH)),
        final(ops)@ == old(ops)@ + spec_spi_init_ops(spec_spi_config(), 2),
{
    proof {
        lemma_dio_config_facts();
    }
    dio_writechannel(g, Dio_ChannelType::OnboardSpiSensorCs, Dio_LevelType::HIGH);
    let cfg = spi_config();
    let mut k: usize = 0;
    while k < cfg.channels.len()
        invariant
            cfg.channels@ == spec_spi_config(),
            0 <= k <= 2,
            ops@ == old(ops)@ + spec_spi_init_ops(spec_spi_config(), k as int),
        decreases cfg.channels.len() - k,
    {
        let c = cfg.channels[k];
        let s = c.spi_number;
        let ghost before = ops@;
        ops.push(SpiCommand { spi: s, op: SpiRegisterOp::EnablePeripheralClock });
        ops.push(SpiCommand { spi: s, op: SpiRegisterOp::SetMasterOrSlave(c.mode) });
        ops.push(SpiCommand { spi: s, op: SpiRegisterOp::SetBaudRate(spi_prescaler_code(c.baud_rate_prescaler)) });
        ops.push(SpiCommand { spi: s, op: SpiRegisterOp::SetDataFrameFormat(c.data_frame_format) });
        ops.push(SpiCommand { spi: s, op: SpiRegisterOp::SetFrameFormat(c.frame_format) });
        let frame_mode: u8 = match c.frame_mode {
            SPIFrameModeType::SPI_FRAME_MOTOROLA => 0,
            SPIFrameModeType::SPI_FRAME_TI => 1,
        };
        ops.push(SpiCommand { spi: s, op: SpiRegisterOp::SetFrameMode(frame_mode) });
        ops.push(SpiCommand { spi: s, op: SpiRegisterOp::SetChipSelect(c.nss_control, c.mode) });
        let phase: u8 = match c.clock_phase {
            SPIClockPhaseType::SPI_CLOCK_PHASE_1EDGE => 0,
            SPIClockPhaseType::SPI_CLOCK_PHASE_2EDGE => 1,
        };
        if c.clock_polarity == SPIClockPolarityType::SPI_CLOCK_POLARITY_HIGH {
            ops.push(SpiCommand { spi: s, op: SpiRegisterOp::SetClockPolarity(1, phase) });
        } else {
            ops.push(SpiCommand { spi: s, op: SpiRegisterOp::SetClockPolarity(0, phase) });
        }
        if c.methode == SPIMethodeType::SPI_INTERRUPT {
            ops.push(SpiCommand { spi: s, op: SpiRegisterOp::EnableInterrupt });
        } else {
            ops.push(SpiCommand { spi: s, op: SpiRegisterOp::DisableInterrupt });
        }
        ops.push(SpiCommand { spi: s, op: SpiRegisterOp::Enable });
        assert(ops@ =~= before + spec_spi_channel_init_ops(c));
        k = k + 1;
    }
}

fn spi_error_recovery_procedure(st: &mut SpiState, spi_number: SPINumberType, is_master: bool)
    requires
        old(st).wf(),
    ensures
        final(st).wf(),
        final(st).master_status@ == (if is_master {
            spec_set_master(*old(st), spi_number, SPIMasterStatus::SPI_MASTER_IDLE)
        } else {
            old(st).master_status@
        }),
        final(st).slave_status@ == (if is_master {
            old(st).slave_status@
        } else {
            spec_set_slave(*old(st), spi_number, SPISlaveStatus::SPI_SLAVE_IDLE)
        }),
        final(st).tx_data@ == old(st).tx_data@,
        final(st).rx_data@ == old(st).rx_data@,
{
    if is_master {
        spi_set_master_status(st, spi_number, SPIMasterStatus::SPI_MASTER_IDLE);
    } else {
        spi_set_slave_status(st, spi_number, SPISlaveStatus::SPI_SLAVE_IDLE);
    }
}

/// Hands the received byte to the application once the slave exchange has
/// completed, and makes the slave idle again; otherwise refuses and changes
/// nothing.
pub fn spi_slave_receive_byte(st: &mut SpiState, spi_number: SPINumberType, rx_data: &mut u8) -> (r: SPIReturnType)
    requires
        old(st).wf(),
    ensures
        final(st).wf(),
        final(st).tx_data@ == old(st).tx_data@,
        final(st).rx_data@ == old(st).rx_data@,
        final(st).master_status@ == old(st).master_status@,
        old(st).slave(spi_number) == SPISlaveStatus::SPI_SLAVE_RECEIVED ==> {
            &&& r == SPIReturnType::SPI_E_OK
            &&& *final(rx_data) == old(st).rx_data@[spec_spi_data_index(spi_number)]
            &&& final(st).slave_status@ == spec_set_slave(*old(st), spi_number, SPISlaveStatus::SPI_SLAVE_IDLE)
        },
        old(st).slave(spi_number) != SPISlaveStatus::SPI_SLAVE_RECEIVED ==> {
            &&& r == SPIReturnType::SPI_E_NOT_OK
            &&& *final(rx_data) == *old(rx_data)
            &&& final(st).slave_status@ == old(st).slave_status@
        },
{
    if spi_get_slave_status(st, spi_number) != SPISlaveStatus::SPI_SLAVE_RECEIVED {
        return SPIReturnType::SPI_E_NOT_OK;
    }
    *rx_data = spi_get_rx_data(st, spi_number);
    spi_set_slave_status(st, spi_number, SPISlaveStatus::SPI_SLAVE_IDLE);
    SPIReturnType::SPI_E_OK
}

/// Hands the received byte to the application once the master transfer has
/// completed, and makes the master idle again; otherwise refuses and
/// changes nothing.
pub fn spi_master_receive_byte(st: &mut SpiState, spi_number: SPINumberType, rx_data: &mut u8) -> (r: SPIReturnType)
    requires
        old(st).wf(),
    ensures
        final(st).wf(),
        final(st).tx_data@ == old(st).tx_data@,
        final(st).rx_data@ == old(st).rx_data@,
        final(st).slave_status@ == old(st).slave_status@,
        old(st).master(spi_number) == SPIMasterStatus::SPI_MASTER_COMPLETE ==> {
            &&& r == SPIReturnType::SPI_E_OK
            &&& *final(rx_data) == old(st).rx_data@[spec_spi_data_index(spi_number)]
            &&& final(st).master_status@ == spec_set_master(*old(st), spi_number, SPIMasterStatus::SPI_MASTER_IDLE)
        },
        old(st).master(spi_number) != SPIMasterStatus::SPI_MASTER_COMPLETE ==> {
            &&& r == SPIReturnType::SPI_E_NOT_OK
            &&& *final(rx_data) == *old(rx_data)
            &&& final(st).master_status@ == old(st).master_status@
        },
{
    if spi_get_master_status(st, spi_number) != SPIMasterStatus::SPI_MASTER_COMPLETE {
        return SPIReturnType::SPI_E_NOT_OK;
    }
    *rx_data = spi_get_rx_data(st, spi_number);
    spi_set_master_status(st, spi_number, SPIMasterStatus::SPI_MASTER_IDLE);
    SPIReturnType::SPI_E_OK
}

/// Requests a master transfer of `tx_data`, given the flags of the SPI as
/// read now. An overrun is cleared and reported (status OVERRUN); a busy
/// bus or a transmit buffer that is not empty is an error (status ERROR);
/// otherwise the byte is kept and the transfer requested.
pub fn spi_master_start_to_transfer(
    st: &mut SpiState,
    ops: &mut Vec<SpiCommand>,
    spi_number: SPINumberType,
    tx_data: u8,
    flags: SpiFlags,
) -> (r: SPIReturnType)
    requires
        old(st).wf(),
        flags.overrun || flags.busy || !flags.tx_empty || spec_spi_data_index(spi_number) < 2,
    ensures
        final(st).wf(),
        final(st).rx_data@ == old(st).rx_data@,
        final(st).slave_status@ == old(st).slave_status@,
        flags.overrun ==> {
            &&& r == SPIReturnType::SPI_E_NOT_OK
            &&& final(ops)@ == old(ops)@.push(SpiCommand { spi: spi_number, op: SpiRegisterOp::ClearOverrunFlag })
            &&& final(st).master_status@ == spec_set_master(*old(st), spi_number, SPIMasterStatus::SPI_MASTER_OVERRUN)
            &&& final(st).tx_data@ == old(st).tx_data@
        },
        !flags.overrun && (flags.busy || !flags.tx_empty) ==> {
            &&& r == SPIReturnType::SPI_E_NOT_OK
            &&& final(ops)@ == old(ops)@
            &&& final(st).master_status@ == spec_set_master(*old(st), spi_number, SPIMasterStatus::SPI_MASTER_ERROR)
            &&& final(st).tx_data@ == old(st).tx_data@
        },
        !flags.overrun && !flags.busy && flags.tx_empty ==> {
            &&& r == SPIReturnType::SPI_E_OK
            &&& final(ops)@ == old(ops)@
            &&& final(st).master_status@ == spec_set_master(*old(st), spi_number, SPIMasterStatus::SPI_MASTER_REQUESTED)
            &&& final(st).tx_data@ == old(st).tx_data@.update(spec_spi_data_index(spi_number), tx_data)
        },
{
    if flags.overrun {
        ops.push(SpiCommand { spi: spi_number, op: SpiRegisterOp::ClearOverrunFlag });
        spi_set_master_status(st, spi_number, SPIMasterStatus::SPI_MASTER_OVERRUN);
        return SPIReturnType::SPI_E_NOT_OK;
    }
    if flags.busy {
        spi_set_master_status(st, spi_number, SPIMasterStatus::SPI_MASTER_ERROR);
        return SPIReturnType::SPI_E_NOT_OK;
    }
    if !flags.tx_empty {
        spi_set_master_status(st, spi_number, SPIMasterStatus::SPI_MASTER_ERROR);
        return SPIReturnType::SPI_E_NOT_OK;
    }
    spi_set_master_status(st, spi_number, SPIMasterStatus::SPI_MASTER_REQUESTED);
    spi_save_tx_data(st, spi_number, tx_data);
    SPIReturnType::SPI_E_OK
}

/// Prepares the byte the slave answers with, given the flags of the SPI as
/// read now. An overrun is cleared and reported (status OVERRUN);
/// otherwise the byte is kept and the slave preloaded.
pub fn spi_slave_start_to_preload(
    st: &mut SpiState,
    ops: &mut Vec<SpiCommand>,
    spi_number: SPINumberType,
    tx_data: u8,
    flags: SpiFlags,
) -> (r: SPIReturnType)
    requires
        old(st).wf(),
        flags.overrun || spec_spi_data_index(spi_number) < 2,
    ensures
        final(st).wf(),
        final(st).rx_data@ == old(st).rx_data@,
        final(st).master_status@ == old(st).master_status@,
        flags.overrun ==> {
            &&& r == SPIReturnType::SPI_E_NOT_OK
            &&& final(ops)@ == old(ops)@.push(SpiCommand { spi: spi_number, op: SpiRegisterOp::ClearOverrunFlag })
            &&& final(st).slave_status@ == spec_set_slave(*old(st), spi_number, SPISlaveStatus::SPI_SLAVE_OVERRUN)
            &&& final(st).tx_data@ == old(st).tx_data@
        },
        !flags.overrun ==> {
            &&& r == SPIReturnType::SPI_E_OK
            &&& final(ops)@ == old(ops)@
            &&& final(st).slave_status@ == spec_set_slave(*old(st), spi_number, SPISlaveStatus::SPI_SLAVE_PRELOADED)
            &&& final(st).tx_data@ == old(st).tx_data@.update(spec_spi_data_index(spi_number), tx_data)
        },
{
    if flags.overrun {
        ops.push(SpiCommand { spi: spi_number, op: SpiRegisterOp::ClearOverrunFlag });
        spi_set_slave_status(st, spi_number, SPISlaveStatus::SPI_SLAVE_OVERRUN);
        return SPIReturnType::SPI_E_NOT_OK;
    }
    spi_save_tx_data(st, spi_number, tx_data);
    spi_set_slave_status(st, spi_number, SPISlaveStatus::SPI_SLAVE_PRELOADED);
    SPIReturnType::SPI_E_OK
}

/// One step of the master state machine of `spi`, given its flags.
pub open spec fn spec_master_step(st: SpiState, spi: SPINumberType, flags: SpiFlags) -> (Seq<u8>, Seq<u8>, Seq<SpiCommand>) {
    let i = spec_spi_data_index(spi);
    match st.master(spi) {
        SPIMasterStatus::SPI_MASTER_REQUESTED => if flags.tx_empty {
            (
                spec_set_master(st, spi, SPIMasterStatus::SPI_MASTER_BUSY),
                st.rx_data@,
                seq![SpiCommand { spi: spi, op: SpiRegisterOp::WriteData(st.tx_data@[i]) }],
            )
        } else {
            (st.master_status@, st.rx_data@, Seq::empty())
        },
        SPIMasterStatus::SPI_MASTER_BUSY => if flags.rx_not_empty {
            (
                if !flags.busy {
                    spec_set_master(st, spi, SPIMasterStatus::SPI_MASTER_COMPLETE)
                } else {
                    st.master_status@
                },
                st.rx_data@.update(i, flags.rx_data),
                Seq::empty(),
            )
        } else {
            (st.master_status@, st.rx_data@, Seq::empty())
        },
        SPIMasterStatus::SPI_MASTER_OVERRUN => (
            spec_set_master(st, spi, SPIMasterStatus::SPI_MASTER_ERROR),
            st.rx_data@,
            Seq::empty(),
        ),
        SPIMasterStatus::SPI_MASTER_ERROR => (
            spec_set_master(st, spi, SPIMasterStatus::SPI_MASTER_IDLE),
            st.rx_data@,
            Seq::empty(),
        ),
        _ => (st.master_status@, st.rx_data@, Seq::empty()),
    }
}

/// Advances the master transfer of `spi`: a requested byte is written once
/// the transmit buffer is empty; while busy, a received byte is kept and the
/// transfer completes when the bus is no longer busy; an overrun turns into
/// an error, and an error is recovered to idle.
fn spi_mainfunction_master(st: &mut SpiState, ops: &mut Vec<SpiCommand>, spi_number: SPINumberType, flags: SpiFlags)
    requires
        old(st).wf(),
    ensures
        final(st).wf(),
        final(st).slave_status@ == old(st).slave_status@,
        final(st).tx_data@ == old(st).tx_data@,
        ({
            let r = spec_master_step(*old(st), spi_number, flags);
            &&& final(st).master_status@ == r.0
            &&& final(st).rx_data@ == r.1
            &&& final(ops)@ == old(ops)@ + r.2
        }),
{
    let master_status = spi_get_master_status(st, spi_number);
    match master_status {
        SPIMasterStatus::SPI_MASTER_IDLE => {},
        SPIMasterStatus::SPI_MASTER_REQUESTED => {
            if flags.tx_empty {
                let tx_data = spi_get_tx_data(st, spi_number);
                ops.push(SpiCommand { spi: spi_number, op: SpiRegisterOp::WriteData(tx_data) });
                spi_set_master_status(st, spi_number, SPIMasterStatus::SPI_MASTER_BUSY);
            }
        },
        SPIMasterStatus::SPI_MASTER_BUSY => {
            if flags.rx_not_empty {
                spi_save_rx_data(st, spi_number, flags.rx_data);
                if !flags.busy {
                    spi_set_master_status(st, spi_number, SPIMasterStatus::SPI_MASTER_COMPLETE);
                }
            }
        },
        SPIMasterStatus::SPI_MASTER_COMPLETE => {},
        SPIMasterStatus::SPI_MASTER_TIMEOUT => {
            spi_set_master_status(st, spi_number, SPIMasterStatus::SPI_MASTER_TIMEOUT);
        },
        SPIMasterStatus::SPI_MASTER_OVERRUN => {
            spi_set_master_status(st, spi_number, SPIMasterStatus::SPI_MASTER_ERROR);
        },
        SPIMasterStatus::SPI_MASTER_ERROR => {
            spi_error_recovery_procedure(st, spi_number, true);
        },
    }
    assert(ops@ =~= old(ops)@ + spec_master_step(*old(st), spi_number, flags).2);
}

/// One step of the slave state machine of `spi`, given its flags.
pub open spec fn spec_slave_step(st: SpiState, spi: SPINumberType, flags: SpiFlags) -> (Seq<u8>, Seq<u8>, Seq<SpiCommand>) {
    let i = spec_spi_data_index(spi);
    match st.slave(spi) {
        SPISlaveStatus::SPI_SLAVE_PRELOADED => if flags.tx_empty {
            (
                spec_set_slave(st, spi, SPISlaveStatus::SPI_SLAVE_BUSY),
                st.rx_data@,
                seq![SpiCommand { spi: spi, op: SpiRegisterOp::WriteData(st.tx_data@[i]) }],
            )
        } else {
            (st.slave_status@, st.rx_data@, Seq::empty())
        },
        SPISlaveStatus::SPI_SLAVE_BUSY => if flags.rx_not_empty {
            (
                spec_set_slave(st, spi, SPISlaveStatus::SPI_SLAVE_RECEIVED),
                st.rx_data@.update(i, flags.rx_data),
                Seq::empty(),
            )
        } else {
            (st.slave_status@, st.rx_data@, Seq::empty())
        },
        SPISlaveStatus::SPI_SLAVE_OVERRUN => (
            spec_set_slave(st, spi, SPISlaveStatus::SPI_SLAVE_ERROR),
            st.rx_data@,
            Seq::empty(),
        ),
        SPISlaveStatus::SPI_SLAVE_ERROR => (
            spec_set_slave(st, spi, SPISlaveStatus::SPI_SLAVE_IDLE),
            st.rx_data@,
            Seq::empty(),
        ),
        _ => (st.slave_status@, st.rx_data@, Seq::empty()),
    }
}

/// Advances the slave exchange of `spi`: a preloaded byte is written once
/// the transmit buffer is empty; while busy, a received byte is kept and
/// the exchange is received; an overrun turns into an error, and an error
/// is recovered to idle.
fn spi_mainfunction_slave(st: &mut SpiState, ops: &mut Vec<SpiCommand>, spi_number: SPINumberType, flags: SpiFlags)
    requires
        old(st).wf(),
    ensures
        final(st).wf(),
        final(st).master_status@ == old(st).master_status@,
        final(st).tx_data@ == old(st).tx_data@,
        ({
            let r = spec_slave_step(*old(st), spi_number, flags);
            &&& final(st).slave_status@ == r.0
            &&& final(st).rx_data@ == r.1
            &&& final(ops)@ == old(ops)@ + r.2
        }),
{
    let slave_status = spi_get_slave_status(st, spi_number);
    match slave_status {
        SPISlaveStatus::SPI_SLAVE_IDLE => {},
        SPISlaveStatus::SPI_SLAVE_PRELOADED => {
            if flags.tx_empty {
                let tx_data = spi_get_tx_data(st, spi_number);
                ops.push(SpiCommand { spi: spi_number, op: SpiRegisterOp::WriteData(tx_data) });
                spi_set_slave_status(st, spi_number, SPISlaveStatus::SPI_SLAVE_BUSY);
            }
        },
        SPISlaveStatus::SPI_SLAVE_BUSY => {
            if flags.rx_not_empty {
                spi_save_rx_data(st, spi_number, flags.rx_data);
                spi_set_slave_status(st, spi_number, SPISlaveStatus::SPI_SLAVE_RECEIVED);
            }
        },
        SPISlaveStatus::SPI_SLAVE_RECEIVED => {},
        SPISlaveStatus::SPI_SLAVE_OVERRUN => {
            spi_set_slave_status(st, spi_number, SPISlaveStatus::SPI_SLAVE_ERROR);
        },
        SPISlaveStatus::SPI_SLAVE_ERROR => {
            spi_error_recovery_procedure(st, spi_number, false);
        },
    }
    assert(ops@ =~= old(ops)@ + spec_slave_step(*old(st), spi_number, flags).2);
}

/// Advances every configured SPI by one step: SPI1 as master, then SPI2
/// as slave, each with its own flags (`flags[0]` for SPI1, `flags[1]` for
/// SPI2) as read now.
pub fn spi_mainfunction(st: &mut SpiState, ops: &mut Vec<SpiCommand>, flags: &[SpiFlags])
    requires
        old(st).wf(),
        flags@.len() == 2,
    ensures
        final(st).wf(),
        final(st).tx_data@ == old(st).tx_data@,
        ({
            let m = spec_master_step(*old(st), SPINumberType::SPI1, flags@[0]);
            let s = spec_slave_step(*old(st), SPINumberType::SPI2, flags@[1]);
            &&& final(st).master_status@ == m.0
            &&& final(st).slave_status@ == s.0
            &&& final(st).rx_data@ == s.1.update(0, m.1[0])
            &&& final(ops)@ == old(ops)@ + m.2 + s.2
        }),
{
    let cfg = spi_config();
    let ghost s0 = *st;
    let ghost m = spec_master_step(s0, SPINumberType::SPI1, flags@[0]);
    let ghost sl = spec_slave_step(s0, SPINumberType::SPI2, flags@[1]);
    let mut k: usize = 0;
    while k < cfg.channels.len()
        invariant
            cfg.channels@ == spec_spi_config(),
            flags@.len() == 2,
            0 <= k <= 2,
            st.wf(),
            s0 == *old(st),
            s0.wf(),
            m == spec_master_step(s0, SPINumberType::SPI1, flags@[0]),
            sl == spec_slave_step(s0, SPINumberType::SPI2, flags@[1]),
            st.tx_data@ == s0.tx_data@,
            k == 0 ==> *st == s0 && ops@ == old(ops)@,
            k >= 1 ==> st.master_status@ == m.0,
            k == 1 ==> st.rx_data@ == m.1 && st.slave_status@ == s0.slave_status@ && ops@ == old(ops)@ + m.2,
            k == 2 ==> st.slave_status@ == sl.0 && st.rx_data@ == sl.1.update(0, m.1[0]) && ops@ == old(ops)@ + m.2 + sl.2,
        decreases cfg.channels.len() - k,
    {
        let channel = cfg.channels[k];
        let ghost mid = *st;
        if channel.mode == SPIModeType::SPI_MODE_MASTER {
            spi_mainfunction_master(st, ops, channel.spi_number, flags[k]);
        } else {
            spi_mainfunction_slave(st, ops, channel.spi_number, flags[k]);
            proof {
                assert(mid.slave(SPINumberType::SPI2) == s0.slave(SPINumberType::SPI2));
                assert(st.rx_data@ =~= sl.1.update(0, m.1[0]));
                assert(ops@ =~= old(ops)@ + m.2 + sl.2);
            }
        }
        k = k + 1;
    }
}

/// One poll of a bounded wait: a wait that has polled `elapsed` times
/// succeeds when the awaited flag is set, gives up once `timeout` polls have
/// failed, and otherwise counts one more poll and goes on (`None`).
pub open spec fn spec_wait_step(ready: bool, elapsed: u32, timeout: u32) -> (Option<SPIReturnType>, u32) {
    if ready {
        (Some(SPIReturnType::SPI_E_OK), elapsed)
    } else if elapsed >= timeout {
        (Some(SPIReturnType::SPI_E_NOT_OK), elapsed)
    } else {
        (None::<SPIReturnType>, (elapsed + 1) as u32)
    }
}

fn spi_wait_step(ready: bool, elapsed: &mut u32, timeout: u32) -> (r: Option<SPIReturnType>)
    ensures
        (r, *final(elapsed)) == spec_wait_step(ready, *old(elapsed), timeout),
{
    if ready {
        return Some(SPIReturnType::SPI_E_OK);
    }
    if *elapsed >= timeout {
        return Some(SPIReturnType::SPI_E_NOT_OK);
    }
    *elapsed = *elapsed + 1;
    None
}

/// One poll of the wait for an empty transmit buffer.
pub fn spi_wait_tx_ready(flags: SpiFlags, elapsed: &mut u32, timeout: u32) -> (r: Option<SPIReturnType>)
    ensures
        (r, *final(elapsed)) == spec_wait_step(flags.tx_empty, *old(elapsed), timeout),
{
    spi_wait_step(flags.tx_empty, elapsed, timeout)
}

/// One poll of the wait for a received byte.
pub fn spi_wait_rx_ready(flags: SpiFlags, elapsed: &mut u32, timeout: u32) -> (r: Option<SPIReturnType>)
    ensures
        (r, *final(elapsed)) == spec_wait_step(flags.rx_not_empty, *old(elapsed), timeout),
{
    spi_wait_step(flags.rx_not_empty, elapsed, timeout)
}

/// One poll of the wait for the bus to be no longer busy.
pub fn spi_wait_tx_rx_not_busy(flags: SpiFlags, elapsed: &mut u32, timeout: u32) -> (r: Option<SPIReturnType>)
    ensures
        (r, *final(elapsed)) == spec_wait_step(!flags.busy, *old(elapsed), timeout),
{
    spi_wait_step(!flags.busy, elapsed, timeout)
}

/// One poll of a blocking master transfer of `tx_data`, given the flags of
/// `spi` as read now: it waits (up to the poll limit) for an empty transmit
/// buffer and writes the byte, then waits for the answer and stores it in
/// `rx_data`. A wait that runs out ends the transfer as failed.
pub fn spi_master_transfer_byte(
    phase: SpiTransferPhase,
    ops: &mut Vec<SpiCommand>,
    spi_number: SPINumberType,
    tx_data: u8,
    rx_data: &mut u8,
    flags: SpiFlags,
) -> (r: SpiTransferPhase)
    ensures
        match phase {
            SpiTransferPhase::WaitTx(e) => {
                &&& *final(rx_data) == *old(rx_data)
                &&& if flags.tx_empty {
                    &&& r == SpiTransferPhase::WaitRx(0)
                    &&& final(ops)@ == old(ops)@.push(SpiCommand { spi: spi_number, op: SpiRegisterOp::WriteData(tx_data) })
                } else if e >= SPI_POLL_TIMEOUT {
                    r == SpiTransferPhase::Done(SPIReturnType::SPI_E_NOT_OK) && final(ops)@ == old(ops)@
                } else {
                    r == SpiTransferPhase::WaitTx((e + 1) as u32) && final(ops)@ == old(ops)@
                }
            },
            SpiTransferPhase::WaitRx(e) => {
                &&& final(ops)@ == old(ops)@
                &&& if flags.rx_not_empty {
                    r == SpiTransferPhase::Done(SPIReturnType::SPI_E_OK) && *final(rx_data) == flags.rx_data
                } else if e >= SPI_POLL_TIMEOUT {
                    r == SpiTransferPhase::Done(SPIReturnType::SPI_E_NOT_OK) && *final(rx_data) == *old(rx_data)
                } else {
                    r == SpiTransferPhase::WaitRx((e + 1) as u32) && *final(rx_data) == *old(rx_data)
                }
            },
            SpiTransferPhase::Done(x) => {
                r == phase && final(ops)@ == old(ops)@ && *final(rx_data) == *old(rx_data)
            },
        },
{
    match phase {
        SpiTransferPhase::WaitTx(e) => {
            let mut elapsed = e;
            match spi_wait_tx_ready(flags, &mut elapsed, SPI_POLL_TIMEOUT) {
                None => SpiTransferPhase::WaitTx(elapsed),
                Some(SPIReturnType::SPI_E_OK) => {
                    ops.push(SpiCommand { spi: spi_number, op: SpiRegisterOp::WriteData(tx_data) });
                    SpiTransferPhase::WaitRx(0)
                },
                Some(SPIReturnType::SPI_E_NOT_OK) => SpiTransferPhase::Done(SPIReturnType::SPI_E_NOT_OK),
            }
        },
        SpiTransferPhase::WaitRx(e) => {
            let mut elapsed = e;
            match spi_wait_rx_ready(flags, &mut elapsed, SPI_POLL_TIMEOUT) {
                None => SpiTransferPhase::WaitRx(elapsed),
                Some(SPIReturnType::SPI_E_OK) => {
                    *rx_data = flags.rx_data;
                    SpiTransferPhase::Done(SPIReturnType::SPI_E_OK)
                },
                Some(SPIReturnType::SPI_E_NOT_OK) => SpiTransferPhase::Done(SPIReturnType::SPI_E_NOT_OK),
            }
        },
        SpiTransferPhase::Done(x) => SpiTransferPhase::Done(x),
    }
}

/// One poll of a blocking slave preload of `data`: it waits (up to the
/// poll limit) for an empty transmit buffer and writes the byte; a wait
/// that runs out gives up without writing.
pub fn spi_slave_preload_byte(
    phase: SpiTransferPhase,
    ops: &mut Vec<SpiCommand>,
    spi_number: SPINumberType,
    data: u8,
    flags: SpiFlags,
) -> (r: SpiTransferPhase)
    ensures
        match phase {
            SpiTransferPhase::WaitTx(e) => if flags.tx_empty {
                &&& r == SpiTransferPhase::Done(SPIReturnType::SPI_E_OK)
                &&& final(ops)@ == old(ops)@.push(SpiCommand { spi: spi_number, op: SpiRegisterOp::WriteData(data) })
            } else if e >= SPI_POLL_TIMEOUT {
                r == SpiTransferPhase::Done(SPIReturnType::SPI_E_NOT_OK) && final(ops)@ == old(ops)@
            } else {
                r == SpiTransferPhase::WaitTx((e + 1) as u32) && final(ops)@ == old(ops)@
            },
            _ => r == phase && final(ops)@ == old(ops)@,
        },
{
    match phase {
        SpiTransferPhase::WaitTx(e) => {
            let mut elapsed = e;
            match spi_wait_tx_ready(flags, &mut elapsed, SPI_POLL_TIMEOUT) {
                None => SpiTransferPhase::WaitTx(elapsed),
                Some(SPIReturnType::SPI_E_OK) => {
                    ops.push(SpiCommand { spi: spi_number, op: SpiRegisterOp::WriteData(data) });
                    SpiTransferPhase::Done(SPIReturnType::SPI_E_OK)
                },
                Some(SPIReturnType::SPI_E_NOT_OK) => SpiTransferPhase::Done(SPIReturnType::SPI_E_NOT_OK),
            }
        },
        _ => phase,
    }
}

/// Whether a received byte is waiting in the data register.
pub fn spi_slave_ready_to_receive(flags: SpiFlags) -> (r: bool)
    ensures
        r == flags.rx_not_empty,
{
    flags.rx_not_empty
}

} // verus!
