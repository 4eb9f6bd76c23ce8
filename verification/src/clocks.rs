//! PLL and peripheral clock configuration.
//!
//! The low-power and full-power clock domains each expose a block of clock
//! control registers behind a write-protect register. Setting up a PLL
//! means programming its feedback divider and lock parameters, cycling it
//! through bypass and reset, and waiting for the lock bit; the peripheral
//! clock groups are fixed divider/source assignments written in one pass.

use vstd::prelude::*;

use crate::regbus::RegisterBus;

verus! {

/// The board's PS reference clock in Hz.
pub const PS_REF_CLK: u32 = 33_333_000;

// PS PLL switching characteristics.
pub const PS_PLL_MAX_OUT_FREQ: u32 = 1_600_000_000;

pub const PS_PLL_MIN_OUT_FREQ: u32 = 750_000_000;

pub const PS_PLL_MIN_VCO_FREQ: u32 = 1_500_000_000;

// Offset of the write-protect register in both clock-domain blocks.
pub const WPROT: u32 = 0x1c;

// CRL_APB register offsets (low-power domain).
pub const IO_PLL_CTRL: u32 = 0x20;

pub const IO_PLL_CFG: u32 = 0x24;

pub const IO_PLL_FRAC_CFG: u32 = 0x28;

pub const RPU_PLL_CTRL: u32 = 0x30;

pub const RPU_PLL_CFG: u32 = 0x34;

pub const RPU_PLL_FRAC_CFG: u32 = 0x38;

pub const CRL_PLL_STATUS: u32 = 0x40;

pub const IO_PLL_TO_FPD_CTRL: u32 = 0x44;

pub const RPU_PLL_TO_FPD_CTRL: u32 = 0x48;

pub const USB3_CLK_CTRL: u32 = 0x4c;

pub const GEM3_CLK_CTRL: u32 = 0x5c;

pub const USB0_BUS_CLK_CTRL: u32 = 0x60;

pub const QSPI_CLK_CTRL: u32 = 0x68;

pub const SDIO1_CLK_CTRL: u32 = 0x70;

pub const UART0_CLK_CTRL: u32 = 0x74;

pub const UART1_CLK_CTRL: u32 = 0x78;

pub const RPU_CLK_CTRL: u32 = 0x90;

pub const IOU_SWITCH_CLK_CTRL: u32 = 0x9c;

pub const PCAP_CLK_CTRL: u32 = 0xa4;

pub const LPD_SWITCH_CLK_CTRL: u32 = 0xa8;

pub const LPD_LSBUS_CLK_CTRL: u32 = 0xac;

pub const DBG_LPD_CLK_CTRL: u32 = 0xb0;

pub const LPD_DMA_CLK_CTRL: u32 = 0xb8;

pub const PL0_CLK_CTRL: u32 = 0xc0;

pub const GEM_TSU_CLK_CTRL: u32 = 0x100;

pub const DLL_CLK_CTRL: u32 = 0x104;

pub const PS_SYSMON_CLK_CTRL: u32 = 0x108;

pub const I2C0_CLK_CTRL: u32 = 0x120;

pub const I2C1_CLK_CTRL: u32 = 0x124;

pub const TIMESTAMP_CLK_CTRL: u32 = 0x128;

pub const PERI_RST_CTRL: u32 = 0x238;

// CRF_APB register offsets (full-power domain).
pub const APU_PLL_CTRL: u32 = 0x20;

pub const APU_PLL_CFG: u32 = 0x24;

pub const APU_PLL_FRAC_CFG: u32 = 0x28;

pub const DDR_PLL_CTRL: u32 = 0x2c;

pub const DDR_PLL_CFG: u32 = 0x30;

pub const DDR_PLL_FRAC_CFG: u32 = 0x34;

pub const VIDEO_PLL_CTRL: u32 = 0x38;

pub const VIDEO_PLL_CFG: u32 = 0x3c;

pub const VIDEO_PLL_FRAC_CFG: u32 = 0x40;

pub const CRF_PLL_STATUS: u32 = 0x44;

pub const APU_PLL_TO_LPD_CTRL: u32 = 0x48;

pub const DDR_PLL_TO_LPD_CTRL: u32 = 0x4c;

pub const VIDEO_PLL_TO_LPD_CTRL: u32 = 0x50;

pub const APU_CLK_CTRL: u32 = 0x60;

pub const DDR_CLK_CTRL: u32 = 0x80;

pub const TOPSW_MAIN_CLK_CTRL: u32 = 0xc0;

pub const TOPSW_LSBUS_CLK_CTRL: u32 = 0xc4;

// PLL control register fields.
pub const PLL_CTRL_DIV2: u32 = 1 << 16;

pub const PLL_CTRL_FDIV_MASK: u32 = 0x7f << 8;

pub const PLL_CTRL_BYPASS: u32 = 1 << 3;

pub const PLL_CTRL_RESET: u32 = 1 << 0;

/// Clock source selections for FPD components.
#[derive(Debug, Clone, Copy, PartialEq, Eq, Structural)]
pub enum ApuClkSource {
    ApuPll,
    DdrPll,
    VideoPll,
}

impl ApuClkSource {
    pub open spec fn spec_value(self) -> u32 {
        match self {
            ApuClkSource::ApuPll => 0b00,
            ApuClkSource::DdrPll => 0b10,
            ApuClkSource::VideoPll => 0b11,
        }
    }

    pub fn value(self) -> (r: u32)
        ensures
            r == self.spec_value(),
    {
        match self {
            ApuClkSource::ApuPll => 0b00,
            ApuClkSource::DdrPll => 0b10,
            ApuClkSource::VideoPll => 0b11,
        }
    }
}

/// Clock source selections for most LPD peripherals.
#[derive(Debug, Clone, Copy, PartialEq, Eq, Structural)]
pub enum IoClkSource {
    IoPll,
    RpuPll,
    DdrPllToLpd,
}

impl IoClkSource {
    pub open spec fn spec_value(self) -> u32 {
        match self {
            IoClkSource::IoPll => 0b00,
            IoClkSource::RpuPll => 0b10,
            IoClkSource::DdrPllToLpd => 0b11,
        }
    }

    pub fn value(self) -> (r: u32)
        ensures
            r == self.spec_value(),
    {
        match self {
            IoClkSource::IoPll => 0b00,
            IoClkSource::RpuPll => 0b10,
            IoClkSource::DdrPllToLpd => 0b11,
        }
    }
}

/// Clock source selections for the RPU-side switches.
#[derive(Debug, Clone, Copy, PartialEq, Eq, Structural)]
pub enum RpuClkSource {
    RpuPll,
    IoPll,
    DdrPllToLpd,
}

impl RpuClkSource {
    pub open spec fn spec_value(self) -> u32 {
        match self {
            RpuClkSource::RpuPll => 0b00,
            RpuClkSource::IoPll => 0b10,
            RpuClkSource::DdrPllToLpd => 0b11,
        }
    }

    pub fn value(self) -> (r: u32)
        ensures
            r == self.spec_value(),
    {
        match self {
            RpuClkSource::RpuPll => 0b00,
            RpuClkSource::IoPll => 0b10,
            RpuClkSource::DdrPllToLpd => 0b11,
        }
    }
}

/// The frequency a PLL control register value encodes: the reference clock
/// scaled by the feedback divider and halved when DIV2 is set, or the
/// reference itself under bypass.
pub open spec fn spec_pll_freq(ctrl: u32) -> int {
    if ctrl & PLL_CTRL_BYPASS != 0 {
        PS_REF_CLK as int
    } else {
        (((ctrl >> 8) & 0x7f) * PS_REF_CLK) / ((if ctrl & PLL_CTRL_DIV2 != 0 {
            2int
        } else {
            1int
        }))
    }
}

/// Decode the configured frequency from a PLL control register value.
pub fn pll_freq(ctrl: u32) -> (r: u32)
    ensures
        r == spec_pll_freq(ctrl),
{
    let bypass = ctrl & PLL_CTRL_BYPASS != 0;
    let (mul, div): (u32, u32) = if bypass {
        (1, 1)
    } else {
        let fdiv = (ctrl >> 8u32) & 0x7f;
        let div2 = if ctrl & PLL_CTRL_DIV2 != 0 {
            2
        } else {
            1
        };
        (fdiv, div2)
    };
    proof {
        assert((ctrl >> 8u32) & 0x7f <= 0x7f) by (bit_vector);
        assert(127 * (PS_REF_CLK as int) <= u32::MAX as int);
        assert(mul * (PS_REF_CLK as int) <= 127 * (PS_REF_CLK as int)) by (nonlinear_arith)
            requires
                0 <= mul <= 127,
        ;
    }
    let hz: u32 = mul * PS_REF_CLK;
    hz / div
}

/// Whether a PLL fractional configuration register enables fractional
/// mode.
pub fn frac_enabled(pll_frac_cfg: u32) -> (r: bool)
    ensures
        r == (pll_frac_cfg & 0x8000_0000u32 != 0),
{
    pll_frac_cfg & 0x8000_0000u32 != 0
}

/// The lock parameters (charge pump, resistor, loop filter, lock delay and
/// lock count) for a feedback divider value, from the PS clock subsystem's
/// divider table.
pub open spec fn spec_pll_lock_params(fdiv: u8) -> (u8, u8, u8, u8, u16) {
    if fdiv <= 26 {
        (3, 10, 3, 63, 1000)
    } else if fdiv <= 30 {
        (4, 6, 3, 63, 1000)
    } else if fdiv <= 32 {
        (6, 1, 3, 63, 1000)
    } else if fdiv <= 33 {
        (4, 10, 3, 63, 1000)
    } else if fdiv <= 37 {
        (5, 6, 3, 63, 1000)
    } else if fdiv <= 38 {
        (5, 6, 3, 63, 975)
    } else if fdiv <= 39 {
        (3, 12, 3, 63, 950)
    } else if fdiv <= 40 {
        (3, 12, 3, 63, 925)
    } else if fdiv <= 41 {
        (3, 12, 3, 63, 900)
    } else if fdiv <= 42 {
        (3, 12, 3, 63, 875)
    } else if fdiv <= 44 {
        (3, 12, 3, 63, 850)
    } else if fdiv <= 45 {
        (3, 12, 3, 63, 825)
    } else if fdiv <= 46 {
        (3, 12, 3, 63, 800)
    } else if fdiv <= 48 {
        (3, 12, 3, 63, 775)
    } else if fdiv <= 50 {
        (3, 12, 3, 63, 750)
    } else if fdiv <= 51 {
        (3, 2, 3, 63, 725)
    } else if fdiv <= 53 {
        (3, 2, 3, 63, 700)
    } else if fdiv <= 55 {
        (3, 2, 3, 63, 675)
    } else if fdiv <= 57 {
        (3, 2, 3, 63, 650)
    } else if fdiv <= 60 {
        (3, 2, 3, 63, 625)
    } else if fdiv <= 82 {
        (3, 2, 3, 63, 600)
    } else if fdiv <= 102 {
        (4, 2, 3, 63, 600)
    } else if fdiv <= 106 {
        (5, 2, 3, 63, 600)
    } else {
        (3, 4, 3, 63, 600)
    }
}

/// Look up the lock parameters for a feedback divider.
pub fn pll_lock_params(fdiv: u8) -> (r: (u8, u8, u8, u8, u16))
    ensures
        r == spec_pll_lock_params(fdiv),
{
    if fdiv <= 26 {
        (3, 10, 3, 63, 1000)
    } else if fdiv <= 30 {
        (4, 6, 3, 63, 1000)
    } else if fdiv <= 32 {
        (6, 1, 3, 63, 1000)
    } else if fdiv <= 33 {
        (4, 10, 3, 63, 1000)
    } else if fdiv <= 37 {
        (5, 6, 3, 63, 1000)
    } else if fdiv <= 38 {
        (5, 6, 3, 63, 975)
    } else if fdiv <= 39 {
        (3, 12, 3, 63, 950)
    } else if fdiv <= 40 {
        (3, 12, 3, 63, 925)
    } else if fdiv <= 41 {
        (3, 12, 3, 63, 900)
    } else if fdiv <= 42 {
        (3, 12, 3, 63, 875)
    } else if fdiv <= 44 {
        (3, 12, 3, 63, 850)
    } else if fdiv <= 45 {
        (3, 12, 3, 63, 825)
    } else if fdiv <= 46 {
        (3, 12, 3, 63, 800)
    } else if fdiv <= 48 {
        (3, 12, 3, 63, 775)
    } else if fdiv <= 50 {
        (3, 12, 3, 63, 750)
    } else if fdiv <= 51 {
        (3, 2, 3, 63, 725)
    } else if fdiv <= 53 {
        (3, 2, 3, 63, 700)
    } else if fdiv <= 55 {
        (3, 2, 3, 63, 675)
    } else if fdiv <= 57 {
        (3, 2, 3, 63, 650)
    } else if fdiv <= 60 {
        (3, 2, 3, 63, 625)
    } else if fdiv <= 82 {
        (3, 2, 3, 63, 600)
    } else if fdiv <= 102 {
        (4, 2, 3, 63, 600)
    } else if fdiv <= 106 {
        (5, 2, 3, 63, 600)
    } else {
        (3, 4, 3, 63, 600)
    }
}

/// The feedback divider for a target frequency: scale the reference up to
/// the VCO frequency (doubled when the output runs through DIV2), capped at
/// the hardware's maximum divider.
pub open spec fn spec_pll_fdiv(target_freq: u32) -> int {
    let divisor: int = if target_freq <= PS_PLL_MIN_VCO_FREQ {
        2
    } else {
        1
    };
    let q = (target_freq * divisor) / (PS_REF_CLK as int);
    if q < 125 {
        q
    } else {
        125
    }
}

/// Whether the output divider is used for a target frequency.
pub open spec fn spec_pll_div2(target_freq: u32) -> bool {
    target_freq <= PS_PLL_MIN_VCO_FREQ
}

/// Compute the divider settings for a target frequency.
pub fn pll_setup_values(target_freq: u32) -> (r: (u8, bool))
    requires
        PS_PLL_MIN_OUT_FREQ <= target_freq <= PS_PLL_MAX_OUT_FREQ,
    ensures
        r.0 == spec_pll_fdiv(target_freq),
        r.1 == spec_pll_div2(target_freq),
{
    let div2 = target_freq <= PS_PLL_MIN_VCO_FREQ;
    let divisor: u32 = if div2 {
        2
    } else {
        1
    };
    let q = (target_freq * divisor) / PS_REF_CLK;
    let fdiv: u8 = if q < 125 {
        q as u8
    } else {
        125
    };
    (fdiv, div2)
}

/// One PS PLL: where its control registers sit in the owning clock-domain
/// block, and its lock bit in that block's PLL status register.
pub trait ClockSource {
    /// Offsets of the control, configuration and fractional configuration
    /// registers.
    fn pll_ctrl_regs() -> (r: (u32, u32, u32));

    /// The lock bit in the domain's PLL status register.
    fn pll_locked_mask() -> (r: u32);

    /// The offset of the domain's PLL status register.
    fn pll_status_reg() -> (r: u32);

    /// The PLL's name, for diagnostics.
    fn name() -> (r: &'static str);
}

/// APU PLL: recommended clock source for the APUs and the FPD interconnect.
pub struct ApuPll;

impl ClockSource for ApuPll {
    fn pll_ctrl_regs() -> (r: (u32, u32, u32)) {
        (APU_PLL_CTRL, APU_PLL_CFG, APU_PLL_FRAC_CFG)
    }

    fn pll_locked_mask() -> (r: u32) {
        1 << 0
    }

    fn pll_status_reg() -> (r: u32) {
        CRF_PLL_STATUS
    }

    fn name() -> (r: &'static str) {
        "APU_PLL"
    }
}

/// DDR PLL: recommended clock for the DDR DRAM controller and AXI_HP
/// interfaces.
pub struct DdrPll;

impl ClockSource for DdrPll {
    fn pll_ctrl_regs() -> (r: (u32, u32, u32)) {
        (DDR_PLL_CTRL, DDR_PLL_CFG, DDR_PLL_FRAC_CFG)
    }

    fn pll_locked_mask() -> (r: u32) {
        1 << 1
    }

    fn pll_status_reg() -> (r: u32) {
        CRF_PLL_STATUS
    }

    fn name() -> (r: &'static str) {
        "DDR_PLL"
    }
}

/// Video PLL: recommended clock for DisplayPort.
pub struct VideoPll;

impl ClockSource for VideoPll {
    fn pll_ctrl_regs() -> (r: (u32, u32, u32)) {
        (VIDEO_PLL_CTRL, VIDEO_PLL_CFG, VIDEO_PLL_FRAC_CFG)
    }

    fn pll_locked_mask() -> (r: u32) {
        1 << 2
    }

    fn pll_status_reg() -> (r: u32) {
        CRF_PLL_STATUS
    }

    fn name() -> (r: &'static str) {
        "VIDEO_PLL"
    }
}

/// I/O PLL: recommended clock for I/O peripherals.
pub struct IoPll;

impl ClockSource for IoPll {
    fn pll_ctrl_regs() -> (r: (u32, u32, u32)) {
        (IO_PLL_CTRL, IO_PLL_CFG, IO_PLL_FRAC_CFG)
    }

    fn pll_locked_mask() -> (r: u32) {
        1 << 0
    }

    fn pll_status_reg() -> (r: u32) {
        CRL_PLL_STATUS
    }

    fn name() -> (r: &'static str) {
        "IO_PLL"
    }
}

/// RPU PLL: recommended clock for the RPUs and the LPD interconnect.
pub struct RpuPll;

impl ClockSource for RpuPll {
    fn pll_ctrl_regs() -> (r: (u32, u32, u32)) {
        (RPU_PLL_CTRL, RPU_PLL_CFG, RPU_PLL_FRAC_CFG)
    }

    fn pll_locked_mask() -> (r: u32) {
        1 << 1
    }

    fn pll_status_reg() -> (r: u32) {
        CRL_PLL_STATUS
    }

    fn name() -> (r: &'static str) {
        "RPU_PLL"
    }
}

/// The configured PLL output frequencies, in Hz.
#[derive(Debug, Clone, Copy)]
pub struct Clocks {
    /// APU PLL: recommended clock source for the APUs and the FPD
    /// interconnect.
    pub apu: u32,
    /// DDR PLL: recommended clock for the DDR DRAM controller and AXI_HP
    /// interfaces.
    pub ddr: u32,
    /// Video PLL: recommended clock for the display port.
    pub video: u32,
    /// I/O PLL: recommended clock for I/O peripherals.
    pub io: u32,
    /// RPU PLL: recommended clock for the RPUs and the LPD interconnect.
    pub rpu: u32,
}

impl Clocks {
    /// Decode the five configured PLL frequencies from the control register
    /// values read out of the two clock domains.
    pub fn get<B: RegisterBus>(crf: &mut B, crl: &mut B) -> (r: Clocks)
        ensures
            final(crf).written() == old(crf).written(),
            final(crl).written() == old(crl).written(),
    {
        let apu_ctrl = crf.read_reg(APU_PLL_CTRL);
        let ddr_ctrl = crf.read_reg(DDR_PLL_CTRL);
        let video_ctrl = crf.read_reg(VIDEO_PLL_CTRL);
        let io_ctrl = crl.read_reg(IO_PLL_CTRL);
        let rpu_ctrl = crl.read_reg(RPU_PLL_CTRL);
        Clocks {
            apu: pll_freq(apu_ctrl),
            ddr: pll_freq(ddr_ctrl),
            video: pll_freq(video_ctrl),
            io: pll_freq(io_ctrl),
            rpu: pll_freq(rpu_ctrl),
        }
    }

    /// Initialize the cross-domain and component clock assignments. The
    /// PLLs themselves must have been set up first with
    /// [`setup_pll`].
    pub fn init<B: RegisterBus>(crl: &mut B, crf: &mut B)
        ensures
            final(crl).written() == old(crl).written() + spec_xdomain_crl_writes()
                + spec_lpd_clock_writes(),
            final(crf).written() == old(crf).written() + spec_xdomain_crf_writes()
                + spec_fpd_clock_writes(),
    {
        Self::init_xdomain_clocks(crl, crf);
        Self::init_lpd_clocks(crl);
        Self::init_fpd_clocks(crf);
        proof {
            assert(final(crl).written() =~= old(crl).written() + spec_xdomain_crl_writes()
                + spec_lpd_clock_writes());
            assert(final(crf).written() =~= old(crf).written() + spec_xdomain_crf_writes()
                + spec_fpd_clock_writes());
        }
    }

    /// Program the dividers each PLL uses to reach the other power domain.
    pub fn init_xdomain_clocks<B: RegisterBus>(crl: &mut B, crf: &mut B)
        ensures
            final(crl).written() == old(crl).written() + spec_xdomain_crl_writes(),
            final(crf).written() == old(crf).written() + spec_xdomain_crf_writes(),
    {
        let ghost c0 = crl.written();
        let ghost f0 = crf.written();
        crl.write_reg(WPROT, 0);
        crl.write_reg(RPU_PLL_TO_FPD_CTRL, 2u32 << 8u32);
        crl.write_reg(IO_PLL_TO_FPD_CTRL, 3u32 << 8u32);
        crl.write_reg(WPROT, 1);

        crf.write_reg(WPROT, 0);
        crf.write_reg(APU_PLL_TO_LPD_CTRL, 3u32 << 8u32);
        crf.write_reg(DDR_PLL_TO_LPD_CTRL, 2u32 << 8u32);
        crf.write_reg(VIDEO_PLL_TO_LPD_CTRL, 3u32 << 8u32);
        crf.write_reg(WPROT, 1);
        proof {
            assert(crl.written() =~= c0 + spec_xdomain_crl_writes());
            assert(crf.written() =~= f0 + spec_xdomain_crf_writes());
        }
    }

    /// Program clock sources and divisors for the low-power-domain
    /// components: the I/O-PLL-fed peripherals and the RPU-PLL-fed
    /// switches.
    pub fn init_lpd_clocks<B: RegisterBus>(crl: &mut B)
        ensures
            final(crl).written() == old(crl).written() + spec_lpd_clock_writes(),
    {
        let ghost c0 = crl.written();
        crl.write_reg(WPROT, 0);
        // source: IO PLL
        // 125 MHz
        crl.write_reg(GEM3_CLK_CTRL, (1u32 << 26u32) | (1 << 25u32) | (1 << 16u32) | (12 << 8u32));
        // 250 MHz
        crl.write_reg(GEM_TSU_CLK_CTRL, (1u32 << 24u32) | (1 << 16u32) | (6 << 8u32));
        // 250 MHz
        crl.write_reg(USB0_BUS_CLK_CTRL, (1u32 << 25u32) | (1 << 16u32) | (6 << 8u32));
        // 20 MHz
        crl.write_reg(USB3_CLK_CTRL, (1u32 << 25u32) | (3 << 16u32) | (25 << 8u32));
        // 125 MHz
        crl.write_reg(QSPI_CLK_CTRL, (1u32 << 24u32) | (1 << 16u32) | (12 << 8u32));
        // 187.5 MHz
        crl.write_reg(SDIO1_CLK_CTRL, (1u32 << 24u32) | (1 << 16u32) | (8 << 8u32));
        // 50 MHz
        crl.write_reg(UART0_CLK_CTRL, (1u32 << 24u32) | (1 << 16u32) | (30 << 8u32));
        // 50 MHz
        crl.write_reg(UART1_CLK_CTRL, (1u32 << 24u32) | (1 << 16u32) | (30 << 8u32));
        // 100 MHz
        crl.write_reg(I2C0_CLK_CTRL, (1u32 << 24u32) | (1 << 16u32) | (15 << 8u32));
        // 100 MHz
        crl.write_reg(I2C1_CLK_CTRL, (1u32 << 24u32) | (1 << 16u32) | (15 << 8u32));
        // 187.5 MHz
        crl.write_reg(PCAP_CLK_CTRL, (1u32 << 24u32) | (8 << 8u32));
        // 100 MHz
        crl.write_reg(PL0_CLK_CTRL, (1u32 << 24u32) | (1 << 16u32) | (15 << 8u32));
        // IO PLL
        crl.write_reg(DLL_CLK_CTRL, 0);
        // 100 MHz
        crl.write_reg(TIMESTAMP_CLK_CTRL, (1u32 << 24u32) | (15 << 8u32));

        // source: RPU PLL
        // 500 MHz; also the clock for OCM
        crl.write_reg(RPU_CLK_CTRL, (1u32 << 24u32) | (2 << 8u32));
        // 250 MHz
        crl.write_reg(IOU_SWITCH_CLK_CTRL, (1u32 << 24u32) | (4 << 8u32));
        // 500 MHz
        crl.write_reg(LPD_SWITCH_CLK_CTRL, (1u32 << 24u32) | (2 << 8u32));
        // 100 MHz
        crl.write_reg(LPD_LSBUS_CLK_CTRL, (1u32 << 24u32) | (10 << 8u32));
        // 250 MHz
        crl.write_reg(DBG_LPD_CLK_CTRL, (1u32 << 24u32) | (4 << 8u32));
        // 500 MHz
        crl.write_reg(LPD_DMA_CLK_CTRL, (1u32 << 24u32) | (2 << 8u32));
        // 50 MHz
        crl.write_reg(PS_SYSMON_CLK_CTRL, (1u32 << 24u32) | (1 << 16u32) | (20 << 8u32));
        crl.write_reg(WPROT, 1);
        proof {
            assert(crl.written() =~= c0 + spec_lpd_clock_writes());
        }
    }

    /// Program clock sources and divisors for the full-power-domain
    /// components.
    pub fn init_fpd_clocks<B: RegisterBus>(crf: &mut B)
        ensures
            final(crf).written() == old(crf).written() + spec_fpd_clock_writes(),
    {
        let ghost f0 = crf.written();
        crf.write_reg(WPROT, 0);
        // source: APU PLL, 1200 MHz
        crf.write_reg(APU_CLK_CTRL, (1u32 << 25u32) | (1 << 24u32) | (1 << 8u32));
        // source: DDR PLL, 533 MHz
        crf.write_reg(DDR_CLK_CTRL, 2u32 << 8u32);
        // 533 MHz
        crf.write_reg(TOPSW_MAIN_CLK_CTRL, (1u32 << 24u32) | (2 << 8u32) | 3);
        // source: IO PLL to FPD, 100 MHz
        crf.write_reg(TOPSW_LSBUS_CLK_CTRL, (1u32 << 24u32) | (5 << 8u32) | 2);
        crf.write_reg(WPROT, 1);
        proof {
            assert(crf.written() =~= f0 + spec_fpd_clock_writes());
        }
    }

    /// The reference clock a UART runs from, given the values of its clock
    /// control register and of the DDR-PLL-to-LPD divider register.
    pub open spec fn spec_uart_ref_clk(self, uart_clk_ctrl: u32, ddr_to_lpd_ctrl: u32) -> int {
        let pll: int = if uart_clk_ctrl & 0x7 == 0b00 {
            self.io as int
        } else if uart_clk_ctrl & 0x7 == 0b10 {
            self.rpu as int
        } else {
            (self.ddr as int) / (((ddr_to_lpd_ctrl >> 8) & 0x3f) as int)
        };
        pll / ((((uart_clk_ctrl >> 8) & 0x3f) * ((uart_clk_ctrl >> 16) & 0x3f)) as int)
    }

    /// Compute a UART's reference clock from its clock control register
    /// value and the DDR-PLL-to-LPD divider register value.
    pub fn uart_ref_clk(&self, uart_clk_ctrl: u32, ddr_to_lpd_ctrl: u32) -> (r: u32)
        requires
            uart_clk_ctrl & 0x7 == 0b00 || uart_clk_ctrl & 0x7 == 0b10 || uart_clk_ctrl & 0x7
                == 0b11,
            uart_clk_ctrl & 0x7 == 0b11 ==> (ddr_to_lpd_ctrl >> 8) & 0x3f != 0,
            ((uart_clk_ctrl >> 8) & 0x3f) * ((uart_clk_ctrl >> 16) & 0x3f) != 0,
        ensures
            r == self.spec_uart_ref_clk(uart_clk_ctrl, ddr_to_lpd_ctrl),
    {
        let srcsel = uart_clk_ctrl & 0x7;
        let pll: u32 = if srcsel == 0b00 {
            self.io
        } else if srcsel == 0b10 {
            self.rpu
        } else {
            let divisor = (ddr_to_lpd_ctrl >> 8u32) & 0x3f;
            self.ddr / divisor
        };
        let div0 = (uart_clk_ctrl >> 8u32) & 0x3f;
        let div1 = (uart_clk_ctrl >> 16u32) & 0x3f;
        proof {
            assert(((uart_clk_ctrl >> 8u32) & 0x3f) * ((uart_clk_ctrl >> 16u32) & 0x3f)
                <= 0x3f * 0x3f) by (bit_vector);
        }
        pll / (div0 * div1)
    }
}

/// The CRL-side cross-domain divider writes.
pub open spec fn spec_xdomain_crl_writes() -> Seq<(u32, u32)> {
    seq![
        (WPROT, 0u32),
        (RPU_PLL_TO_FPD_CTRL, (2u32 << 8)),
        (IO_PLL_TO_FPD_CTRL, (3u32 << 8)),
        (WPROT, 1u32),
    ]
}

/// The CRF-side cross-domain divider writes.
pub open spec fn spec_xdomain_crf_writes() -> Seq<(u32, u32)> {
    seq![
        (WPROT, 0u32),
        (APU_PLL_TO_LPD_CTRL, (3u32 << 8)),
        (DDR_PLL_TO_LPD_CTRL, (2u32 << 8)),
        (VIDEO_PLL_TO_LPD_CTRL, (3u32 << 8)),
        (WPROT, 1u32),
    ]
}

/// The low-power-domain component clock writes, in order.
pub open spec fn spec_lpd_clock_writes() -> Seq<(u32, u32)> {
    seq![
        (WPROT, 0u32),
        (GEM3_CLK_CTRL, ((1u32 << 26) | (1u32 << 25) | (1u32 << 16) | (12u32 << 8))),
        (GEM_TSU_CLK_CTRL, ((1u32 << 24) | (1u32 << 16) | (6u32 << 8))),
        (USB0_BUS_CLK_CTRL, ((1u32 << 25) | (1u32 << 16) | (6u32 << 8))),
        (USB3_CLK_CTRL, ((1u32 << 25) | (3u32 << 16) | (25u32 << 8))),
        (QSPI_CLK_CTRL, ((1u32 << 24) | (1u32 << 16) | (12u32 << 8))),
        (SDIO1_CLK_CTRL, ((1u32 << 24) | (1u32 << 16) | (8u32 << 8))),
        (UART0_CLK_CTRL, ((1u32 << 24) | (1u32 << 16) | (30u32 << 8))),
        (UART1_CLK_CTRL, ((1u32 << 24) | (1u32 << 16) | (30u32 << 8))),
        (I2C0_CLK_CTRL, ((1u32 << 24) | (1u32 << 16) | (15u32 << 8))),
        (I2C1_CLK_CTRL, ((1u32 << 24) | (1u32 << 16) | (15u32 << 8))),
        (PCAP_CLK_CTRL, ((1u32 << 24) | (8u32 << 8))),
        (PL0_CLK_CTRL, ((1u32 << 24) | (1u32 << 16) | (15u32 << 8))),
        (DLL_CLK_CTRL, 0u32),
        (TIMESTAMP_CLK_CTRL, ((1u32 << 24) | (15u32 << 8))),
        (RPU_CLK_CTRL, ((1u32 << 24) | (2u32 << 8))),
        (IOU_SWITCH_CLK_CTRL, ((1u32 << 24) | (4u32 << 8))),
        (LPD_SWITCH_CLK_CTRL, ((1u32 << 24) | (2u32 << 8))),
        (LPD_LSBUS_CLK_CTRL, ((1u32 << 24) | (10u32 << 8))),
        (DBG_LPD_CLK_CTRL, ((1u32 << 24) | (4u32 << 8))),
        (LPD_DMA_CLK_CTRL, ((1u32 << 24) | (2u32 << 8))),
        (PS_SYSMON_CLK_CTRL, ((1u32 << 24) | (1u32 << 16) | (20u32 << 8))),
        (WPROT, 1u32),
    ]
}

/// The full-power-domain component clock writes, in order.
pub open spec fn spec_fpd_clock_writes() -> Seq<(u32, u32)> {
    seq![
        (WPROT, 0u32),
        (APU_CLK_CTRL, ((1u32 << 25) | (1u32 << 24) | (1u32 << 8))),
        (DDR_CLK_CTRL, (2u32 << 8)),
        (TOPSW_MAIN_CLK_CTRL, ((1u32 << 24) | (2u32 << 8) | 3)),
        (TOPSW_LSBUS_CLK_CTRL, ((1u32 << 24) | (5u32 << 8) | 2)),
        (WPROT, 1u32),
    ]
}

/// Inserting a field into a register keeps exactly those bits of the new
/// value within the mask.
proof fn lemma_field_insert()
    by (bit_vector)
    ensures
        forall|v: u32, m: u32, x: u32| #[trigger] (((v & !m) | (x & m)) & m) == x & m,
{
}

/// How clock setup can fail.
#[derive(Debug, Clone, Copy, PartialEq, Eq, Structural)]
pub enum ClockError {
    /// The PLL did not report lock within the bounded poll count.
    LockTimeout,
}

/// Bound on lock polls during PLL setup.
pub const PLL_LOCK_TRIES: u32 = 1_000_000;

/// Set up one PLL in its clock-domain block `slcr`: program the feedback
/// divider and lock parameters, cycle the PLL through bypass and reset,
/// wait for lock under a bounded poll count, then drop the bypass. On
/// success the block saw, between the unlock and lock of its write
/// protection, the divider programming, the bypass-and-reset cycle and the
/// bypass release, in that order.
pub fn setup_pll<S: ClockSource, B: RegisterBus>(slcr: &mut B, target_freq: u32) -> (r: Result<
    (),
    ClockError,
>)
    requires
        PS_PLL_MIN_OUT_FREQ <= target_freq <= PS_PLL_MAX_OUT_FREQ,
    ensures
        r matches Ok(()) ==> {
            let w = final(slcr).written();
            let n = old(slcr).written().len() as int;
            &&& w.len() == n + 8
            &&& (forall|i: int| 0 <= i < n ==> w[i] == old(slcr).written()[i])
            &&& w[n] == (WPROT, 0u32)
            &&& w[n + 1].1 & PLL_CTRL_FDIV_MASK == ((spec_pll_fdiv(target_freq) as u32) << 8)
                & PLL_CTRL_FDIV_MASK
            &&& (w[n + 1].1 & PLL_CTRL_DIV2 != 0) == spec_pll_div2(target_freq)
            &&& w[n + 3].1 & PLL_CTRL_BYPASS == PLL_CTRL_BYPASS
            &&& w[n + 4].1 & PLL_CTRL_RESET == PLL_CTRL_RESET
            &&& w[n + 5].1 & PLL_CTRL_RESET == 0
            &&& w[n + 6].1 & PLL_CTRL_BYPASS == 0
            &&& w[n + 7] == (WPROT, 1u32)
        },
        r matches Err(e) ==> e == ClockError::LockTimeout,
{
    let (pll_ctrl, pll_cfg, _pll_frac) = S::pll_ctrl_regs();
    let lock_mask = S::pll_locked_mask();
    let (fdiv, div2) = pll_setup_values(target_freq);
    let (pll_cp, pll_res, lfhf, lock_dly, lock_cnt) = pll_lock_params(fdiv);

    proof {
        lemma_field_insert();
    }
    slcr.write_reg(WPROT, 0);

    // write fdiv and div2
    let ctrl_mask: u32 = PLL_CTRL_FDIV_MASK | PLL_CTRL_DIV2;
    let ctrl_value: u32 = ((fdiv as u32) << 8u32) | (if div2 {
        PLL_CTRL_DIV2
    } else {
        0
    });
    let cur = slcr.read_reg(pll_ctrl);
    let programmed = (cur & !ctrl_mask) | (ctrl_value & ctrl_mask);
    slcr.write_reg(pll_ctrl, programmed);
    proof {
        lemma_pll_ctrl_fields(cur, fdiv as u32, if div2 {
            1
        } else {
            0
        });
    }

    // configure the lock parameters
    let cfg_mask: u32 = (0x7fu32 << 25u32) | (0x3ffu32 << 13u32) | (0x3u32 << 10u32) | (0xfu32
        << 5u32) | 0xfu32;
    let cfg_value: u32 = ((lock_dly as u32) << 25u32) | ((lock_cnt as u32) << 13u32) | ((lfhf
        as u32) << 10u32) | ((pll_cp as u32) << 5u32) | (pll_res as u32);
    let cur = slcr.read_reg(pll_cfg);
    slcr.write_reg(pll_cfg, (cur & !cfg_mask) | (cfg_value & cfg_mask));

    // bypass
    let cur = slcr.read_reg(pll_ctrl);
    slcr.write_reg(pll_ctrl, cur | PLL_CTRL_BYPASS);
    proof {
        lemma_set_clear(cur);
    }
    // reset
    let cur = slcr.read_reg(pll_ctrl);
    slcr.write_reg(pll_ctrl, cur | PLL_CTRL_RESET);
    proof {
        lemma_set_clear(cur);
    }
    let cur = slcr.read_reg(pll_ctrl);
    slcr.write_reg(pll_ctrl, cur & !PLL_CTRL_RESET);
    proof {
        lemma_set_clear(cur);
    }

    // wait for PLL lock
    let mut tries: u32 = PLL_LOCK_TRIES;
    let mut locked = false;
    let ghost w6 = slcr.written();
    let status_reg: u32 = S::pll_status_reg();
    while tries > 0 && !locked
        invariant
            slcr.written() == w6,
        decreases tries,
    {
        locked = slcr.read_reg(status_reg) & lock_mask == lock_mask;
        tries = tries - 1;
    }
    if !locked {
        return Err(ClockError::LockTimeout);
    }

    // remove bypass
    let cur = slcr.read_reg(pll_ctrl);
    slcr.write_reg(pll_ctrl, cur & !PLL_CTRL_BYPASS);
    proof {
        lemma_set_clear(cur);
    }
    slcr.write_reg(WPROT, 1);
    Ok(())
}

/// Setting a bit mask leaves it set, clearing it leaves it clear.
proof fn lemma_set_clear(x: u32)
    by (bit_vector)
    ensures
        forall|m: u32| #[trigger] ((x | m) & m) == m,
        forall|m: u32| #[trigger] ((x & !m) & m) == 0,
{
}

/// Inserting the divider fields leaves exactly those fields holding the
/// divider values.
proof fn lemma_pll_ctrl_fields(cur: u32, fdiv: u32, div2: u32)
    by (bit_vector)
    requires
        fdiv <= 0x7f,
        div2 <= 1,
    ensures
        ((cur & !((0x7fu32 << 8) | (1u32 << 16))) | (((fdiv << 8) | (if div2 == 1 {
            (1u32 << 16)
        } else {
            0u32
        })) & ((0x7fu32 << 8) | (1u32 << 16)))) & (0x7fu32 << 8) == (fdiv << 8) & (0x7fu32 << 8),
        (((cur & !((0x7fu32 << 8) | (1u32 << 16))) | (((fdiv << 8) | (if div2 == 1 {
            (1u32 << 16)
        } else {
            0u32
        })) & ((0x7fu32 << 8) | (1u32 << 16)))) & (1u32 << 16) != 0) == (div2 == 1),
{
}

} // verus!
