//! DDR controller configuration.
//!
//! Translates a decoded SPD configuration and the fixed policy choices into
//! the DDR controller's register image - master mode, refresh timing, ECC
//! and CRC/parity options, initialization timing, address bit mapping and
//! DQ routing - and programs it in a fixed order, bracketed by the
//! controller reset.

use vstd::prelude::*;

use crate::phy::DdrPhy;
use crate::regbus::RegisterBus;
use crate::spd::{DeviceType, FineGranularityRefMode, GeneralConfig, ModuleConfig};
use crate::util::{div_ceil, spec_div_ceil};

verus! {

// Byte offsets of the DDRC registers this driver programs.
pub const MSTR: u32 = 0x0;

pub const DERATEEN: u32 = 0x20;

pub const PWRCTL: u32 = 0x30;

pub const RFSHCTL1: u32 = 0x54;

pub const RFSHCTL3: u32 = 0x60;

pub const RFSHTMG: u32 = 0x64;

pub const ECCCFG0: u32 = 0x70;

pub const CRCPARCTL1: u32 = 0xc4;

pub const CRCPARCTL2: u32 = 0xc8;

pub const INIT0: u32 = 0xd0;

pub const INIT1: u32 = 0xd4;

pub const INIT3: u32 = 0xdc;

pub const DIMMCTL: u32 = 0xf0;

pub const DRAMTMG0: u32 = 0x100;

pub const DRAMTMG1: u32 = 0x104;

pub const DRAMTMG2: u32 = 0x108;

pub const DRAMTMG4: u32 = 0x110;

pub const DRAMTMG8: u32 = 0x120;

pub const DRAMTMG12: u32 = 0x130;

pub const ADDRMAP0: u32 = 0x200;

pub const ADDRMAP1: u32 = 0x204;

pub const ADDRMAP2: u32 = 0x208;

pub const ADDRMAP3: u32 = 0x20c;

pub const ADDRMAP4: u32 = 0x210;

pub const ADDRMAP5: u32 = 0x214;

pub const ADDRMAP6: u32 = 0x218;

pub const ADDRMAP7: u32 = 0x21c;

pub const ADDRMAP8: u32 = 0x220;

pub const ADDRMAP9: u32 = 0x224;

pub const ADDRMAP10: u32 = 0x228;

pub const ADDRMAP11: u32 = 0x22c;

pub const DQMAP0: u32 = 0x280;

pub const DQMAP1: u32 = 0x284;

pub const DQMAP2: u32 = 0x288;

pub const DQMAP3: u32 = 0x28c;

pub const DQMAP4: u32 = 0x290;

/// Offset of the DDR subsystem reset register in the reset domain's block.
pub const RST_DDR_SS: u32 = 0x108;

/// The DDR reset bit within that register.
pub const RST_DDR_SS_DDR_RESET: u32 = 1 << 3;

/// MSTR device configuration encoding.
#[derive(Debug, Clone, Copy, PartialEq, Eq, Structural)]
pub enum DeviceConfig {
    Reserved,
    X8,
    X16,
    X32,
}

impl DeviceConfig {
    pub open spec fn spec_value(self) -> u32 {
        match self {
            DeviceConfig::Reserved => 0b00,
            DeviceConfig::X8 => 0b01,
            DeviceConfig::X16 => 0b10,
            DeviceConfig::X32 => 0b11,
        }
    }

    pub fn value(self) -> (r: u32)
        ensures
            r == self.spec_value(),
    {
        match self {
            DeviceConfig::Reserved => 0b00,
            DeviceConfig::X8 => 0b01,
            DeviceConfig::X16 => 0b10,
            DeviceConfig::X32 => 0b11,
        }
    }
}

/// MSTR burst length encoding.
#[derive(Debug, Clone, Copy, PartialEq, Eq, Structural)]
pub enum BurstRdwr {
    Len4,
    Len8,
    Len16,
}

impl BurstRdwr {
    pub open spec fn spec_value(self) -> u32 {
        match self {
            BurstRdwr::Len4 => 0b0010,
            BurstRdwr::Len8 => 0b0100,
            BurstRdwr::Len16 => 0b1000,
        }
    }

    pub fn value(self) -> (r: u32)
        ensures
            r == self.spec_value(),
    {
        match self {
            BurstRdwr::Len4 => 0b0010,
            BurstRdwr::Len8 => 0b0100,
            BurstRdwr::Len16 => 0b1000,
        }
    }
}

/// MSTR data bus width encoding.
#[derive(Debug, Clone, Copy, PartialEq, Eq, Structural)]
pub enum DataBusWidth {
    Full,
    Half,
    Quarter,
}

impl DataBusWidth {
    pub open spec fn spec_value(self) -> u32 {
        match self {
            DataBusWidth::Full => 0b00,
            DataBusWidth::Half => 0b01,
            DataBusWidth::Quarter => 0b10,
        }
    }

    pub fn value(self) -> (r: u32)
        ensures
            r == self.spec_value(),
    {
        match self {
            DataBusWidth::Full => 0b00,
            DataBusWidth::Half => 0b01,
            DataBusWidth::Quarter => 0b10,
        }
    }
}

/// The inputs on which the register derivation is defined: a validated
/// configuration whose geometry the controller supports and whose timing
/// values stay inside the 32-bit arithmetic the derivation uses.
pub open spec fn spec_ddrc_programmable(c: GeneralConfig) -> bool {
    &&& c.wf()
    &&& c.t_ckavg_min_ps >= 1
    &&& c.t_ckavg_min_ps <= 0x7fff_ffff
    &&& c.device_width != 4
    &&& c.bus_width == 64
    &&& 9 <= c.spec_cas_latency_ns() <= 36
    &&& c.spec_cas_latency_ns() * 1000 + 7 <= u32::MAX
    &&& c.spec_cas_write_latency_ns() * 1000 + 7 <= u32::MAX
    &&& 10 <= c.spec_ps_to_nck(15_000)
    &&& c.spec_t_xs_min_ns() * 1000 <= u32::MAX
    &&& c.spec_t_xs_fast_min_ns() * 1000 <= u32::MAX
}

/// MSTR: device configuration, active ranks, burst length, bus width and
/// device type.
pub open spec fn spec_mstr_value(c: GeneralConfig) -> u32 {
    let dc: u32 = if c.device_width == 8 {
        0b01
    } else if c.device_width == 16 {
        0b10
    } else {
        0b11
    };
    let dbw: u32 = if c.bus_width == 16 {
        0b10
    } else if c.bus_width == 32 {
        0b01
    } else {
        0b00
    };
    let lpddr4: u32 = if (c.device_type matches DeviceType::LpDdr4) {
        1
    } else {
        0
    };
    let ddr4: u32 = if (c.device_type matches DeviceType::Ddr4) {
        1
    } else {
        0
    };
    let lpddr3: u32 = if (c.device_type matches DeviceType::LpDdr3) {
        1
    } else {
        0
    };
    let ddr3: u32 = if (c.device_type matches DeviceType::Ddr3) {
        1
    } else {
        0
    };
    ((dc & 0x3) << 30) | (((c.spec_logical_ranks() as u32) & 0x3) << 24) | ((0b0100u32 & 0xf) << 16)
        | ((dbw & 0x3) << 12) | (lpddr4 << 5) | (ddr4 << 4) | (lpddr3 << 3) | ddr3
}

/// DERATEEN: the RC derate value, the ceiling of 3.75 ns in controller
/// clock periods (the controller clock is half the DRAM clock).
pub open spec fn spec_derateen_value(c: GeneralConfig) -> u32 {
    ((spec_div_ceil(3750, 2 * c.t_ckavg_min_ps) as u32) & 0x3) << 8
}

/// PWRCTL: clock stop, power down and self refresh enables.
pub open spec fn spec_pwrctl_value(c: GeneralConfig) -> u32 {
    let clk: u32 = if c.clock_stop_en {
        1
    } else {
        0
    };
    let pd: u32 = if c.power_down_en {
        1
    } else {
        0
    };
    let sr: u32 = if c.self_ref_en {
        1
    } else {
        0
    };
    (clk << 3) | (pd << 1) | sr
}

/// The refresh interval in units of 32 controller clocks.
pub open spec fn spec_t_refi_x32(c: GeneralConfig) -> u32 {
    ((c.spec_ps_to_nck(crate::spd::DDR4_TREFI_MAX_PS as int) / 64) as u16) as u32
}

/// RFSHCTL1: stagger the second rank's refresh timer by half the interval
/// when a second rank exists.
pub open spec fn spec_rfshctl1_value(c: GeneralConfig) -> u32 {
    let timer1: u32 = if c.spec_rank_addr_bits() == 1 {
        spec_t_refi_x32(c) / 2
    } else {
        0
    };
    (timer1 & 0xfff) << 16
}

/// RFSHCTL3: the fine granularity refresh mode.
pub open spec fn spec_rfshctl3_value(c: GeneralConfig) -> u32 {
    let mode: u32 = match c.fine_granularity_ref_mode {
        FineGranularityRefMode::X1 => 0b000,
        FineGranularityRefMode::X2 => 0b001,
        FineGranularityRefMode::X4 => 0b010,
    };
    (mode & 0x7) << 4
}

/// RFSHTMG: minimum refresh cycle time and nominal refresh interval, in the
/// register's half-clock and 32-clock units, capped per refresh mode.
pub open spec fn spec_rfshtmg_value(c: GeneralConfig) -> u32 {
    let t_rfc_min = (spec_div_ceil(c.spec_ps_to_nck(c.spec_t_rfc_min_ps()), 2) as u16) as u32;
    let base = if c.temp_ref_range {
        spec_t_refi_x32(c) / 2
    } else {
        spec_t_refi_x32(c)
    };
    let t_rfc_nom_x32: u32 = match c.fine_granularity_ref_mode {
        FineGranularityRefMode::X1 => if base < 0xffe {
            base
        } else {
            0xffe
        },
        FineGranularityRefMode::X2 => if base / 2 < 0x7ff {
            base / 2
        } else {
            0x7ff
        },
        FineGranularityRefMode::X4 => if base / 4 < 0x3ff {
            base / 4
        } else {
            0x3ff
        },
    };
    ((t_rfc_nom_x32 & 0xfff) << 16) | (t_rfc_min & 0x3ff)
}

/// ECCCFG0: the ECC mode field (disabled under the fixed policy).
pub open spec fn spec_ecccfg0_value(c: GeneralConfig) -> u32 {
    let mode: u32 = if c.ecc_en {
        0b100
    } else {
        0
    };
    mode & 0x7
}

/// CRCPARCTL1: CRC and parity enables.
pub open spec fn spec_crcparctl1_value(c: GeneralConfig) -> u32 {
    let crc: u32 = if c.crc_en {
        1
    } else {
        0
    };
    let par: u32 = if c.parity_en {
        1
    } else {
        0
    };
    (crc << 4) | par
}

/// CRCPARCTL2: alert pulse widths derived from the speed bin.
pub open spec fn spec_crcparctl2_value(c: GeneralConfig) -> u32 {
    let t_par = (spec_div_ceil(c.spec_speed_bin_mhz() * 3, 100) as u16) as u32;
    ((t_par & 0x1ff) << 16) | ((5u32 & 0x1f) << 8)
}

/// INIT0: CKE timing around initialization, in 1024-clock then half-clock
/// units.
pub open spec fn spec_init0_value(c: GeneralConfig) -> u32 {
    let post = (spec_div_ceil(c.spec_ps_to_nck(400_000) / 1024, 2) as u16) as u32;
    let pre = (spec_div_ceil(c.spec_ps_to_nck(500_000_000) / 1024, 2) as u16) as u32;
    ((post & 0x3ff) << 16) | (pre & 0xfff)
}

/// INIT1: DRAM reset hold time in 1024-clock then half-clock units.
pub open spec fn spec_init1_value(c: GeneralConfig) -> u32 {
    let rstn = (spec_div_ceil(c.spec_ps_to_nck(100_000) / 1024, 2) as u16) as u32;
    (rstn & 0x1ff) << 16
}

/// INIT3: the MR0 mode register value.
pub open spec fn spec_init3_value(c: GeneralConfig) -> u32 {
    (c.spec_mr0() as u32) << 16
}

/// DIMMCTL: address mirroring for the second rank of unbuffered modules.
pub open spec fn spec_dimmctl_value(c: GeneralConfig) -> u32 {
    let mirr: u32 = match c.module_config {
        ModuleConfig::Unbuffered(u) => if u.rank_1_mirrored {
            1
        } else {
            0
        },
        _ => 0,
    };
    mirr << 1
}

/// DRAMTMG0: the four-activate window in half clocks.
pub open spec fn spec_dramtmg0_value(c: GeneralConfig) -> u32 {
    let t_faw = (spec_div_ceil(c.spec_ps_to_nck(c.t_faw_min_ps as int), 2) as u8) as u32;
    (t_faw & 0x3f) << 16
}

/// DRAMTMG1: power-down exit and activate-to-activate timing in half
/// clocks.
pub open spec fn spec_dramtmg1_value(c: GeneralConfig) -> u32 {
    let t_xp = (spec_div_ceil(c.spec_t_xp_nck() + c.spec_parity_latency_nck(), 2) as u8) as u32;
    let t_rc = (spec_div_ceil(c.spec_ps_to_nck(c.t_rc_min_ps as int), 2) as u8) as u32;
    ((t_xp & 0x1f) << 16) | (t_rc & 0x7f)
}

/// DRAMTMG2: write and read latency in half clocks.
pub open spec fn spec_dramtmg2_value(c: GeneralConfig) -> u32 {
    let wl = (spec_div_ceil(c.spec_write_latency_nck(), 2) as u8) as u32;
    let rl = (spec_div_ceil(c.spec_read_latency_nck(), 2) as u8) as u32;
    ((wl & 0x3f) << 24) | ((rl & 0x3f) << 16)
}

/// DRAMTMG4: RAS-to-CAS, CAS-to-CAS, activate-to-activate and precharge
/// timing in half clocks.
pub open spec fn spec_dramtmg4_value(c: GeneralConfig) -> u32 {
    let t_rcd = (spec_div_ceil(c.spec_ps_to_nck(c.t_rcd_min_ps as int) - 0, 2) as u8) as u32;
    let t_ccd = (spec_div_ceil(c.spec_ps_to_nck(c.t_ccd_l_min_ps as int), 2) as u8) as u32;
    let t_rrd = (spec_div_ceil(c.spec_ps_to_nck(c.t_rrd_l_min_ps as int), 2) as u8) as u32;
    let t_rp = ((spec_div_ceil(c.t_rp_min_ps as int, c.t_ckavg_min_ps as int) / 2 + 1) as u8)
        as u32;
    ((t_rcd & 0x1f) << 24) | ((t_ccd & 0xf) << 16) | ((t_rrd & 0xf) << 8) | (t_rp & 0x1f)
}

/// DRAMTMG8: self-refresh exit timing in 32-clock and half-clock units.
pub open spec fn spec_dramtmg8_value(c: GeneralConfig) -> u32 {
    let fast = (spec_div_ceil(c.spec_ps_to_nck(c.spec_t_xs_fast_min_ns() * 1000) / 32, 2) as u8)
        as u32;
    let abort = fast;
    let dll = (spec_div_ceil(c.spec_t_dllk_min_nck() / 32, 2) as u8) as u32;
    let xs = (spec_div_ceil(c.spec_ps_to_nck(c.spec_t_xs_min_ns() * 1000) / 32, 2) as u8) as u32;
    ((fast & 0x7f) << 24) | ((abort & 0x7f) << 16) | ((dll & 0x7f) << 8) | (xs & 0x7f)
}

/// DRAMTMG12: mode-register-set time for per-DRAM addressability in half
/// clocks.
pub open spec fn spec_dramtmg12_value(c: GeneralConfig) -> u32 {
    let t_mrd_pda = (spec_div_ceil(c.spec_t_mrd_pda_min_nck(), 2) as u8) as u32;
    t_mrd_pda & 0x1f
}

/// ADDRMAP1: the three bank-bit offsets.
pub open spec fn spec_addrmap1_value(c: GeneralConfig) -> u32 {
    let b: u32 = spec_bank_map_entry(c, 2);
    let m: u32 = spec_bank_map_entry(c, 1);
    let l: u32 = spec_bank_map_entry(c, 0);
    ((b & 0x1f) << 16) | ((m & 0x1f) << 8) | (l & 0x1f)
}

/// Entry `j` of the bank address map.
pub open spec fn spec_bank_map_entry(c: GeneralConfig, j: int) -> u32 {
    if j < c.bank_addr_bits {
        c.spec_bank_map_value() as u32
    } else {
        0x1f
    }
}

/// Entry `j` of the bank group address map.
pub open spec fn spec_bg_map_entry(c: GeneralConfig, j: int) -> u32 {
    if j < c.bg_addr_bits {
        c.spec_bg_map_value() as u32
    } else {
        0x1f
    }
}

/// Entry `j` of the column address map.
pub open spec fn spec_col_map_entry(c: GeneralConfig, j: int) -> u32 {
    if 2 <= j < c.col_addr_bits {
        0
    } else {
        0xf
    }
}

/// Entry `j` of the row address map.
pub open spec fn spec_row_map_entry(c: GeneralConfig, j: int) -> u32 {
    if j < c.row_addr_bits {
        c.spec_row_map_value() as u32
    } else {
        0xf
    }
}

/// ADDRMAP2: column bits 2-5.
pub open spec fn spec_addrmap2_value(c: GeneralConfig) -> u32 {
    ((spec_col_map_entry(c, 5) & 0xf) << 24) | ((spec_col_map_entry(c, 4) & 0xf) << 16) | ((
    spec_col_map_entry(c, 3) & 0xf) << 8) | (spec_col_map_entry(c, 2) & 0xf)
}

/// ADDRMAP3: column bits 6-9.
pub open spec fn spec_addrmap3_value(c: GeneralConfig) -> u32 {
    ((spec_col_map_entry(c, 9) & 0xf) << 24) | ((spec_col_map_entry(c, 8) & 0xf) << 16) | ((
    spec_col_map_entry(c, 7) & 0xf) << 8) | (spec_col_map_entry(c, 6) & 0xf)
}

/// ADDRMAP4: column bits 10-11.
pub open spec fn spec_addrmap4_value(c: GeneralConfig) -> u32 {
    ((spec_col_map_entry(c, 11) & 0xf) << 8) | (spec_col_map_entry(c, 10) & 0xf)
}

/// ADDRMAP5: row bits 0, 1 and 11, with the shared row 2-10 field fixed.
pub open spec fn spec_addrmap5_value(c: GeneralConfig) -> u32 {
    ((spec_row_map_entry(c, 11) & 0xf) << 24) | ((0xfu32 & 0xf) << 16) | ((spec_row_map_entry(c, 1)
        & 0xf) << 8) | (spec_row_map_entry(c, 0) & 0xf)
}

/// ADDRMAP6: row bits 12-15.
pub open spec fn spec_addrmap6_value(c: GeneralConfig) -> u32 {
    ((spec_row_map_entry(c, 15) & 0xf) << 24) | ((spec_row_map_entry(c, 14) & 0xf) << 16) | ((
    spec_row_map_entry(c, 13) & 0xf) << 8) | (spec_row_map_entry(c, 12) & 0xf)
}

/// ADDRMAP7: row bits 16-17.
pub open spec fn spec_addrmap7_value(c: GeneralConfig) -> u32 {
    ((spec_row_map_entry(c, 17) & 0xf) << 8) | (spec_row_map_entry(c, 16) & 0xf)
}

/// ADDRMAP8: the two bank-group bit offsets.
pub open spec fn spec_addrmap8_value(c: GeneralConfig) -> u32 {
    ((spec_bg_map_entry(c, 1) & 0x1f) << 8) | (spec_bg_map_entry(c, 0) & 0x1f)
}

/// ADDRMAP9: row bits 2-5.
pub open spec fn spec_addrmap9_value(c: GeneralConfig) -> u32 {
    ((spec_row_map_entry(c, 5) & 0xf) << 24) | ((spec_row_map_entry(c, 4) & 0xf) << 16) | ((
    spec_row_map_entry(c, 3) & 0xf) << 8) | (spec_row_map_entry(c, 2) & 0xf)
}

/// ADDRMAP10: row bits 6-9.
pub open spec fn spec_addrmap10_value(c: GeneralConfig) -> u32 {
    ((spec_row_map_entry(c, 9) & 0xf) << 24) | ((spec_row_map_entry(c, 8) & 0xf) << 16) | ((
    spec_row_map_entry(c, 7) & 0xf) << 8) | (spec_row_map_entry(c, 6) & 0xf)
}

/// ADDRMAP11: row bit 10.
pub open spec fn spec_addrmap11_value(c: GeneralConfig) -> u32 {
    spec_row_map_entry(c, 10) & 0xf
}

/// One DQMAP register packing four bytes of the DQ-to-nibble map.
pub open spec fn spec_dqmap_value(c: GeneralConfig, a: int, b: int, d: int, e: int) -> u32 {
    ((c.dq_map@[a] as u32) << 24) | ((c.dq_map@[b] as u32) << 16) | ((c.dq_map@[d] as u32) << 8) | (
    c.dq_map@[e] as u32)
}

/// DQMAP4: the two check-bit nibbles.
pub open spec fn spec_dqmap4_value(c: GeneralConfig) -> u32 {
    ((c.dq_map@[9] as u32) << 8) | (c.dq_map@[8] as u32)
}

/// The master, power, refresh and integrity registers, in write order.
pub open spec fn spec_ddrc_writes_ctrl(c: GeneralConfig) -> Seq<(u32, u32)> {
    seq![
        (MSTR, spec_mstr_value(c)),
        (DERATEEN, spec_derateen_value(c)),
        (PWRCTL, spec_pwrctl_value(c)),
        (RFSHCTL1, spec_rfshctl1_value(c)),
        (RFSHCTL3, spec_rfshctl3_value(c)),
        (RFSHTMG, spec_rfshtmg_value(c)),
        (ECCCFG0, spec_ecccfg0_value(c)),
        (CRCPARCTL1, spec_crcparctl1_value(c)),
        (CRCPARCTL2, spec_crcparctl2_value(c)),
    ]
}

/// The initialization and DRAM timing registers, in write order.
pub open spec fn spec_ddrc_writes_timing(c: GeneralConfig) -> Seq<(u32, u32)> {
    seq![
        (INIT0, spec_init0_value(c)),
        (INIT1, spec_init1_value(c)),
        (INIT3, spec_init3_value(c)),
        (DIMMCTL, spec_dimmctl_value(c)),
        (DRAMTMG0, spec_dramtmg0_value(c)),
        (DRAMTMG1, spec_dramtmg1_value(c)),
        (DRAMTMG2, spec_dramtmg2_value(c)),
        (DRAMTMG4, spec_dramtmg4_value(c)),
        (DRAMTMG8, spec_dramtmg8_value(c)),
        (DRAMTMG12, spec_dramtmg12_value(c)),
    ]
}

/// The address map registers, in write order.
pub open spec fn spec_ddrc_writes_addrmap(c: GeneralConfig) -> Seq<(u32, u32)> {
    seq![
        (ADDRMAP0, 0x1f),
        (ADDRMAP1, spec_addrmap1_value(c)),
        (ADDRMAP2, spec_addrmap2_value(c)),
        (ADDRMAP3, spec_addrmap3_value(c)),
        (ADDRMAP4, spec_addrmap4_value(c)),
        (ADDRMAP5, spec_addrmap5_value(c)),
        (ADDRMAP6, spec_addrmap6_value(c)),
        (ADDRMAP7, spec_addrmap7_value(c)),
        (ADDRMAP8, spec_addrmap8_value(c)),
        (ADDRMAP9, spec_addrmap9_value(c)),
        (ADDRMAP10, spec_addrmap10_value(c)),
        (ADDRMAP11, spec_addrmap11_value(c)),
    ]
}

/// The DQ map registers, in write order.
pub open spec fn spec_ddrc_writes_dqmap(c: GeneralConfig) -> Seq<(u32, u32)> {
    seq![
        (DQMAP0, spec_dqmap_value(c, 3, 2, 1, 0)),
        (DQMAP1, spec_dqmap_value(c, 7, 6, 5, 4)),
        (DQMAP2, spec_dqmap_value(c, 13, 12, 11, 10)),
        (DQMAP3, spec_dqmap_value(c, 17, 16, 15, 14)),
        (DQMAP4, spec_dqmap4_value(c)),
    ]
}

/// The full DDRC register image for configuration `c`, in write order.
pub open spec fn spec_ddrc_writes(c: GeneralConfig) -> Seq<(u32, u32)> {
    spec_ddrc_writes_ctrl(c) + spec_ddrc_writes_timing(c) + spec_ddrc_writes_addrmap(c)
        + spec_ddrc_writes_dqmap(c)
}

/// The DDR controller and its PHY, each driven over its own register block.
pub struct DdrRam<B: RegisterBus> {
    pub regs: B,
    pub phy: DdrPhy<B>,
}

impl<B: RegisterBus> DdrRam<B> {
    /// Take ownership of the controller and PHY register blocks.
    pub fn ddr_ram(regs: B, phy: DdrPhy<B>) -> (r: DdrRam<B>)
        ensures
            r.regs.written() == regs.written(),
            r.phy.regs.written() == phy.regs.written(),
    {
        DdrRam { regs, phy }
    }

    /// Usable size of the DDR region in bytes.
    pub fn size(&self) -> (r: usize)
        ensures
            r == 2047 * 1024 * 1024,
    {
        2047 * 1024 * 1024
    }

    /// Program every derived register value, in the fixed order of
    /// `spec_ddrc_writes`.
    /// Program the master, power, refresh and integrity registers.
    #[verifier::rlimit(100)]
    #[verifier::spinoff_prover]
    fn write_ctrl_regs(&mut self, config: &GeneralConfig)
        requires
            spec_ddrc_programmable(*config),
        ensures
            final(self).regs.written() == old(self).regs.written() + spec_ddrc_writes_ctrl(*config),
            final(self).phy.regs.written() == old(self).phy.regs.written(),
    {
        let ghost w0 = self.regs.written();
        let c = config;

        // master
        let device_config = match c.device_width {
            8 => DeviceConfig::X8,
            16 => DeviceConfig::X16,
            _ => DeviceConfig::X32,
        };
        let burst_rdwr = BurstRdwr::Len8;
        let bus_width = match c.bus_width {
            16 => DataBusWidth::Quarter,
            32 => DataBusWidth::Half,
            _ => DataBusWidth::Full,
        };
        let lr = c.logical_ranks() as u32;
        let lpddr4: u32 = match c.device_type {
            DeviceType::LpDdr4 => 1,
            _ => 0,
        };
        let ddr4: u32 = match c.device_type {
            DeviceType::Ddr4 => 1,
            _ => 0,
        };
        let lpddr3: u32 = match c.device_type {
            DeviceType::LpDdr3 => 1,
            _ => 0,
        };
        let ddr3: u32 = match c.device_type {
            DeviceType::Ddr3 => 1,
            _ => 0,
        };
        let mstr = ((device_config.value() & 0x3) << 30u32) | ((lr & 0x3) << 24u32) | ((
        burst_rdwr.value() & 0xf) << 16u32) | ((bus_width.value() & 0x3) << 12u32) | (lpddr4
            << 5u32) | (ddr4 << 4u32) | (lpddr3 << 3u32) | ddr3;
        self.regs.write_reg(MSTR, mstr);

        // derate_en
        let rc_derate_value = div_ceil(3750, 2 * c.t_ckavg_min_ps);
        self.regs.write_reg(DERATEEN, (rc_derate_value & 0x3) << 8u32);

        // power_ctrl
        let clk: u32 = if c.clock_stop_en {
            1
        } else {
            0
        };
        let pd: u32 = if c.power_down_en {
            1
        } else {
            0
        };
        let sr: u32 = if c.self_ref_en {
            1
        } else {
            0
        };
        self.regs.write_reg(PWRCTL, (clk << 3u32) | (pd << 1u32) | sr);

        // refresh_ctrl1; the extra division by 2 matches the register units
        let t_refi_x32 = #[verifier::truncate] ((self.ps_to_nck_of(c, c.t_refi()) / 64) as u16)
            as u32;
        let timer1_start_value_x32: u32 = if c.rank_addr_bits() == 1 {
            t_refi_x32 / 2
        } else {
            0
        };
        self.regs.write_reg(RFSHCTL1, (timer1_start_value_x32 & 0xfff) << 16u32);

        // refresh_ctrl3
        let refresh_mode: u32 = match c.fine_granularity_ref_mode {
            FineGranularityRefMode::X1 => 0b000,
            FineGranularityRefMode::X2 => 0b001,
            FineGranularityRefMode::X4 => 0b010,
        };
        self.regs.write_reg(RFSHCTL3, (refresh_mode & 0x7) << 4u32);

        // refresh_timing
        let t_rfc_min = #[verifier::truncate] (div_ceil(self.ps_to_nck_of(c, c.t_rfc_min_ps()), 2)
            as u16) as u32;
        let base = if c.temp_ref_range {
            t_refi_x32 / 2
        } else {
            t_refi_x32
        };
        let t_rfc_nom_x32: u32 = match c.fine_granularity_ref_mode {
            FineGranularityRefMode::X1 => if base < 0xffe {
                base
            } else {
                0xffe
            },
            FineGranularityRefMode::X2 => if base / 2 < 0x7ff {
                base / 2
            } else {
                0x7ff
            },
            FineGranularityRefMode::X4 => if base / 4 < 0x3ff {
                base / 4
            } else {
                0x3ff
            },
        };
        self.regs.write_reg(RFSHTMG, ((t_rfc_nom_x32 & 0xfff) << 16u32) | (t_rfc_min & 0x3ff));

        // ecc_cfg0 and crc_par_ctrl1/2
        let ecc_mode: u32 = if c.ecc_en {
            0b100
        } else {
            0
        };
        self.regs.write_reg(ECCCFG0, ecc_mode & 0x7);
        let crc: u32 = if c.crc_en {
            1
        } else {
            0
        };
        let par: u32 = if c.parity_en {
            1
        } else {
            0
        };
        self.regs.write_reg(CRCPARCTL1, (crc << 4u32) | par);
        let t_par_alert = #[verifier::truncate] (div_ceil(c.speed_bin_mhz() * 3, 100) as u16)
            as u32;
        self.regs.write_reg(CRCPARCTL2, ((t_par_alert & 0x1ff) << 16u32) | ((5 & 0x1f) << 8u32));

        proof {
            assert(self.regs.written() =~= w0 + spec_ddrc_writes_ctrl(*config));
        }
    }

    /// Program the initialization and DRAM timing registers.
    #[verifier::rlimit(100)]
    #[verifier::spinoff_prover]
    fn write_timing_regs(&mut self, config: &GeneralConfig)
        requires
            spec_ddrc_programmable(*config),
        ensures
            final(self).regs.written() == old(self).regs.written() + spec_ddrc_writes_timing(*config),
            final(self).phy.regs.written() == old(self).phy.regs.written(),
    {
        let ghost w0 = self.regs.written();
        let c = config;
        // init regs
        let post_cke_x1024 = #[verifier::truncate] (div_ceil(
            self.ps_to_nck_of(c, 400_000) / 1024,
            2,
        ) as u16) as u32;
        let pre_cke_x1024 = #[verifier::truncate] (div_ceil(
            self.ps_to_nck_of(c, 500_000_000) / 1024,
            2,
        ) as u16) as u32;
        self.regs.write_reg(INIT0, ((post_cke_x1024 & 0x3ff) << 16u32) | (pre_cke_x1024 & 0xfff));
        let dram_rstn_x1024 = #[verifier::truncate] (div_ceil(
            self.ps_to_nck_of(c, 100_000) / 1024,
            2,
        ) as u16) as u32;
        self.regs.write_reg(INIT1, (dram_rstn_x1024 & 0x1ff) << 16u32);
        self.regs.write_reg(INIT3, (c.mr0() as u32) << 16u32);

        // dimm_ctrl
        let dimm_addr_mirr_en: u32 = match c.module_config {
            ModuleConfig::Unbuffered(mod_config) => if mod_config.rank_1_mirrored {
                1
            } else {
                0
            },
            _ => 0,
        };
        self.regs.write_reg(DIMMCTL, dimm_addr_mirr_en << 1u32);

        // dram_tmg0
        let t_faw = #[verifier::truncate] (div_ceil(self.ps_to_nck_of(c, c.t_faw_min_ps), 2) as u8)
            as u32;
        self.regs.write_reg(DRAMTMG0, (t_faw & 0x3f) << 16u32);

        // dram_tmg1
        let t_xp = #[verifier::truncate] (div_ceil(c.t_xp_nck() + c.parity_latency_nck(), 2) as u8)
            as u32;
        let t_rc = #[verifier::truncate] (div_ceil(self.ps_to_nck_of(c, c.t_rc_min_ps), 2) as u8)
            as u32;
        self.regs.write_reg(DRAMTMG1, ((t_xp & 0x1f) << 16u32) | (t_rc & 0x7f));

        // dram_tmg2
        let write_latency = #[verifier::truncate] (div_ceil(c.write_latency_nck(), 2) as u8)
            as u32;
        let read_latency = #[verifier::truncate] (div_ceil(c.read_latency_nck(), 2) as u8) as u32;
        self.regs.write_reg(
            DRAMTMG2,
            ((write_latency & 0x3f) << 24u32) | ((read_latency & 0x3f) << 16u32),
        );

        // dram_tmg4
        let t_rcd = #[verifier::truncate] (div_ceil(
            self.ps_to_nck_of(c, c.t_rcd_min_ps) - c.additive_latency_nck(),
            2,
        ) as u8) as u32;
        let t_ccd = #[verifier::truncate] (div_ceil(self.ps_to_nck_of(c, c.t_ccd_l_min_ps), 2)
            as u8) as u32;
        let t_rrd = #[verifier::truncate] (div_ceil(self.ps_to_nck_of(c, c.t_rrd_l_min_ps), 2)
            as u8) as u32;
        let t_rp = #[verifier::truncate] ((div_ceil(c.t_rp_min_ps, c.t_ckavg_min_ps) / 2 + 1)
            as u8) as u32;
        self.regs.write_reg(
            DRAMTMG4,
            ((t_rcd & 0x1f) << 24u32) | ((t_ccd & 0xf) << 16u32) | ((t_rrd & 0xf) << 8u32) | (t_rp
                & 0x1f),
        );

        // dram_tmg8
        let t_xs_fast_x32 = #[verifier::truncate] (div_ceil(
            self.ps_to_nck_of(c, c.t_xs_fast_min_ns() * 1000) / 32,
            2,
        ) as u8) as u32;
        let t_xs_abort_x32 = #[verifier::truncate] (div_ceil(
            self.ps_to_nck_of(c, c.t_xs_abort_min_ns() * 1000) / 32,
            2,
        ) as u8) as u32;
        let t_xs_dll_x32 = #[verifier::truncate] (div_ceil(c.t_xs_dll_min_nck() / 32, 2) as u8)
            as u32;
        let t_xs_x32 = #[verifier::truncate] (div_ceil(
            self.ps_to_nck_of(c, c.t_xs_min_ns() * 1000) / 32,
            2,
        ) as u8) as u32;
        self.regs.write_reg(
            DRAMTMG8,
            ((t_xs_fast_x32 & 0x7f) << 24u32) | ((t_xs_abort_x32 & 0x7f) << 16u32) | ((
            t_xs_dll_x32 & 0x7f) << 8u32) | (t_xs_x32 & 0x7f),
        );

        // dram_tmg12
        let t_mrd_pda = #[verifier::truncate] (div_ceil(c.t_mrd_pda_min_nck(), 2) as u8) as u32;
        self.regs.write_reg(DRAMTMG12, t_mrd_pda & 0x1f);

        proof {
            assert(self.regs.written() =~= w0 + spec_ddrc_writes_timing(*config));
        }
    }

    /// Program the address map registers from the derived bit maps.
    #[verifier::rlimit(100)]
    #[verifier::spinoff_prover]
    fn write_addr_map_regs(&mut self, config: &GeneralConfig)
        requires
            spec_ddrc_programmable(*config),
        ensures
            final(self).regs.written() == old(self).regs.written() + spec_ddrc_writes_addrmap(*config),
            final(self).phy.regs.written() == old(self).phy.regs.written(),
    {
        let ghost w0 = self.regs.written();
        let c = config;
        // address map
        self.regs.write_reg(ADDRMAP0, 0x1f);
        let bank_addr_map = c.bank_addr_map();
        self.regs.write_reg(
            ADDRMAP1,
            ((bank_addr_map[2] & 0x1f) << 16u32) | ((bank_addr_map[1] & 0x1f) << 8u32) | (
            bank_addr_map[0] & 0x1f),
        );
        let col_addr_map = c.col_addr_map();
        self.regs.write_reg(
            ADDRMAP2,
            ((col_addr_map[5] & 0xf) << 24u32) | ((col_addr_map[4] & 0xf) << 16u32) | ((
            col_addr_map[3] & 0xf) << 8u32) | (col_addr_map[2] & 0xf),
        );
        self.regs.write_reg(
            ADDRMAP3,
            ((col_addr_map[9] & 0xf) << 24u32) | ((col_addr_map[8] & 0xf) << 16u32) | ((
            col_addr_map[7] & 0xf) << 8u32) | (col_addr_map[6] & 0xf),
        );
        self.regs.write_reg(
            ADDRMAP4,
            ((col_addr_map[11] & 0xf) << 8u32) | (col_addr_map[10] & 0xf),
        );
        let row_addr_map = c.row_addr_map();
        self.regs.write_reg(
            ADDRMAP5,
            ((row_addr_map[11] & 0xf) << 24u32) | ((0xf & 0xf) << 16u32) | ((row_addr_map[1] & 0xf)
                << 8u32) | (row_addr_map[0] & 0xf),
        );
        self.regs.write_reg(
            ADDRMAP6,
            ((row_addr_map[15] & 0xf) << 24u32) | ((row_addr_map[14] & 0xf) << 16u32) | ((
            row_addr_map[13] & 0xf) << 8u32) | (row_addr_map[12] & 0xf),
        );
        self.regs.write_reg(
            ADDRMAP7,
            ((row_addr_map[17] & 0xf) << 8u32) | (row_addr_map[16] & 0xf),
        );
        let bg_addr_map = c.bg_addr_map();
        self.regs.write_reg(
            ADDRMAP8,
            ((bg_addr_map[1] & 0x1f) << 8u32) | (bg_addr_map[0] & 0x1f),
        );
        self.regs.write_reg(
            ADDRMAP9,
            ((row_addr_map[5] & 0xf) << 24u32) | ((row_addr_map[4] & 0xf) << 16u32) | ((
            row_addr_map[3] & 0xf) << 8u32) | (row_addr_map[2] & 0xf),
        );
        self.regs.write_reg(
            ADDRMAP10,
            ((row_addr_map[9] & 0xf) << 24u32) | ((row_addr_map[8] & 0xf) << 16u32) | ((
            row_addr_map[7] & 0xf) << 8u32) | (row_addr_map[6] & 0xf),
        );
        self.regs.write_reg(ADDRMAP11, row_addr_map[10] & 0xf);

        proof {
            assert(self.regs.written() =~= w0 + spec_ddrc_writes_addrmap(*config));
        }
    }

    /// Program the DQ routing registers from the SPD's nibble map.
    #[verifier::rlimit(100)]
    #[verifier::spinoff_prover]
    fn write_dq_map_regs(&mut self, config: &GeneralConfig)
        requires
            spec_ddrc_programmable(*config),
        ensures
            final(self).regs.written() == old(self).regs.written() + spec_ddrc_writes_dqmap(*config),
            final(self).phy.regs.written() == old(self).phy.regs.written(),
    {
        let ghost w0 = self.regs.written();
        let c = config;
        // dq map
        self.regs.write_reg(
            DQMAP0,
            ((c.dq_map[3] as u32) << 24u32) | ((c.dq_map[2] as u32) << 16u32) | ((c.dq_map[1]
                as u32) << 8u32) | (c.dq_map[0] as u32),
        );
        self.regs.write_reg(
            DQMAP1,
            ((c.dq_map[7] as u32) << 24u32) | ((c.dq_map[6] as u32) << 16u32) | ((c.dq_map[5]
                as u32) << 8u32) | (c.dq_map[4] as u32),
        );
        self.regs.write_reg(
            DQMAP2,
            ((c.dq_map[13] as u32) << 24u32) | ((c.dq_map[12] as u32) << 16u32) | ((c.dq_map[11]
                as u32) << 8u32) | (c.dq_map[10] as u32),
        );
        self.regs.write_reg(
            DQMAP3,
            ((c.dq_map[17] as u32) << 24u32) | ((c.dq_map[16] as u32) << 16u32) | ((c.dq_map[15]
                as u32) << 8u32) | (c.dq_map[14] as u32),
        );
        self.regs.write_reg(
            DQMAP4,
            ((c.dq_map[9] as u32) << 8u32) | (c.dq_map[8] as u32),
        );

        proof {
            assert(self.regs.written() =~= w0 + spec_ddrc_writes_dqmap(*config));
        }
    }

    pub fn write_regs(&mut self, config: &GeneralConfig)
        requires
            spec_ddrc_programmable(*config),
        ensures
            final(self).regs.written() == old(self).regs.written() + spec_ddrc_writes(*config),
            final(self).phy.regs.written() == old(self).phy.regs.written(),
    {
        let ghost w0 = self.regs.written();
        self.write_ctrl_regs(config);
        self.write_timing_regs(config);
        self.write_addr_map_regs(config);
        self.write_dq_map_regs(config);
        proof {
            assert(self.regs.written() =~= w0 + spec_ddrc_writes(*config));
        }
    }

    /// Clock conversion used by the register derivation.
    fn ps_to_nck_of(&self, c: &GeneralConfig, time_ps: u32) -> (r: u32)
        requires
            c.t_ckavg_min_ps >= 1,
        ensures
            r == c.spec_ps_to_nck(time_ps as int),
            r <= time_ps,
    {
        c.ps_to_nck(time_ps)
    }

    /// Program the controller under reset: assert the DDR subsystem reset
    /// in the reset domain's register block, write the full register image,
    /// then release the reset. Each reset write is bracketed by the
    /// domain's write protection, unlocked before and locked again after.
    pub fn configure(&mut self, config: &GeneralConfig, reset: &mut B)
        requires
            spec_ddrc_programmable(*config),
        ensures
            final(self).regs.written() == old(self).regs.written() + spec_ddrc_writes(*config),
            final(self).phy.regs.written() == old(self).phy.regs.written(),
            ({
                let w = final(reset).written();
                let n = old(reset).written().len() as int;
                &&& w.len() == n + 6
                &&& (forall|i: int| 0 <= i < n ==> w[i] == old(reset).written()[i])
                &&& w[n].0 == crate::clocks::WPROT && w[n].1 == 0
                &&& w[n + 1].0 == RST_DDR_SS && w[n + 1].1 & RST_DDR_SS_DDR_RESET
                    == RST_DDR_SS_DDR_RESET
                &&& w[n + 2].0 == crate::clocks::WPROT && w[n + 2].1 == 1
                &&& w[n + 3].0 == crate::clocks::WPROT && w[n + 3].1 == 0
                &&& w[n + 4].0 == RST_DDR_SS && w[n + 4].1 & RST_DDR_SS_DDR_RESET == 0
                &&& w[n + 5].0 == crate::clocks::WPROT && w[n + 5].1 == 1
            }),
    {
        // assert DDRC reset, with the domain unlocked for the write
        reset.write_reg(crate::clocks::WPROT, 0);
        let cur = reset.read_reg(RST_DDR_SS);
        proof {
            lemma_reset_bits();
        }
        reset.write_reg(RST_DDR_SS, cur | RST_DDR_SS_DDR_RESET);
        reset.write_reg(crate::clocks::WPROT, 1);

        self.write_regs(config);

        // bring the controller out of reset
        reset.write_reg(crate::clocks::WPROT, 0);
        let cur = reset.read_reg(RST_DDR_SS);
        reset.write_reg(RST_DDR_SS, cur & !RST_DDR_SS_DDR_RESET);
        reset.write_reg(crate::clocks::WPROT, 1);
    }
}

/// Setting the reset bit leaves it set; clearing it leaves it clear.
proof fn lemma_reset_bits()
    by (bit_vector)
    ensures
        forall|x: u32, m: u32| #[trigger] ((x | m) & m) == m,
        forall|x: u32, m: u32| #[trigger] ((x & !m) & m) == 0,
{
}

} // verus!
