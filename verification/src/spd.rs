//! SPD data decoding.
//!
//! JEDEC Standard No. 21-C Annex L: Serial Presence Detect (SPD) for DDR4
//! SDRAM modules. A 512-byte EEPROM image is parsed into a strongly typed
//! configuration; both CRC-protected sections are validated and every decoded
//! field rejects its documented reserved bit patterns.

use vstd::prelude::*;

use crate::crc::{crc, spec_crc};

verus! {

#[derive(Debug, Clone, Copy, PartialEq, Eq, Structural)]
pub enum DeviceType {
    Ddr3,
    Ddr4,
    LpDdr3,
    LpDdr4,
}

#[derive(Debug, Clone, Copy, PartialEq, Eq, Structural)]
pub enum PackageType {
    Monolithic,
    NonMonolithic,
}

#[derive(Debug, Clone, Copy, PartialEq, Eq, Structural)]
pub enum SignalLoading {
    Unspecified,
    MultiLoadStack,
    SingleLoadStack,
}

#[derive(Debug, Clone, Copy, PartialEq, Eq, Structural)]
pub enum FineGranularityRefMode {
    X1,
    X2,
    X4,
}

/// Bytes 128-255, Annex L.1: module specific bytes for unbuffered module
/// types (UDIMM and SO-DIMM).
#[derive(Debug, Clone, Copy, PartialEq, Eq, Structural)]
pub struct UnbufferedConfig {
    // 128
    pub raw_card_extension: u8,
    pub module_nominal_height: u8,
    // 129
    pub module_max_thickness_back: u8,
    pub module_max_thickness_front: u8,
    // 130
    pub ref_raw_card_rev: u8,
    pub ref_raw_card: u8,
    // 131
    pub rank_1_mirrored: bool,
    // 132-253 reserved; 254-255 CRC
}

/// Bytes 128-255 for registered module types (decoding not yet needed).
#[derive(Debug, Clone, Copy, PartialEq, Eq, Structural)]
pub struct RegisteredConfig;

/// Bytes 128-255 for load-reduced module types (decoding not yet needed).
#[derive(Debug, Clone, Copy, PartialEq, Eq, Structural)]
pub struct LoadReducedConfig;

#[derive(Debug, Clone, Copy, PartialEq, Eq, Structural)]
pub enum ModuleConfig {
    Unbuffered(UnbufferedConfig),
    Registered(RegisteredConfig),
    LoadReduced(LoadReducedConfig),
}

/// Why an SPD image was rejected.
#[derive(Debug, Clone, Copy, PartialEq, Eq, Structural)]
pub enum SpdError {
    /// The CRC stored at the end of a 128-byte section does not match the
    /// CRC computed over its first 126 bytes.
    CrcMismatch { section_offset: u16, expected: u16, actual: u16 },
    /// A field holds a bit pattern the specification documents as reserved.
    ReservedField { byte: u16, value: u8 },
}

/// General configuration section: bytes 0-127, plus the module specific
/// section and a set of policy flags that are fixed at decode time.
///
/// The struct data is intended to be a minimal representation of the data
/// encoded in the SPD EEPROM. Any derived values are exposed as methods.
#[derive(Debug, Clone, Copy)]
pub struct GeneralConfig {
    // byte 0
    pub spd_bytes_total: u16,
    pub spd_bytes_used: u16,
    // 1
    pub spd_encoding: u8,
    pub spd_additions: u8,
    // 2
    pub device_type: DeviceType,
    // 3
    pub module_config: ModuleConfig,
    // 4
    pub bg_addr_bits: u8,
    pub bank_addr_bits: u8,
    pub capacity_megabits: u16,
    // 5
    pub row_addr_bits: u8,
    pub col_addr_bits: u8,
    // 6
    pub package_type: PackageType,
    pub die_count: u8,
    pub signal_loading: SignalLoading,
    // 7
    pub t_maw: u16,
    pub mac: u8,
    // 11
    pub vdd_12_endurant: bool,
    pub vdd_12_operable: bool,
    // 12
    pub package_ranks: u8,
    pub device_width: u8,
    // 13
    pub bus_width_extension: u8,
    pub bus_width: u8,
    // 14
    pub has_thermal_sensor: bool,
    // 17
    pub mtb_ps: u32,
    pub ftb_ps: u32,
    // 18 & 125
    pub t_ckavg_min_ps: u32,
    // 19 & 124
    pub t_ckavg_max_ps: u32,
    // 20-23
    pub supported_cas_latencies: u32,
    // 24 & 123
    pub t_aa_min_ps: u32,
    // 25 & 122
    pub t_rcd_min_ps: u32,
    // 26 & 121
    pub t_rp_min_ps: u32,
    // 27-29 & 120
    pub t_ras_min_ps: u32,
    pub t_rc_min_ps: u32,
    // 30-31
    pub t_rfc1_min_ps: u32,
    // 32-33
    pub t_rfc2_min_ps: u32,
    // 34-35
    pub t_rfc4_min_ps: u32,
    // 36-37
    pub t_faw_min_ps: u32,
    // 38 & 119
    pub t_rrd_s_min_ps: u32,
    // 39 & 118
    pub t_rrd_l_min_ps: u32,
    // 40 & 117
    pub t_ccd_l_min_ps: u32,
    // 60-77
    pub dq_map: [u8; 18],
    // policy flags, fixed defaults rather than derived from SPD
    pub dm_en: bool,
    pub rd_dbi_en: bool,
    pub wr_dbi_en: bool,
    pub ecc_en: bool,
    pub en_2nd_clk: bool,
    pub parity_en: bool,
    pub crc_en: bool,
    pub power_down_en: bool,
    pub clock_stop_en: bool,
    pub self_ref_en: bool,
    pub lp_auto_self_ref: bool,
    pub temp_ref_mode: bool,
    pub temp_ref_range: bool,
    pub fine_granularity_ref_mode: FineGranularityRefMode,
    pub self_ref_abort: bool,
    pub v_ref: bool,
    pub geardown: bool,
}

/// Reconstruct a timing value as `n_mtb * mtb_ps + offset_ftb * ftb_ps`,
/// truncated to 32 bits exactly as the production arithmetic does.
pub open spec fn spec_get_time_ps(mtb_ps: u32, ftb_ps: u32, n_mtb: u16, offset_ftb: i8) -> u32 {
    ((mtb_ps * n_mtb + ftb_ps * offset_ftb) % 0x1_0000_0000) as u32
}

/// Calculate timing from `n_mtb * mtb_ps + offset_ftb * ftb_ps`. The fine
/// offset byte is a signed correction in fine-timebase units.
pub fn get_time_ps(mtb_ps: u32, ftb_ps: u32, n_mtb: u16, offset_ftb: i8) -> (r: u32)
    requires
        mtb_ps * n_mtb <= u32::MAX,
    ensures
        r == spec_get_time_ps(mtb_ps, ftb_ps, n_mtb, offset_ftb),
{
    let coarse: i64 = (mtb_ps as i64) * (n_mtb as i64);
    proof {
        assert(-(0x80_0000_0000 as int) <= ftb_ps * offset_ftb <= 0x80_0000_0000 as int)
            by (nonlinear_arith)
            requires
                0 <= ftb_ps <= 0xffff_ffffu32,
                -128 <= offset_ftb <= 127,
        ;
    }
    let fine: i64 = (ftb_ps as i64) * (offset_ftb as i64);
    let total: i64 = coarse + fine;
    proof {
        assert((coarse + fine) as u32 == ((coarse + fine) % 0x1_0000_0000) as u32)
            by (bit_vector);
    }
    #[verifier::truncate] (total as u32)
}

/// The CRC value stored in the last two bytes of a 128-byte section whose
/// contents are `s` (low byte first).
pub open spec fn spec_stored_crc(s: Seq<u8>, lo: int, hi: int) -> u16 {
    ((s[hi] as u16) << 8) | (s[lo] as u16)
}

/// Whether the base section (bytes 0-127) passes its CRC check.
pub open spec fn spec_base_crc_ok(s: Seq<u8>) -> bool {
    spec_stored_crc(s, 126, 127) == spec_crc(s.subrange(0, 126))
}

/// Whether the module specific section `sec` (a 128-byte slice of bytes
/// 128-255) passes its CRC check.
pub open spec fn spec_section_crc_ok(sec: Seq<u8>) -> bool {
    spec_stored_crc(sec, 126, 127) == spec_crc(sec.subrange(0, 126))
}

/// Field contents of the unbuffered module section, assuming its CRC holds.
pub open spec fn spec_unbuffered_fields(sec: Seq<u8>) -> UnbufferedConfig {
    UnbufferedConfig {
        raw_card_extension: (sec[0] >> 5) as u8,
        module_nominal_height: (sec[0] & 0x1f) as u8,
        module_max_thickness_back: (sec[1] >> 4) as u8,
        module_max_thickness_front: (sec[1] & 0xf) as u8,
        ref_raw_card_rev: ((sec[2] >> 5) & 0x3) as u8,
        ref_raw_card: (sec[2] & 0x1f) as u8,
        rank_1_mirrored: sec[3] & 0x1 == 0x1,
    }
}

/// Decode of the unbuffered module section: the CRC over its first 126 bytes
/// must match the trailing two bytes.
pub open spec fn spec_unbuffered_decode(sec: Seq<u8>) -> Result<UnbufferedConfig, SpdError> {
    if !spec_section_crc_ok(sec) {
        Err(SpdError::CrcMismatch {
            section_offset: 128,
            expected: spec_stored_crc(sec, 126, 127),
            actual: spec_crc(sec.subrange(0, 126)),
        })
    } else {
        Ok(spec_unbuffered_fields(sec))
    }
}

impl UnbufferedConfig {
    /// Decode the module specific section from its 128 bytes (bytes 128-255
    /// of the full image).
    pub fn from_spd_data(section: &[u8]) -> (r: Result<UnbufferedConfig, SpdError>)
        requires
            section@.len() == 128,
        ensures
            r == spec_unbuffered_decode(section@),
    {
        let expected_crc: u16 = ((section[127] as u16) << 8u16) | (section[126] as u16);
        let actual_crc = crc_of_first_126(section);
        if expected_crc != actual_crc {
            return Err(SpdError::CrcMismatch {
                section_offset: 128,
                expected: expected_crc,
                actual: actual_crc,
            });
        }

        let raw_card_extension = section[0] >> 5u8;
        let module_nominal_height = section[0] & 0x1f;

        let module_max_thickness_back = section[1] >> 4u8;
        let module_max_thickness_front = section[1] & 0xf;

        let ref_raw_card_rev = (section[2] >> 5u8) & 0x3;
        let ref_raw_card = section[2] & 0x1f;

        let rank_1_mirrored = section[3] & 0x1 == 0x1;

        Ok(UnbufferedConfig {
            raw_card_extension,
            module_nominal_height,
            module_max_thickness_back,
            module_max_thickness_front,
            ref_raw_card_rev,
            ref_raw_card,
            rank_1_mirrored,
        })
    }
}

// SO-DIMM bus-multiplexer select bits and control addresses.
pub const I2C_MUX_SEL: u8 = 0x08;

pub const I2C_CTRL_ADDR_LO: u16 = 0x36;

pub const I2C_CTRL_ADDR_HI: u16 = 0x37;

/// SO-DIMM EEPROM address.
pub const I2C_ADDR: u16 = 0x51;

/// Bound on bus-idle polls between the EEPROM transfers.
pub const SPD_BUSY_TRIES: u32 = 1_000_000;

/// Why fetching the SPD image off the EEPROM failed.
#[derive(Debug, Clone, Copy, PartialEq, Eq, Structural)]
pub enum SpdReadError {
    /// The reference clock cannot reach the EEPROM's SCL frequency.
    SclkUnreachable,
    /// A transfer failed; carries the last interrupt status read.
    Bus { isr: u32 },
    /// The bus stayed busy past the bounded wait.
    BusStuck,
    /// The multiplexer did not read back the DDR channel selection.
    MuxSelectFailed { value: u8 },
    /// The EEPROM bytes arrived but failed validation.
    Invalid { error: SpdError },
}

/// The command bytes the EEPROM fetch pushes to the I2C data FIFO, in
/// order: the multiplexer channel selection, the lower-page enable, the
/// read start address, the upper-page enable and the start address again.
pub open spec fn spec_spd_commands() -> Seq<u32> {
    seq![I2C_MUX_SEL as u32, 0u32, 0u32, 1u32, 0u32]
}

/// Fetch the 512-byte SPD image over I2C - select the DDR channel on the
/// bus multiplexer, read back the selection, then read the lower and upper
/// EEPROM pages - and decode it. Every wait is bounded, and any bus error,
/// a wrong multiplexer read-back or a failed validation is reported. The
/// clock error is reported exactly when no SCL divisor pair exists, and
/// however the transfers end, the bytes pushed to the data FIFO are a
/// prefix of the fixed command sequence - all of it when the fetch
/// succeeds.
#[verifier::loop_isolation(false)]
pub fn read_spd_eeprom<B: crate::regbus::RegisterBus>(i2c: &mut crate::i2c::I2C<B>) -> (r: Result<
    GeneralConfig,
    SpdReadError,
>)
    requires
        2 <= crate::util::spec_div_round_closest(
            old(i2c).ref_clk as int,
            90_000 * crate::i2c::CLK_DIV_BUILTIN,
        ) <= crate::i2c::MAX_DIV_A * crate::i2c::MAX_DIV_B,
        old(i2c).ref_clk + 10_000_000 <= u32::MAX,
    ensures
        r matches Ok(c) ==> c.wf(),
        (r == Err::<GeneralConfig, SpdReadError>(SpdReadError::SclkUnreachable))
            <==> crate::i2c::spec_sclk_divisors(
            old(i2c).ref_clk as int,
            crate::i2c::spec_adjusted_sclk(100_000),
        ).0 == 0,
        forall|i: int|
            0 <= i < old(i2c).regs.written().len() ==> final(i2c).regs.written()[i] == old(
                i2c,
            ).regs.written()[i],
        crate::i2c::data_writes(
            final(i2c).regs.written(),
            old(i2c).regs.written().len() as int,
        ).is_prefix_of(spec_spd_commands()),
        !(r == Err::<GeneralConfig, SpdReadError>(SpdReadError::SclkUnreachable))
            ==> crate::i2c::data_writes(
            final(i2c).regs.written(),
            old(i2c).regs.written().len() as int,
        ).len() >= 1,
        r matches Err(SpdReadError::MuxSelectFailed { value }) ==> value != I2C_MUX_SEL,
        r matches Ok(c) ==> crate::i2c::data_writes(
            final(i2c).regs.written(),
            old(i2c).regs.written().len() as int,
        ) == spec_spd_commands(),
{
    let ghost n0 = i2c.regs.written().len() as int;
    proof {
        crate::i2c::lemma_data_writes_empty(i2c.regs.written());
        assert(spec_spd_commands().take(0) =~= Seq::<u32>::empty());
    }

    // set clock
    let ghost wb = i2c.regs.written();
    if i2c.set_sclk(100_000).is_err() {
        return Err(SpdReadError::SclkUnreachable);
    }
    proof {
        crate::i2c::lemma_data_writes_extend(wb, i2c.regs.written(), n0);
    }

    // set mux to DDR
    let sel = vec![I2C_MUX_SEL];
    let ghost wb = i2c.regs.written();
    let mux_write = i2c.master_write_polled(crate::i2c::MUX_ADDR, 1, sel.as_slice());
    proof {
        assert(i2c.regs.written().take(wb.len() as int) =~= wb);
        crate::i2c::lemma_data_writes_split(i2c.regs.written(), n0, wb.len() as int);
        assert(sel@.take(1).map(|k: int, b: u8| b as u32) =~= seq![I2C_MUX_SEL as u32]);
        lemma_spd_commands_step(
            crate::i2c::data_writes(i2c.regs.written(), n0),
            crate::i2c::data_writes(wb, n0),
            crate::i2c::data_writes(i2c.regs.written(), wb.len() as int),
            0,
        );
    }
    match mux_write {
        Ok(()) => (),
        Err(isr) => {
            return Err(SpdReadError::Bus { isr });
        },
    }
    if !wait_not_busy(i2c) {
        return Err(SpdReadError::BusStuck);
    }

    // read back the selection to confirm
    let mut readback = vec![0u8; 1];
    let ghost wb = i2c.regs.written();
    let mux_read = i2c.master_read_polled(crate::i2c::MUX_ADDR, 1, &mut readback);
    proof {
        assert(i2c.regs.written().take(wb.len() as int) =~= wb);
        crate::i2c::lemma_data_writes_split(i2c.regs.written(), n0, wb.len() as int);
        assert(crate::i2c::data_writes(i2c.regs.written(), n0) =~= crate::i2c::data_writes(
            wb,
            n0,
        ));
    }
    match mux_read {
        Ok(()) => (),
        Err(isr) => {
            return Err(SpdReadError::Bus { isr });
        },
    }
    if readback[0] != I2C_MUX_SEL {
        return Err(SpdReadError::MuxSelectFailed { value: readback[0] });
    }

    // enable access to the lower page and set the start address
    let zero = vec![0u8];
    let ghost wb = i2c.regs.written();
    let page_write = i2c.master_write_polled(I2C_CTRL_ADDR_LO, 1, zero.as_slice());
    proof {
        assert(i2c.regs.written().take(wb.len() as int) =~= wb);
        crate::i2c::lemma_data_writes_split(i2c.regs.written(), n0, wb.len() as int);
        assert(zero@.take(1).map(|k: int, b: u8| b as u32) =~= seq![0u32]);
        lemma_spd_commands_step(
            crate::i2c::data_writes(i2c.regs.written(), n0),
            crate::i2c::data_writes(wb, n0),
            crate::i2c::data_writes(i2c.regs.written(), wb.len() as int),
            1,
        );
    }
    match page_write {
        Ok(()) => (),
        Err(isr) => {
            return Err(SpdReadError::Bus { isr });
        },
    }
    if !wait_not_busy(i2c) {
        return Err(SpdReadError::BusStuck);
    }
    let ghost wb = i2c.regs.written();
    let addr_write = i2c.master_write_polled(I2C_ADDR, 1, zero.as_slice());
    proof {
        assert(i2c.regs.written().take(wb.len() as int) =~= wb);
        crate::i2c::lemma_data_writes_split(i2c.regs.written(), n0, wb.len() as int);
        assert(zero@.take(1).map(|k: int, b: u8| b as u32) =~= seq![0u32]);
        lemma_spd_commands_step(
            crate::i2c::data_writes(i2c.regs.written(), n0),
            crate::i2c::data_writes(wb, n0),
            crate::i2c::data_writes(i2c.regs.written(), wb.len() as int),
            2,
        );
    }
    match addr_write {
        Ok(()) => (),
        Err(isr) => {
            return Err(SpdReadError::Bus { isr });
        },
    }
    if !wait_not_busy(i2c) {
        return Err(SpdReadError::BusStuck);
    }

    // read the lower page
    let mut lower = vec![0u8; 256];
    let ghost wb = i2c.regs.written();
    let lower_read = i2c.master_read_polled(I2C_ADDR, 256, &mut lower);
    proof {
        assert(i2c.regs.written().take(wb.len() as int) =~= wb);
        crate::i2c::lemma_data_writes_split(i2c.regs.written(), n0, wb.len() as int);
        assert(crate::i2c::data_writes(i2c.regs.written(), n0) =~= crate::i2c::data_writes(
            wb,
            n0,
        ));
    }
    match lower_read {
        Ok(()) => (),
        Err(isr) => {
            return Err(SpdReadError::Bus { isr });
        },
    }
    if !wait_not_busy(i2c) {
        return Err(SpdReadError::BusStuck);
    }

    // enable access to the upper page and set the start address
    let one = vec![1u8];
    let ghost wb = i2c.regs.written();
    let page_write = i2c.master_write_polled(I2C_CTRL_ADDR_HI, 1, one.as_slice());
    proof {
        assert(i2c.regs.written().take(wb.len() as int) =~= wb);
        crate::i2c::lemma_data_writes_split(i2c.regs.written(), n0, wb.len() as int);
        assert(one@.take(1).map(|k: int, b: u8| b as u32) =~= seq![1u32]);
        lemma_spd_commands_step(
            crate::i2c::data_writes(i2c.regs.written(), n0),
            crate::i2c::data_writes(wb, n0),
            crate::i2c::data_writes(i2c.regs.written(), wb.len() as int),
            3,
        );
    }
    match page_write {
        Ok(()) => (),
        Err(isr) => {
            return Err(SpdReadError::Bus { isr });
        },
    }
    if !wait_not_busy(i2c) {
        return Err(SpdReadError::BusStuck);
    }
    let ghost wb = i2c.regs.written();
    let addr_write = i2c.master_write_polled(I2C_ADDR, 1, zero.as_slice());
    proof {
        assert(i2c.regs.written().take(wb.len() as int) =~= wb);
        crate::i2c::lemma_data_writes_split(i2c.regs.written(), n0, wb.len() as int);
        assert(zero@.take(1).map(|k: int, b: u8| b as u32) =~= seq![0u32]);
        lemma_spd_commands_step(
            crate::i2c::data_writes(i2c.regs.written(), n0),
            crate::i2c::data_writes(wb, n0),
            crate::i2c::data_writes(i2c.regs.written(), wb.len() as int),
            4,
        );
    }
    match addr_write {
        Ok(()) => (),
        Err(isr) => {
            return Err(SpdReadError::Bus { isr });
        },
    }
    if !wait_not_busy(i2c) {
        return Err(SpdReadError::BusStuck);
    }

    // read the upper page
    let mut upper = vec![0u8; 256];
    let ghost wb = i2c.regs.written();
    let upper_read = i2c.master_read_polled(I2C_ADDR, 256, &mut upper);
    proof {
        assert(i2c.regs.written().take(wb.len() as int) =~= wb);
        crate::i2c::lemma_data_writes_split(i2c.regs.written(), n0, wb.len() as int);
        assert(crate::i2c::data_writes(i2c.regs.written(), n0) =~= crate::i2c::data_writes(
            wb,
            n0,
        ));
    }
    match upper_read {
        Ok(()) => (),
        Err(isr) => {
            return Err(SpdReadError::Bus { isr });
        },
    }
    if !wait_not_busy(i2c) {
        return Err(SpdReadError::BusStuck);
    }

    let mut spd_data: [u8; 512] = [0; 512];
    let mut i: usize = 0;
    while i < 256
        invariant
            i <= 256,
            lower@.len() == 256,
            upper@.len() == 256,
        decreases 256 - i,
    {
        spd_data[i] = lower[i];
        spd_data[256 + i] = upper[i];
        i += 1;
    }

    match GeneralConfig::from_spd_data(&spd_data) {
        Ok(c) => Ok(c),
        Err(error) => Err(SpdReadError::Invalid { error }),
    }
}

/// One command step of the EEPROM fetch: if the commands pushed so far are
/// exactly the first `k` of the fixed sequence and one transfer then
/// pushed a prefix of command `k`, the total stays a prefix of the fixed
/// sequence - and reaches the first `k + 1` commands when the transfer
/// pushed its whole byte.
proof fn lemma_spd_commands_step(now: Seq<u32>, prev: Seq<u32>, step: Seq<u32>, k: int)
    requires
        0 <= k < spec_spd_commands().len(),
        now == prev + step,
        prev =~= spec_spd_commands().take(k),
        step.is_prefix_of(seq![spec_spd_commands()[k]]),
    ensures
        now.is_prefix_of(spec_spd_commands()),
        step.len() == 1 ==> now =~= spec_spd_commands().take(k + 1),
{
    if step.len() == 0 {
        assert(now =~= prev);
        assert(now =~= spec_spd_commands().subrange(0, now.len() as int));
    } else {
        assert(step.len() == 1);
        assert(step[0] == spec_spd_commands()[k]);
        assert(now =~= spec_spd_commands().take(k + 1));
        assert(now =~= spec_spd_commands().subrange(0, now.len() as int));
    }
}

/// Wait, under a bounded try count, for the I2C bus to go idle; reports
/// whether it did.
fn wait_not_busy<B: crate::regbus::RegisterBus>(i2c: &mut crate::i2c::I2C<B>) -> (r: bool)
    ensures
        final(i2c).regs.written() == old(i2c).regs.written(),
        final(i2c).ref_clk == old(i2c).ref_clk,
{
    let mut tries: u32 = SPD_BUSY_TRIES;
    let mut busy = true;
    while tries > 0 && busy
        invariant
            i2c.regs.written() == old(i2c).regs.written(),
            i2c.ref_clk == old(i2c).ref_clk,
        decreases tries,
    {
        busy = i2c.busy();
        tries -= 1;
    }
    !busy
}

/// Decoding is deterministic: byte-identical SPD images always decode to
/// the same result, error or configuration alike.
pub proof fn lemma_decode_deterministic(s1: Seq<u8>, s2: Seq<u8>)
    requires
        s1 == s2,
    ensures
        spec_from_spd_data(s1) == spec_from_spd_data(s2),
{
}

/// Corrupting any byte of the CRC-protected range of a well-formed base
/// section makes the decode fail with a base-section CRC mismatch: the two
/// images agree everywhere except at one index below 126, the first passes
/// its base CRC check, and the second is rejected. Flipping a single bit
/// is a special case.
pub proof fn lemma_decode_rejects_corruption(s1: Seq<u8>, s2: Seq<u8>, i: int)
    requires
        s1.len() == 512,
        s2.len() == 512,
        0 <= i < 126,
        forall|j: int| 0 <= j < 512 && j != i ==> s1[j] == s2[j],
        s1[i] != s2[i],
        spec_base_crc_ok(s1),
    ensures
        !spec_base_crc_ok(s2),
        spec_from_spd_data(s2) == Err::<GeneralConfig, SpdError>(
            SpdError::CrcMismatch {
                section_offset: 0,
                expected: spec_stored_crc(s2, 126, 127),
                actual: spec_crc(s2.subrange(0, 126)),
            },
        ),
{
    let a1 = s1.subrange(0, 126);
    let a2 = s2.subrange(0, 126);
    assert(forall|j: int| 0 <= j < 126 && j != i ==> a1[j] == a2[j]);
    assert(a1[i] != a2[i]);
    crate::crc::lemma_crc_detects_byte_change(a1, a2, i);
    assert(spec_stored_crc(s1, 126, 127) == spec_stored_crc(s2, 126, 127));
}

/// Bit-level bounds used throughout the byte-field decoding.
pub proof fn lemma_mask_bounds()
    by (bit_vector)
    ensures
        forall|x: u8| #[trigger] (x & 0x1) <= 1,
        forall|x: u8| #[trigger] (x & 0x3) <= 3,
        forall|x: u8| #[trigger] (x & 0x7) <= 7,
        forall|x: u8| #[trigger] (x & 0xf) <= 15,
        forall|x: u8| #[trigger] (x & 0x1f) <= 31,
        forall|x: u8| #[trigger] (x >> 3) <= 31,
        forall|x: u8| #[trigger] (x >> 4) <= 15,
        forall|x: u8| #[trigger] (x >> 5) <= 7,
        forall|x: u8| #[trigger] (x >> 6) <= 3,
        forall|x: u8| #[trigger] (x >> 7) <= 1,
        forall|x: u8| x & 0x8 != 0x8 ==> #[trigger] (x & 0xf) < 8,
        forall|x: u8| x & 0x4 != 0x4 ==> #[trigger] (x & 0x7) < 4,
        forall|k: u8| k <= 7 ==> 256 <= #[trigger] (256u16 << k) <= 32768,
        forall|k: u8| k <= 3 ==> 4 <= #[trigger] (4u8 << k) <= 32,
        forall|k: u8| k <= 3 ==> (4u8 << k) == 4 || (4u8 << k) == 8 || (4u8 << k) == 16
            || (4u8 << k) == 32,
        forall|k: u8| k <= 3 ==> (8u8 << k) == 8 || (8u8 << k) == 16 || (8u8 << k) == 32
            || (8u8 << k) == 64,
        forall|x: u8| #[trigger] ((x >> 3) << 3) <= 248,
{
}

/// Which byte-0 encodings of the total EEPROM size are accepted.
pub open spec fn spec_bytes_total_ok(b: u8) -> bool {
    (b >> 4) & 0x7 == 1 || (b >> 4) & 0x7 == 2
}

pub open spec fn spec_bytes_total(b: u8) -> u16 {
    if (b >> 4) & 0x7 == 1 {
        256
    } else {
        512
    }
}

/// Which byte-0 encodings of the used byte count are accepted.
pub open spec fn spec_bytes_used_ok(b: u8) -> bool {
    1 <= (b & 0xf) <= 4
}

pub open spec fn spec_bytes_used(b: u8) -> u16 {
    (128 * (b & 0xf)) as u16
}

pub open spec fn spec_device_type_ok(b: u8) -> bool {
    b == 0x0b || b == 0x0c || b == 0x0f || b == 0x10
}

pub open spec fn spec_device_type(b: u8) -> DeviceType {
    if b == 0x0b {
        DeviceType::Ddr3
    } else if b == 0x0c {
        DeviceType::Ddr4
    } else if b == 0x0f {
        DeviceType::LpDdr3
    } else {
        DeviceType::LpDdr4
    }
}

/// Which byte-3 module types are accepted: the unbuffered family (UDIMM,
/// SO-DIMM and their ECC/mini variants).
pub open spec fn spec_module_type_ok(b: u8) -> bool {
    b & 0xf == 0b0010 || b & 0xf == 0b0011 || b & 0xf == 0b0110 || b & 0xf == 0b1001 || b & 0xf
        == 0b1100 || b & 0xf == 0b1101
}

pub open spec fn spec_byte4_ok(b: u8) -> bool {
    !(b >> 6 == 0x3 || (b >> 4) & 0x2 == 0x2 || b & 0x8 == 0x8)
}

pub open spec fn spec_byte5_ok(b: u8) -> bool {
    !((b >> 3) & 0x7 == 0x7 || b & 0x4 == 0x4)
}

pub open spec fn spec_byte6_ok(b: u8) -> bool {
    b & 0x3 != 0x3
}

pub open spec fn spec_byte7_ok(b: u8) -> bool {
    !((b >> 4) & 0x3 == 0x3 || b & 0x7 == 0x7 || (b & 0xf) > 8)
}

pub open spec fn spec_byte12_ok(b: u8) -> bool {
    !((b >> 3) & 0x4 == 0x4 || b & 0x4 == 0x4)
}

pub open spec fn spec_byte13_ok(b: u8) -> bool {
    !((b >> 3) & 0x2 == 0x2 || b & 0x4 == 0x4)
}

pub open spec fn spec_mtb_ok(b: u8) -> bool {
    (b >> 2) & 0x3 == 0
}

pub open spec fn spec_ftb_ok(b: u8) -> bool {
    b & 0x3 == 0
}

/// The timing value encoded by a coarse byte at `coarse` and a signed fine
/// offset byte at `fine`, in a valid image (medium timebase 125 ps, fine
/// timebase 1 ps).
pub open spec fn spec_timing(s: Seq<u8>, coarse: int, fine: int) -> u32 {
    spec_get_time_ps(125, 1, s[coarse] as u16, s[fine] as i8)
}

/// The configuration decoded from a valid image `s`.
pub open spec fn spec_config(s: Seq<u8>) -> GeneralConfig {
    GeneralConfig {
        spd_bytes_total: spec_bytes_total(s[0]),
        spd_bytes_used: spec_bytes_used(s[0]),
        spd_encoding: (s[1] >> 4) as u8,
        spd_additions: (s[1] & 0xf) as u8,
        device_type: spec_device_type(s[2]),
        module_config: ModuleConfig::Unbuffered(spec_unbuffered_fields(s.subrange(128, 256))),
        bg_addr_bits: (s[4] >> 6) as u8,
        bank_addr_bits: (((s[4] >> 4) & 0x3) + 2) as u8,
        capacity_megabits: (256u16 << (s[4] & 0xf)) as u16,
        row_addr_bits: (((s[5] >> 3) & 0x7) + 12) as u8,
        col_addr_bits: ((s[5] & 0x7) + 9) as u8,
        package_type: if s[6] >> 7 == 0 {
            PackageType::Monolithic
        } else {
            PackageType::NonMonolithic
        },
        die_count: (((s[6] >> 4) & 0x7) + 1) as u8,
        signal_loading: if s[6] & 0x3 == 0b00 {
            SignalLoading::Unspecified
        } else if s[6] & 0x3 == 0b01 {
            SignalLoading::MultiLoadStack
        } else {
            SignalLoading::SingleLoadStack
        },
        t_maw: (8192u16 >> ((s[7] >> 4) & 0x3)) as u16,
        mac: (s[7] & 0xf) as u8,
        vdd_12_endurant: s[11] & 0x2 == 0x2,
        vdd_12_operable: s[11] & 0x1 == 0x1,
        package_ranks: (((s[12] >> 3) & 0x7) + 1) as u8,
        device_width: (4u8 << (s[12] & 0x7)) as u8,
        bus_width_extension: (((s[13] >> 3) & 0x3) << 3) as u8,
        bus_width: (8u8 << (s[13] & 0x7)) as u8,
        has_thermal_sensor: s[14] & 0x80 == 0x80,
        mtb_ps: 125,
        ftb_ps: 1,
        t_ckavg_min_ps: spec_timing(s, 18, 125),
        t_ckavg_max_ps: spec_timing(s, 19, 124),
        supported_cas_latencies: (s[20] as u32) | ((s[21] as u32) << 8) | ((s[22] as u32) << 16)
            | ((s[23] as u32) << 24),
        t_aa_min_ps: spec_timing(s, 24, 123),
        t_rcd_min_ps: spec_timing(s, 25, 122),
        t_rp_min_ps: spec_timing(s, 26, 121),
        t_ras_min_ps: spec_get_time_ps(
            125,
            1,
            (((s[27] as u16) & 0x0f) << 8) | (s[28] as u16),
            0,
        ),
        t_rc_min_ps: spec_get_time_ps(
            125,
            1,
            (((s[27] as u16) & 0xf0) << 4) | (s[29] as u16),
            s[120] as i8,
        ),
        t_rfc1_min_ps: spec_get_time_ps(125, 1, ((s[31] as u16) << 8) | (s[30] as u16), 0),
        t_rfc2_min_ps: spec_get_time_ps(125, 1, ((s[33] as u16) << 8) | (s[32] as u16), 0),
        t_rfc4_min_ps: spec_get_time_ps(125, 1, ((s[35] as u16) << 8) | (s[34] as u16), 0),
        t_faw_min_ps: spec_get_time_ps(
            125,
            1,
            (((s[36] as u16) & 0xf) << 8) | (s[37] as u16),
            0,
        ),
        t_rrd_s_min_ps: spec_timing(s, 38, 119),
        t_rrd_l_min_ps: spec_timing(s, 39, 118),
        t_ccd_l_min_ps: spec_timing(s, 40, 117),
        dq_map: spec_dq_map(s),
        dm_en: true,
        rd_dbi_en: false,
        wr_dbi_en: false,
        ecc_en: false,
        en_2nd_clk: false,
        parity_en: false,
        crc_en: false,
        power_down_en: false,
        clock_stop_en: false,
        self_ref_en: false,
        lp_auto_self_ref: false,
        temp_ref_mode: false,
        temp_ref_range: false,
        fine_granularity_ref_mode: FineGranularityRefMode::X1,
        self_ref_abort: false,
        v_ref: true,
        geardown: false,
    }
}

/// What the DQ map holds: byte `i` of the map is image byte `60 + i`.
pub open spec fn spec_dq_map_is(s: Seq<u8>, m: [u8; 18]) -> bool {
    forall|i: int| 0 <= i < 18 ==> m@[i] == s[60 + i]
}

/// The DQ-to-nibble routing map, bytes 60-77: the unique 18-byte array that
/// copies them.
pub open spec fn spec_dq_map(s: Seq<u8>) -> [u8; 18] {
    choose|m: [u8; 18]| spec_dq_map_is(s, m)
}

/// The full decode of a 512-byte SPD image: the first failing integrity
/// check decides the error; a fully valid image yields its configuration.
pub open spec fn spec_from_spd_data(s: Seq<u8>) -> Result<GeneralConfig, SpdError> {
    if !spec_base_crc_ok(s) {
        Err(SpdError::CrcMismatch {
            section_offset: 0,
            expected: spec_stored_crc(s, 126, 127),
            actual: spec_crc(s.subrange(0, 126)),
        })
    } else if !spec_bytes_total_ok(s[0]) {
        Err(SpdError::ReservedField { byte: 0, value: s[0] })
    } else if !spec_bytes_used_ok(s[0]) {
        Err(SpdError::ReservedField { byte: 0, value: s[0] })
    } else if !spec_device_type_ok(s[2]) {
        Err(SpdError::ReservedField { byte: 2, value: s[2] })
    } else if !spec_module_type_ok(s[3]) {
        Err(SpdError::ReservedField { byte: 3, value: s[3] })
    } else if !spec_section_crc_ok(s.subrange(128, 256)) {
        Err(SpdError::CrcMismatch {
            section_offset: 128,
            expected: spec_stored_crc(s.subrange(128, 256), 126, 127),
            actual: spec_crc(s.subrange(128, 256).subrange(0, 126)),
        })
    } else if !spec_byte4_ok(s[4]) {
        Err(SpdError::ReservedField { byte: 4, value: s[4] })
    } else if !spec_byte5_ok(s[5]) {
        Err(SpdError::ReservedField { byte: 5, value: s[5] })
    } else if !spec_byte6_ok(s[6]) {
        Err(SpdError::ReservedField { byte: 6, value: s[6] })
    } else if !spec_byte7_ok(s[7]) {
        Err(SpdError::ReservedField { byte: 7, value: s[7] })
    } else if !spec_byte12_ok(s[12]) {
        Err(SpdError::ReservedField { byte: 12, value: s[12] })
    } else if !spec_byte13_ok(s[13]) {
        Err(SpdError::ReservedField { byte: 13, value: s[13] })
    } else if !spec_mtb_ok(s[17]) {
        Err(SpdError::ReservedField { byte: 17, value: s[17] })
    } else if !spec_ftb_ok(s[17]) {
        Err(SpdError::ReservedField { byte: 17, value: s[17] })
    } else {
        Ok(spec_config(s))
    }
}

impl GeneralConfig {
    /// The bounds that hold of every configuration a valid image decodes to.
    pub open spec fn wf(self) -> bool {
        &&& 2 <= self.bank_addr_bits <= 3
        &&& self.bg_addr_bits <= 2
        &&& 12 <= self.row_addr_bits <= 18
        &&& 9 <= self.col_addr_bits <= 12
        &&& 1 <= self.package_ranks <= 4
        &&& 1 <= self.die_count <= 8
        &&& (self.device_width == 4 || self.device_width == 8 || self.device_width == 16
            || self.device_width == 32)
        &&& (self.bus_width == 8 || self.bus_width == 16 || self.bus_width == 32
            || self.bus_width == 64)
        &&& 256 <= self.capacity_megabits <= 32768
        &&& self.mtb_ps == 125
        &&& self.ftb_ps == 1
    }

    /// Decode and validate a full 512-byte SPD image.
    #[verifier::rlimit(100)]
    pub fn from_spd_data(spd_data: &[u8; 512]) -> (r: Result<GeneralConfig, SpdError>)
        ensures
            r == spec_from_spd_data(spd_data@),
            r matches Ok(c) ==> c.wf(),
            r matches Ok(c) ==> spec_dq_map_is(spd_data@, c.dq_map),
    {
        let ghost s = spd_data@;
        proof {
            lemma_mask_bounds();
        }

        // base section CRC: bytes 0-125 against the value stored at 126-127
        let expected_crc: u16 = ((spd_data[127] as u16) << 8u16) | (spd_data[126] as u16);
        let actual_crc = crc_of_first_126(array_as_slice_512(spd_data));
        if expected_crc != actual_crc {
            return Err(SpdError::CrcMismatch {
                section_offset: 0,
                expected: expected_crc,
                actual: actual_crc,
            });
        }

        // 0
        let b0 = spd_data[0];
        let total_sel = (b0 >> 4u8) & 0x7;
        let spd_bytes_total: u16 = if total_sel == 1 {
            256
        } else if total_sel == 2 {
            512
        } else {
            return Err(SpdError::ReservedField { byte: 0, value: b0 });
        };
        let used_sel = b0 & 0xf;
        if used_sel < 1 || used_sel > 4 {
            return Err(SpdError::ReservedField { byte: 0, value: b0 });
        }
        let spd_bytes_used: u16 = 128 * (used_sel as u16);

        // 1
        let spd_encoding = spd_data[1] >> 4u8;
        let spd_additions = spd_data[1] & 0xf;

        // 2
        let b2 = spd_data[2];
        let device_type = if b2 == 0x0b {
            DeviceType::Ddr3
        } else if b2 == 0x0c {
            DeviceType::Ddr4
        } else if b2 == 0x0f {
            DeviceType::LpDdr3
        } else if b2 == 0x10 {
            DeviceType::LpDdr4
        } else {
            return Err(SpdError::ReservedField { byte: 2, value: b2 });
        };

        // 3: only the unbuffered module family is supported
        let b3 = spd_data[3] & 0xf;
        if !(b3 == 0b0010 || b3 == 0b0011 || b3 == 0b0110 || b3 == 0b1001 || b3 == 0b1100 || b3
            == 0b1101) {
            return Err(SpdError::ReservedField { byte: 3, value: spd_data[3] });
        }
        let section = copy_section(spd_data);
        let module_config = match UnbufferedConfig::from_spd_data(section.as_slice()) {
            Ok(u) => ModuleConfig::Unbuffered(u),
            Err(e) => {
                return Err(e);
            },
        };

        // 4
        let b4 = spd_data[4];
        if b4 >> 6u8 == 0x3 || (b4 >> 4u8) & 0x2 == 0x2 || b4 & 0x8 == 0x8 {
            return Err(SpdError::ReservedField { byte: 4, value: b4 });
        }
        let bg_addr_bits = b4 >> 6u8;
        let bank_addr_bits = ((b4 >> 4u8) & 0x3) + 2;
        let capacity_megabits: u16 = 256u16 << (b4 & 0xf);

        // 5
        let b5 = spd_data[5];
        if (b5 >> 3u8) & 0x7 == 0x7 || b5 & 0x4 == 0x4 {
            return Err(SpdError::ReservedField { byte: 5, value: b5 });
        }
        let row_addr_bits = ((b5 >> 3u8) & 0x7) + 12;
        let col_addr_bits = (b5 & 0x7) + 9;

        // 6
        let b6 = spd_data[6];
        if b6 & 0x3 == 0x3 {
            return Err(SpdError::ReservedField { byte: 6, value: b6 });
        }
        let package_type = if b6 >> 7u8 == 0 {
            PackageType::Monolithic
        } else {
            PackageType::NonMonolithic
        };
        let die_count = ((b6 >> 4u8) & 0x7) + 1;
        let signal_loading = if b6 & 0x3 == 0b00 {
            SignalLoading::Unspecified
        } else if b6 & 0x3 == 0b01 {
            SignalLoading::MultiLoadStack
        } else {
            SignalLoading::SingleLoadStack
        };

        // 7
        let b7 = spd_data[7];
        if (b7 >> 4u8) & 0x3 == 0x3 || b7 & 0x7 == 0x7 || (b7 & 0xf) > 8 {
            return Err(SpdError::ReservedField { byte: 7, value: b7 });
        }
        let t_maw: u16 = 8192u16 >> ((b7 >> 4u8) & 0x3);
        let mac = b7 & 0xf;

        // 11
        let vdd_12_endurant = spd_data[11] & 0x2 == 0x2;
        let vdd_12_operable = spd_data[11] & 0x1 == 0x1;

        // 12
        let b12 = spd_data[12];
        if (b12 >> 3u8) & 0x4 == 0x4 || b12 & 0x4 == 0x4 {
            return Err(SpdError::ReservedField { byte: 12, value: b12 });
        }
        let package_ranks = ((b12 >> 3u8) & 0x7) + 1;
        let device_width: u8 = 4u8 << (b12 & 0x7);

        // 13
        let b13 = spd_data[13];
        if (b13 >> 3u8) & 0x2 == 0x2 || b13 & 0x4 == 0x4 {
            return Err(SpdError::ReservedField { byte: 13, value: b13 });
        }
        let bus_width_extension = ((b13 >> 3u8) & 0x3) << 3u8;
        let bus_width: u8 = 8u8 << (b13 & 0x7);

        // 14
        let has_thermal_sensor = spd_data[14] & 0x80 == 0x80;

        // 17
        let b17 = spd_data[17];
        if (b17 >> 2u8) & 0x3 != 0 {
            return Err(SpdError::ReservedField { byte: 17, value: b17 });
        }
        let mtb_ps: u32 = 125;
        if b17 & 0x3 != 0 {
            return Err(SpdError::ReservedField { byte: 17, value: b17 });
        }
        let ftb_ps: u32 = 1;

        // composite timing fields: a coarse count in medium-timebase units and
        // a signed fine-offset byte stored near the end of the section
        let t_ckavg_min_ps = get_time_ps(mtb_ps, ftb_ps, spd_data[18] as u16, #[verifier::truncate] (spd_data[125] as i8));
        let t_ckavg_max_ps = get_time_ps(mtb_ps, ftb_ps, spd_data[19] as u16, #[verifier::truncate] (spd_data[124] as i8));

        // 20-23
        let supported_cas_latencies = (spd_data[20] as u32) | ((spd_data[21] as u32) << 8u32)
            | ((spd_data[22] as u32) << 16u32) | ((spd_data[23] as u32) << 24u32);

        let t_aa_min_ps = get_time_ps(mtb_ps, ftb_ps, spd_data[24] as u16, #[verifier::truncate] (spd_data[123] as i8));
        let t_rcd_min_ps = get_time_ps(mtb_ps, ftb_ps, spd_data[25] as u16, #[verifier::truncate] (spd_data[122] as i8));
        let t_rp_min_ps = get_time_ps(mtb_ps, ftb_ps, spd_data[26] as u16, #[verifier::truncate] (spd_data[121] as i8));

        // 27-29 and 120
        let n_mtb_t_ras = (((spd_data[27] as u16) & 0x0f) << 8u16) | (spd_data[28] as u16);
        let n_mtb_t_rc = (((spd_data[27] as u16) & 0xf0) << 4u16) | (spd_data[29] as u16);
        let t_ras_min_ps = get_time_ps(mtb_ps, ftb_ps, n_mtb_t_ras, 0);
        let t_rc_min_ps = get_time_ps(mtb_ps, ftb_ps, n_mtb_t_rc, #[verifier::truncate] (spd_data[120] as i8));

        // 30-35
        let n_mtb_t_rfc1 = ((spd_data[31] as u16) << 8u16) | (spd_data[30] as u16);
        let t_rfc1_min_ps = get_time_ps(mtb_ps, ftb_ps, n_mtb_t_rfc1, 0);
        let n_mtb_t_rfc2 = ((spd_data[33] as u16) << 8u16) | (spd_data[32] as u16);
        let t_rfc2_min_ps = get_time_ps(mtb_ps, ftb_ps, n_mtb_t_rfc2, 0);
        let n_mtb_t_rfc4 = ((spd_data[35] as u16) << 8u16) | (spd_data[34] as u16);
        let t_rfc4_min_ps = get_time_ps(mtb_ps, ftb_ps, n_mtb_t_rfc4, 0);

        // 36-37
        let n_mtb_t_faw = (((spd_data[36] as u16) & 0xf) << 8u16) | (spd_data[37] as u16);
        let t_faw_min_ps = get_time_ps(mtb_ps, ftb_ps, n_mtb_t_faw, 0);

        let t_rrd_s_min_ps = get_time_ps(mtb_ps, ftb_ps, spd_data[38] as u16, #[verifier::truncate] (spd_data[119] as i8));
        let t_rrd_l_min_ps = get_time_ps(mtb_ps, ftb_ps, spd_data[39] as u16, #[verifier::truncate] (spd_data[118] as i8));
        let t_ccd_l_min_ps = get_time_ps(mtb_ps, ftb_ps, spd_data[40] as u16, #[verifier::truncate] (spd_data[117] as i8));

        // 60-77
        let dq_map = read_dq_map(spd_data);

        proof {
            assert(((b4 >> 4u8) & 0x3) <= 1 && (b4 >> 6u8) <= 2 && (b4 & 0xf) < 8)
                by (bit_vector)
                requires
                    !(b4 >> 6u8 == 0x3 || (b4 >> 4u8) & 0x2 == 0x2 || b4 & 0x8 == 0x8),
            ;
            assert(((b5 >> 3u8) & 0x7) <= 6 && (b5 & 0x7) <= 3) by (bit_vector)
                requires
                    !((b5 >> 3u8) & 0x7 == 0x7 || b5 & 0x4 == 0x4),
            ;
            assert(((b6 >> 4u8) & 0x7) <= 7) by (bit_vector);
            assert(((b12 >> 3u8) & 0x7) <= 3 && (b12 & 0x7) <= 3) by (bit_vector)
                requires
                    !((b12 >> 3u8) & 0x4 == 0x4 || b12 & 0x4 == 0x4),
            ;
            assert((b13 & 0x7) <= 3) by (bit_vector)
                requires
                    !(b13 & 0x4 == 0x4),
            ;
            assert(forall|k: u8| k < 8 ==> 256 <= #[trigger] (256u16 << k) <= 32768)
                by (bit_vector);
            assert(forall|k: u8|
                k <= 3 ==> ((4u8 << k) == 4 || (4u8 << k) == 8 || #[trigger] (4u8 << k) == 16 || (
                4u8 << k) == 32)) by (bit_vector);
            assert(forall|k: u8|
                k <= 3 ==> ((8u8 << k) == 8 || (8u8 << k) == 16 || #[trigger] (8u8 << k) == 32 || (
                8u8 << k) == 64)) by (bit_vector);
        }

        Ok(GeneralConfig {
            spd_bytes_total,
            spd_bytes_used,
            spd_encoding,
            spd_additions,
            device_type,
            module_config,
            bg_addr_bits,
            bank_addr_bits,
            capacity_megabits,
            row_addr_bits,
            col_addr_bits,
            package_type,
            die_count,
            signal_loading,
            t_maw,
            mac,
            vdd_12_endurant,
            vdd_12_operable,
            package_ranks,
            device_width,
            bus_width_extension,
            bus_width,
            has_thermal_sensor,
            mtb_ps,
            ftb_ps,
            t_ckavg_min_ps,
            t_ckavg_max_ps,
            supported_cas_latencies,
            t_aa_min_ps,
            t_rcd_min_ps,
            t_rp_min_ps,
            t_ras_min_ps,
            t_rc_min_ps,
            t_rfc1_min_ps,
            t_rfc2_min_ps,
            t_rfc4_min_ps,
            t_faw_min_ps,
            t_rrd_s_min_ps,
            t_rrd_l_min_ps,
            t_ccd_l_min_ps,
            dq_map,
            dm_en: true,
            rd_dbi_en: false,
            wr_dbi_en: false,
            ecc_en: false,
            en_2nd_clk: false,
            parity_en: false,
            crc_en: false,
            power_down_en: false,
            clock_stop_en: false,
            self_ref_en: false,
            lp_auto_self_ref: false,
            temp_ref_mode: false,
            temp_ref_range: false,
            fine_granularity_ref_mode: FineGranularityRefMode::X1,
            self_ref_abort: false,
            v_ref: true,
            geardown: false,
        })
    }
}

// hardcoded burst length for DDR4
pub const DDR4_BURST_LEN: u8 = 8;

// max t_refi for DDR4 (normal temperature range)
pub const DDR4_TREFI_MAX_PS: u32 = 7_800_000;

// for converting between a size in MiB and a number of address bits
pub const LOG2_1_MIB: u32 = 23;

impl GeneralConfig {
    /// Maximum clock frequency in MHz, from the minimum clock period.
    pub open spec fn spec_max_clk_mhz(self) -> int {
        1_000_000int / (self.t_ckavg_min_ps as int)
    }

    /// Calculate maximum clock frequency in MHz from t_ck_min.
    pub fn max_clk_mhz(&self) -> (r: u32)
        requires
            self.t_ckavg_min_ps >= 1,
        ensures
            r == self.spec_max_clk_mhz(),
    {
        1_000_000 / self.t_ckavg_min_ps
    }

    /// Minimum clock frequency in MHz, from the maximum clock period.
    pub open spec fn spec_min_clk_mhz(self) -> int {
        1_000_000int / (self.t_ckavg_max_ps as int)
    }

    /// Calculate minimum clock frequency in MHz from t_ck_max.
    pub fn min_clk_mhz(&self) -> (r: u32)
        requires
            self.t_ckavg_max_ps >= 1,
        ensures
            r == self.spec_min_clk_mhz(),
    {
        1_000_000 / self.t_ckavg_max_ps
    }

    /// DDR speed bin: the data rate in MT/s, twice the maximum clock.
    pub open spec fn spec_speed_bin_mhz(self) -> int {
        crate::util::spec_div_ceil(2_000_000, self.t_ckavg_min_ps as int)
    }

    /// DDR speed bin (2 * `max_clk_mhz`).
    pub fn speed_bin_mhz(&self) -> (r: u32)
        requires
            self.t_ckavg_min_ps >= 1,
        ensures
            r == self.spec_speed_bin_mhz(),
    {
        crate::util::div_ceil(2_000_000, self.t_ckavg_min_ps)
    }

    /// Number of bank groups.
    pub fn bank_groups(&self) -> (r: u8)
        requires
            self.wf(),
        ensures
            r == self.bg_addr_bits * 2,
    {
        self.bg_addr_bits * 2
    }

    /// Number of banks per bank group.
    pub fn banks_per_group(&self) -> (r: u8)
        requires
            self.wf(),
        ensures
            r == (1u8 << self.bank_addr_bits),
    {
        1u8 << self.bank_addr_bits
    }

    /// Logical ranks: one per package rank for monolithic and multi-load
    /// stacked parts, one per die per package rank for 3D-stacked parts.
    pub open spec fn spec_logical_ranks(self) -> int {
        match (self.package_type, self.signal_loading) {
            (PackageType::Monolithic, _) => self.package_ranks as int,
            (PackageType::NonMonolithic, SignalLoading::MultiLoadStack) => self.package_ranks as int,
            _ => self.package_ranks * self.die_count,
        }
    }

    /// Calculate the number of logical ranks: the individually addressable
    /// dies of a 3D stack, or the package ranks for monolithic and
    /// multi-load-stack parts.
    pub fn logical_ranks(&self) -> (r: u8)
        requires
            self.wf(),
        ensures
            r == self.spec_logical_ranks(),
            1 <= r <= 32,
    {
        proof {
            assert(1 <= self.package_ranks * self.die_count <= 32) by (nonlinear_arith)
                requires
                    1 <= self.package_ranks <= 4,
                    1 <= self.die_count <= 8,
            ;
        }
        match (self.package_type, self.signal_loading) {
            (PackageType::Monolithic, _) => self.package_ranks,
            (PackageType::NonMonolithic, SignalLoading::MultiLoadStack) => self.package_ranks,
            _ => self.package_ranks * self.die_count,
        }
    }

    /// Number of address bits needed for the logical ranks: the ceiling of
    /// the base-2 logarithm, written out for the bounded rank counts.
    pub open spec fn spec_rank_addr_bits(self) -> int {
        let lr = self.spec_logical_ranks();
        if lr <= 1 {
            0
        } else if lr <= 2 {
            1
        } else if lr <= 4 {
            2
        } else if lr <= 8 {
            3
        } else if lr <= 16 {
            4
        } else {
            5
        }
    }

    /// Calculate the number of (logical) rank address bits.
    pub fn rank_addr_bits(&self) -> (r: u8)
        requires
            self.wf(),
        ensures
            r == self.spec_rank_addr_bits(),
    {
        let lr = self.logical_ranks();
        if lr <= 1 {
            0
        } else if lr <= 2 {
            1
        } else if lr <= 4 {
            2
        } else if lr <= 8 {
            3
        } else if lr <= 16 {
            4
        } else {
            5
        }
    }

    /// Capacity of one logical rank in megabytes.
    pub open spec fn spec_rank_capacity_megabytes(self) -> int {
        (self.capacity_megabits as int) / 8 * (self.bus_width as int) / (self.device_width as int)
    }

    /// Calculate rank capacity.
    pub fn rank_capacity_megabytes(&self) -> (r: u32)
        requires
            self.wf(),
        ensures
            r == self.spec_rank_capacity_megabytes(),
            8 <= r <= 262144,
    {
        proof {
            self.lemma_rank_capacity_bounds();
        }
        self.capacity_megabits as u32 / 8 * self.bus_width as u32 / self.device_width as u32
    }

    /// The rank capacity of a well-formed configuration is between 8 MiB
    /// (smallest device, widest chip) and 256 GiB over 8 MiB steps.
    proof fn lemma_rank_capacity_bounds(self)
        requires
            self.wf(),
        ensures
            8 <= self.spec_rank_capacity_megabytes() <= 262144,
    {
        let cap8 = (self.capacity_megabits as int) / 8;
        assert(32 <= cap8 <= 4096);
        assert(8 * 32 <= cap8 * (self.bus_width as int) <= 4096 * 64) by (nonlinear_arith)
            requires
                32 <= cap8 <= 4096,
                8 <= self.bus_width <= 64,
        ;
        assert(8 <= cap8 * (self.bus_width as int) / (self.device_width as int) <= 262144) by (nonlinear_arith)
            requires
                256 <= cap8 * (self.bus_width as int) <= 262144,
                4 <= self.device_width <= 32,
        ;
    }

    /// Total module capacity in megabytes.
    pub open spec fn spec_module_capacity_megabytes(self) -> int {
        self.spec_rank_capacity_megabytes() * self.spec_logical_ranks()
    }

    /// Calculate module capacity: rank capacity times logical ranks.
    pub fn module_capacity_megabytes(&self) -> (r: u32)
        requires
            self.wf(),
        ensures
            r == self.spec_module_capacity_megabytes(),
    {
        let rc = self.rank_capacity_megabytes();
        let lr = self.logical_ranks();
        proof {
            assert(rc * lr <= 262144 * 32) by (nonlinear_arith)
                requires
                    0 <= rc <= 262144,
                    0 <= lr <= 32,
            ;
        }
        rc * lr as u32
    }

    /// Clock cycle count for a duration in picoseconds: the ceiling of
    /// `time_ps / t_ck` less the 0.01-cycle guardband the JEDEC conversion
    /// rule prescribes, never negative.
    pub open spec fn spec_ps_to_nck(self, time_ps: int) -> int {
        let tck = self.t_ckavg_min_ps as int;
        if 100 * time_ps <= tck {
            0
        } else {
            crate::util::spec_div_ceil(100 * time_ps - tck, 100 * tck)
        }
    }

    /// Convert a parameter given in picoseconds to a number of clock cycles,
    /// rounding up with a guardband factor of 0.01 clocks per the spec.
    pub fn ps_to_nck(&self, time_ps: u32) -> (r: u32)
        requires
            self.t_ckavg_min_ps >= 1,
        ensures
            r == self.spec_ps_to_nck(time_ps as int),
            r <= time_ps,
    {
        let tck: u64 = self.t_ckavg_min_ps as u64;
        let num: u64 = 100u64 * (time_ps as u64);
        if num <= tck {
            0
        } else {
            let a: u64 = num - tck;
            let b: u64 = 100u64 * tck;
            let q: u64 = a / b;
            let rest: u64 = a % b;
            let r64: u64 = if rest == 0 {
                q
            } else {
                q + 1
            };
            proof {
                self.lemma_ps_to_nck_bound(time_ps as int);
            }
            r64 as u32
        }
    }

    /// The cycle count never exceeds the picosecond count (one cycle is at
    /// least one picosecond).
    proof fn lemma_ps_to_nck_bound(self, time_ps: int)
        requires
            self.t_ckavg_min_ps >= 1,
            0 <= time_ps,
            100 * time_ps > self.t_ckavg_min_ps,
        ensures
            0 <= self.spec_ps_to_nck(time_ps) <= time_ps,
    {
        let tck = self.t_ckavg_min_ps as int;
        let a = 100 * time_ps - tck;
        let b = 100 * tck;
        vstd::arithmetic::div_mod::lemma_div_pos_is_pos(a, b);
        // a / b <= a / 100 since b >= 100
        vstd::arithmetic::div_mod::lemma_div_is_ordered_by_denominator(a, 100, b);
        // a <= 100 * (time_ps - 1) + 99, whose quotient by 100 is time_ps - 1
        vstd::arithmetic::div_mod::lemma_div_is_ordered(a, 100 * (time_ps - 1) + 99, 100);
        vstd::arithmetic::div_mod::lemma_div_multiples_vanish_fancy(time_ps - 1, 99, 100);
        assert(a / b <= time_ps - 1);
    }

    pub fn burst_len(&self) -> (r: u8)
        ensures
            r == DDR4_BURST_LEN,
    {
        DDR4_BURST_LEN
    }

    /// Position of the top rank-capacity address bit: floor log2 of the rank
    /// capacity in megabytes, plus the 23 bits that address within 1 MiB.
    pub open spec fn spec_row_density(self) -> int {
        spec_floor_log2(self.spec_rank_capacity_megabytes()) + LOG2_1_MIB
    }

    pub fn row_density(&self) -> (r: u32)
        requires
            self.wf(),
        ensures
            r == self.spec_row_density(),
    {
        let cap = self.rank_capacity_megabytes();
        let bits = floor_log2(cap);
        bits + LOG2_1_MIB
    }

    /// Maximum refresh interval for DDR4 in the normal temperature range.
    pub fn t_refi(&self) -> (r: u32)
        ensures
            r == DDR4_TREFI_MAX_PS,
    {
        DDR4_TREFI_MAX_PS
    }

    /// CAS latency in clock cycles, with the read-DBI penalty when enabled.
    pub open spec fn spec_cas_latency_ns(self) -> int {
        let extra: int = if self.rd_dbi_en {
            if self.spec_max_clk_mhz() <= 933 {
                2
            } else {
                3
            }
        } else {
            0
        };
        crate::util::spec_div_ceil(self.t_aa_min_ps as int, 1000) + 1 + extra
    }

    pub fn cas_latency_ns(&self) -> (r: u32)
        requires
            self.t_ckavg_min_ps >= 1,
        ensures
            r == self.spec_cas_latency_ns(),
    {
        let mut extra: u32 = 0;
        if self.rd_dbi_en {
            if self.max_clk_mhz() <= 933 {
                extra = 2;
            } else {
                extra = 3;
            }
        }
        let base = crate::util::div_ceil(self.t_aa_min_ps, 1000);
        proof {
            assert(base <= self.t_aa_min_ps / 1000 + 1);
        }
        base + 1 + extra
    }

    pub open spec fn spec_cas_write_latency_ns(self) -> int {
        crate::util::spec_div_ceil(self.t_aa_min_ps as int, 1000)
    }

    pub fn cas_write_latency_ns(&self) -> (r: u32)
        ensures
            r == self.spec_cas_write_latency_ns(),
    {
        crate::util::div_ceil(self.t_aa_min_ps, 1000)
    }

    /// The refresh cycle time for the selected fine granularity mode.
    pub open spec fn spec_t_rfc_min_ps(self) -> int {
        match self.fine_granularity_ref_mode {
            FineGranularityRefMode::X1 => self.t_rfc1_min_ps as int,
            FineGranularityRefMode::X2 => self.t_rfc2_min_ps as int,
            FineGranularityRefMode::X4 => self.t_rfc4_min_ps as int,
        }
    }

    pub fn t_rfc_min_ps(&self) -> (r: u32)
        ensures
            r == self.spec_t_rfc_min_ps(),
    {
        match self.fine_granularity_ref_mode {
            FineGranularityRefMode::X1 => self.t_rfc1_min_ps,
            FineGranularityRefMode::X2 => self.t_rfc2_min_ps,
            FineGranularityRefMode::X4 => self.t_rfc4_min_ps,
        }
    }

    /// The DDR controller runs at half the DRAM clock.
    pub open spec fn spec_ctl_clock_mhz(self) -> int {
        self.spec_max_clk_mhz() / 2
    }

    pub fn ctl_clock_mhz(&self) -> (r: u32)
        requires
            self.t_ckavg_min_ps >= 1,
        ensures
            r == self.spec_ctl_clock_mhz(),
    {
        self.max_clk_mhz() / 2
    }

    /// Exit power-down timing: the greater of 4 clocks or 6 ns.
    pub open spec fn spec_t_xp_nck(self) -> int {
        if self.spec_ps_to_nck(6_000) > 4 {
            self.spec_ps_to_nck(6_000)
        } else {
            4
        }
    }

    pub fn t_xp_nck(&self) -> (r: u32)
        requires
            self.t_ckavg_min_ps >= 1,
        ensures
            r == self.spec_t_xp_nck(),
    {
        let n = self.ps_to_nck(6_000);
        if n > 4 {
            n
        } else {
            4
        }
    }

    /// Command/address parity latency for the speed bin, zero when parity is
    /// disabled.
    pub open spec fn spec_parity_latency_nck(self) -> int {
        if self.parity_en {
            if self.spec_speed_bin_mhz() < 2400 {
                4
            } else if self.spec_speed_bin_mhz() < 2933 {
                5
            } else {
                6
            }
        } else {
            0
        }
    }

    pub fn parity_latency_nck(&self) -> (r: u32)
        requires
            self.t_ckavg_min_ps >= 1,
        ensures
            r == self.spec_parity_latency_nck(),
    {
        if self.parity_en {
            if self.speed_bin_mhz() < 2400 {
                4
            } else if self.speed_bin_mhz() < 2933 {
                5
            } else {
                6
            }
        } else {
            0
        }
    }

    /// Additive latency is not used: always zero.
    pub fn additive_latency_nck(&self) -> (r: u32)
        ensures
            r == 0,
    {
        0
    }

    /// Whether this is a registered module (which costs one extra latency
    /// cycle through the register).
    pub open spec fn spec_is_registered(self) -> bool {
        self.module_config matches ModuleConfig::Registered(_)
    }

    /// Total read latency in clock cycles: CAS latency plus additive and
    /// parity latency, plus one cycle for a registered module.
    pub open spec fn spec_read_latency_nck(self) -> int {
        self.spec_ps_to_nck(self.spec_cas_latency_ns() * 1000) + self.spec_parity_latency_nck() + (
        if self.spec_is_registered() {
            1int
        } else {
            0int
        })
    }

    pub fn read_latency_nck(&self) -> (r: u32)
        requires
            self.t_ckavg_min_ps >= 1,
            self.spec_cas_latency_ns() * 1000 + 7 <= u32::MAX,
        ensures
            r == self.spec_read_latency_nck(),
    {
        let registered: u32 = match self.module_config {
            ModuleConfig::Registered(_) => 1,
            _ => 0,
        };
        self.ps_to_nck(self.cas_latency_ns() * 1000) + self.additive_latency_nck()
            + self.parity_latency_nck() + registered
    }

    /// Total write latency in clock cycles, built like the read latency from
    /// the CAS write latency.
    pub open spec fn spec_write_latency_nck(self) -> int {
        self.spec_ps_to_nck(self.spec_cas_write_latency_ns() * 1000) + self.spec_parity_latency_nck()
            + (if self.spec_is_registered() {
            1int
        } else {
            0int
        })
    }

    pub fn write_latency_nck(&self) -> (r: u32)
        requires
            self.t_ckavg_min_ps >= 1,
            self.spec_cas_write_latency_ns() * 1000 + 7 <= u32::MAX,
        ensures
            r == self.spec_write_latency_nck(),
    {
        let registered: u32 = match self.module_config {
            ModuleConfig::Registered(_) => 1,
            _ => 0,
        };
        self.ps_to_nck(self.cas_write_latency_ns() * 1000) + self.additive_latency_nck()
            + self.parity_latency_nck() + registered
    }

    /// Self-refresh exit time in nanoseconds.
    pub open spec fn spec_t_xs_min_ns(self) -> int {
        self.spec_t_rfc_min_ps() / 1000 + 10
    }

    pub fn t_xs_min_ns(&self) -> (r: u32)
        ensures
            r == self.spec_t_xs_min_ns(),
    {
        self.t_rfc_min_ps() / 1000 + 10
    }

    pub open spec fn spec_t_xs_fast_min_ns(self) -> int {
        self.t_rfc4_min_ps as int / 1000 + 10
    }

    pub fn t_xs_fast_min_ns(&self) -> (r: u32)
        ensures
            r == self.spec_t_xs_fast_min_ns(),
    {
        self.t_rfc4_min_ps / 1000 + 10
    }

    pub fn t_xs_abort_min_ns(&self) -> (r: u32)
        ensures
            r == self.spec_t_xs_fast_min_ns(),
    {
        self.t_xs_fast_min_ns()
    }

    /// DLL lock time in clock cycles for the speed bin.
    pub open spec fn spec_t_dllk_min_nck(self) -> int {
        if self.spec_speed_bin_mhz() < 2133 {
            597
        } else if self.spec_speed_bin_mhz() < 2666 {
            768
        } else {
            1024
        }
    }

    pub fn t_dllk_min_nck(&self) -> (r: u32)
        requires
            self.t_ckavg_min_ps >= 1,
        ensures
            r == self.spec_t_dllk_min_nck(),
    {
        if self.speed_bin_mhz() < 2133 {
            597
        } else if self.speed_bin_mhz() < 2666 {
            768
        } else {
            1024
        }
    }

    pub fn t_xs_dll_min_nck(&self) -> (r: u32)
        requires
            self.t_ckavg_min_ps >= 1,
        ensures
            r == self.spec_t_dllk_min_nck(),
    {
        self.t_dllk_min_nck()
    }

    /// Per-DRAM-addressability mode register set time: the greater of 16
    /// clocks or 10 ns.
    pub open spec fn spec_t_mrd_pda_min_nck(self) -> int {
        if self.spec_ps_to_nck(10_000) > 16 {
            self.spec_ps_to_nck(10_000)
        } else {
            16
        }
    }

    pub fn t_mrd_pda_min_nck(&self) -> (r: u32)
        requires
            self.t_ckavg_min_ps >= 1,
        ensures
            r == self.spec_t_mrd_pda_min_nck(),
    {
        let n = self.ps_to_nck(10_000);
        if n > 16 {
            n
        } else {
            16
        }
    }

    /// Write recovery time, defined as 15 ns for all DDR4 speed bins.
    pub fn t_wr_min_ns(&self) -> (r: u32)
        ensures
            r == 15,
    {
        15
    }
}

// Offsets that tag each kind of semantic bit in the composite HIF address
// vector.
pub const HIF_COL_OFFSET: u32 = 100;

pub const HIF_ROW_OFFSET: u32 = 200;

pub const HIF_BANK_OFFSET: u32 = 300;

pub const HIF_BG_OFFSET: u32 = 400;

pub const HIF_RANK_OFFSET: u32 = 500;

// addressing maxima
pub const MAX_ROW_ADDR_BITS: u8 = 18;

pub const MAX_COL_ADDR_BITS: u8 = 12;

pub const MAX_BANK_ADDR_BITS: u8 = 3;

pub const MAX_BG_ADDR_BITS: u8 = 2;

impl GeneralConfig {
    /// The first column bit that appears in the HIF vector: narrow buses
    /// fold the lowest column bits into the byte lanes.
    pub open spec fn spec_hif_start(self) -> int {
        if self.bus_width == 16 {
            2
        } else if self.bus_width == 32 {
            1
        } else {
            0
        }
    }

    /// Number of column bits present in the HIF vector.
    pub open spec fn spec_hif_ncol(self) -> int {
        self.col_addr_bits - self.spec_hif_start()
    }

    /// First HIF index of the bank-group bits.
    pub open spec fn spec_hif_bg_base(self) -> int {
        self.spec_hif_ncol()
    }

    /// First HIF index of the bank bits.
    pub open spec fn spec_hif_bank_base(self) -> int {
        self.spec_hif_bg_base() + self.bg_addr_bits
    }

    /// First HIF index of the row bits.
    pub open spec fn spec_hif_row_base(self) -> int {
        self.spec_hif_bank_base() + self.bank_addr_bits
    }

    /// First HIF index of the rank bits.
    pub open spec fn spec_hif_rank_base(self) -> int {
        self.spec_hif_row_base() + self.row_addr_bits
    }

    /// One past the last used HIF index.
    pub open spec fn spec_hif_len(self) -> int {
        self.spec_hif_rank_base() + self.spec_rank_addr_bits()
    }

    /// The composite HIF address vector: column bits first, then bank-group,
    /// bank, row and rank bits, in that fixed order with no gaps or
    /// overlaps; unused tail entries are zero.
    #[verifier::loop_isolation(false)]
    pub fn hif_addr_map(&self) -> (r: [u32; 40])
        requires
            self.wf(),
        ensures
            forall|j: int|
                0 <= j < self.spec_hif_ncol() ==> r@[j] == HIF_COL_OFFSET + self.spec_hif_start()
                    + j,
            forall|j: int|
                self.spec_hif_bg_base() <= j < self.spec_hif_bank_base() ==> r@[j]
                    == HIF_BG_OFFSET + (j - self.spec_hif_bg_base()),
            forall|j: int|
                self.spec_hif_bank_base() <= j < self.spec_hif_row_base() ==> r@[j]
                    == HIF_BANK_OFFSET + (j - self.spec_hif_bank_base()),
            forall|j: int|
                self.spec_hif_row_base() <= j < self.spec_hif_rank_base() ==> r@[j]
                    == HIF_ROW_OFFSET + (j - self.spec_hif_row_base()),
            forall|j: int|
                self.spec_hif_rank_base() <= j < self.spec_hif_len() ==> r@[j]
                    == HIF_RANK_OFFSET + (j - self.spec_hif_rank_base()),
            forall|j: int| self.spec_hif_len() <= j < 40 ==> r@[j] == 0,
            self.spec_hif_len() <= 40,
    {
        let mut map: [u32; 40] = [0; 40];
        let mut i: usize = 0;
        let start: u32 = match self.bus_width {
            16 => 2,
            32 => 1,
            _ => 0,
        };
        let mut j: u32 = start;
        while j < self.col_addr_bits as u32
            invariant
                self.wf(),
                start == self.spec_hif_start(),
                start <= j <= self.col_addr_bits,
                i == j - start,
                forall|k: int| 0 <= k < i ==> map@[k] == HIF_COL_OFFSET + start + k,
                forall|k: int| i <= k < 40 ==> map@[k] == 0,
            decreases self.col_addr_bits - j,
        {
            map[i] = HIF_COL_OFFSET + j;
            i = i + 1;
            j = j + 1;
        }
        let ghost ncol = self.spec_hif_ncol();
        let mut j: u32 = 0;
        while j < self.bg_addr_bits as u32
            invariant
                self.wf(),
                0 <= j <= self.bg_addr_bits,
                i == ncol + j,
                0 <= ncol <= 12,
                forall|k: int| 0 <= k < ncol ==> map@[k] == HIF_COL_OFFSET + self.spec_hif_start() + k,
                forall|k: int| ncol <= k < i ==> map@[k] == HIF_BG_OFFSET + (k - ncol),
                forall|k: int| i <= k < 40 ==> map@[k] == 0,
            decreases self.bg_addr_bits - j,
        {
            map[i] = HIF_BG_OFFSET + j;
            i = i + 1;
            j = j + 1;
        }
        let ghost bank_base = self.spec_hif_bank_base();
        let mut j: u32 = 0;
        while j < self.bank_addr_bits as u32
            invariant
                self.wf(),
                0 <= j <= self.bank_addr_bits,
                i == bank_base + j,
                0 <= bank_base <= 14,
                forall|k: int| 0 <= k < ncol ==> map@[k] == HIF_COL_OFFSET + self.spec_hif_start() + k,
                forall|k: int| ncol <= k < bank_base ==> map@[k] == HIF_BG_OFFSET + (k - ncol),
                forall|k: int| bank_base <= k < i ==> map@[k] == HIF_BANK_OFFSET + (k - bank_base),
                forall|k: int| i <= k < 40 ==> map@[k] == 0,
            decreases self.bank_addr_bits - j,
        {
            map[i] = HIF_BANK_OFFSET + j;
            i = i + 1;
            j = j + 1;
        }
        let ghost row_base = self.spec_hif_row_base();
        let mut j: u32 = 0;
        while j < self.row_addr_bits as u32
            invariant
                self.wf(),
                0 <= j <= self.row_addr_bits,
                i == row_base + j,
                0 <= row_base <= 17,
                forall|k: int| 0 <= k < ncol ==> map@[k] == HIF_COL_OFFSET + self.spec_hif_start() + k,
                forall|k: int| ncol <= k < bank_base ==> map@[k] == HIF_BG_OFFSET + (k - ncol),
                forall|k: int| bank_base <= k < row_base ==> map@[k] == HIF_BANK_OFFSET + (k
                    - bank_base),
                forall|k: int| row_base <= k < i ==> map@[k] == HIF_ROW_OFFSET + (k - row_base),
                forall|k: int| i <= k < 40 ==> map@[k] == 0,
            decreases self.row_addr_bits - j,
        {
            map[i] = HIF_ROW_OFFSET + j;
            i = i + 1;
            j = j + 1;
        }
        let ghost rank_base = self.spec_hif_rank_base();
        let rank_bits = self.rank_addr_bits();
        let mut j: u32 = 0;
        while j < rank_bits as u32
            invariant
                self.wf(),
                rank_bits == self.spec_rank_addr_bits(),
                0 <= j <= rank_bits,
                i == rank_base + j,
                0 <= rank_base <= 35,
                forall|k: int| 0 <= k < ncol ==> map@[k] == HIF_COL_OFFSET + self.spec_hif_start() + k,
                forall|k: int| ncol <= k < bank_base ==> map@[k] == HIF_BG_OFFSET + (k - ncol),
                forall|k: int| bank_base <= k < row_base ==> map@[k] == HIF_BANK_OFFSET + (k
                    - bank_base),
                forall|k: int| row_base <= k < rank_base ==> map@[k] == HIF_ROW_OFFSET + (k
                    - row_base),
                forall|k: int| rank_base <= k < i ==> map@[k] == HIF_RANK_OFFSET + (k - rank_base),
                forall|k: int| i <= k < 40 ==> map@[k] == 0,
            decreases rank_bits - j,
        {
            map[i] = HIF_RANK_OFFSET + j;
            i = i + 1;
            j = j + 1;
        }
        map
    }
}

impl GeneralConfig {
    /// Register offset of every mapped bank bit: its HIF position minus the
    /// controller's internal base position for that bit.
    pub open spec fn spec_bank_map_value(self) -> int {
        self.spec_hif_ncol() + self.bg_addr_bits - 2
    }

    /// ADDRMAP offsets for the bank address bits; unmapped bits are 0x1f.
    #[verifier::loop_isolation(false)]
    pub fn bank_addr_map(&self) -> (r: [u32; 3])
        requires
            self.wf(),
        ensures
            forall|j: int| 0 <= j < self.bank_addr_bits ==> r@[j] == self.spec_bank_map_value(),
            forall|j: int| self.bank_addr_bits <= j < 3 ==> r@[j] == 0x1f,
    {
        let hif_addr_map = self.hif_addr_map();
        let mut map: [u32; 3] = [0x1f; 3];
        let mut i: u32 = 0;
        let mut j: u32 = 0;
        while j < self.bank_addr_bits as u32
            invariant
                0 <= j <= self.bank_addr_bits,
                forall|k: int| 0 <= k < j ==> map@[k] == self.spec_bank_map_value(),
                forall|k: int| j <= k < 3 ==> map@[k] == 0x1f,
            decreases self.bank_addr_bits - j,
        {
            i = j + 2;
            let ghost pos = self.spec_hif_bank_base() + j;
            while hif_addr_map[i as usize] != HIF_BANK_OFFSET + j
                invariant
                    j + 2 <= i <= pos,
                decreases pos - i,
            {
                proof {
                    assert(hif_addr_map@[pos] == HIF_BANK_OFFSET + j);
                }
                i += 1;
            }
            proof {
                assert(forall|k: int|
                    j + 2 <= k < pos ==> hif_addr_map@[k] != HIF_BANK_OFFSET + j);
            }
            map[j as usize] = i - (j + 2);
            j += 1;
        }
        map
    }

    /// Register offset of every mapped bank-group bit.
    pub open spec fn spec_bg_map_value(self) -> int {
        self.spec_hif_ncol() - 2
    }

    /// ADDRMAP offsets for the bank-group address bits; unmapped bits are
    /// 0x1f.
    #[verifier::loop_isolation(false)]
    pub fn bg_addr_map(&self) -> (r: [u32; 2])
        requires
            self.wf(),
        ensures
            forall|j: int| 0 <= j < self.bg_addr_bits ==> r@[j] == self.spec_bg_map_value(),
            forall|j: int| self.bg_addr_bits <= j < 2 ==> r@[j] == 0x1f,
    {
        let hif_addr_map = self.hif_addr_map();
        let mut map: [u32; 2] = [0x1f; 2];
        let mut i: u32 = 0;
        let mut j: u32 = 0;
        while j < self.bg_addr_bits as u32
            invariant
                0 <= j <= self.bg_addr_bits,
                forall|k: int| 0 <= k < j ==> map@[k] == self.spec_bg_map_value(),
                forall|k: int| j <= k < 2 ==> map@[k] == 0x1f,
            decreases self.bg_addr_bits - j,
        {
            i = j + 2;
            let ghost pos = self.spec_hif_bg_base() + j;
            while hif_addr_map[i as usize] != HIF_BG_OFFSET + j
                invariant
                    j + 2 <= i <= pos,
                decreases pos - i,
            {
                proof {
                    assert(hif_addr_map@[pos] == HIF_BG_OFFSET + j);
                }
                i += 1;
            }
            proof {
                assert(forall|k: int| j + 2 <= k < pos ==> hif_addr_map@[k] != HIF_BG_OFFSET + j);
            }
            map[j as usize] = i - (j + 2);
            j += 1;
        }
        map
    }

    /// ADDRMAP offsets for the column address bits; bits 0 and 1 and
    /// unmapped bits are 0xf. Only full-width and 8-bit buses keep every
    /// column bit in the HIF vector, so others are not supported here.
    #[verifier::loop_isolation(false)]
    pub fn col_addr_map(&self) -> (r: [u32; 12])
        requires
            self.wf(),
            self.spec_hif_start() == 0,
        ensures
            forall|j: int| 2 <= j < self.col_addr_bits ==> r@[j] == 0,
            forall|j: int| 0 <= j < 2 ==> r@[j] == 0xf,
            forall|j: int| self.col_addr_bits <= j < 12 ==> r@[j] == 0xf,
    {
        let hif_addr_map = self.hif_addr_map();
        let mut map: [u32; 12] = [0xf; 12];
        let mut i: u32 = 0;
        let mut j: u32 = 2;
        while j < self.col_addr_bits as u32
            invariant
                2 <= j <= self.col_addr_bits,
                forall|k: int| 2 <= k < j ==> map@[k] == 0,
                forall|k: int| 0 <= k < 2 ==> map@[k] == 0xf,
                forall|k: int| j <= k < 12 ==> map@[k] == 0xf,
            decreases self.col_addr_bits - j,
        {
            i = j;
            let ghost pos = j as int;
            while hif_addr_map[i as usize] != HIF_COL_OFFSET + j
                invariant
                    j <= i <= pos,
                decreases pos - i,
            {
                proof {
                    assert(hif_addr_map@[pos] == HIF_COL_OFFSET + j);
                }
                i += 1;
            }
            map[j as usize] = i - j;
            j += 1;
        }
        map
    }

    /// Register offset of every mapped row bit.
    pub open spec fn spec_row_map_value(self) -> int {
        self.spec_hif_row_base() - 6
    }

    /// ADDRMAP offsets for the row address bits; unmapped bits are 0xf.
    #[verifier::loop_isolation(false)]
    pub fn row_addr_map(&self) -> (r: [u32; 18])
        requires
            self.wf(),
        ensures
            forall|j: int| 0 <= j < self.row_addr_bits ==> r@[j] == self.spec_row_map_value(),
            forall|j: int| self.row_addr_bits <= j < 18 ==> r@[j] == 0xf,
    {
        let hif_addr_map = self.hif_addr_map();
        let mut map: [u32; 18] = [0xf; 18];
        let mut i: u32 = 0;
        let mut j: u32 = 0;
        while j < self.row_addr_bits as u32
            invariant
                0 <= j <= self.row_addr_bits,
                forall|k: int| 0 <= k < j ==> map@[k] == self.spec_row_map_value(),
                forall|k: int| j <= k < 18 ==> map@[k] == 0xf,
            decreases self.row_addr_bits - j,
        {
            i = j + 6;
            let ghost pos = self.spec_hif_row_base() + j;
            while hif_addr_map[i as usize] != HIF_ROW_OFFSET + j
                invariant
                    j + 6 <= i <= pos,
                decreases pos - i,
            {
                proof {
                    assert(hif_addr_map@[pos] == HIF_ROW_OFFSET + j);
                }
                i += 1;
            }
            proof {
                assert(forall|k: int| j + 6 <= k < pos ==> hif_addr_map@[k] != HIF_ROW_OFFSET + j);
            }
            map[j as usize] = i - (j + 6);
            j += 1;
        }
        map
    }

    /// The DDR4 MR0 mode register value: the CAS latency code in bit 2 and
    /// bits 6:4 (JESD 79-4 table 3), the write recovery code `WR/2 - 5` in
    /// bits 12:9 (table 2, with its swapped 22/24 rows), and the burst
    /// length in the low bits.
    pub open spec fn spec_mr0(self) -> u16 {
        let cl = self.spec_cas_latency_ns() as u16;
        let cl_bits: u16 = if cl <= 16 {
            ((((cl - 1) % 2) as u16) << 2) | (((((cl - 9) / 2) as u16) & 0x7) << 4)
        } else if cl % 2 == 1 {
            (((((cl + 1) / 2) % 2) as u16) << 2) | (((((cl + 2) / 6) as u16) & 0x7) << 4)
        } else {
            ((((cl / 2 + 1) % 2) as u16) << 2) | (((((cl - 1) / 4) as u16) & 0x7) << 4)
        };
        let twr = self.spec_t_wr_nck_swapped() as u16;
        cl_bits | ((((twr / 2 - 5) as u16) & 0xf) << 9)
    }

    /// Write recovery cycle count with the swapped table rows: the encodings
    /// for 22 and 24 cycles trade places.
    pub open spec fn spec_t_wr_nck_swapped(self) -> int {
        let t = self.spec_ps_to_nck(15_000);
        if t == 22 {
            24
        } else if t == 24 {
            22
        } else {
            t
        }
    }

    /// Calculate the MR0 value for DDR4.
    pub fn mr0(&self) -> (r: u16)
        requires
            self.t_ckavg_min_ps >= 1,
            9 <= self.spec_cas_latency_ns() <= 36,
            10 <= self.spec_ps_to_nck(15_000),
        ensures
            r == self.spec_mr0(),
    {
        // bits A12, 6-4, and 2 calculated from CL - JESD 79-4 Table 3
        let cas_latency_ns = self.cas_latency_ns() as u16;
        let cl_bits: u16 = if cas_latency_ns <= 16 {
            (((cas_latency_ns - 1) % 2) << 2u16) | ((((cas_latency_ns - 9) / 2) & 0x7) << 4u16)
        } else if cas_latency_ns % 2 == 1 {
            ((((cas_latency_ns + 1) / 2) % 2) << 2u16) | ((((cas_latency_ns + 2) / 6) & 0x7)
                << 4u16)
        } else {
            (((cas_latency_ns / 2 + 1) % 2) << 2u16) | ((((cas_latency_ns - 1) / 4) & 0x7)
                << 4u16)
        };
        // bits A13-9 from the write recovery time, JESD 79-4 Table 2, where
        // the rows for 22 and 24 cycles are swapped
        let mut t_wr_min_nck = self.ps_to_nck(self.t_wr_min_ns() * 1000) as u16;
        if t_wr_min_nck == 22 {
            t_wr_min_nck = 24;
        } else if t_wr_min_nck == 24 {
            t_wr_min_nck = 22;
        }
        let mut mr0: u16 = cl_bits | (((t_wr_min_nck / 2 - 5) & 0xf) << 9u16);
        // bits A1-0 from the burst length; the controller does not support
        // on-the-fly burst length (0b01)
        if self.burst_len() == 4 {
            mr0 |= 0b10;
        }
        mr0
    }
}

/// Floor of the base-2 logarithm (0 for inputs below 2).
pub open spec fn spec_floor_log2(n: int) -> int
    decreases n,
{
    if n < 2 {
        0
    } else {
        1 + spec_floor_log2(n / 2)
    }
}

/// The floor log2 is non-negative and no larger than its argument.
pub proof fn lemma_floor_log2_bounds(n: int)
    requires
        n >= 0,
    ensures
        0 <= spec_floor_log2(n) <= n,
    decreases n,
{
    if n >= 2 {
        lemma_floor_log2_bounds(n / 2);
    }
}

/// Floor log2 by repeated halving.
pub fn floor_log2(n: u32) -> (r: u32)
    ensures
        r == spec_floor_log2(n as int),
        r <= n,
{
    let mut v: u32 = n;
    let mut bits: u32 = 0;
    proof {
        lemma_floor_log2_bounds(n as int);
    }
    while v >= 2
        invariant
            spec_floor_log2(n as int) == bits + spec_floor_log2(v as int),
            bits <= spec_floor_log2(n as int) <= n,
        decreases v,
    {
        proof {
            lemma_floor_log2_bounds((v / 2) as int);
            assert(spec_floor_log2(v as int) == 1 + spec_floor_log2(v as int / 2));
        }
        v = v / 2;
        bits = bits + 1;
    }
    bits
}

/// View a 512-byte SPD image as a slice.
fn array_as_slice_512(a: &[u8; 512]) -> (r: &[u8])
    ensures
        r@ == a@,
{
    a.as_slice()
}

/// Copy the module specific section, bytes 128-255, out of the image.
fn copy_section(spd_data: &[u8; 512]) -> (r: Vec<u8>)
    ensures
        r@ == spd_data@.subrange(128, 256),
{
    let mut section: Vec<u8> = Vec::new();
    let mut i: usize = 128;
    while i < 256
        invariant
            128 <= i <= 256,
            section@ == spd_data@.subrange(128, i as int),
        decreases 256 - i,
    {
        section.push(spd_data[i]);
        proof {
            assert(section@ =~= spd_data@.subrange(128, i + 1));
        }
        i = i + 1;
    }
    section
}

/// Copy the DQ-to-nibble routing map out of bytes 60-77.
fn read_dq_map(spd_data: &[u8; 512]) -> (r: [u8; 18])
    ensures
        spec_dq_map_is(spd_data@, r),
        r == spec_dq_map(spd_data@),
{
    let mut m: [u8; 18] = [0; 18];
    let mut i: usize = 0;
    while i < 18
        invariant
            0 <= i <= 18,
            forall|j: int| 0 <= j < i ==> m@[j] == spd_data@[60 + j],
        decreases 18 - i,
    {
        m[i] = spd_data[60 + i];
        i = i + 1;
    }
    proof {
        assert(spec_dq_map_is(spd_data@, m));
        let c = spec_dq_map(spd_data@);
        assert(spec_dq_map_is(spd_data@, c));
        assert(m =~= c) by {
            vstd::array::axiom_array_ext_equal::<u8, 18>(m, c);
            assert(forall|i: int| 0 <= i < 18 ==> m[i] == c[i]);
        }
    }
    m
}

/// CRC over the first 126 bytes of a section.
fn crc_of_first_126(section: &[u8]) -> (r: u16)
    requires
        section@.len() >= 126,
    ensures
        r == spec_crc(section@.subrange(0, 126)),
{
    let mut head: Vec<u8> = Vec::new();
    let mut i: usize = 0;
    while i < 126
        invariant
            0 <= i <= 126,
            section@.len() >= 126,
            head@ == section@.subrange(0, i as int),
        decreases 126 - i,
    {
        head.push(section[i]);
        proof {
            assert(head@ =~= section@.subrange(0, i + 1));
        }
        i = i + 1;
    }
    crc(head.as_slice())
}

} // verus!
