//! Decoding tests: a realistic DDR4-2133 SO-DIMM image, its validation
//! errors, and the timing reconstruction primitive.

use zynq_us_boot::crc::crc;
use zynq_us_boot::spd::{
    get_time_ps, DeviceType, GeneralConfig, ModuleConfig, PackageType, SignalLoading, SpdError,
    UnbufferedConfig,
};

/// A DDR4-2133 SO-DIMM image: 8 Gb x16 dies, one rank, 64-bit bus,
/// 16 row and 10 column bits, with both section CRCs valid.
fn fixture() -> [u8; 512] {
    let mut img = [0u8; 512];
    img[0] = 0x23; // 512 bytes total, 384 used
    img[1] = 0x11;
    img[2] = 0x0C; // DDR4
    img[3] = 0x03; // SO-DIMM
    img[4] = 0x45; // 1 bank group bit, 2 bank bits, 8 Gb per die
    img[5] = 0x21; // 16 row bits, 10 column bits
    img[6] = 0x00; // monolithic, one die
    img[7] = 0x08;
    img[11] = 0x03;
    img[12] = 0x02; // one package rank, x16 devices
    img[13] = 0x03; // 64-bit bus
    img[17] = 0x00; // MTB 125 ps, FTB 1 ps
    img[18] = 0x08; // t_ck 1000 ps coarse ...
    img[125] = 0xC2; // ... -62 ps fine = 938 ps
    img[19] = 0x0C; // t_ck max 1500 ps
    img[20] = 0x54;
    img[21] = 0x01;
    img[24] = 0x71; // t_aa 14125 ps coarse ...
    img[123] = 0xC1; // ... -63 ps fine = 14062 ps
    img[25] = 0x71;
    img[122] = 0xC1;
    img[26] = 0x71;
    img[121] = 0xC1;
    img[27] = 0x11; // upper nibbles of t_rc and t_ras
    img[28] = 0x08; // t_ras 33000 ps
    img[29] = 0x79; // t_rc 47125 ps coarse ...
    img[120] = 0xC1; // ... -63 ps fine = 47062 ps
    img[30] = 0xF0; // t_rfc1 350 ns
    img[31] = 0x0A;
    img[32] = 0x20; // t_rfc2 260 ns
    img[33] = 0x08;
    img[34] = 0x00; // t_rfc4 160 ns
    img[35] = 0x05;
    img[36] = 0x00; // t_faw 30 ns
    img[37] = 0xF0;
    img[38] = 0x2B; // t_rrd_s 5300 ps
    img[119] = 0xB5;
    img[39] = 0x33; // t_rrd_l 6400 ps
    img[118] = 0x19;
    img[40] = 0x2B; // t_ccd_l 5355 ps
    img[117] = 0xEC;
    for k in 0..18 {
        img[60 + k] = (k + 1) as u8;
    }
    let base_crc = crc(&img[0..126]);
    img[126] = (base_crc & 0xff) as u8;
    img[127] = (base_crc >> 8) as u8;
    img[128] = 0x11;
    img[129] = 0x11;
    img[130] = 0x01;
    let module_crc = crc(&img[128..254]);
    img[254] = (module_crc & 0xff) as u8;
    img[255] = (module_crc >> 8) as u8;
    img
}

fn decode_fixture() -> GeneralConfig {
    GeneralConfig::from_spd_data(&fixture()).expect("fixture must decode")
}

#[test]
fn crc_known_value() {
    // the classic CRC-16/XMODEM check value
    assert_eq!(crc(b"123456789"), 0x31C3);
    assert_eq!(crc(b""), 0);
}

#[test]
fn fixture_decodes() {
    let c = decode_fixture();
    assert_eq!(c.spd_bytes_total, 512);
    assert_eq!(c.spd_bytes_used, 384);
    assert_eq!(c.spd_encoding, 1);
    assert_eq!(c.spd_additions, 1);
    assert_eq!(c.device_type, DeviceType::Ddr4);
    assert_eq!(c.bg_addr_bits, 1);
    assert_eq!(c.bank_addr_bits, 2);
    assert_eq!(c.capacity_megabits, 8192);
    assert_eq!(c.row_addr_bits, 16);
    assert_eq!(c.col_addr_bits, 10);
    assert_eq!(c.package_type, PackageType::Monolithic);
    assert_eq!(c.die_count, 1);
    assert_eq!(c.signal_loading, SignalLoading::Unspecified);
    assert_eq!(c.t_maw, 8192);
    assert_eq!(c.mac, 8);
    assert!(c.vdd_12_endurant && c.vdd_12_operable);
    assert_eq!(c.package_ranks, 1);
    assert_eq!(c.device_width, 16);
    assert_eq!(c.bus_width, 64);
    assert_eq!(c.bus_width_extension, 0);
    assert_eq!(c.mtb_ps, 125);
    assert_eq!(c.ftb_ps, 1);
    assert_eq!(c.t_ckavg_min_ps, 938);
    assert_eq!(c.t_ckavg_max_ps, 1500);
    assert_eq!(c.supported_cas_latencies, 0x154);
    assert_eq!(c.t_aa_min_ps, 14062);
    assert_eq!(c.t_rcd_min_ps, 14062);
    assert_eq!(c.t_rp_min_ps, 14062);
    assert_eq!(c.t_ras_min_ps, 33000);
    assert_eq!(c.t_rc_min_ps, 47062);
    assert_eq!(c.t_rfc1_min_ps, 350000);
    assert_eq!(c.t_rfc2_min_ps, 260000);
    assert_eq!(c.t_rfc4_min_ps, 160000);
    assert_eq!(c.t_faw_min_ps, 30000);
    assert_eq!(c.t_rrd_s_min_ps, 5300);
    assert_eq!(c.t_rrd_l_min_ps, 6400);
    assert_eq!(c.t_ccd_l_min_ps, 5355);
    assert_eq!(c.dq_map, [1, 2, 3, 4, 5, 6, 7, 8, 9, 10, 11, 12, 13, 14, 15, 16, 17, 18]);
    match c.module_config {
        ModuleConfig::Unbuffered(u) => {
            assert_eq!(u.raw_card_extension, 0);
            assert_eq!(u.module_nominal_height, 0x11);
            assert_eq!(u.module_max_thickness_back, 1);
            assert_eq!(u.module_max_thickness_front, 1);
            assert_eq!(u.ref_raw_card_rev, 0);
            assert_eq!(u.ref_raw_card, 1);
            assert!(!u.rank_1_mirrored);
        },
        _ => panic!("expected an unbuffered module"),
    }
    // fixed policy defaults
    assert!(c.dm_en && c.v_ref);
    assert!(!c.ecc_en && !c.crc_en && !c.parity_en && !c.rd_dbi_en);
}

#[test]
fn decode_is_deterministic() {
    let img = fixture();
    let a = GeneralConfig::from_spd_data(&img).unwrap();
    let b = GeneralConfig::from_spd_data(&img).unwrap();
    assert_eq!(a.t_ckavg_min_ps, b.t_ckavg_min_ps);
    assert_eq!(a.capacity_megabits, b.capacity_megabits);
    assert_eq!(a.dq_map, b.dq_map);
    assert_eq!(a.device_type, b.device_type);
    assert_eq!(a.module_config, b.module_config);
    assert_eq!(a.supported_cas_latencies, b.supported_cas_latencies);
}

#[test]
fn single_bit_flips_are_rejected() {
    // flipping any single bit of a sample of the protected bytes must
    // surface as a base-section CRC mismatch
    for &byte in &[0usize, 2, 4, 17, 18, 60, 77, 120, 125] {
        for bit in 0..8 {
            let mut img = fixture();
            img[byte] ^= 1 << bit;
            match GeneralConfig::from_spd_data(&img) {
                Err(SpdError::CrcMismatch { section_offset, expected, actual }) => {
                    assert_eq!(section_offset, 0);
                    assert_ne!(expected, actual);
                },
                other => panic!("byte {} bit {}: expected a CRC mismatch, got {:?}", byte, bit, other),
            }
        }
    }
}

#[test]
fn module_section_crc_is_checked() {
    let mut img = fixture();
    img[131] ^= 0x01;
    match GeneralConfig::from_spd_data(&img) {
        Err(SpdError::CrcMismatch { section_offset, .. }) => assert_eq!(section_offset, 128),
        other => panic!("expected a module CRC mismatch, got {:?}", other),
    }
}

/// Rewrite a byte and fix the base CRC up so only the field check can
/// reject the image.
fn with_byte(byte: usize, value: u8) -> [u8; 512] {
    let mut img = fixture();
    img[byte] = value;
    let base_crc = crc(&img[0..126]);
    img[126] = (base_crc & 0xff) as u8;
    img[127] = (base_crc >> 8) as u8;
    img
}

#[test]
fn reserved_patterns_are_rejected() {
    let cases: &[(usize, u8)] = &[
        (0, 0x73), // total size reserved
        (0, 0x25), // used size reserved
        (2, 0x0D), // unknown device type
        (3, 0x01), // registered module family unsupported
        (4, 0xC5), // bank group bits reserved
        (4, 0x65), // bank bits reserved
        (4, 0x48), // capacity reserved
        (5, 0x39), // row bits reserved
        (5, 0x24), // column bits reserved
        (6, 0x03), // signal loading reserved
        (7, 0x38), // t_maw reserved
        (7, 0x07), // mac reserved
        (7, 0x09), // mac above 8
        (12, 0x22), // package ranks reserved
        (12, 0x06), // device width reserved
        (13, 0x13), // bus extension reserved
        (13, 0x07), // bus width reserved
        (17, 0x04), // medium timebase reserved
        (17, 0x01), // fine timebase reserved
    ];
    for &(byte, value) in cases {
        let img = with_byte(byte, value);
        match GeneralConfig::from_spd_data(&img) {
            Err(SpdError::ReservedField { byte: b, value: v }) => {
                assert_eq!(b as usize, byte);
                assert_eq!(v, value);
            },
            other => panic!("byte {} value {:#x}: expected rejection, got {:?}", byte, value, other),
        }
    }
}

#[test]
fn timing_reconstruction_round_trip() {
    // mtb_ps = 125, ftb_ps = 1, coarse 80, fine offset +5
    assert_eq!(get_time_ps(125, 1, 80, 5), 125 * 80 + 5);
    assert_eq!(get_time_ps(125, 1, 80, 5), 10005);
    // negative fine offsets subtract
    assert_eq!(get_time_ps(125, 1, 8, -62), 938);
    assert_eq!(get_time_ps(125, 1, 100, 0), 12500);
}

#[test]
fn unbuffered_section_decodes_alone() {
    let img = fixture();
    let section: Vec<u8> = img[128..256].to_vec();
    let u = UnbufferedConfig::from_spd_data(&section).unwrap();
    assert_eq!(u.module_nominal_height, 0x11);
    assert!(!u.rank_1_mirrored);
}
