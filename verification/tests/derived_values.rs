//! Tests of the quantities derived from a decoded configuration: clocks,
//! latencies, capacities, the HIF address vector and the register bit maps.

use zynq_us_boot::crc::crc;
use zynq_us_boot::spd::{GeneralConfig, PackageType, SignalLoading};

fn fixture() -> [u8; 512] {
    let mut img = [0u8; 512];
    img[0] = 0x23;
    img[1] = 0x11;
    img[2] = 0x0C;
    img[3] = 0x03;
    img[4] = 0x45;
    img[5] = 0x21;
    img[7] = 0x08;
    img[11] = 0x03;
    img[12] = 0x02;
    img[13] = 0x03;
    img[18] = 0x08;
    img[125] = 0xC2;
    img[19] = 0x0C;
    img[20] = 0x54;
    img[21] = 0x01;
    img[24] = 0x71;
    img[123] = 0xC1;
    img[25] = 0x71;
    img[122] = 0xC1;
    img[26] = 0x71;
    img[121] = 0xC1;
    img[27] = 0x11;
    img[28] = 0x08;
    img[29] = 0x79;
    img[120] = 0xC1;
    img[30] = 0xF0;
    img[31] = 0x0A;
    img[32] = 0x20;
    img[33] = 0x08;
    img[34] = 0x00;
    img[35] = 0x05;
    img[36] = 0x00;
    img[37] = 0xF0;
    img[38] = 0x2B;
    img[119] = 0xB5;
    img[39] = 0x33;
    img[118] = 0x19;
    img[40] = 0x2B;
    img[117] = 0xEC;
    for k in 0..18 {
        img[60 + k] = (k + 1) as u8;
    }
    let base_crc = crc(&img[0..126]);
    img[126] = (base_crc & 0xff) as u8;
    img[127] = (base_crc >> 8) as u8;
    img[128] = 0x11;
    img[129] = 0x11;
    img[130] = 0x01;
    let module_crc = crc(&img[128..254]);
    img[254] = (module_crc & 0xff) as u8;
    img[255] = (module_crc >> 8) as u8;
    img
}

fn cfg() -> GeneralConfig {
    GeneralConfig::from_spd_data(&fixture()).unwrap()
}

#[test]
fn clock_conversions() {
    let c = cfg();
    assert_eq!(c.max_clk_mhz(), 1066);
    assert_eq!(c.min_clk_mhz(), 666);
    assert_eq!(c.speed_bin_mhz(), 2133);
    assert_eq!(c.ctl_clock_mhz(), 533);
    // ceil(15000 / 938 - 0.01) = ceil(15.98...) = 16
    assert_eq!(c.ps_to_nck(15_000), 16);
    // exactly one period less the guardband still rounds up to one clock
    assert_eq!(c.ps_to_nck(938), 1);
    assert_eq!(c.ps_to_nck(0), 0);
    // a value under 1% of a clock is absorbed by the guardband
    assert_eq!(c.ps_to_nck(9), 0);
}

#[test]
fn geometry_and_capacity() {
    let c = cfg();
    assert_eq!(c.bank_groups(), 2);
    assert_eq!(c.banks_per_group(), 4);
    assert_eq!(c.logical_ranks(), 1);
    assert_eq!(c.rank_addr_bits(), 0);
    // 8192 Mb / 8 * 64 / 16 = 4096 MiB per rank
    assert_eq!(c.rank_capacity_megabytes(), 4096);
    assert_eq!(c.module_capacity_megabytes(), 4096);
    // log2(4096) + 23 = 35
    assert_eq!(c.row_density(), 35);
}

#[test]
fn logical_rank_rules() {
    // monolithic package counts package ranks only
    let mut c = cfg();
    c.package_type = PackageType::Monolithic;
    c.package_ranks = 2;
    c.die_count = 1;
    assert_eq!(c.logical_ranks(), 2);
    // multi-load stacks also collapse to package ranks
    c.package_type = PackageType::NonMonolithic;
    c.signal_loading = SignalLoading::MultiLoadStack;
    c.package_ranks = 1;
    c.die_count = 4;
    assert_eq!(c.logical_ranks(), 1);
    // 3D stacks multiply package ranks by dies
    c.signal_loading = SignalLoading::SingleLoadStack;
    assert_eq!(c.logical_ranks(), 4);
    assert_eq!(c.rank_addr_bits(), 2);
}

#[test]
fn latencies() {
    let c = cfg();
    // ceil(14062 / 1000) + 1 = 16
    assert_eq!(c.cas_latency_ns(), 16);
    assert_eq!(c.cas_write_latency_ns(), 15);
    assert_eq!(c.t_rfc_min_ps(), 350_000);
    assert_eq!(c.t_xp_nck(), 7);
    assert_eq!(c.parity_latency_nck(), 0);
    assert_eq!(c.additive_latency_nck(), 0);
    assert_eq!(c.read_latency_nck(), c.ps_to_nck(16_000));
    assert_eq!(c.write_latency_nck(), c.ps_to_nck(15_000));
    assert_eq!(c.t_xs_min_ns(), 360);
    assert_eq!(c.t_xs_fast_min_ns(), 170);
    assert_eq!(c.t_xs_abort_min_ns(), 170);
    assert_eq!(c.t_dllk_min_nck(), 768);
    assert_eq!(c.t_xs_dll_min_nck(), 768);
    assert_eq!(c.t_mrd_pda_min_nck(), 16);
    assert_eq!(c.t_wr_min_ns(), 15);
    assert_eq!(c.burst_len(), 8);
    assert_eq!(c.t_refi(), 7_800_000);
}

#[test]
fn mr0_value() {
    let c = cfg();
    // CL 16: A2 set from (16 - 1) % 2 and code 3 in bits 6:4; write
    // recovery of 16 clocks: code 16/2 - 5 = 3 in bits 12:9; burst 8 in
    // the low bits
    assert_eq!(c.mr0(), 0x0634);
}

#[test]
fn hif_vector_orders_fields() {
    // col_addr_bits=10, bg=1, bank=2, row=16 and rank bits from
    // logical_ranks: columns first, then bank group, banks, rows, ranks,
    // with no gaps or overlaps
    let c = cfg();
    let map = c.hif_addr_map();
    for j in 0..10 {
        assert_eq!(map[j], 100 + j as u32);
    }
    assert_eq!(map[10], 400);
    assert_eq!(map[11], 300);
    assert_eq!(map[12], 301);
    for j in 0..16 {
        assert_eq!(map[13 + j], 200 + j as u32);
    }
    // one rank: no rank bits; the tail stays empty
    for j in 29..40 {
        assert_eq!(map[j], 0);
    }

    // with two logical ranks a rank bit follows the rows
    let mut c2 = cfg();
    c2.package_ranks = 2;
    let map2 = c2.hif_addr_map();
    assert_eq!(map2[29], 500);
    for j in 30..40 {
        assert_eq!(map2[j], 0);
    }
}

#[test]
fn register_bit_maps() {
    let c = cfg();
    let bank = c.bank_addr_map();
    // bank bits sit 9 positions above the controller's base position
    assert_eq!(bank, [9, 9, 0x1f]);
    let bg = c.bg_addr_map();
    assert_eq!(bg, [8, 0x1f]);
    let col = c.col_addr_map();
    assert_eq!(col, [0xf, 0xf, 0, 0, 0, 0, 0, 0, 0, 0, 0xf, 0xf]);
    let row = c.row_addr_map();
    for j in 0..16 {
        assert_eq!(row[j], 7);
    }
    assert_eq!(row[16], 0xf);
    assert_eq!(row[17], 0xf);
}
