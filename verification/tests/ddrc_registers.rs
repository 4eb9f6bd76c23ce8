//! End-to-end regression: decoding the DDR4-2133 SO-DIMM image and deriving
//! the DDR controller registers must reproduce the expected values.

use zynq_us_boot::crc::crc;
use zynq_us_boot::ddrc::{
    DdrRam, ADDRMAP0, ADDRMAP1, ADDRMAP11, ADDRMAP2, ADDRMAP4, ADDRMAP5, ADDRMAP6, ADDRMAP7,
    ADDRMAP8, ADDRMAP9, CRCPARCTL2, DERATEEN, DIMMCTL, DQMAP0, DQMAP4, DRAMTMG0, DRAMTMG1,
    DRAMTMG12, DRAMTMG2, DRAMTMG4, DRAMTMG8, ECCCFG0, INIT0, INIT1, INIT3, MSTR, PWRCTL, RFSHCTL1,
    RFSHCTL3, RFSHTMG, RST_DDR_SS,
};
use zynq_us_boot::phy::DdrPhy;
use zynq_us_boot::regbus::{RegisterBus, SimBus};
use zynq_us_boot::spd::GeneralConfig;

fn fixture() -> [u8; 512] {
    let mut img = [0u8; 512];
    img[0] = 0x23;
    img[1] = 0x11;
    img[2] = 0x0C;
    img[3] = 0x03;
    img[4] = 0x45;
    img[5] = 0x21;
    img[7] = 0x08;
    img[11] = 0x03;
    img[12] = 0x02;
    img[13] = 0x03;
    img[18] = 0x08;
    img[125] = 0xC2;
    img[19] = 0x0C;
    img[20] = 0x54;
    img[21] = 0x01;
    img[24] = 0x71;
    img[123] = 0xC1;
    img[25] = 0x71;
    img[122] = 0xC1;
    img[26] = 0x71;
    img[121] = 0xC1;
    img[27] = 0x11;
    img[28] = 0x08;
    img[29] = 0x79;
    img[120] = 0xC1;
    img[30] = 0xF0;
    img[31] = 0x0A;
    img[32] = 0x20;
    img[33] = 0x08;
    img[34] = 0x00;
    img[35] = 0x05;
    img[36] = 0x00;
    img[37] = 0xF0;
    img[38] = 0x2B;
    img[119] = 0xB5;
    img[39] = 0x33;
    img[118] = 0x19;
    img[40] = 0x2B;
    img[117] = 0xEC;
    for k in 0..18 {
        img[60 + k] = (k + 1) as u8;
    }
    let base_crc = crc(&img[0..126]);
    img[126] = (base_crc & 0xff) as u8;
    img[127] = (base_crc >> 8) as u8;
    img[128] = 0x11;
    img[129] = 0x11;
    img[130] = 0x01;
    let module_crc = crc(&img[128..254]);
    img[254] = (module_crc & 0xff) as u8;
    img[255] = (module_crc >> 8) as u8;
    img
}

#[test]
fn decode_and_register_derivation() {
    let config = GeneralConfig::from_spd_data(&fixture()).unwrap();
    let phy = DdrPhy::ddr_phy(SimBus::new());
    let mut ddr = DdrRam::ddr_ram(SimBus::new(), phy);
    ddr.write_regs(&config);

    // master mode: x16 devices, one rank, burst 8, full bus, DDR4
    assert_eq!(ddr.regs.read_reg(MSTR), 0x8104_0010);
    assert_eq!(ddr.regs.read_reg(DERATEEN), 0x0000_0200);
    assert_eq!(ddr.regs.read_reg(PWRCTL), 0);
    assert_eq!(ddr.regs.read_reg(RFSHCTL1), 0);
    assert_eq!(ddr.regs.read_reg(RFSHCTL3), 0);
    assert_eq!(ddr.regs.read_reg(RFSHTMG), 0x0081_00BB);
    assert_eq!(ddr.regs.read_reg(ECCCFG0), 0);
    assert_eq!(ddr.regs.read_reg(CRCPARCTL2), 0x0040_0500);
    assert_eq!(ddr.regs.read_reg(INIT0), 0x0000_0104);
    assert_eq!(ddr.regs.read_reg(INIT1), 0);
    assert_eq!(ddr.regs.read_reg(INIT3), 0x0634_0000);
    assert_eq!(ddr.regs.read_reg(DIMMCTL), 0);
    assert_eq!(ddr.regs.read_reg(DRAMTMG0), 0x0010_0000);
    assert_eq!(ddr.regs.read_reg(DRAMTMG1), 0x0004_001A);
    assert_eq!(ddr.regs.read_reg(DRAMTMG2), 0x0809_0000);
    assert_eq!(ddr.regs.read_reg(DRAMTMG4), 0x0803_0408);
    assert_eq!(ddr.regs.read_reg(DRAMTMG8), 0x0303_0C06);
    assert_eq!(ddr.regs.read_reg(DRAMTMG12), 0x0000_0008);
    assert_eq!(ddr.regs.read_reg(ADDRMAP0), 0x1f);
    assert_eq!(ddr.regs.read_reg(ADDRMAP1), 0x001F_0909);
    assert_eq!(ddr.regs.read_reg(ADDRMAP2), 0);
    assert_eq!(ddr.regs.read_reg(ADDRMAP4), 0x0F0F);
    assert_eq!(ddr.regs.read_reg(ADDRMAP5), 0x070F_0707);
    assert_eq!(ddr.regs.read_reg(ADDRMAP6), 0x0707_0707);
    assert_eq!(ddr.regs.read_reg(ADDRMAP7), 0x0F0F);
    assert_eq!(ddr.regs.read_reg(ADDRMAP8), 0x1F08);
    assert_eq!(ddr.regs.read_reg(ADDRMAP9), 0x0707_0707);
    assert_eq!(ddr.regs.read_reg(ADDRMAP11), 0x7);
    assert_eq!(ddr.regs.read_reg(DQMAP0), 0x0403_0201);
    assert_eq!(ddr.regs.read_reg(DQMAP4), 0x0A09);
}

#[test]
fn configure_cycles_the_reset() {
    let config = GeneralConfig::from_spd_data(&fixture()).unwrap();
    let phy = DdrPhy::ddr_phy(SimBus::new());
    let mut ddr = DdrRam::ddr_ram(SimBus::new(), phy);
    let mut reset = SimBus::new();
    ddr.configure(&config, &mut reset);
    // the reset bit was released and the domain locked again at the end,
    // and the image was written
    assert_eq!(reset.read_reg(RST_DDR_SS) & (1 << 3), 0);
    assert_eq!(reset.read_reg(zynq_us_boot::clocks::WPROT), 1);
    assert_eq!(ddr.regs.read_reg(MSTR), 0x8104_0010);
    assert_eq!(ddr.size(), 2047 * 1024 * 1024);
}
