//! Clock, I2C and UART driver tests over the simulated register bus.

use zynq_us_boot::cache::{translate_set_way_level, CacheLevel};
use zynq_us_boot::clocks::{
    frac_enabled, pll_freq, pll_lock_params, pll_setup_values, setup_pll, ClockError, Clocks,
    IoPll, CRL_PLL_STATUS, DLL_CLK_CTRL, I2C1_CLK_CTRL, PLL_CTRL_BYPASS, UART0_CLK_CTRL, WPROT,
};
use zynq_us_boot::i2c::{self, I2C};
use zynq_us_boot::regbus::{RegisterBus, SimBus};
use zynq_us_boot::spd::{read_spd_eeprom, SpdError, SpdReadError};
use zynq_us_boot::uart::{self, Uart};

#[test]
fn pll_frequency_decoding() {
    // fdiv 45, no div2: 45 * 33.333 MHz = 1.5 GHz
    assert_eq!(pll_freq(45 << 8), 1_499_985_000);
    // div2 halves the output
    assert_eq!(pll_freq((45 << 8) | (1 << 16)), 749_992_500);
    // bypass passes the reference through
    assert_eq!(pll_freq(PLL_CTRL_BYPASS | (45 << 8)), 33_333_000);
    assert!(frac_enabled(0x8000_0000));
    assert!(!frac_enabled(0x7fff_ffff));
}

#[test]
fn pll_divider_selection() {
    // 1.5 GHz runs through DIV2 at a 3 GHz VCO: fdiv 90
    let (fdiv, div2) = pll_setup_values(1_500_000_000);
    assert_eq!(fdiv, 90);
    assert!(div2);
    // 1.6 GHz stays above the DIV2 threshold: fdiv 48
    let (fdiv, div2) = pll_setup_values(1_600_000_000);
    assert_eq!(fdiv, 48);
    assert!(!div2);
    // lock parameters come from the divider table
    assert_eq!(pll_lock_params(25), (3, 10, 3, 63, 1000));
    assert_eq!(pll_lock_params(48), (3, 12, 3, 63, 775));
    assert_eq!(pll_lock_params(90), (4, 2, 3, 63, 600));
    assert_eq!(pll_lock_params(125), (3, 4, 3, 63, 600));
}

#[test]
fn pll_setup_programs_and_locks() {
    // the CRL status register reports IO PLL lock after three polls
    let mut crl = SimBus::with_status_script(CRL_PLL_STATUS, 0, 1, 3);
    assert_eq!(setup_pll::<IoPll, _>(&mut crl, 1_499_985_000), Ok(()));
    // the write protection was restored
    assert_eq!(crl.read_reg(WPROT), 1);
}

#[test]
fn pll_setup_lock_timeout() {
    let mut crl = SimBus::with_status_script(CRL_PLL_STATUS, 0, 0, u32::MAX);
    assert_eq!(
        setup_pll::<IoPll, _>(&mut crl, 1_499_985_000),
        Err(ClockError::LockTimeout)
    );
}

#[test]
fn component_clock_writes() {
    let mut crl = SimBus::new();
    let mut crf = SimBus::new();
    Clocks::init(&mut crl, &mut crf);
    // 50 MHz UART clock: divider 30 from the I/O PLL
    assert_eq!(crl.read_reg(UART0_CLK_CTRL), (1 << 24) | (1 << 16) | (30 << 8));
    // 100 MHz I2C clock: divider 15
    assert_eq!(crl.read_reg(I2C1_CLK_CTRL), (1 << 24) | (1 << 16) | (15 << 8));
    assert_eq!(crl.read_reg(DLL_CLK_CTRL), 0);
    // 533 MHz DDR clock: divider 2 from the DDR PLL
    assert_eq!(crf.read_reg(zynq_us_boot::clocks::DDR_CLK_CTRL), 2 << 8);
    // both domains were locked again
    assert_eq!(crl.read_reg(WPROT), 1);
    assert_eq!(crf.read_reg(WPROT), 1);
}

#[test]
fn uart_reference_clock() {
    let clocks = Clocks {
        apu: 1_199_988_000,
        ddr: 1_066_656_000,
        video: 1_499_985_000,
        io: 999_990_000,
        rpu: 999_990_000,
    };
    // I/O PLL source with dividers 20 and 1
    let ctrl = (1u32 << 24) | (1 << 16) | (20 << 8);
    assert_eq!(clocks.uart_ref_clk(ctrl, 0), 999_990_000 / 20);
    // DDR-PLL-to-LPD source divides twice
    let ctrl = (1u32 << 24) | (1 << 16) | (2 << 8) | 0b11;
    assert_eq!(clocks.uart_ref_clk(ctrl, 2 << 8), 1_066_656_000 / 2 / 2);
}

#[test]
fn i2c_sclk_divisors() {
    let mut crl = SimBus::new();
    // 100 MHz reference clock
    let mut bus = I2C::i2c1(SimBus::new(), &mut crl, 100_000_000);
    // a 100 kHz request runs at 90 kHz; the best divisor pair is (1, 51)
    assert_eq!(bus.set_sclk(100_000), Ok(()));
    let control = bus.regs.read_reg(i2c::CONTROL);
    assert_eq!((control >> 14) & 0x3, 0);
    assert_eq!((control >> 8) & 0x3f, 50);
}

#[test]
fn i2c_error_predicates() {
    assert!(I2C::<SimBus>::tx_error(i2c::ISR_NACK));
    assert!(I2C::<SimBus>::tx_error(i2c::ISR_ARB_LOST));
    assert!(!I2C::<SimBus>::tx_error(i2c::ISR_TX_COMPLETE));
    assert!(I2C::<SimBus>::rx_error(i2c::ISR_RX_OVERFLOW));
    assert!(!I2C::<SimBus>::rx_error(i2c::ISR_DATA));
}

#[test]
fn i2c_master_write_pushes_all_bytes() {
    let mut crl = SimBus::new();
    let mut bus = I2C::i2c0(SimBus::new(), &mut crl, 100_000_000);
    // an empty FIFO, no errors, and the completion flag latched
    bus.regs.write_reg(i2c::ISR, i2c::ISR_TX_COMPLETE);
    let data: Vec<u8> = (0..40u8).collect();
    assert_eq!(bus.master_write_polled(0x51, 40, &data), Ok(()));
    // the last FIFO write was the last byte of the remainder chunk
    assert_eq!(bus.regs.read_reg(i2c::DATA), 39);
    assert_eq!(bus.regs.read_reg(i2c::ADDR), 0x51);
}

#[test]
fn i2c_master_read_fills_buffer() {
    let mut crl = SimBus::new();
    let mut bus = I2C::i2c0(SimBus::new(), &mut crl, 100_000_000);
    // data stays valid and the FIFO always hands back the same byte
    bus.regs.write_reg(i2c::STATUS, i2c::STATUS_RX_DATA_VALID);
    bus.regs.write_reg(i2c::DATA, 0xAB);
    let mut buffer = vec![0u8; 16];
    assert_eq!(bus.master_read_polled(0x51, 8, &mut buffer), Ok(()));
    for k in 0..8 {
        assert_eq!(buffer[k], 0xAB);
    }
    for k in 8..16 {
        assert_eq!(buffer[k], 0);
    }
}

#[test]
fn i2c_master_write_reports_nack() {
    let mut crl = SimBus::new();
    let mut bus = I2C::i2c0(SimBus::new(), &mut crl, 100_000_000);
    // latch a NACK after the constructor's interrupt clearing
    bus.regs.write_reg(i2c::ISR, i2c::ISR_NACK);
    let data = [1u8, 2, 3];
    match bus.master_write_polled(0x51, 3, &data) {
        Err(isr) => assert_ne!(isr & i2c::ISR_NACK, 0),
        Ok(()) => panic!("a latched NACK must fail the transfer"),
    }
}

#[test]
fn spd_read_rejects_wrong_mux_selection() {
    let mut crl = SimBus::new();
    // the data FIFO always reads back zero, so the multiplexer never
    // confirms the DDR channel selection
    let sim = SimBus::with_status_script(i2c::DATA, 0, 0, u32::MAX);
    let mut bus = I2C::i2c1(sim, &mut crl, 100_000_000);
    bus.regs.write_reg(i2c::ISR, i2c::ISR_TX_COMPLETE);
    bus.regs.write_reg(i2c::STATUS, i2c::STATUS_RX_DATA_VALID);
    match read_spd_eeprom(&mut bus) {
        Err(SpdReadError::MuxSelectFailed { value }) => assert_eq!(value, 0),
        other => panic!("expected a mux selection failure, got {:?}", other),
    }
}

#[test]
fn spd_read_validates_the_image() {
    let mut crl = SimBus::new();
    // the EEPROM hands back the mux selection byte for every read, so the
    // mux check passes but the resulting all-0x08 image fails validation
    let sim = SimBus::with_status_script(i2c::DATA, 0x08, 0x08, 0);
    let mut bus = I2C::i2c1(sim, &mut crl, 100_000_000);
    bus.regs.write_reg(i2c::ISR, i2c::ISR_TX_COMPLETE);
    bus.regs.write_reg(i2c::STATUS, i2c::STATUS_RX_DATA_VALID);
    match read_spd_eeprom(&mut bus) {
        Err(SpdReadError::Invalid { error }) => {
            assert!(matches!(error, SpdError::CrcMismatch { section_offset: 0, .. }));
        },
        other => panic!("expected the image to fail validation, got {:?}", other),
    }
}

#[test]
fn uart_configuration() {
    let mut crl = SimBus::new();
    let mut uart = Uart::uart0(SimBus::new(), &mut crl, 115_200);
    // 8N1 frame, 115200 baud divisors for the 50 MHz reference
    assert_eq!(uart.regs.read_reg(uart::MODE), (0b100 << 3) | (0b01 << 12));
    assert_eq!(uart.regs.read_reg(uart::BAUD_RATE_GEN), 62);
    assert_eq!(uart.regs.read_reg(uart::BAUD_RATE_DIVIDER), 6);
    // the UART clock was activated, its reset released, and the clock
    // domain locked again
    assert_ne!(crl.read_reg(UART0_CLK_CTRL) & (1 << 24), 0);
    assert_eq!(crl.read_reg(WPROT), 1);
    uart.write_byte(0x41);
    assert_eq!(uart.regs.read_reg(uart::TX_RX_FIFO), 0x41);
}

#[test]
fn cache_set_way_encoding() {
    assert_eq!(translate_set_way_level(0, 0, CacheLevel::L1), 0);
    assert_eq!(translate_set_way_level(1, 0, CacheLevel::L1), 1 << 6);
    assert_eq!(
        translate_set_way_level(0, 3, CacheLevel::L1),
        3usize << 30
    );
    assert_eq!(
        translate_set_way_level(5, 7, CacheLevel::L2),
        (5 << 6) | (7 << 28) | (1 << 1)
    );
}
