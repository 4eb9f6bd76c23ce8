//! PHY calibration state machine tests against a simulated register
//! interface whose done bits appear after a fixed number of poll reads.

use zynq_us_boot::phy::{
    DdrPhy, PhyError, DRAM_INIT_DONE, DX0GSR0, DX2GSR0, DX4GSR0, DX6GSR0, EYE_RETRAIN_DONE, PGSR0,
    PGSR0_APLOCK, PGSR0_PLDONE, TRAIN_DONE, VREF_DONE, ZCAL_DCAL_DONE,
};
use zynq_us_boot::regbus::{RegisterBus, SimBus};

#[test]
fn poll_succeeds_once_bits_appear() {
    // the status register reads as 0 five times, then as "done"
    let bus = SimBus::with_status_script(PGSR0, 0, ZCAL_DCAL_DONE, 5);
    let mut phy = DdrPhy::ddr_phy(bus);
    let (value, seen) = phy.poll_pgsr0(ZCAL_DCAL_DONE, 1000);
    assert!(seen);
    assert_eq!(value & ZCAL_DCAL_DONE, ZCAL_DCAL_DONE);
}

#[test]
fn poll_times_out_when_bits_never_appear() {
    let bus = SimBus::with_status_script(PGSR0, 0, 0, u32::MAX);
    let mut phy = DdrPhy::ddr_phy(bus);
    let (_, seen) = phy.poll_pgsr0(ZCAL_DCAL_DONE, 1000);
    assert!(!seen);
}

#[test]
fn poll_requires_all_bits_at_once() {
    // only part of the mask ever shows up: the phase must not complete
    let bus = SimBus::with_status_script(PGSR0, 0, 1 << 3, 1);
    let mut phy = DdrPhy::ddr_phy(bus);
    let (_, seen) = phy.poll_pgsr0(ZCAL_DCAL_DONE, 1000);
    assert!(!seen);
}

#[test]
fn pll_init_locks() {
    let mut bus = SimBus::with_status_script(PGSR0, 0, PGSR0_PLDONE | PGSR0_APLOCK, 3);
    // all four lane PLLs report lock
    for off in [DX0GSR0, DX2GSR0, DX4GSR0, DX6GSR0] {
        bus.write_reg(off, 1 << 16);
    }
    let mut phy = DdrPhy::ddr_phy(bus);
    assert_eq!(phy.init_plls(), Ok(()));
}

#[test]
fn pll_init_fails_without_lane_locks() {
    // the general done bit appears but the lane PLLs never lock
    let bus = SimBus::with_status_script(PGSR0, 0, PGSR0_PLDONE | PGSR0_APLOCK, 0);
    let mut phy = DdrPhy::ddr_phy(bus);
    assert_eq!(phy.init_plls(), Err(PhyError::LockFailed));
}

#[test]
fn zcal_dcal_completes() {
    let bus = SimBus::with_status_script(PGSR0, 0, ZCAL_DCAL_DONE | DRAM_INIT_DONE, 4);
    let mut phy = DdrPhy::ddr_phy(bus);
    assert_eq!(phy.execute_zcal_dcal(), Ok(()));
}

#[test]
fn zcal_dcal_times_out() {
    let bus = SimBus::with_status_script(PGSR0, 0, 0, u32::MAX);
    let mut phy = DdrPhy::ddr_phy(bus);
    assert_eq!(phy.execute_zcal_dcal(), Err(PhyError::Timeout));
}

#[test]
fn training_completes_without_errors() {
    let done = TRAIN_DONE | VREF_DONE | EYE_RETRAIN_DONE;
    let bus = SimBus::with_status_script(PGSR0, 0, done, 6);
    let mut phy = DdrPhy::ddr_phy(bus);
    assert_eq!(phy.execute_training(), Ok(()));
}

#[test]
fn training_error_flags_are_fatal() {
    // done bits set, but the impedance calibration error flag is raised
    let status = TRAIN_DONE | (1 << 20);
    let bus = SimBus::with_status_script(PGSR0, 0, status, 0);
    let mut phy = DdrPhy::ddr_phy(bus);
    assert_eq!(phy.execute_training(), Err(PhyError::TrainingFault { status }));
}

#[test]
fn voltage_error_flag_is_fatal() {
    // the voltage error flag is among the flags checked after the first
    // training pass, so a stuck error fails the boot there
    let status = TRAIN_DONE | VREF_DONE | (1 << 19);
    let bus = SimBus::with_status_script(PGSR0, 0, status, 0);
    let mut phy = DdrPhy::ddr_phy(bus);
    assert_eq!(phy.execute_training(), Err(PhyError::TrainingFault { status }));
}

#[test]
fn static_configuration_is_written() {
    let bus = SimBus::new();
    let mut phy = DdrPhy::ddr_phy(bus);
    phy.configure();
    // spot-check registers across the configuration groups
    assert_eq!(phy.regs.read_reg(0x10), 0x07001E00); // PGCR0
    assert_eq!(phy.regs.read_reg(0x108), 0x07240F08); // DTPR0
    assert_eq!(phy.regs.read_reg(0x178), 0x00000630); // MR0
    assert_eq!(phy.regs.read_reg(0x520), 0xF9032019); // VTCR0
    assert_eq!(phy.regs.read_reg(0x6f8), 0x40800604); // DX0GCR0
    assert_eq!(phy.regs.read_reg(0xef8), 0x80803660); // DX8GCR0
    assert_eq!(phy.regs.read_reg(0x17d4), 0x012643C4); // DX8SLBDQSCTL
}
