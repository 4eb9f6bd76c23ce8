//! DDR PHY configuration and training.
//!
//! The PHY is driven through its init command register (PIR) and observed
//! through its general status register (PGSR0): each phase sets trigger
//! bits, polls for the matching done bits under a bounded try count, and
//! treats error flags or an exhausted bound as fatal.

use vstd::prelude::*;

use crate::regbus::RegisterBus;

verus! {

// Byte offsets of the PHY registers this driver touches.
pub const PIR: u32 = 0x4;

pub const PGCR1: u32 = 0x14;

pub const PGCR3: u32 = 0x1c;

pub const PGSR0: u32 = 0x30;

pub const DTCFG0: u32 = 0x1f8;

pub const DX0GSR0: u32 = 0x7d8;

pub const DX2GSR0: u32 = 0x9d8;

pub const DX4GSR0: u32 = 0xbd8;

pub const DX6GSR0: u32 = 0xdd8;

pub const DX8SL0DXCTL2: u32 = 0x1424;

pub const DX8SL1DXCTL2: u32 = 0x1464;

pub const DX8SL2DXCTL2: u32 = 0x14a4;

pub const DX8SL3DXCTL2: u32 = 0x14e4;

pub const DX8SL4DXCTL2: u32 = 0x1524;

// PIR trigger values for each phase: each is a set of trigger bits plus the
// init bit (bit 0) that starts the sequence.
pub const PIR_PLL_INIT: u32 = (1 << 18) | (1 << 4) | 1;

pub const PIR_ZCAL_DCAL: u32 = (1 << 18) | (1 << 6) | (1 << 5) | (1 << 1) | 1;

pub const PIR_CTRL_DRAM_INIT: u32 = (1 << 18) | 1;

pub const PIR_TRAIN: u32 = (1 << 18) | (1 << 15) | (1 << 14) | (1 << 13) | (1 << 12) | (1 << 11) | (
1 << 10) | (1 << 9) | 1;

pub const PIR_VREF: u32 = (1 << 18) | (1 << 17) | 1;

pub const PIR_EYE_RETRAIN: u32 = (1 << 15) | (1 << 14) | 1;

// PGSR0 status bits.
pub const PGSR0_IDONE: u32 = 1 << 0;

pub const PGSR0_PLDONE: u32 = 1 << 1;

pub const PGSR0_APLOCK: u32 = 1 << 31;

// DXnGSR0 per-lane PLL lock bit.
pub const DXNGSR0_DPLOCK: u32 = 1 << 16;

/// zcal done, dcal done and init done.
pub const ZCAL_DCAL_DONE: u32 = (1 << 3) | (1 << 2) | (1 << 0);

/// DRAM init done and init done.
pub const DRAM_INIT_DONE: u32 = (1 << 4) | (1 << 0);

/// All seven training done bits: write/read eye, write/read deskew, write
/// leveling adjust, gate training, write leveling.
pub const TRAIN_DONE: u32 = (1 << 11) | (1 << 10) | (1 << 9) | (1 << 8) | (1 << 7) | (1 << 6) | (1
<< 5);

/// Every per-phase error flag checked after training.
pub const TRAIN_ERRORS: u32 = (1 << 28) | (1 << 27) | (1 << 26) | (1 << 25) | (1 << 24) | (1 << 23)
| (1 << 22) | (1 << 21) | (1 << 20) | (1 << 19) | (1 << 18);

/// Voltage training done and init done.
pub const VREF_DONE: u32 = (1 << 14) | (1 << 0);

/// Voltage training error flag.
pub const VREF_ERROR: u32 = 1 << 19;

/// Write/read eye done and init done, polled after the post-VREF retrain.
pub const EYE_RETRAIN_DONE: u32 = (1 << 11) | (1 << 10) | (1 << 0);

/// Bound on the poll iterations of every phase.
pub const DEFAULT_TIMEOUT: u32 = 1_000_000;

/// Static-read-mode override bits of PGCR3.
pub const PGCR3_RDMODE: u32 = 0x3 << 3;

/// Static-read-mode override bits of the DX8SLx DXCTL2 registers.
pub const DXCTL2_RDMODE: u32 = 0x3 << 4;

/// How PHY initialization can fail; every case is fatal for the boot.
#[derive(Debug, Clone, Copy, PartialEq, Eq, Structural)]
pub enum PhyError {
    /// The PLLs did not report lock within the bounded retries.
    LockFailed,
    /// A polled phase did not report done within the bounded try count.
    Timeout,
    /// Training completed but left error flags set; carries the status.
    TrainingFault { status: u32 },
    /// VREF training completed but flagged a voltage error.
    VrefFault { status: u32 },
}

/// Setting bits leaves them set; clearing bits leaves them clear.
proof fn lemma_set_clear_bits()
    by (bit_vector)
    ensures
        forall|x: u32, m: u32| #[trigger] ((x | m) & m) == m,
        forall|x: u32, m: u32| #[trigger] ((x & !m) & m) == 0,
{
}

/// The DDR PHY, driven over its register block.
pub struct DdrPhy<B: RegisterBus> {
    pub regs: B,
}

impl<B: RegisterBus> DdrPhy<B> {
    /// Take ownership of the PHY register block.
    pub fn ddr_phy(regs: B) -> (r: DdrPhy<B>)
        ensures
            r.regs.written() == regs.written(),
    {
        DdrPhy { regs }
    }

    /// Poll PGSR0 until every bit of `mask` reads set, giving up once
    /// `tries` polls have been spent. Returns the last value read and
    /// whether tries were left; the phase may only be treated as complete
    /// when every required done bit was seen set at once.
    pub fn poll_pgsr0(&mut self, mask: u32, tries: u32) -> (r: (u32, bool))
        ensures
            final(self).regs.written() == old(self).regs.written(),
            r.1 ==> r.0 & mask == mask,
    {
        let mut timeout: u32 = tries;
        let mut v = self.regs.read_reg(PGSR0);
        while timeout > 0 && (v & mask) != mask
            invariant
                self.regs.written() == old(self).regs.written(),
            decreases timeout,
        {
            v = self.regs.read_reg(PGSR0);
            timeout = timeout - 1;
        }
        (v, timeout != 0 || (v & mask) == mask)
    }

    fn configure_part1(&mut self)
        ensures
            final(self).regs.written() == old(self).regs.written()
                + spec_phy_static_part1(),
    {
        let ghost w0 = self.regs.written();
        self.regs.write_reg(0x10, 0x07001E00);
        self.regs.write_reg(0x18, 0x00F10010);
        self.regs.write_reg(0x1c, 0x55AA5480);
        self.regs.write_reg(0x24, 0x010100F4);
        self.regs.write_reg(0x40, 0x42C21590);
        self.regs.write_reg(0x44, 0xD05512C0);
        self.regs.write_reg(0x60, 0x01100000);
        self.regs.write_reg(0x88, 0x02A04161);
        self.regs.write_reg(0xb8, 0x00000000);
        self.regs.write_reg(0xbc, 0x000000E5);
        self.regs.write_reg(0xf8, 0x0800040C);
        self.regs.write_reg(0x108, 0x07240F08);
        self.regs.write_reg(0x10c, 0x28200008);
        self.regs.write_reg(0x110, 0x000F0300);
        self.regs.write_reg(0x114, 0x83000800);
        self.regs.write_reg(0x118, 0x01762B07);
        self.regs.write_reg(0x11c, 0x00330F08);
        self.regs.write_reg(0x120, 0x00000E0F);
        self.regs.write_reg(0x138, 0x08400020);
        self.regs.write_reg(0x13c, 0x00000C80);
        self.regs.write_reg(0x148, 0x00000000);
        self.regs.write_reg(0x14c, 0x00000300);
        self.regs.write_reg(0x178, 0x00000630);
        self.regs.write_reg(0x17c, 0x00000301);
        proof {
            assert(self.regs.written() =~= w0 + spec_phy_static_part1());
        }
    }
    fn configure_part2(&mut self)
        ensures
            final(self).regs.written() == old(self).regs.written()
                + spec_phy_static_part2(),
    {
        let ghost w0 = self.regs.written();
        self.regs.write_reg(0x180, 0x00000020);
        self.regs.write_reg(0x184, 0x00000200);
        self.regs.write_reg(0x188, 0x00000000);
        self.regs.write_reg(0x18c, 0x000006C0);
        self.regs.write_reg(0x190, 0x00000819);
        self.regs.write_reg(0x1a4, 0x00000000);
        self.regs.write_reg(0x1a8, 0x0000004D);
        self.regs.write_reg(0x1ac, 0x00000008);
        self.regs.write_reg(0x1b0, 0x0000004D);
        self.regs.write_reg(0x1d0, 0x00000000);
        self.regs.write_reg(0x1f8, 0x800091C7);
        self.regs.write_reg(0x1fc, 0x00010236);
        self.regs.write_reg(0x238, 0x00141054);
        self.regs.write_reg(0x248, 0x00088000);
        self.regs.write_reg(0x4ec, 0x00000005);
        self.regs.write_reg(0x4f8, 0x30000028);
        self.regs.write_reg(0x500, 0x0A000000);
        self.regs.write_reg(0x504, 0x00000009);
        self.regs.write_reg(0x508, 0x0A000000);
        self.regs.write_reg(0x518, 0x0300B0CE);
        self.regs.write_reg(0x520, 0xF9032019);
        self.regs.write_reg(0x524, 0x07F001E3);
        self.regs.write_reg(0x53c, 0x00000000);
        self.regs.write_reg(0x540, 0x00000000);
        proof {
            assert(self.regs.written() =~= w0 + spec_phy_static_part2());
        }
    }
    fn configure_part3(&mut self)
        ensures
            final(self).regs.written() == old(self).regs.written()
                + spec_phy_static_part3(),
    {
        let ghost w0 = self.regs.written();
        self.regs.write_reg(0x550, 0x00000000);
        self.regs.write_reg(0x554, 0x00000000);
        self.regs.write_reg(0x558, 0x00000000);
        self.regs.write_reg(0x55c, 0x00000000);
        self.regs.write_reg(0x678, 0x008AAA58);
        self.regs.write_reg(0x67c, 0x000079DD);
        self.regs.write_reg(0x68c, 0x01E10210);
        self.regs.write_reg(0x690, 0x01E10000);
        self.regs.write_reg(0x69c, 0x00087BDB);
        self.regs.write_reg(0x6f8, 0x40800604);
        self.regs.write_reg(0x6fc, 0x00007FFF);
        self.regs.write_reg(0x704, 0x3F000008);
        self.regs.write_reg(0x708, 0x0E00B03C);
        self.regs.write_reg(0x70c, 0x09095555);
        self.regs.write_reg(0x710, 0x09092B2B);
        self.regs.write_reg(0x7f8, 0x40800604);
        self.regs.write_reg(0x7fc, 0x00007FFF);
        self.regs.write_reg(0x804, 0x3F000008);
        self.regs.write_reg(0x808, 0x0E00B03C);
        self.regs.write_reg(0x80c, 0x09095555);
        self.regs.write_reg(0x810, 0x09092B2B);
        self.regs.write_reg(0x8f8, 0x40800604);
        self.regs.write_reg(0x8fc, 0x00007FFF);
        self.regs.write_reg(0x904, 0x3F000008);
        proof {
            assert(self.regs.written() =~= w0 + spec_phy_static_part3());
        }
    }
    fn configure_part4(&mut self)
        ensures
            final(self).regs.written() == old(self).regs.written()
                + spec_phy_static_part4(),
    {
        let ghost w0 = self.regs.written();
        self.regs.write_reg(0x908, 0x0E00B004);
        self.regs.write_reg(0x90c, 0x09095555);
        self.regs.write_reg(0x910, 0x09092B2B);
        self.regs.write_reg(0x9f8, 0x40800604);
        self.regs.write_reg(0x9fc, 0x00007FFF);
        self.regs.write_reg(0xa04, 0x3F000008);
        self.regs.write_reg(0xa08, 0x0E00B004);
        self.regs.write_reg(0xa0c, 0x09095555);
        self.regs.write_reg(0xa10, 0x09092B2B);
        self.regs.write_reg(0xaf8, 0x40800604);
        self.regs.write_reg(0xafc, 0x00007FFF);
        self.regs.write_reg(0xb00, 0x00000000);
        self.regs.write_reg(0xb04, 0x3F000008);
        self.regs.write_reg(0xb08, 0x0E00B004);
        self.regs.write_reg(0xb0c, 0x09095555);
        self.regs.write_reg(0xb10, 0x09092B2B);
        self.regs.write_reg(0xbf8, 0x40800604);
        self.regs.write_reg(0xbfc, 0x00007FFF);
        self.regs.write_reg(0xc00, 0x00000000);
        self.regs.write_reg(0xc04, 0x3F000008);
        self.regs.write_reg(0xc08, 0x0E00B03C);
        self.regs.write_reg(0xc0c, 0x09095555);
        self.regs.write_reg(0xc10, 0x09092B2B);
        self.regs.write_reg(0xcf8, 0x40800604);
        proof {
            assert(self.regs.written() =~= w0 + spec_phy_static_part4());
        }
    }
    fn configure_part5(&mut self)
        ensures
            final(self).regs.written() == old(self).regs.written()
                + spec_phy_static_part5(),
    {
        let ghost w0 = self.regs.written();
        self.regs.write_reg(0xcfc, 0x00007FFF);
        self.regs.write_reg(0xd00, 0x00000000);
        self.regs.write_reg(0xd04, 0x3F000008);
        self.regs.write_reg(0xd08, 0x0E00B004);
        self.regs.write_reg(0xd0c, 0x09095555);
        self.regs.write_reg(0xd10, 0x09092B2B);
        self.regs.write_reg(0xdf8, 0x40800604);
        self.regs.write_reg(0xdfc, 0x00007FFF);
        self.regs.write_reg(0xe00, 0x00000000);
        self.regs.write_reg(0xe04, 0x3F000008);
        self.regs.write_reg(0xe08, 0x0E00B03C);
        self.regs.write_reg(0xe0c, 0x09095555);
        self.regs.write_reg(0xe10, 0x09092B2B);
        self.regs.write_reg(0xef8, 0x80803660);
        self.regs.write_reg(0xefc, 0x55556000);
        self.regs.write_reg(0xf00, 0xAAAAAAAA);
        self.regs.write_reg(0xf04, 0x0029A4A4);
        self.regs.write_reg(0xf08, 0x0C00B000);
        self.regs.write_reg(0xf0c, 0x09095555);
        self.regs.write_reg(0xf10, 0x09092B2B);
        self.regs.write_reg(0x13f8, 0x2A019FFE);
        self.regs.write_reg(0x13fc, 0x01100000);
        self.regs.write_reg(0x1414, 0x01264300);
        self.regs.write_reg(0x1424, 0x00041800);
        proof {
            assert(self.regs.written() =~= w0 + spec_phy_static_part5());
        }
    }
    fn configure_part6(&mut self)
        ensures
            final(self).regs.written() == old(self).regs.written()
                + spec_phy_static_part6(),
    {
        let ghost w0 = self.regs.written();
        self.regs.write_reg(0x1428, 0x70800000);
        self.regs.write_reg(0x1438, 0x2A019FFE);
        self.regs.write_reg(0x143c, 0x01100000);
        self.regs.write_reg(0x1454, 0x01264300);
        self.regs.write_reg(0x1464, 0x00041800);
        self.regs.write_reg(0x1468, 0x70800000);
        self.regs.write_reg(0x1478, 0x2A019FFE);
        self.regs.write_reg(0x147c, 0x01100000);
        self.regs.write_reg(0x1494, 0x01264300);
        self.regs.write_reg(0x14a4, 0x00041800);
        self.regs.write_reg(0x14a8, 0x70800000);
        self.regs.write_reg(0x14b8, 0x2A019FFE);
        self.regs.write_reg(0x14bc, 0x01100000);
        self.regs.write_reg(0x14d4, 0x01264300);
        self.regs.write_reg(0x14e4, 0x00041800);
        self.regs.write_reg(0x14e8, 0x70800000);
        self.regs.write_reg(0x14f8, 0x15019FFE);
        self.regs.write_reg(0x14fc, 0x21100000);
        self.regs.write_reg(0x1514, 0x01266300);
        self.regs.write_reg(0x1524, 0x00041800);
        self.regs.write_reg(0x1528, 0x70400000);
        self.regs.write_reg(0x17d4, 0x012643C4);
        proof {
            assert(self.regs.written() =~= w0 + spec_phy_static_part6());
        }
    }

    /// Load the static PHY configuration: PLL and timing parameter
    /// registers, mode registers, I/O calibration constants and per-lane
    /// group control registers, exactly in this order.
    pub fn configure(&mut self)
        ensures
            final(self).regs.written() == old(self).regs.written() + spec_phy_static_writes(),
    {
        let ghost w0 = self.regs.written();
        self.configure_part1();
        self.configure_part2();
        self.configure_part3();
        self.configure_part4();
        self.configure_part5();
        self.configure_part6();
        proof {
            assert(self.regs.written() =~= w0 + spec_phy_static_writes());
        }
    }

    /// Read-modify-write that sets every bit of `mask` at `off`.
    fn set_bits(&mut self, off: u32, mask: u32)
        ensures
            final(self).regs.written().len() == old(self).regs.written().len() + 1,
            forall|i: int|
                0 <= i < old(self).regs.written().len() ==> final(self).regs.written()[i] == old(
                    self,
                ).regs.written()[i],
            final(self).regs.written().last().0 == off,
            final(self).regs.written().last().1 & mask == mask,
    {
        let cur = self.regs.read_reg(off);
        proof {
            lemma_set_clear_bits();
        }
        self.regs.write_reg(off, cur | mask);
    }

    /// Read-modify-write that clears every bit of `mask` at `off`.
    fn clear_bits(&mut self, off: u32, mask: u32)
        ensures
            final(self).regs.written().len() == old(self).regs.written().len() + 1,
            forall|i: int|
                0 <= i < old(self).regs.written().len() ==> final(self).regs.written()[i] == old(
                    self,
                ).regs.written()[i],
            final(self).regs.written().last().0 == off,
            final(self).regs.written().last().1 & mask == 0,
    {
        let cur = self.regs.read_reg(off);
        proof {
            lemma_set_clear_bits();
        }
        self.regs.write_reg(off, cur & !mask);
    }

    /// Initialize the DDR PLLs: trigger PLL init, wait for the PLL done
    /// bit, then require the analog PLL lock and all four per-lane locks,
    /// retrying up to ten times before giving up. Only PIR trigger writes
    /// are issued.
    pub fn init_plls(&mut self) -> (r: Result<(), PhyError>)
        ensures
            old(self).regs.written().len() < final(self).regs.written().len() <= old(
                self,
            ).regs.written().len() + 10,
            forall|i: int|
                old(self).regs.written().len() <= i < final(self).regs.written().len()
                    ==> final(self).regs.written()[i] == (PIR, PIR_PLL_INIT),
            forall|i: int|
                0 <= i < old(self).regs.written().len() ==> final(self).regs.written()[i] == old(
                    self,
                ).regs.written()[i],
            r matches Err(e) ==> e == PhyError::LockFailed,
    {
        let ghost base = old(self).regs.written().len() as int;
        let mut pll_retry: u8 = 10;
        let mut pll_locked: bool = false;
        while pll_retry > 0 && !pll_locked
            invariant
                pll_retry <= 10,
                self.regs.written().len() == base + 10 - pll_retry,
                forall|i: int|
                    base <= i < self.regs.written().len() ==> self.regs.written()[i] == (
                    PIR,
                    PIR_PLL_INIT,
                ),
                forall|i: int|
                    0 <= i < base ==> self.regs.written()[i] == old(self).regs.written()[i],
                base == old(self).regs.written().len(),
                pll_retry == 10 ==> !pll_locked,
            decreases pll_retry,
        {
            self.regs.write_reg(PIR, PIR_PLL_INIT);
            let (_, seen) = self.poll_pgsr0(PGSR0_PLDONE, DEFAULT_TIMEOUT);
            if !seen {
                pll_retry -= 1;
                continue;
            }
            let pgsr0 = self.regs.read_reg(PGSR0);
            let dx0 = self.regs.read_reg(DX0GSR0);
            let dx2 = self.regs.read_reg(DX2GSR0);
            let dx4 = self.regs.read_reg(DX4GSR0);
            let dx6 = self.regs.read_reg(DX6GSR0);
            pll_locked = pgsr0 & PGSR0_APLOCK == PGSR0_APLOCK && dx0 & DXNGSR0_DPLOCK
                == DXNGSR0_DPLOCK && dx2 & DXNGSR0_DPLOCK == DXNGSR0_DPLOCK && dx4
                & DXNGSR0_DPLOCK == DXNGSR0_DPLOCK && dx6 & DXNGSR0_DPLOCK == DXNGSR0_DPLOCK;
            pll_retry -= 1;
        }
        if pll_locked {
            Ok(())
        } else {
            Err(PhyError::LockFailed)
        }
    }

    /// Execute impedance calibration and digital delay line calibration in
    /// parallel, then wait for DRAM initialization to complete. Whatever
    /// the status reads return, the prior log is preserved and the only
    /// writes issued are the two PIR triggers, in order: the calibration
    /// trigger always, the DRAM-init trigger once calibration reported
    /// done. Success means every required done bit of each step was seen
    /// set within the bounded try count, with both triggers issued.
    pub fn execute_zcal_dcal(&mut self) -> (r: Result<(), PhyError>)
        ensures
            forall|i: int|
                0 <= i < old(self).regs.written().len() ==> final(self).regs.written()[i] == old(
                    self,
                ).regs.written()[i],
            old(self).regs.written().len() + 1 <= final(self).regs.written().len(),
            final(self).regs.written().len() <= old(self).regs.written().len() + 2,
            final(self).regs.written()[old(self).regs.written().len() as int].0 == PIR,
            final(self).regs.written()[old(self).regs.written().len() as int].1 == PIR_ZCAL_DCAL,
            final(self).regs.written().len() == old(self).regs.written().len() + 2
                ==> final(self).regs.written().last().0 == PIR
                && final(self).regs.written().last().1 == PIR_CTRL_DRAM_INIT,
            r matches Ok(()) ==> final(self).regs.written() == old(self).regs.written() + seq![
                (PIR, PIR_ZCAL_DCAL),
                (PIR, PIR_CTRL_DRAM_INIT),
            ],
            r matches Err(e) ==> e == PhyError::Timeout,
    {
        let ghost w0 = old(self).regs.written();
        self.regs.write_reg(PIR, PIR_ZCAL_DCAL);
        let (_, seen) = self.poll_pgsr0(ZCAL_DCAL_DONE, DEFAULT_TIMEOUT);
        if !seen {
            return Err(PhyError::Timeout);
        }

        // wait for DRAM init done
        self.regs.write_reg(PIR, PIR_CTRL_DRAM_INIT);
        let (_, seen) = self.poll_pgsr0(DRAM_INIT_DONE, DEFAULT_TIMEOUT);
        if !seen {
            return Err(PhyError::Timeout);
        }
        proof {
            assert(self.regs.written() =~= w0 + seq![
                (PIR, PIR_ZCAL_DCAL),
                (PIR, PIR_CTRL_DRAM_INIT),
            ]);
        }
        Ok(())
    }

    /// Execute the training sequences: the combined eye/deskew/leveling/
    /// gating pass with its error-flag check, VREF training under the
    /// static-read-mode overrides, and the post-VREF write/read eye
    /// retrain. On success the write log gains exactly the eighteen
    /// programming steps of the sequence, with the override bits set on the
    /// way in and cleared again on the way out.
    pub fn execute_training(&mut self) -> (r: Result<(), PhyError>)
        ensures
            ({
                let w = final(self).regs.written();
                let n = old(self).regs.written().len() as int;
                &&& n <= w.len() <= n + 18
                &&& (forall|i: int| 0 <= i < n ==> w[i] == old(self).regs.written()[i])
                &&& (w.len() > n ==> w[n] == (PGCR1, 0x00000040u32))
                &&& (w.len() > n + 1 ==> w[n + 1] == (PIR, PIR_TRAIN))
                &&& (w.len() > n + 2 ==> w[n + 2] == (DTCFG0, 0x100091C7u32))
                &&& (w.len() > n + 3 ==> w[n + 3].0 == PGCR3 && w[n + 3].1 & PGCR3_RDMODE
                    == PGCR3_RDMODE)
                &&& (w.len() > n + 4 ==> w[n + 4].0 == DX8SL0DXCTL2 && w[n + 4].1 & DXCTL2_RDMODE
                    == DXCTL2_RDMODE)
                &&& (w.len() > n + 5 ==> w[n + 5].0 == DX8SL1DXCTL2 && w[n + 5].1 & DXCTL2_RDMODE
                    == DXCTL2_RDMODE)
                &&& (w.len() > n + 6 ==> w[n + 6].0 == DX8SL2DXCTL2 && w[n + 6].1 & DXCTL2_RDMODE
                    == DXCTL2_RDMODE)
                &&& (w.len() > n + 7 ==> w[n + 7].0 == DX8SL3DXCTL2 && w[n + 7].1 & DXCTL2_RDMODE
                    == DXCTL2_RDMODE)
                &&& (w.len() > n + 8 ==> w[n + 8].0 == DX8SL4DXCTL2 && w[n + 8].1 & DXCTL2_RDMODE
                    == DXCTL2_RDMODE)
                &&& (w.len() > n + 9 ==> w[n + 9] == (PIR, PIR_VREF))
                &&& (w.len() > n + 10 ==> w[n + 10].0 == PGCR3 && w[n + 10].1 & PGCR3_RDMODE == 0)
                &&& (w.len() > n + 11 ==> w[n + 11].0 == DX8SL0DXCTL2 && w[n + 11].1
                    & DXCTL2_RDMODE == 0)
                &&& (w.len() > n + 12 ==> w[n + 12].0 == DX8SL1DXCTL2 && w[n + 12].1
                    & DXCTL2_RDMODE == 0)
                &&& (w.len() > n + 13 ==> w[n + 13].0 == DX8SL2DXCTL2 && w[n + 13].1
                    & DXCTL2_RDMODE == 0)
                &&& (w.len() > n + 14 ==> w[n + 14].0 == DX8SL3DXCTL2 && w[n + 14].1
                    & DXCTL2_RDMODE == 0)
                &&& (w.len() > n + 15 ==> w[n + 15].0 == DX8SL4DXCTL2 && w[n + 15].1
                    & DXCTL2_RDMODE == 0)
                &&& (w.len() > n + 16 ==> w[n + 16] == (DTCFG0, 0x800091C7u32))
                &&& (w.len() > n + 17 ==> w[n + 17] == (PIR, PIR_EYE_RETRAIN))
            }),
            old(self).regs.written().len() + 2 <= final(self).regs.written().len(),
            r matches Ok(()) ==> final(self).regs.written().len() == old(
                self,
            ).regs.written().len() + 18,
            r matches Err(PhyError::TrainingFault { .. }) ==> final(self).regs.written().len()
                == old(self).regs.written().len() + 2,
            r matches Err(PhyError::VrefFault { .. }) ==> final(self).regs.written().len() == old(
                self,
            ).regs.written().len() + 10,
            r matches Err(e) ==> match e {
                PhyError::Timeout => true,
                PhyError::TrainingFault { status } => status & TRAIN_ERRORS != 0,
                PhyError::VrefFault { status } => status & VREF_ERROR != 0,
                PhyError::LockFailed => false,
            },
    {
        self.regs.write_reg(PGCR1, 0x00000040);
        self.regs.write_reg(PIR, PIR_TRAIN);
        let (status, seen) = self.poll_pgsr0(TRAIN_DONE, DEFAULT_TIMEOUT);
        if !seen {
            return Err(PhyError::Timeout);
        }
        if status & TRAIN_ERRORS != 0 {
            return Err(PhyError::TrainingFault { status });
        }

        // VREF training under static read mode
        self.regs.write_reg(DTCFG0, 0x100091C7);
        self.set_bits(PGCR3, PGCR3_RDMODE);
        self.set_bits(DX8SL0DXCTL2, DXCTL2_RDMODE);
        self.set_bits(DX8SL1DXCTL2, DXCTL2_RDMODE);
        self.set_bits(DX8SL2DXCTL2, DXCTL2_RDMODE);
        self.set_bits(DX8SL3DXCTL2, DXCTL2_RDMODE);
        self.set_bits(DX8SL4DXCTL2, DXCTL2_RDMODE);

        self.regs.write_reg(PIR, PIR_VREF);
        let (status, seen) = self.poll_pgsr0(VREF_DONE, DEFAULT_TIMEOUT);
        if !seen {
            return Err(PhyError::Timeout);
        }
        if status & VREF_ERROR != 0 {
            return Err(PhyError::VrefFault { status });
        }

        // back to normal read mode
        self.clear_bits(PGCR3, PGCR3_RDMODE);
        self.clear_bits(DX8SL0DXCTL2, DXCTL2_RDMODE);
        self.clear_bits(DX8SL1DXCTL2, DXCTL2_RDMODE);
        self.clear_bits(DX8SL2DXCTL2, DXCTL2_RDMODE);
        self.clear_bits(DX8SL3DXCTL2, DXCTL2_RDMODE);
        self.clear_bits(DX8SL4DXCTL2, DXCTL2_RDMODE);
        self.regs.write_reg(DTCFG0, 0x800091C7);

        // execute write/read eye training once more
        self.regs.write_reg(PIR, PIR_EYE_RETRAIN);
        let (_, seen) = self.poll_pgsr0(EYE_RETRAIN_DONE, DEFAULT_TIMEOUT);
        if !seen {
            return Err(PhyError::Timeout);
        }
        Ok(())
    }
}

/// Chunk 1 of the static PHY configuration values.
pub open spec fn spec_phy_static_part1() -> Seq<(u32, u32)> {
    seq![
        (0x10u32, 0x07001E00u32),
        (0x18u32, 0x00F10010u32),
        (0x1cu32, 0x55AA5480u32),
        (0x24u32, 0x010100F4u32),
        (0x40u32, 0x42C21590u32),
        (0x44u32, 0xD05512C0u32),
        (0x60u32, 0x01100000u32),
        (0x88u32, 0x02A04161u32),
        (0xb8u32, 0x00000000u32),
        (0xbcu32, 0x000000E5u32),
        (0xf8u32, 0x0800040Cu32),
        (0x108u32, 0x07240F08u32),
        (0x10cu32, 0x28200008u32),
        (0x110u32, 0x000F0300u32),
        (0x114u32, 0x83000800u32),
        (0x118u32, 0x01762B07u32),
        (0x11cu32, 0x00330F08u32),
        (0x120u32, 0x00000E0Fu32),
        (0x138u32, 0x08400020u32),
        (0x13cu32, 0x00000C80u32),
        (0x148u32, 0x00000000u32),
        (0x14cu32, 0x00000300u32),
        (0x178u32, 0x00000630u32),
        (0x17cu32, 0x00000301u32),
    ]
}
/// Chunk 2 of the static PHY configuration values.
pub open spec fn spec_phy_static_part2() -> Seq<(u32, u32)> {
    seq![
        (0x180u32, 0x00000020u32),
        (0x184u32, 0x00000200u32),
        (0x188u32, 0x00000000u32),
        (0x18cu32, 0x000006C0u32),
        (0x190u32, 0x00000819u32),
        (0x1a4u32, 0x00000000u32),
        (0x1a8u32, 0x0000004Du32),
        (0x1acu32, 0x00000008u32),
        (0x1b0u32, 0x0000004Du32),
        (0x1d0u32, 0x00000000u32),
        (0x1f8u32, 0x800091C7u32),
        (0x1fcu32, 0x00010236u32),
        (0x238u32, 0x00141054u32),
        (0x248u32, 0x00088000u32),
        (0x4ecu32, 0x00000005u32),
        (0x4f8u32, 0x30000028u32),
        (0x500u32, 0x0A000000u32),
        (0x504u32, 0x00000009u32),
        (0x508u32, 0x0A000000u32),
        (0x518u32, 0x0300B0CEu32),
        (0x520u32, 0xF9032019u32),
        (0x524u32, 0x07F001E3u32),
        (0x53cu32, 0x00000000u32),
        (0x540u32, 0x00000000u32),
    ]
}
/// Chunk 3 of the static PHY configuration values.
pub open spec fn spec_phy_static_part3() -> Seq<(u32, u32)> {
    seq![
        (0x550u32, 0x00000000u32),
        (0x554u32, 0x00000000u32),
        (0x558u32, 0x00000000u32),
        (0x55cu32, 0x00000000u32),
        (0x678u32, 0x008AAA58u32),
        (0x67cu32, 0x000079DDu32),
        (0x68cu32, 0x01E10210u32),
        (0x690u32, 0x01E10000u32),
        (0x69cu32, 0x00087BDBu32),
        (0x6f8u32, 0x40800604u32),
        (0x6fcu32, 0x00007FFFu32),
        (0x704u32, 0x3F000008u32),
        (0x708u32, 0x0E00B03Cu32),
        (0x70cu32, 0x09095555u32),
        (0x710u32, 0x09092B2Bu32),
        (0x7f8u32, 0x40800604u32),
        (0x7fcu32, 0x00007FFFu32),
        (0x804u32, 0x3F000008u32),
        (0x808u32, 0x0E00B03Cu32),
        (0x80cu32, 0x09095555u32),
        (0x810u32, 0x09092B2Bu32),
        (0x8f8u32, 0x40800604u32),
        (0x8fcu32, 0x00007FFFu32),
        (0x904u32, 0x3F000008u32),
    ]
}
/// Chunk 4 of the static PHY configuration values.
pub open spec fn spec_phy_static_part4() -> Seq<(u32, u32)> {
    seq![
        (0x908u32, 0x0E00B004u32),
        (0x90cu32, 0x09095555u32),
        (0x910u32, 0x09092B2Bu32),
        (0x9f8u32, 0x40800604u32),
        (0x9fcu32, 0x00007FFFu32),
        (0xa04u32, 0x3F000008u32),
        (0xa08u32, 0x0E00B004u32),
        (0xa0cu32, 0x09095555u32),
        (0xa10u32, 0x09092B2Bu32),
        (0xaf8u32, 0x40800604u32),
        (0xafcu32, 0x00007FFFu32),
        (0xb00u32, 0x00000000u32),
        (0xb04u32, 0x3F000008u32),
        (0xb08u32, 0x0E00B004u32),
        (0xb0cu32, 0x09095555u32),
        (0xb10u32, 0x09092B2Bu32),
        (0xbf8u32, 0x40800604u32),
        (0xbfcu32, 0x00007FFFu32),
        (0xc00u32, 0x00000000u32),
        (0xc04u32, 0x3F000008u32),
        (0xc08u32, 0x0E00B03Cu32),
        (0xc0cu32, 0x09095555u32),
        (0xc10u32, 0x09092B2Bu32),
        (0xcf8u32, 0x40800604u32),
    ]
}
/// Chunk 5 of the static PHY configuration values.
pub open spec fn spec_phy_static_part5() -> Seq<(u32, u32)> {
    seq![
        (0xcfcu32, 0x00007FFFu32),
        (0xd00u32, 0x00000000u32),
        (0xd04u32, 0x3F000008u32),
        (0xd08u32, 0x0E00B004u32),
        (0xd0cu32, 0x09095555u32),
        (0xd10u32, 0x09092B2Bu32),
        (0xdf8u32, 0x40800604u32),
        (0xdfcu32, 0x00007FFFu32),
        (0xe00u32, 0x00000000u32),
        (0xe04u32, 0x3F000008u32),
        (0xe08u32, 0x0E00B03Cu32),
        (0xe0cu32, 0x09095555u32),
        (0xe10u32, 0x09092B2Bu32),
        (0xef8u32, 0x80803660u32),
        (0xefcu32, 0x55556000u32),
        (0xf00u32, 0xAAAAAAAAu32),
        (0xf04u32, 0x0029A4A4u32),
        (0xf08u32, 0x0C00B000u32),
        (0xf0cu32, 0x09095555u32),
        (0xf10u32, 0x09092B2Bu32),
        (0x13f8u32, 0x2A019FFEu32),
        (0x13fcu32, 0x01100000u32),
        (0x1414u32, 0x01264300u32),
        (0x1424u32, 0x00041800u32),
    ]
}
/// Chunk 6 of the static PHY configuration values.
pub open spec fn spec_phy_static_part6() -> Seq<(u32, u32)> {
    seq![
        (0x1428u32, 0x70800000u32),
        (0x1438u32, 0x2A019FFEu32),
        (0x143cu32, 0x01100000u32),
        (0x1454u32, 0x01264300u32),
        (0x1464u32, 0x00041800u32),
        (0x1468u32, 0x70800000u32),
        (0x1478u32, 0x2A019FFEu32),
        (0x147cu32, 0x01100000u32),
        (0x1494u32, 0x01264300u32),
        (0x14a4u32, 0x00041800u32),
        (0x14a8u32, 0x70800000u32),
        (0x14b8u32, 0x2A019FFEu32),
        (0x14bcu32, 0x01100000u32),
        (0x14d4u32, 0x01264300u32),
        (0x14e4u32, 0x00041800u32),
        (0x14e8u32, 0x70800000u32),
        (0x14f8u32, 0x15019FFEu32),
        (0x14fcu32, 0x21100000u32),
        (0x1514u32, 0x01266300u32),
        (0x1524u32, 0x00041800u32),
        (0x1528u32, 0x70400000u32),
        (0x17d4u32, 0x012643C4u32),
    ]
}
/// The complete static PHY configuration, in write order.
pub open spec fn spec_phy_static_writes() -> Seq<(u32, u32)> {
    spec_phy_static_part1() + spec_phy_static_part2() + spec_phy_static_part3()
        + spec_phy_static_part4() + spec_phy_static_part5() + spec_phy_static_part6()
}

} // verus!
