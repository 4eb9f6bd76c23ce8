//! I2C master driver.
//!
//! The controller is driven through a small register block: a control
//! register with the SCL divisors and transfer options, a data FIFO, an
//! address register that starts a transfer, and an interrupt status
//! register whose error flags end one. Transfers are polled with a bounded
//! try count rather than interrupts.

use vstd::prelude::*;

use crate::regbus::RegisterBus;
use crate::util::{div_round_closest, spec_div_round_closest};

verus! {

// Byte offsets of the I2C registers.
pub const CONTROL: u32 = 0x0;

pub const STATUS: u32 = 0x4;

pub const ADDR: u32 = 0x8;

pub const DATA: u32 = 0xc;

pub const ISR: u32 = 0x10;

pub const TX_SIZE: u32 = 0x14;

pub const TIMEOUT: u32 = 0x1c;

pub const INTERRUPT_ENABLE: u32 = 0x24;

pub const INTERRUPT_DISABLE: u32 = 0x28;

pub const GLITCH_FILTER: u32 = 0x2c;

// Control register bits.
pub const CTRL_DIV_A_SHIFT: u32 = 14;

pub const CTRL_DIV_B_SHIFT: u32 = 8;

pub const CTRL_CLEAR_FIFO: u32 = 1 << 6;

pub const CTRL_HOLD: u32 = 1 << 4;

pub const CTRL_ACK_EN: u32 = 1 << 3;

pub const CTRL_ADDR_MODE: u32 = 1 << 2;

pub const CTRL_INTERFACE_MODE: u32 = 1 << 1;

pub const CTRL_RX_EN: u32 = 1 << 0;

// Status register bits.
pub const STATUS_BUS_ACTIVE: u32 = 1 << 8;

pub const STATUS_TX_DATA_VALID: u32 = 1 << 6;

pub const STATUS_RX_DATA_VALID: u32 = 1 << 5;

// Interrupt status register bits.
pub const ISR_ARB_LOST: u32 = 1 << 9;

pub const ISR_RX_UNDERFLOW: u32 = 1 << 7;

pub const ISR_TX_OVERFLOW: u32 = 1 << 6;

pub const ISR_RX_OVERFLOW: u32 = 1 << 5;

pub const ISR_SLV_READY: u32 = 1 << 4;

pub const ISR_TIMEOUT: u32 = 1 << 3;

pub const ISR_NACK: u32 = 1 << 2;

pub const ISR_DATA: u32 = 1 << 1;

pub const ISR_TX_COMPLETE: u32 = 1 << 0;

/// Every interrupt bit, as written to the enable and disable registers.
pub const ISR_ALL: u32 = ISR_ARB_LOST | ISR_RX_UNDERFLOW | ISR_TX_OVERFLOW | ISR_RX_OVERFLOW
    | ISR_SLV_READY | ISR_TIMEOUT | ISR_NACK | ISR_DATA | ISR_TX_COMPLETE;

// Peripheral reset bits in the low-power domain's reset register.
pub const PERI_RST_I2C0: u32 = 1 << 9;

pub const PERI_RST_I2C1: u32 = 1 << 10;

/// Hardware FIFO size in bytes.
pub const FIFO_SIZE: u16 = 16;

/// Threshold at which the data interrupt triggers.
pub const DATA_INTR_THRESH: u8 = 14;

/// Maximum size of one master transfer chunk in bytes.
pub const MAX_TX: u8 = 252;

/// I2C bus multiplexer address.
pub const MUX_ADDR: u16 = 0x75;

/// Maximum SCL frequency.
pub const MAX_SCLK_FREQ: u32 = 400_000;

// Maximum divisors; the hardware divisor is the register value plus one.
pub const MAX_DIV_A: u32 = 4;

pub const MAX_DIV_B: u32 = 64;

/// The controller's built-in clock divider.
pub const CLK_DIV_BUILTIN: u32 = 22;

/// Bound on status polls during a transfer.
pub const POLL_TRIES: u32 = 1_000_000;

/// Whether an interrupt status value carries an RX-related error.
pub open spec fn spec_rx_error(isr: u32) -> bool {
    isr & (ISR_ARB_LOST | ISR_RX_UNDERFLOW | ISR_RX_OVERFLOW | ISR_NACK) != 0
}

/// Whether an interrupt status value carries a TX-related error.
pub open spec fn spec_tx_error(isr: u32) -> bool {
    isr & (ISR_ARB_LOST | ISR_TX_OVERFLOW | ISR_NACK) != 0
}

/// The I2C controller, driven over its register block, with the reference
/// clock it divides down to SCL.
pub struct I2C<B: RegisterBus> {
    pub regs: B,
    pub ref_clk: u32,
}

impl<B: RegisterBus> I2C<B> {
    /// Bring up the I2C0 controller: pulse its reset in the low-power
    /// domain's reset register and put the controller in its idle state.
    pub fn i2c0(regs: B, crl: &mut B, ref_clk: u32) -> (r: I2C<B>)
        ensures
            ({
                let w = final(crl).written();
                let m = old(crl).written().len() as int;
                &&& w.len() == m + 4
                &&& (forall|i: int| 0 <= i < m ==> w[i] == old(crl).written()[i])
                &&& w[m].0 == crate::clocks::WPROT && w[m].1 == 0
                &&& w[m + 1].0 == crate::clocks::PERI_RST_CTRL && w[m + 1].1 & PERI_RST_I2C0
                    == PERI_RST_I2C0
                &&& w[m + 2].0 == crate::clocks::PERI_RST_CTRL && w[m + 2].1 & PERI_RST_I2C0 == 0
                &&& w[m + 3].0 == crate::clocks::WPROT && w[m + 3].1 == 1
            }),
            r.ref_clk == ref_clk,
    {
        // the reset pulse runs with the domain unlocked
        crl.write_reg(crate::clocks::WPROT, 0);
        let cur = crl.read_reg(crate::clocks::PERI_RST_CTRL);
        proof {
            lemma_i2c_bits(cur);
        }
        crl.write_reg(crate::clocks::PERI_RST_CTRL, cur | PERI_RST_I2C0);
        let cur = crl.read_reg(crate::clocks::PERI_RST_CTRL);
        proof {
            lemma_i2c_bits(cur);
        }
        crl.write_reg(crate::clocks::PERI_RST_CTRL, cur & !PERI_RST_I2C0);
        crl.write_reg(crate::clocks::WPROT, 1);
        let mut i2c = I2C { regs, ref_clk };
        i2c.reset(false);
        i2c
    }

    /// Bring up the I2C1 controller: pulse its reset, reach the idle state
    /// and program the 50 ns glitch filter from the reference clock.
    pub fn i2c1(regs: B, crl: &mut B, ref_clk: u32) -> (r: I2C<B>)
        requires
            spec_div_round_closest(ref_clk as int, 20_000_000) < 16,
        ensures
            ({
                let w = final(crl).written();
                let m = old(crl).written().len() as int;
                &&& w.len() == m + 4
                &&& (forall|i: int| 0 <= i < m ==> w[i] == old(crl).written()[i])
                &&& w[m].0 == crate::clocks::WPROT && w[m].1 == 0
                &&& w[m + 1].0 == crate::clocks::PERI_RST_CTRL && w[m + 1].1 & PERI_RST_I2C1
                    == PERI_RST_I2C1
                &&& w[m + 2].0 == crate::clocks::PERI_RST_CTRL && w[m + 2].1 & PERI_RST_I2C1 == 0
                &&& w[m + 3].0 == crate::clocks::WPROT && w[m + 3].1 == 1
            }),
            r.ref_clk == ref_clk,
    {
        // the reset pulse runs with the domain unlocked
        crl.write_reg(crate::clocks::WPROT, 0);
        let cur = crl.read_reg(crate::clocks::PERI_RST_CTRL);
        proof {
            lemma_i2c_bits(cur);
        }
        crl.write_reg(crate::clocks::PERI_RST_CTRL, cur | PERI_RST_I2C1);
        let cur = crl.read_reg(crate::clocks::PERI_RST_CTRL);
        proof {
            lemma_i2c_bits(cur);
        }
        crl.write_reg(crate::clocks::PERI_RST_CTRL, cur & !PERI_RST_I2C1);
        crl.write_reg(crate::clocks::WPROT, 1);
        let mut i2c = I2C { regs, ref_clk };
        i2c.reset(false);
        // glitch filter set to the number of clock cycles in 50 ns
        let num_cycles = div_round_closest(ref_clk, 20_000_000);
        i2c.regs.write_reg(GLITCH_FILTER, num_cycles & 0xf);
        i2c
    }

    /// Reset the controller: disable and clear interrupts, clear the FIFO,
    /// set the transfer timeout to its maximum and zero the transfer
    /// registers.
    pub fn reset(&mut self, _restore_interrupts: bool)
        ensures
            final(self).regs.written().len() == old(self).regs.written().len() + 6,
            forall|i: int|
                0 <= i < old(self).regs.written().len() ==> final(self).regs.written()[i] == old(
                    self,
                ).regs.written()[i],
            final(self).regs.written().last() == (CONTROL, 0u32),
            final(self).ref_clk == old(self).ref_clk,
    {
        self.disable_interrupts();
        self.clear_interrupt_status();

        // clear FIFO
        self.regs.write_reg(CONTROL, CTRL_CLEAR_FIFO);

        // set timeout to max value
        self.regs.write_reg(TIMEOUT, 0xff);

        // clear other registers
        self.regs.write_reg(TX_SIZE, 0);
        self.regs.write_reg(CONTROL, 0);
    }

    /// Program the SCL divisors for a target frequency: pick, among the
    /// divisor-A choices, the pair whose resulting frequency comes closest
    /// to the (hardware-limited) target.
    pub fn set_sclk(&mut self, freq: u32) -> (r: Result<(), ()>)
        requires
            1 <= freq <= MAX_SCLK_FREQ,
            2 <= spec_div_round_closest(
                old(self).ref_clk as int,
                spec_adjusted_sclk(freq) * CLK_DIV_BUILTIN,
            ) <= MAX_DIV_A * MAX_DIV_B,
            old(self).ref_clk + 10_000_000 <= u32::MAX,
        ensures
            final(self).ref_clk == old(self).ref_clk,
            r matches Ok(()) ==> {
                let w = final(self).regs.written();
                let best = spec_sclk_divisors(old(self).ref_clk as int, spec_adjusted_sclk(freq));
                &&& w.len() == old(self).regs.written().len() + 1
                &&& (forall|i: int|
                    0 <= i < old(self).regs.written().len() ==> w[i] == old(
                        self,
                    ).regs.written()[i])
                &&& w.last().0 == CONTROL
                &&& best.0 >= 1
                &&& (w.last().1 >> CTRL_DIV_A_SHIFT) & 0x3 == ((best.0 - 1) as u32) & 0x3
                &&& (w.last().1 >> CTRL_DIV_B_SHIFT) & 0x3f == ((best.1 - 1) as u32) & 0x3f
            },
            r matches Err(()) ==> spec_sclk_divisors(
                old(self).ref_clk as int,
                spec_adjusted_sclk(freq),
            ).0 == 0 && final(self).regs.written() == old(self).regs.written(),
    {
        // hardware limitation: 400 kHz requests must run at 384.6 kHz and
        // 100 kHz requests at 90 kHz
        let freq_hw: u32 = if freq > 384_600 {
            384_600
        } else if freq > 90_000 && freq <= 100_000 {
            90_000
        } else {
            freq
        };

        let target_div = div_round_closest(self.ref_clk, freq_hw * CLK_DIV_BUILTIN);

        // the requirement guarantees a divisor pair at or below the target
        // frequency exists, so the search below finds an error under `freq`
        let mut best_error_hz: u32 = freq_hw;
        let mut best_div_a: u32 = 0;
        let mut best_div_b: u32 = 0;

        let mut div_a: u32 = 1;
        while div_a <= MAX_DIV_A
            invariant
                1 <= div_a <= MAX_DIV_A + 1,
                self == old(self),
                self.ref_clk + 10_000_000 <= u32::MAX,
                1 <= freq_hw <= 384_600,
                freq_hw == spec_adjusted_sclk(freq),
                2 <= target_div <= 256,
                (best_div_a as int, best_div_b as int, best_error_hz as int)
                    == spec_sclk_search(self.ref_clk as int, freq_hw as int, div_a as int),
                best_div_a >= 1 ==> (best_div_a <= 4 && 1 <= best_div_b <= 64),
                target_div == spec_div_round_closest(
                    self.ref_clk as int,
                    freq_hw * CLK_DIV_BUILTIN,
                ),
            decreases MAX_DIV_A + 1 - div_a,
        {
            let div_b_raw = div_round_closest(target_div, div_a);
            proof {
                // a target divisor of at least 2 never rounds to zero
                assert(div_a as int <= target_div as int + div_a as int / 2);
                vstd::arithmetic::div_mod::lemma_div_is_ordered(
                    div_a as int,
                    target_div as int + div_a as int / 2,
                    div_a as int,
                );
                vstd::arithmetic::div_mod::lemma_div_by_self(div_a as int);
            }
            let div_b = if div_b_raw < MAX_DIV_B {
                div_b_raw
            } else {
                MAX_DIV_B
            };
            proof {
                assert(1 <= div_a * div_b * CLK_DIV_BUILTIN <= 4 * 64 * 22) by (nonlinear_arith)
                    requires
                        1 <= div_a <= 4,
                        1 <= div_b <= 64,
                        CLK_DIV_BUILTIN == 22,
                ;
            }
            let rate = div_round_closest(self.ref_clk, div_a * div_b * CLK_DIV_BUILTIN);
            let error_hz = if rate >= freq_hw {
                rate - freq_hw
            } else {
                freq_hw - rate
            };
            if error_hz < best_error_hz {
                best_div_a = div_a;
                best_div_b = div_b;
                best_error_hz = error_hz;
            }
            div_a += 1;
        }

        if best_div_a == 0 {
            return Err(());
        }

        let cur = self.regs.read_reg(CONTROL);
        let value = (cur & !((0x3u32 << CTRL_DIV_A_SHIFT) | (0x3fu32 << CTRL_DIV_B_SHIFT))) | (((
        best_div_a - 1) & 0x3) << CTRL_DIV_A_SHIFT) | (((best_div_b - 1) & 0x3f)
            << CTRL_DIV_B_SHIFT);
        proof {
            lemma_sclk_fields(cur, (best_div_a - 1) as u32, (best_div_b - 1) as u32);
        }
        self.regs.write_reg(CONTROL, value);
        Ok(())
    }

    /// Perform the common setup steps for master mode: clear the FIFO,
    /// enable ACKs, select normal addressing and master mode, set the
    /// transfer direction and disable all interrupts.
    pub fn master_setup(&mut self, rx_en: bool)
        ensures
            final(self).regs.written().len() == old(self).regs.written().len() + 2,
            forall|i: int|
                0 <= i < old(self).regs.written().len() ==> final(self).regs.written()[i] == old(
                    self,
                ).regs.written()[i],
            final(self).regs.written()[final(self).regs.written().len() - 2].0 == CONTROL,
            final(self).regs.written().last() == (INTERRUPT_DISABLE, ISR_ALL),
            final(self).ref_clk == old(self).ref_clk,
    {
        let cur = self.regs.read_reg(CONTROL);
        let bits = CTRL_CLEAR_FIFO | CTRL_ACK_EN | CTRL_ADDR_MODE | CTRL_INTERFACE_MODE;
        let value = if rx_en {
            (cur | bits) | CTRL_RX_EN
        } else {
            (cur | bits) & !CTRL_RX_EN
        };
        self.regs.write_reg(CONTROL, value);
        self.disable_interrupts();
    }

    /// Clear the FIFO and the transfer size register through the
    /// self-clearing control bit.
    pub fn clear_fifo(&mut self)
        ensures
            final(self).regs.written().len() == old(self).regs.written().len() + 1,
            final(self).regs.written().last().0 == CONTROL,
            final(self).regs.written().last().1 & CTRL_CLEAR_FIFO == CTRL_CLEAR_FIFO,
            final(self).ref_clk == old(self).ref_clk,
    {
        let cur = self.regs.read_reg(CONTROL);
        proof {
            lemma_i2c_bits(cur);
        }
        self.regs.write_reg(CONTROL, cur | CTRL_CLEAR_FIFO);
    }

    /// Set ACK enable.
    pub fn set_ack_en(&mut self, enable: bool)
        ensures
            final(self).regs.written().len() == old(self).regs.written().len() + 1,
            final(self).regs.written().last().0 == CONTROL,
            final(self).regs.written().last().1 & CTRL_ACK_EN == (if enable {
                CTRL_ACK_EN
            } else {
                0u32
            }),
            final(self).ref_clk == old(self).ref_clk,
    {
        let cur = self.regs.read_reg(CONTROL);
        proof {
            lemma_i2c_bits(cur);
        }
        if enable {
            self.regs.write_reg(CONTROL, cur | CTRL_ACK_EN);
        } else {
            self.regs.write_reg(CONTROL, cur & !CTRL_ACK_EN);
        }
    }

    /// Set the addressing mode: `true` for 7-bit (normal), `false` for
    /// 10-bit (extended).
    pub fn set_addr_mode(&mut self, mode: bool)
        ensures
            final(self).regs.written().len() == old(self).regs.written().len() + 1,
            final(self).regs.written().last().0 == CONTROL,
            final(self).regs.written().last().1 & CTRL_ADDR_MODE == (if mode {
                CTRL_ADDR_MODE
            } else {
                0u32
            }),
            final(self).ref_clk == old(self).ref_clk,
    {
        let cur = self.regs.read_reg(CONTROL);
        proof {
            lemma_i2c_bits(cur);
        }
        if mode {
            self.regs.write_reg(CONTROL, cur | CTRL_ADDR_MODE);
        } else {
            self.regs.write_reg(CONTROL, cur & !CTRL_ADDR_MODE);
        }
    }

    /// Set the interface mode: `true` for master, `false` for slave.
    pub fn set_interface_mode(&mut self, mode: bool)
        ensures
            final(self).regs.written().len() == old(self).regs.written().len() + 1,
            final(self).regs.written().last().0 == CONTROL,
            final(self).regs.written().last().1 & CTRL_INTERFACE_MODE == (if mode {
                CTRL_INTERFACE_MODE
            } else {
                0u32
            }),
            final(self).ref_clk == old(self).ref_clk,
    {
        let cur = self.regs.read_reg(CONTROL);
        proof {
            lemma_i2c_bits(cur);
        }
        if mode {
            self.regs.write_reg(CONTROL, cur | CTRL_INTERFACE_MODE);
        } else {
            self.regs.write_reg(CONTROL, cur & !CTRL_INTERFACE_MODE);
        }
    }

    /// Select the master-mode transfer direction: `true` for RX, `false`
    /// for TX.
    pub fn set_rx_en(&mut self, enable: bool)
        ensures
            final(self).regs.written().len() == old(self).regs.written().len() + 1,
            final(self).regs.written().last().0 == CONTROL,
            final(self).regs.written().last().1 & CTRL_RX_EN == (if enable {
                CTRL_RX_EN
            } else {
                0u32
            }),
            final(self).ref_clk == old(self).ref_clk,
    {
        let cur = self.regs.read_reg(CONTROL);
        proof {
            lemma_i2c_bits(cur);
        }
        if enable {
            self.regs.write_reg(CONTROL, cur | CTRL_RX_EN);
        } else {
            self.regs.write_reg(CONTROL, cur & !CTRL_RX_EN);
        }
    }

    /// Clear the currently latched interrupt flags by writing them back.
    pub fn clear_interrupt_status(&mut self)
        ensures
            final(self).regs.written().len() == old(self).regs.written().len() + 1,
            forall|i: int|
                0 <= i < old(self).regs.written().len() ==> final(self).regs.written()[i] == old(
                    self,
                ).regs.written()[i],
            final(self).regs.written().last().0 == ISR,
            final(self).ref_clk == old(self).ref_clk,
    {
        let cur = self.regs.read_reg(ISR);
        self.regs.write_reg(ISR, cur);
    }

    /// Enable every interrupt.
    pub fn enable_interrupts(&mut self)
        ensures
            final(self).regs.written() == old(self).regs.written().push(
                (INTERRUPT_ENABLE, ISR_ALL),
            ),
            final(self).ref_clk == old(self).ref_clk,
    {
        self.regs.write_reg(INTERRUPT_ENABLE, ISR_ALL);
    }

    /// Disable every interrupt.
    pub fn disable_interrupts(&mut self)
        ensures
            final(self).regs.written() == old(self).regs.written().push(
                (INTERRUPT_DISABLE, ISR_ALL),
            ),
            final(self).ref_clk == old(self).ref_clk,
    {
        self.regs.write_reg(INTERRUPT_DISABLE, ISR_ALL);
    }

    /// Whether an interrupt status value carries an RX-related error.
    pub fn rx_error(isr: u32) -> (r: bool)
        ensures
            r == spec_rx_error(isr),
    {
        isr & (ISR_ARB_LOST | ISR_RX_UNDERFLOW | ISR_RX_OVERFLOW | ISR_NACK) != 0
    }

    /// Whether an interrupt status value carries a TX-related error.
    pub fn tx_error(isr: u32) -> (r: bool)
        ensures
            r == spec_tx_error(isr),
    {
        isr & (ISR_ARB_LOST | ISR_TX_OVERFLOW | ISR_NACK) != 0
    }

    /// Whether the I2C bus is busy.
    pub fn busy(&mut self) -> (r: bool)
        ensures
            final(self).regs.written() == old(self).regs.written(),
            final(self).ref_clk == old(self).ref_clk,
    {
        self.regs.read_reg(STATUS) & STATUS_BUS_ACTIVE != 0
    }

    /// Perform a polled write in master mode: fill the FIFO in up to
    /// 16-byte chunks, start each chunk by writing the address, and wait
    /// for room or completion under a bounded poll count. On success every
    /// byte of `data[..size]` was pushed to the data FIFO in order; an
    /// error carries the last interrupt status read, whose error flags (or
    /// an exhausted poll bound) ended the transfer.
    #[verifier::loop_isolation(false)]
    pub fn master_write_polled(&mut self, addr: u16, size: u16, data: &[u8]) -> (r: Result<
        (),
        u32,
    >)
        requires
            size as int <= data@.len(),
        ensures
            final(self).ref_clk == old(self).ref_clk,
            old(self).regs.written().len() <= final(self).regs.written().len(),
            forall|i: int|
                0 <= i < old(self).regs.written().len() ==> final(self).regs.written()[i] == old(
                    self,
                ).regs.written()[i],
            data_writes(
                final(self).regs.written(),
                old(self).regs.written().len() as int,
            ).is_prefix_of(data@.take(size as int).map(|i: int, b: u8| b as u32)),
            size > 0 ==> data_writes(
                final(self).regs.written(),
                old(self).regs.written().len() as int,
            ).len() >= (if size <= FIFO_SIZE {
                size as int
            } else {
                FIFO_SIZE as int
            }),
            r matches Ok(()) ==> data_writes(
                final(self).regs.written(),
                old(self).regs.written().len() as int,
            ) =~= data@.take(size as int).map(|i: int, b: u8| b as u32),
    {
        let ghost n0 = self.regs.written().len() as int;
        let n_fill: u16 = size / FIFO_SIZE;
        let rem: u16 = size % FIFO_SIZE;
        proof {
            lemma_data_writes_empty(self.regs.written());
            vstd::arithmetic::div_mod::lemma_fundamental_div_mod(size as int, FIFO_SIZE as int);
        }
        let ghost wprev = self.regs.written();
        let cur = self.regs.read_reg(CONTROL);
        if size > FIFO_SIZE {
            self.regs.write_reg(CONTROL, cur | CTRL_HOLD);
        } else {
            self.regs.write_reg(CONTROL, cur & !CTRL_HOLD);
        }
        proof {
            lemma_data_writes_extend(wprev, self.regs.written(), n0);
        }

        let ghost wprev = self.regs.written();
        self.master_setup(false);
        proof {
            lemma_data_writes_extend(wprev, self.regs.written(), n0);
            assert(data@.take(0).map(|k: int, b: u8| b as u32) =~= Seq::<u32>::empty());
        }

        let mut isr_read: u32 = 0;
        // send the first n_fill * FIFO_SIZE bytes in full-FIFO chunks
        let mut i: u16 = 0;
        while i < n_fill
            invariant
                0 <= i <= n_fill,
                n_fill == size / FIFO_SIZE,
                rem == size % FIFO_SIZE,
                size == n_fill * FIFO_SIZE + rem,
                size as int <= data@.len(),
                self.ref_clk == old(self).ref_clk,
                n0 <= self.regs.written().len(),
                forall|k: int|
                    0 <= k < n0 ==> self.regs.written()[k] == old(self).regs.written()[k],
                data_writes(self.regs.written(), n0) =~= data@.take(
                    i as int * FIFO_SIZE as int,
                ).map(|k: int, b: u8| b as u32),
            decreases n_fill - i,
        {
            // fill the FIFO
            let mut j: u16 = 0;
            while j < FIFO_SIZE
                invariant
                    0 <= j <= FIFO_SIZE,
                    i < n_fill,
                    size == n_fill * FIFO_SIZE + rem,
                    size as int <= data@.len(),
                    self.ref_clk == old(self).ref_clk,
                    n0 <= self.regs.written().len(),
                    forall|k: int|
                        0 <= k < n0 ==> self.regs.written()[k] == old(self).regs.written()[k],
                    data_writes(self.regs.written(), n0) =~= data@.take(
                        i as int * FIFO_SIZE as int + j as int,
                    ).map(|k: int, b: u8| b as u32),
                decreases FIFO_SIZE - j,
            {
                proof {
                    assert((i as int + 1) * FIFO_SIZE as int <= n_fill as int * FIFO_SIZE as int)
                        by (nonlinear_arith)
                        requires
                            i + 1 <= n_fill,
                            FIFO_SIZE > 0,
                    ;
                }
                let b = data[(i * FIFO_SIZE + j) as usize];
                let ghost wprev = self.regs.written();
                self.regs.write_reg(DATA, b as u32);
                proof {
                    lemma_data_writes_push(wprev, self.regs.written(), n0, DATA, b as u32);
                    assert(data_writes(self.regs.written(), n0) =~= data@.take(
                        i as int * FIFO_SIZE as int + j as int + 1,
                    ).map(|k: int, b: u8| b as u32));
                }
                j += 1;
            }

            let ghost wprev = self.regs.written();
            self.regs.write_reg(ADDR, addr as u32);
            proof {
                lemma_data_writes_extend(wprev, self.regs.written(), n0);
            }

            // wait for the FIFO to drain
            let mut tries: u32 = POLL_TRIES;
            let mut done = false;
            let ghost wmid = self.regs.written();
            while tries > 0 && !done
                invariant
                    self.ref_clk == old(self).ref_clk,
                    self.regs.written() == wmid,
                decreases tries,
            {
                isr_read = self.regs.read_reg(ISR);
                let status = self.regs.read_reg(STATUS);
                done = Self::tx_error(isr_read) || status & STATUS_TX_DATA_VALID == 0;
                tries -= 1;
            }

            if Self::tx_error(isr_read) || !done {
                proof {
                    assert((i as int + 1) * FIFO_SIZE as int <= n_fill as int * FIFO_SIZE as int)
                        by (nonlinear_arith)
                        requires
                            i + 1 <= n_fill,
                            FIFO_SIZE > 0,
                    ;
                    lemma_take_map_prefix(data@, (i as int + 1) * FIFO_SIZE as int, size as int);
                }
                return Err(isr_read);
            }
            i += 1;
        }

        // send the remainder (or the entire buffer if under one FIFO)
        let ghost wprev = self.regs.written();
        self.clear_interrupt_status();
        proof {
            lemma_data_writes_extend(wprev, self.regs.written(), n0);
        }
        let mut j: u16 = 0;
        while j < rem
            invariant
                0 <= j <= rem,
                size == n_fill * FIFO_SIZE + rem,
                size as int <= data@.len(),
                self.ref_clk == old(self).ref_clk,
                n0 <= self.regs.written().len(),
                forall|k: int|
                    0 <= k < n0 ==> self.regs.written()[k] == old(self).regs.written()[k],
                data_writes(self.regs.written(), n0) =~= data@.take(
                    n_fill as int * FIFO_SIZE as int + j as int,
                ).map(|k: int, b: u8| b as u32),
            decreases rem - j,
        {
            let b = data[(n_fill * FIFO_SIZE + j) as usize];
            let ghost wprev = self.regs.written();
            self.regs.write_reg(DATA, b as u32);
            proof {
                lemma_data_writes_push(wprev, self.regs.written(), n0, DATA, b as u32);
                assert(data_writes(self.regs.written(), n0) =~= data@.take(
                    n_fill as int * FIFO_SIZE as int + j as int + 1,
                ).map(|k: int, b: u8| b as u32));
            }
            j += 1;
        }

        let ghost wprev = self.regs.written();
        self.regs.write_reg(ADDR, addr as u32);
        proof {
            lemma_data_writes_extend(wprev, self.regs.written(), n0);
        }

        // wait for completion
        let mut tries: u32 = POLL_TRIES;
        let mut done = false;
        let ghost wmid = self.regs.written();
        while tries > 0 && !done
            invariant
                self.ref_clk == old(self).ref_clk,
                self.regs.written() == wmid,
            decreases tries,
        {
            isr_read = self.regs.read_reg(ISR);
            done = Self::tx_error(isr_read) || isr_read & ISR_TX_COMPLETE != 0;
            tries -= 1;
        }

        proof {
            lemma_take_map_prefix(data@, size as int, size as int);
        }
        if Self::tx_error(isr_read) || !done {
            return Err(isr_read);
        }

        Ok(())
    }

    /// Perform a polled read in master mode: request up to 252-byte chunks,
    /// drain the FIFO into `rx_buffer` while data is valid, and re-arm the
    /// transfer until `size` bytes arrived, all under bounded poll counts.
    /// Exactly the first `size` bytes of the buffer are replaced; an error
    /// carries the last interrupt status read.
    #[verifier::loop_isolation(false)]
    pub fn master_read_polled(&mut self, addr: u16, size: u16, rx_buffer: &mut Vec<u8>) -> (r:
        Result<(), u32>)
        requires
            size as int <= old(rx_buffer)@.len(),
        ensures
            final(self).ref_clk == old(self).ref_clk,
            final(rx_buffer)@.len() == old(rx_buffer)@.len(),
            forall|k: int|
                size as int <= k < old(rx_buffer)@.len() ==> final(rx_buffer)@[k] == old(
                    rx_buffer,
                )@[k],
            old(self).regs.written().len() <= final(self).regs.written().len(),
            forall|i: int|
                0 <= i < old(self).regs.written().len() ==> final(self).regs.written()[i] == old(
                    self,
                ).regs.written()[i],
            data_writes(final(self).regs.written(), old(self).regs.written().len() as int)
                == Seq::<u32>::empty(),
    {
        let ghost n0 = self.regs.written().len() as int;
        proof {
            lemma_data_writes_empty(self.regs.written());
        }
        let mut hold = size > FIFO_SIZE;
        let ghost wprev = self.regs.written();
        let cur = self.regs.read_reg(CONTROL);
        if hold {
            self.regs.write_reg(CONTROL, cur | CTRL_HOLD);
        } else {
            self.regs.write_reg(CONTROL, cur & !CTRL_HOLD);
        }
        proof {
            lemma_data_writes_extend(wprev, self.regs.written(), n0);
        }

        let ghost wprev = self.regs.written();
        self.master_setup(true);
        self.clear_interrupt_status();
        proof {
            lemma_data_writes_extend(wprev, self.regs.written(), n0);
        }

        // total (not per-chunk) bytes remaining
        let mut remaining_bytes: u16 = size;
        let mut cur_chunk: u8 = if size > MAX_TX as u16 {
            MAX_TX
        } else {
            size as u8
        };
        let ghost wprev = self.regs.written();
        self.regs.write_reg(TX_SIZE, cur_chunk as u32);
        self.regs.write_reg(ADDR, addr as u32);
        proof {
            lemma_data_writes_extend(wprev, self.regs.written(), n0);
        }

        let mut isr_read = self.regs.read_reg(ISR);
        let mut outer_tries: u32 = POLL_TRIES;
        while remaining_bytes > 0 && !Self::rx_error(isr_read) && outer_tries > 0
            invariant
                remaining_bytes <= size,
                size as int <= rx_buffer@.len(),
                rx_buffer@.len() == old(rx_buffer)@.len(),
                self.ref_clk == old(self).ref_clk,
                forall|k: int|
                    size as int <= k < rx_buffer@.len() ==> rx_buffer@[k] == old(rx_buffer)@[k],
                n0 <= self.regs.written().len(),
                forall|k: int|
                    0 <= k < n0 ==> self.regs.written()[k] == old(self).regs.written()[k],
                data_writes(self.regs.written(), n0) == Seq::<u32>::empty(),
            decreases outer_tries,
        {
            while remaining_bytes > 0 && self.regs.read_reg(STATUS) & STATUS_RX_DATA_VALID != 0
                invariant
                    remaining_bytes <= size,
                    size as int <= rx_buffer@.len(),
                    rx_buffer@.len() == old(rx_buffer)@.len(),
                    self.ref_clk == old(self).ref_clk,
                    forall|k: int|
                        size as int <= k < rx_buffer@.len() ==> rx_buffer@[k] == old(rx_buffer)@[k],
                    n0 <= self.regs.written().len(),
                    forall|k: int|
                        0 <= k < n0 ==> self.regs.written()[k] == old(self).regs.written()[k],
                    data_writes(self.regs.written(), n0) == Seq::<u32>::empty(),
                decreases remaining_bytes,
            {
                let b = self.regs.read_reg(DATA);
                rx_buffer.set((size - remaining_bytes) as usize, #[verifier::truncate] (b as u8));
                remaining_bytes -= 1;
                if cur_chunk > 0 {
                    cur_chunk -= 1;
                }
                if hold && remaining_bytes < DATA_INTR_THRESH as u16 {
                    hold = false;
                    let ghost wprev = self.regs.written();
                    let cur = self.regs.read_reg(CONTROL);
                    self.regs.write_reg(CONTROL, cur & !CTRL_HOLD);
                    proof {
                        lemma_data_writes_extend(wprev, self.regs.written(), n0);
                    }
                }
            }
            if cur_chunk == 0 && remaining_bytes > 0 {
                let ghost wprev = self.regs.written();
                self.clear_interrupt_status();
                self.regs.write_reg(ADDR, addr as u32);
                cur_chunk = if remaining_bytes > MAX_TX as u16 {
                    MAX_TX
                } else {
                    remaining_bytes as u8
                };
                self.regs.write_reg(TX_SIZE, cur_chunk as u32);
                proof {
                    lemma_data_writes_extend(wprev, self.regs.written(), n0);
                }
            }
            isr_read = self.regs.read_reg(ISR);
            outer_tries -= 1;
        }

        if Self::rx_error(isr_read) || remaining_bytes > 0 {
            return Err(isr_read);
        }
        Ok(())
    }
}

/// The values written to the data FIFO at or after log position `n`.
pub open spec fn data_writes(w: Seq<(u32, u32)>, n: int) -> Seq<u32> {
    w.skip(n).filter(|p: (u32, u32)| p.0 == DATA).map(|i: int, p: (u32, u32)| p.1)
}

/// Appending a write extends the data-FIFO view by exactly that value when
/// it targets the FIFO, and leaves it unchanged otherwise.
proof fn lemma_data_writes_push(w0: Seq<(u32, u32)>, w1: Seq<(u32, u32)>, n: int, off: u32, v: u32)
    requires
        0 <= n <= w0.len(),
        w1 == w0.push((off, v)),
    ensures
        off == DATA ==> data_writes(w1, n) == data_writes(w0, n).push(v),
        off != DATA ==> data_writes(w1, n) == data_writes(w0, n),
{
    assert(w1.skip(n) =~= w0.skip(n).push((off, v)));
    w0.skip(n).lemma_filter_push((off, v), |p: (u32, u32)| p.0 == DATA);
    if off == DATA {
        assert(data_writes(w1, n) =~= data_writes(w0, n).push(v));
    } else {
        assert(data_writes(w1, n) =~= data_writes(w0, n));
    }
}

/// Appending writes that never target the data FIFO leaves the data-FIFO
/// view unchanged.
pub proof fn lemma_data_writes_extend(w0: Seq<(u32, u32)>, w1: Seq<(u32, u32)>, n: int)
    requires
        0 <= n <= w0.len() <= w1.len(),
        forall|i: int| 0 <= i < w0.len() ==> w1[i] == w0[i],
        forall|i: int| w0.len() <= i < w1.len() ==> w1[i].0 != DATA,
    ensures
        data_writes(w1, n) == data_writes(w0, n),
    decreases w1.len() - w0.len(),
{
    if w1.len() > w0.len() {
        let mid = w1.drop_last();
        lemma_data_writes_extend(w0, mid, n);
        assert(w1 =~= mid.push(w1.last()));
        lemma_data_writes_push(mid, w1, n, w1.last().0, w1.last().1);
    } else {
        assert(w1 =~= w0);
    }
}

/// A shorter taken-and-mapped prefix of a byte sequence is a prefix of a
/// longer one.
proof fn lemma_take_map_prefix(d: Seq<u8>, k: int, size: int)
    requires
        0 <= k <= size <= d.len(),
    ensures
        d.take(k).map(|i: int, b: u8| b as u32).is_prefix_of(
            d.take(size).map(|i: int, b: u8| b as u32),
        ),
{
    let a = d.take(k).map(|i: int, b: u8| b as u32);
    let b = d.take(size).map(|i: int, b: u8| b as u32);
    assert(a =~= b.subrange(0, a.len() as int));
}

/// The data-FIFO view of a log splits at any position into the view of the
/// prefix and the view from that position on.
pub proof fn lemma_data_writes_split(w: Seq<(u32, u32)>, n0: int, m: int)
    requires
        0 <= n0 <= m <= w.len(),
    ensures
        data_writes(w, n0) == data_writes(w.take(m), n0) + data_writes(w, m),
    decreases w.len() - m,
{
    if w.len() == m {
        assert(w.take(m) =~= w);
        lemma_data_writes_empty(w);
        assert(data_writes(w, n0) =~= data_writes(w.take(m), n0) + data_writes(w, m));
    } else {
        let mid = w.drop_last();
        lemma_data_writes_split(mid, n0, m);
        assert(mid.take(m) =~= w.take(m));
        assert(w =~= mid.push(w.last()));
        lemma_data_writes_push(mid, w, n0, w.last().0, w.last().1);
        lemma_data_writes_push(mid, w, m, w.last().0, w.last().1);
        if w.last().0 == DATA {
            assert(data_writes(w, n0) =~= data_writes(w.take(m), n0) + data_writes(w, m));
        } else {
            assert(data_writes(w, n0) =~= data_writes(w.take(m), n0) + data_writes(w, m));
        }
    }
}

/// The data-FIFO view of a log at its own end is empty.
pub proof fn lemma_data_writes_empty(w: Seq<(u32, u32)>)
    ensures
        data_writes(w, w.len() as int) == Seq::<u32>::empty(),
{
    assert(w.skip(w.len() as int) =~= Seq::<(u32, u32)>::empty());
    reveal(Seq::filter);
    assert(data_writes(w, w.len() as int) =~= Seq::<u32>::empty());
}

/// The SCL frequency actually used for a requested one: the hardware
/// cannot produce 400 kHz or 100 kHz exactly, so those requests are
/// lowered.
pub open spec fn spec_adjusted_sclk(freq: u32) -> int {
    if freq > 384_600 {
        384_600
    } else if freq > 90_000 && freq <= 100_000 {
        90_000
    } else {
        freq as int
    }
}

/// The divisor-B candidate for a divisor-A choice: the rounded quotient of
/// the target divisor, capped at the hardware maximum.
pub open spec fn spec_sclk_div_b(ref_clk: int, freq: int, a: int) -> int {
    let target_div = spec_div_round_closest(ref_clk, freq * CLK_DIV_BUILTIN);
    let raw = spec_div_round_closest(target_div, a);
    if raw < MAX_DIV_B {
        raw
    } else {
        MAX_DIV_B as int
    }
}

/// The frequency error of a divisor pair.
pub open spec fn spec_sclk_error(ref_clk: int, freq: int, a: int, b: int) -> int {
    let rate = spec_div_round_closest(ref_clk, a * b * CLK_DIV_BUILTIN);
    if rate >= freq {
        rate - freq
    } else {
        freq - rate
    }
}

/// The best (divisor A, divisor B, error) after considering divisor-A
/// values below `a`, starting from the no-choice state whose error is the
/// target frequency itself.
pub open spec fn spec_sclk_search(ref_clk: int, freq: int, a: int) -> (int, int, int)
    decreases a,
{
    if a <= 1 {
        (0, 0, freq)
    } else {
        let prev = spec_sclk_search(ref_clk, freq, a - 1);
        let b = spec_sclk_div_b(ref_clk, freq, a - 1);
        let err = spec_sclk_error(ref_clk, freq, a - 1, b);
        if err < prev.2 {
            (a - 1, b, err)
        } else {
            prev
        }
    }
}

/// The divisor pair `set_sclk` programs: the search outcome over all four
/// divisor-A choices.
pub open spec fn spec_sclk_divisors(ref_clk: int, freq: int) -> (int, int) {
    let s = spec_sclk_search(ref_clk, freq, MAX_DIV_A + 1);
    (s.0, s.1)
}

/// Setting a bit mask leaves it set, clearing it leaves it clear.
proof fn lemma_i2c_bits(x: u32)
    by (bit_vector)
    ensures
        forall|m: u32| #[trigger] ((x | m) & m) == m,
        forall|m: u32| #[trigger] ((x & !m) & m) == 0,
{
}

/// Inserting the divisor fields leaves exactly those fields holding the
/// divisor values.
proof fn lemma_sclk_fields(cur: u32, a: u32, b: u32)
    by (bit_vector)
    ensures
        (((cur & !((0x3u32 << 14) | (0x3fu32 << 8))) | ((a & 0x3) << 14) | ((b & 0x3f) << 8)) >> 14)
            & 0x3 == a & 0x3,
        (((cur & !((0x3u32 << 14) | (0x3fu32 << 8))) | ((a & 0x3) << 14) | ((b & 0x3f) << 8)) >> 8)
            & 0x3f == b & 0x3f,
{
}

} // verus!
