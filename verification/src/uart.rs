//! UART driver.
//!
//! The controller is programmed once at boot - character frame, baud rate,
//! interrupt masks - and used for polled byte output afterwards. All waits
//! poll the channel status register under a bounded try count.

use vstd::prelude::*;

use crate::regbus::RegisterBus;

verus! {

// Byte offsets of the UART registers.
pub const CONTROL: u32 = 0x0;

pub const MODE: u32 = 0x4;

pub const INTERRUPT_ENABLE: u32 = 0x8;

pub const INTERRUPT_DISABLE: u32 = 0xc;

pub const CHANNEL_INTERRUPT_STATUS: u32 = 0x14;

pub const BAUD_RATE_GEN: u32 = 0x18;

pub const RCVR_TIMEOUT: u32 = 0x1c;

pub const MODEM_STS: u32 = 0x28;

pub const CHANNEL_STS: u32 = 0x2c;

pub const TX_RX_FIFO: u32 = 0x30;

pub const BAUD_RATE_DIVIDER: u32 = 0x34;

// Control register bits.
pub const CTRL_RXRST: u32 = 1 << 0;

pub const CTRL_TXRST: u32 = 1 << 1;

pub const CTRL_RXEN: u32 = 1 << 2;

pub const CTRL_RXDIS: u32 = 1 << 3;

pub const CTRL_TXEN: u32 = 1 << 4;

pub const CTRL_TXDIS: u32 = 1 << 5;

pub const CTRL_STTBRK: u32 = 1 << 7;

pub const CTRL_STPBRK: u32 = 1 << 8;

// Channel status bits.
pub const STS_TACTIVE: u32 = 1 << 11;

pub const STS_TXFULL: u32 = 1 << 4;

pub const STS_TXEMPTY: u32 = 1 << 3;

/// Every channel interrupt bit, as written to the mask and status
/// registers.
pub const UART_IXR_ALL: u32 = 0x3fff;

/// The WTC modem status flags: delta-DCD, trailing-edge-RI, delta-DSR and
/// delta-CTS.
pub const MODEM_STS_WTC: u32 = 0xf;

/// The character-frame value the boot configuration uses: reference clock
/// undivided, 8-bit characters, no parity, one stop bit, normal channel
/// mode.
pub const MODE_DEFAULT: u32 = (0b100 << 3) | (0b01 << 12);

// Peripheral reset bits in the low-power domain's reset register.
pub const PERI_RST_UART0: u32 = 1 << 1;

pub const PERI_RST_UART1: u32 = 1 << 2;

/// The clock-active bit of a UART clock control register.
pub const UART_CLKACT: u32 = 1 << 24;

/// Bound on status polls.
pub const POLL_TRIES: u32 = 1_000_000;

/// Serial character length selections.
#[derive(Debug, Clone, Copy, PartialEq, Eq, Structural)]
pub enum CharacterLength {
    Eight,
    Seven,
    Six,
}

impl CharacterLength {
    pub open spec fn spec_value(self) -> u32 {
        match self {
            CharacterLength::Eight => 0b00,
            CharacterLength::Seven => 0b10,
            CharacterLength::Six => 0b11,
        }
    }

    pub fn value(self) -> (r: u32)
        ensures
            r == self.spec_value(),
    {
        match self {
            CharacterLength::Eight => 0b00,
            CharacterLength::Seven => 0b10,
            CharacterLength::Six => 0b11,
        }
    }
}

/// Serial parity selections.
#[derive(Debug, Clone, Copy, PartialEq, Eq, Structural)]
pub enum ParityMode {
    EvenParity,
    OddParity,
    ForceTo0,
    ForceTo1,
    NoParity,
}

impl ParityMode {
    pub open spec fn spec_value(self) -> u32 {
        match self {
            ParityMode::EvenParity => 0b000,
            ParityMode::OddParity => 0b001,
            ParityMode::ForceTo0 => 0b010,
            ParityMode::ForceTo1 => 0b011,
            ParityMode::NoParity => 0b100,
        }
    }

    pub fn value(self) -> (r: u32)
        ensures
            r == self.spec_value(),
    {
        match self {
            ParityMode::EvenParity => 0b000,
            ParityMode::OddParity => 0b001,
            ParityMode::ForceTo0 => 0b010,
            ParityMode::ForceTo1 => 0b011,
            ParityMode::NoParity => 0b100,
        }
    }
}

/// Stop bit selections.
#[derive(Debug, Clone, Copy, PartialEq, Eq, Structural)]
pub enum StopBits {
    One,
    OneAndHalf,
    Two,
}

impl StopBits {
    pub open spec fn spec_value(self) -> u32 {
        match self {
            StopBits::One => 0b00,
            StopBits::OneAndHalf => 0b01,
            StopBits::Two => 0b10,
        }
    }

    pub fn value(self) -> (r: u32)
        ensures
            r == self.spec_value(),
    {
        match self {
            StopBits::One => 0b00,
            StopBits::OneAndHalf => 0b01,
            StopBits::Two => 0b10,
        }
    }
}

/// Channel mode selections.
#[derive(Debug, Clone, Copy, PartialEq, Eq, Structural)]
pub enum ChannelMode {
    Normal,
    AutomaticEcho,
    LocalLoopback,
    RemoteLoopback,
}

impl ChannelMode {
    pub open spec fn spec_value(self) -> u32 {
        match self {
            ChannelMode::Normal => 0b00,
            ChannelMode::AutomaticEcho => 0b01,
            ChannelMode::LocalLoopback => 0b10,
            ChannelMode::RemoteLoopback => 0b11,
        }
    }

    pub fn value(self) -> (r: u32)
        ensures
            r == self.spec_value(),
    {
        match self {
            ChannelMode::Normal => 0b00,
            ChannelMode::AutomaticEcho => 0b01,
            ChannelMode::LocalLoopback => 0b10,
            ChannelMode::RemoteLoopback => 0b11,
        }
    }
}

/// The UART, driven over its register block.
pub struct Uart<B: RegisterBus> {
    pub regs: B,
}

impl<B: RegisterBus> Uart<B> {
    /// Bring up UART0: pulse its reset in the low-power domain, enable its
    /// clock and configure the line for the requested baud rate.
    pub fn uart0(regs: B, crl: &mut B, baudrate: u32) -> (r: Uart<B>)
        ensures
            ({
                let w = final(crl).written();
                let m = old(crl).written().len() as int;
                &&& w.len() == m + 5
                &&& (forall|i: int| 0 <= i < m ==> w[i] == old(crl).written()[i])
                &&& w[m].0 == crate::clocks::WPROT && w[m].1 == 0
                &&& w[m + 1].0 == crate::clocks::PERI_RST_CTRL && w[m + 1].1 & PERI_RST_UART0
                    == PERI_RST_UART0
                &&& w[m + 2].0 == crate::clocks::PERI_RST_CTRL && w[m + 2].1 & PERI_RST_UART0 == 0
                &&& w[m + 3].0 == crate::clocks::UART0_CLK_CTRL && w[m + 3].1 & UART_CLKACT
                    == UART_CLKACT
                &&& w[m + 4].0 == crate::clocks::WPROT && w[m + 4].1 == 1
            }),
    {
        // the reset pulse and clock enable run with the domain unlocked
        crl.write_reg(crate::clocks::WPROT, 0);
        let cur = crl.read_reg(crate::clocks::PERI_RST_CTRL);
        proof {
            lemma_uart_bits(cur);
        }
        crl.write_reg(crate::clocks::PERI_RST_CTRL, cur | PERI_RST_UART0);
        let cur = crl.read_reg(crate::clocks::PERI_RST_CTRL);
        proof {
            lemma_uart_bits(cur);
        }
        crl.write_reg(crate::clocks::PERI_RST_CTRL, cur & !PERI_RST_UART0);
        let cur = crl.read_reg(crate::clocks::UART0_CLK_CTRL);
        proof {
            lemma_uart_bits(cur);
        }
        crl.write_reg(crate::clocks::UART0_CLK_CTRL, cur | UART_CLKACT);
        crl.write_reg(crate::clocks::WPROT, 1);

        let mut uart = Uart { regs };
        uart.configure(baudrate);
        uart
    }

    /// Bring up UART1 in the same way.
    pub fn uart1(regs: B, crl: &mut B, baudrate: u32) -> (r: Uart<B>)
        ensures
            ({
                let w = final(crl).written();
                let m = old(crl).written().len() as int;
                &&& w.len() == m + 5
                &&& (forall|i: int| 0 <= i < m ==> w[i] == old(crl).written()[i])
                &&& w[m].0 == crate::clocks::WPROT && w[m].1 == 0
                &&& w[m + 1].0 == crate::clocks::PERI_RST_CTRL && w[m + 1].1 & PERI_RST_UART1
                    == PERI_RST_UART1
                &&& w[m + 2].0 == crate::clocks::PERI_RST_CTRL && w[m + 2].1 & PERI_RST_UART1 == 0
                &&& w[m + 3].0 == crate::clocks::UART1_CLK_CTRL && w[m + 3].1 & UART_CLKACT
                    == UART_CLKACT
                &&& w[m + 4].0 == crate::clocks::WPROT && w[m + 4].1 == 1
            }),
    {
        // the reset pulse and clock enable run with the domain unlocked
        crl.write_reg(crate::clocks::WPROT, 0);
        let cur = crl.read_reg(crate::clocks::PERI_RST_CTRL);
        proof {
            lemma_uart_bits(cur);
        }
        crl.write_reg(crate::clocks::PERI_RST_CTRL, cur | PERI_RST_UART1);
        let cur = crl.read_reg(crate::clocks::PERI_RST_CTRL);
        proof {
            lemma_uart_bits(cur);
        }
        crl.write_reg(crate::clocks::PERI_RST_CTRL, cur & !PERI_RST_UART1);
        let cur = crl.read_reg(crate::clocks::UART1_CLK_CTRL);
        proof {
            lemma_uart_bits(cur);
        }
        crl.write_reg(crate::clocks::UART1_CLK_CTRL, cur | UART_CLKACT);
        crl.write_reg(crate::clocks::WPROT, 1);

        let mut uart = Uart { regs };
        uart.configure(baudrate);
        uart
    }

    /// Send one byte: wait (bounded) for room in the transmit FIFO, then
    /// push the byte.
    pub fn write_byte(&mut self, value: u8)
        ensures
            final(self).regs.written().len() == old(self).regs.written().len() + 1,
            forall|i: int|
                0 <= i < old(self).regs.written().len() ==> final(self).regs.written()[i] == old(
                    self,
                ).regs.written()[i],
            final(self).regs.written().last() == (TX_RX_FIFO, value as u32),
    {
        let mut tries: u32 = POLL_TRIES;
        let ghost w0 = self.regs.written();
        while tries > 0 && self.tx_fifo_full()
            invariant
                self.regs.written() == w0,
            decreases tries,
        {
            tries -= 1;
        }
        self.regs.write_reg(TX_RX_FIFO, value as u32);
    }

    /// Configure the line: disable and reset both directions, clear stale
    /// status, program an 8N1 character frame and the 115200-baud divisors
    /// for the 50 MHz reference clock, then enable the receiver and
    /// transmitter and release any break. The contract pins each of the
    /// fourteen writes of the sequence.
    pub fn configure(&mut self, baudrate: u32)
        ensures
            ({
                let w = final(self).regs.written();
                let n = old(self).regs.written().len() as int;
                &&& w.len() == n + 14
                &&& (forall|i: int| 0 <= i < n ==> w[i] == old(self).regs.written()[i])
                &&& w[n].0 == INTERRUPT_DISABLE && w[n].1 == UART_IXR_ALL
                &&& w[n + 1].0 == CONTROL && w[n + 1].1 & CTRL_RXDIS == CTRL_RXDIS && w[n + 1].1
                    & CTRL_RXEN == 0
                &&& w[n + 2].0 == CONTROL && w[n + 2].1 & CTRL_TXDIS == CTRL_TXDIS && w[n + 2].1
                    & CTRL_TXEN == 0
                &&& w[n + 3].0 == CONTROL && w[n + 3].1 & CTRL_RXRST == CTRL_RXRST
                &&& w[n + 4].0 == CONTROL && w[n + 4].1 & CTRL_TXRST == CTRL_TXRST
                &&& w[n + 5].0 == CHANNEL_INTERRUPT_STATUS && w[n + 5].1 == UART_IXR_ALL
                &&& w[n + 6].0 == MODEM_STS && w[n + 6].1 & MODEM_STS_WTC == MODEM_STS_WTC
                &&& w[n + 7].0 == MODE && w[n + 7].1 == MODE_DEFAULT
                &&& w[n + 8].0 == RCVR_TIMEOUT && w[n + 8].1 & 0xff == 0
                &&& w[n + 9].0 == BAUD_RATE_GEN && w[n + 9].1 == 62
                &&& w[n + 10].0 == BAUD_RATE_DIVIDER && w[n + 10].1 == 6
                &&& w[n + 11].0 == CONTROL && w[n + 11].1 & CTRL_RXEN == CTRL_RXEN && w[n + 11].1
                    & CTRL_RXDIS == 0
                &&& w[n + 12].0 == CONTROL && w[n + 12].1 & CTRL_TXEN == CTRL_TXEN && w[n + 12].1
                    & CTRL_TXDIS == 0
                &&& w[n + 13].0 == CONTROL && w[n + 13].1 & CTRL_STTBRK == 0 && w[n + 13].1
                    & CTRL_STPBRK == CTRL_STPBRK
            }),
    {
        // disable everything
        self.disable_interrupts();
        self.disable_rx();
        self.disable_tx();

        // reset both paths and wait for the self-clearing bits
        self.reset_rx();
        self.reset_tx();
        self.wait_reset();

        // clear any remaining status flags
        self.clear_interrupt_status();
        self.clear_modem_status();

        // 8-bit characters, no parity, one stop bit, normal channel mode
        self.regs.write_reg(MODE, MODE_DEFAULT);

        // disable the receiver timeout
        self.set_rx_timeout(0);

        // baud rate divisors for 115200 baud from a 50 MHz reference
        self.regs.write_reg(BAUD_RATE_GEN, 62);
        self.regs.write_reg(BAUD_RATE_DIVIDER, 6);

        // enable the controller
        self.enable_rx();
        self.enable_tx();
        self.set_break(false, true);
    }

    /// Disable the receiver.
    pub fn disable_rx(&mut self)
        ensures
            final(self).regs.written().len() == old(self).regs.written().len() + 1,
            forall|i: int|
                0 <= i < old(self).regs.written().len() ==> final(self).regs.written()[i] == old(
                    self,
                ).regs.written()[i],
            final(self).regs.written().last().0 == CONTROL,
            final(self).regs.written().last().1 & CTRL_RXDIS == CTRL_RXDIS,
            final(self).regs.written().last().1 & CTRL_RXEN == 0,
    {
        let cur = self.regs.read_reg(CONTROL);
        proof {
            lemma_uart_two_bits(cur);
        }
        self.regs.write_reg(CONTROL, (cur & !CTRL_RXEN) | CTRL_RXDIS);
    }

    /// Disable the transmitter.
    pub fn disable_tx(&mut self)
        ensures
            final(self).regs.written().len() == old(self).regs.written().len() + 1,
            forall|i: int|
                0 <= i < old(self).regs.written().len() ==> final(self).regs.written()[i] == old(
                    self,
                ).regs.written()[i],
            final(self).regs.written().last().0 == CONTROL,
            final(self).regs.written().last().1 & CTRL_TXDIS == CTRL_TXDIS,
            final(self).regs.written().last().1 & CTRL_TXEN == 0,
    {
        let cur = self.regs.read_reg(CONTROL);
        proof {
            lemma_uart_two_bits(cur);
        }
        self.regs.write_reg(CONTROL, (cur & !CTRL_TXEN) | CTRL_TXDIS);
    }

    /// Enable the receiver.
    pub fn enable_rx(&mut self)
        ensures
            final(self).regs.written().len() == old(self).regs.written().len() + 1,
            forall|i: int|
                0 <= i < old(self).regs.written().len() ==> final(self).regs.written()[i] == old(
                    self,
                ).regs.written()[i],
            final(self).regs.written().last().0 == CONTROL,
            final(self).regs.written().last().1 & CTRL_RXEN == CTRL_RXEN,
            final(self).regs.written().last().1 & CTRL_RXDIS == 0,
    {
        let cur = self.regs.read_reg(CONTROL);
        proof {
            lemma_uart_two_bits(cur);
        }
        self.regs.write_reg(CONTROL, (cur & !CTRL_RXDIS) | CTRL_RXEN);
    }

    /// Enable the transmitter.
    pub fn enable_tx(&mut self)
        ensures
            final(self).regs.written().len() == old(self).regs.written().len() + 1,
            forall|i: int|
                0 <= i < old(self).regs.written().len() ==> final(self).regs.written()[i] == old(
                    self,
                ).regs.written()[i],
            final(self).regs.written().last().0 == CONTROL,
            final(self).regs.written().last().1 & CTRL_TXEN == CTRL_TXEN,
            final(self).regs.written().last().1 & CTRL_TXDIS == 0,
    {
        let cur = self.regs.read_reg(CONTROL);
        proof {
            lemma_uart_two_bits(cur);
        }
        self.regs.write_reg(CONTROL, (cur & !CTRL_TXDIS) | CTRL_TXEN);
    }

    /// Start a receiver reset; the bit self-clears when the reset is done.
    pub fn reset_rx(&mut self)
        ensures
            final(self).regs.written().len() == old(self).regs.written().len() + 1,
            forall|i: int|
                0 <= i < old(self).regs.written().len() ==> final(self).regs.written()[i] == old(
                    self,
                ).regs.written()[i],
            final(self).regs.written().last().0 == CONTROL,
            final(self).regs.written().last().1 & CTRL_RXRST == CTRL_RXRST,
    {
        let cur = self.regs.read_reg(CONTROL);
        proof {
            lemma_uart_bits(cur);
        }
        self.regs.write_reg(CONTROL, cur | CTRL_RXRST);
    }

    /// Start a transmitter reset; the bit self-clears when the reset is
    /// done.
    pub fn reset_tx(&mut self)
        ensures
            final(self).regs.written().len() == old(self).regs.written().len() + 1,
            forall|i: int|
                0 <= i < old(self).regs.written().len() ==> final(self).regs.written()[i] == old(
                    self,
                ).regs.written()[i],
            final(self).regs.written().last().0 == CONTROL,
            final(self).regs.written().last().1 & CTRL_TXRST == CTRL_TXRST,
    {
        let cur = self.regs.read_reg(CONTROL);
        proof {
            lemma_uart_bits(cur);
        }
        self.regs.write_reg(CONTROL, cur | CTRL_TXRST);
    }

    /// Wait (bounded) for a pending receiver or transmitter reset to
    /// complete.
    pub fn wait_reset(&mut self)
        ensures
            final(self).regs.written() == old(self).regs.written(),
    {
        let mut tries: u32 = POLL_TRIES;
        let mut pending = true;
        while tries > 0 && pending
            invariant
                self.regs.written() == old(self).regs.written(),
            decreases tries,
        {
            let control = self.regs.read_reg(CONTROL);
            pending = control & (CTRL_RXRST | CTRL_TXRST) != 0;
            tries -= 1;
        }
    }

    /// Start or stop a break condition.
    pub fn set_break(&mut self, startbrk: bool, stopbrk: bool)
        ensures
            final(self).regs.written().len() == old(self).regs.written().len() + 1,
            forall|i: int|
                0 <= i < old(self).regs.written().len() ==> final(self).regs.written()[i] == old(
                    self,
                ).regs.written()[i],
            final(self).regs.written().last().0 == CONTROL,
            final(self).regs.written().last().1 & CTRL_STTBRK == (if startbrk {
                CTRL_STTBRK
            } else {
                0u32
            }),
            final(self).regs.written().last().1 & CTRL_STPBRK == (if stopbrk {
                CTRL_STPBRK
            } else {
                0u32
            }),
    {
        let cur = self.regs.read_reg(CONTROL);
        let with_start = if startbrk {
            cur | CTRL_STTBRK
        } else {
            cur & !CTRL_STTBRK
        };
        let value = if stopbrk {
            with_start | CTRL_STPBRK
        } else {
            with_start & !CTRL_STPBRK
        };
        proof {
            lemma_uart_break_bits(cur);
        }
        self.regs.write_reg(CONTROL, value);
    }

    /// Set the receiver timeout; zero disables it.
    pub fn set_rx_timeout(&mut self, timeout: u8)
        ensures
            final(self).regs.written().len() == old(self).regs.written().len() + 1,
            forall|i: int|
                0 <= i < old(self).regs.written().len() ==> final(self).regs.written()[i] == old(
                    self,
                ).regs.written()[i],
            final(self).regs.written().last().0 == RCVR_TIMEOUT,
            final(self).regs.written().last().1 & 0xff == timeout as u32,
    {
        let cur = self.regs.read_reg(RCVR_TIMEOUT);
        let value = (cur & !0xffu32) | (timeout as u32);
        proof {
            lemma_uart_timeout_field(cur, timeout as u32);
        }
        self.regs.write_reg(RCVR_TIMEOUT, value);
    }

    /// Whether the transmit FIFO is full.
    pub fn tx_fifo_full(&mut self) -> (r: bool)
        ensures
            final(self).regs.written() == old(self).regs.written(),
    {
        self.regs.read_reg(CHANNEL_STS) & STS_TXFULL != 0
    }

    /// Whether the transmitter is idle: FIFO empty and state machine
    /// inactive.
    pub fn tx_idle(&mut self) -> (r: bool)
        ensures
            final(self).regs.written() == old(self).regs.written(),
    {
        let status = self.regs.read_reg(CHANNEL_STS);
        status & STS_TXEMPTY != 0 && status & STS_TACTIVE == 0
    }

    /// Disable every interrupt.
    pub fn disable_interrupts(&mut self)
        ensures
            final(self).regs.written() == old(self).regs.written().push(
                (INTERRUPT_DISABLE, UART_IXR_ALL),
            ),
    {
        self.regs.write_reg(INTERRUPT_DISABLE, UART_IXR_ALL);
    }

    /// Clear the sticky interrupt status flags that a reset does not.
    pub fn clear_interrupt_status(&mut self)
        ensures
            final(self).regs.written() == old(self).regs.written().push(
                (CHANNEL_INTERRUPT_STATUS, UART_IXR_ALL),
            ),
    {
        self.regs.write_reg(CHANNEL_INTERRUPT_STATUS, UART_IXR_ALL);
    }

    /// Clear the write-to-clear modem status flags.
    pub fn clear_modem_status(&mut self)
        ensures
            final(self).regs.written().len() == old(self).regs.written().len() + 1,
            forall|i: int|
                0 <= i < old(self).regs.written().len() ==> final(self).regs.written()[i] == old(
                    self,
                ).regs.written()[i],
            final(self).regs.written().last().0 == MODEM_STS,
            final(self).regs.written().last().1 & MODEM_STS_WTC == MODEM_STS_WTC,
    {
        let cur = self.regs.read_reg(MODEM_STS);
        proof {
            lemma_uart_bits(cur);
        }
        self.regs.write_reg(MODEM_STS, cur | MODEM_STS_WTC);
    }
}

/// Setting a bit mask leaves it set, clearing it leaves it clear.
proof fn lemma_uart_bits(x: u32)
    by (bit_vector)
    ensures
        forall|m: u32| #[trigger] ((x | m) & m) == m,
        forall|m: u32| #[trigger] ((x & !m) & m) == 0,
{
}

/// Clearing one of the enable/disable bits while setting its partner
/// leaves exactly that state in the written value.
proof fn lemma_uart_two_bits(x: u32)
    by (bit_vector)
    ensures
        ((x & !(1u32 << 2)) | (1u32 << 3)) & (1u32 << 3) == (1u32 << 3),
        ((x & !(1u32 << 2)) | (1u32 << 3)) & (1u32 << 2) == 0,
        ((x & !(1u32 << 3)) | (1u32 << 2)) & (1u32 << 2) == (1u32 << 2),
        ((x & !(1u32 << 3)) | (1u32 << 2)) & (1u32 << 3) == 0,
        ((x & !(1u32 << 4)) | (1u32 << 5)) & (1u32 << 5) == (1u32 << 5),
        ((x & !(1u32 << 4)) | (1u32 << 5)) & (1u32 << 4) == 0,
        ((x & !(1u32 << 5)) | (1u32 << 4)) & (1u32 << 4) == (1u32 << 4),
        ((x & !(1u32 << 5)) | (1u32 << 4)) & (1u32 << 5) == 0,
{
}

/// The start/stop break insertion keeps each chosen bit value.
proof fn lemma_uart_break_bits(x: u32)
    by (bit_vector)
    ensures
        ((x | (1u32 << 7)) | (1u32 << 8)) & (1u32 << 7) == (1u32 << 7),
        ((x | (1u32 << 7)) | (1u32 << 8)) & (1u32 << 8) == (1u32 << 8),
        ((x | (1u32 << 7)) & !(1u32 << 8)) & (1u32 << 7) == (1u32 << 7),
        ((x | (1u32 << 7)) & !(1u32 << 8)) & (1u32 << 8) == 0,
        (((x & !(1u32 << 7))) | (1u32 << 8)) & (1u32 << 7) == 0,
        (((x & !(1u32 << 7))) | (1u32 << 8)) & (1u32 << 8) == (1u32 << 8),
        ((x & !(1u32 << 7)) & !(1u32 << 8)) & (1u32 << 7) == 0,
        ((x & !(1u32 << 7)) & !(1u32 << 8)) & (1u32 << 8) == 0,
{
}

/// Inserting the timeout field leaves it holding the timeout value.
proof fn lemma_uart_timeout_field(x: u32, t: u32)
    by (bit_vector)
    requires
        t <= 0xff,
    ensures
        ((x & !0xffu32) | t) & 0xff == t,
{
}

} // verus!
