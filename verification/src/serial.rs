//! The register values of the serial port device.
//!
//! Each register of the device is an 8-bit bit-packed value. The types here
//! encode and decode those values exactly; moving them to and from the
//! device's I/O ports is left to the unverified surroundings.

use vstd::prelude::*;

verus! {

/// The interrupt-enable register value of the serial port.
#[derive(Clone, Copy, Debug, Hash, PartialEq, Eq, Structural)]
pub struct InterruptEnable(pub u8);

impl InterruptEnable {
    /// Returns the [`InterruptEnable`] value with every interrupt disabled.
    pub fn new() -> (r: Self)
        ensures
            r.0 == 0,
    {
        InterruptEnable(0)
    }

    /// Returns the value with the receive interrupt set to `enable` and all
    /// other bits kept.
    pub fn set_receive(self, enable: bool) -> (r: Self)
        ensures
            r.0 == (self.0 & !0b1) | (if enable {
                1u8
            } else {
                0u8
            }),
    {
        InterruptEnable((self.0 & !0b1) | (if enable { 1 } else { 0 }))
    }

    /// Returns the value with the write interrupt set to `enable` and all
    /// other bits kept.
    pub fn set_write(self, enable: bool) -> (r: Self)
        ensures
            r.0 == (self.0 & !0b10) | ((if enable {
                1u8
            } else {
                0u8
            }) << 1),
    {
        InterruptEnable((self.0 & !0b10) | ((if enable { 1 } else { 0 }) << 1))
    }

    /// Returns the value with the error interrupt set to `enable` and all
    /// other bits kept.
    pub fn set_error(self, enable: bool) -> (r: Self)
        ensures
            r.0 == (self.0 & !0b100) | ((if enable {
                1u8
            } else {
                0u8
            }) << 2),
    {
        InterruptEnable((self.0 & !0b100) | ((if enable { 1 } else { 0 }) << 2))
    }

    /// Returns the value with the modem-status interrupt set to `enable`
    /// and all other bits kept.
    pub fn set_modem_status(self, enable: bool) -> (r: Self)
        ensures
            r.0 == (self.0 & !0b1000) | ((if enable {
                1u8
            } else {
                0u8
            }) << 3),
    {
        InterruptEnable((self.0 & !0b1000) | ((if enable { 1 } else { 0 }) << 3))
    }

    /// Whether the receive interrupt is enabled.
    pub fn receive_enabled(self) -> (r: bool)
        ensures
            r == (self.0 & 0b1 == 0b1),
    {
        self.0 & 0b1 == 0b1
    }

    /// Whether the write interrupt is enabled.
    pub fn write_enabled(self) -> (r: bool)
        ensures
            r == ((self.0 >> 1) & 0b1 == 0b1),
    {
        (self.0 >> 1) & 0b1 == 0b1
    }

    /// Whether the error interrupt is enabled.
    pub fn error_enabled(self) -> (r: bool)
        ensures
            r == ((self.0 >> 2) & 0b1 == 0b1),
    {
        (self.0 >> 2) & 0b1 == 0b1
    }

    /// Whether the modem-status interrupt is enabled.
    pub fn modem_status_enabled(self) -> (r: bool)
        ensures
            r == ((self.0 >> 3) & 0b1 == 0b1),
    {
        (self.0 >> 3) & 0b1 == 0b1
    }
}

/// The interrupt-status register value of the serial port.
#[derive(Clone, Copy, Debug, Hash, PartialEq, Eq, Structural)]
pub struct InterruptStatus(pub u8);

impl InterruptStatus {
    /// Whether an interrupt is pending.
    pub fn pending(self) -> (r: bool)
        ensures
            r == (self.0 & 0b1 == 0b1),
    {
        self.0 & 0b1 == 0b1
    }

    /// The identifier of the pending interrupt.
    pub fn pending_interrupt(self) -> (r: u8)
        ensures
            r == (self.0 >> 1) & 0b111,
    {
        (self.0 >> 1) & 0b111
    }
}

/// The mode in which direct memory access is carried out.
#[derive(Clone, Copy, Debug, Hash, PartialEq, Eq, Structural)]
pub enum DmaMode {
    /// One byte at a time.
    SingleByte,
    /// Several bytes at a time.
    MultiByte,
}

impl DmaMode {
    /// The numeric encoding of the mode.
    pub open spec fn spec_value(self) -> u8 {
        match self {
            DmaMode::SingleByte => 0,
            DmaMode::MultiByte => 1,
        }
    }

    /// Returns the numeric encoding of this [`DmaMode`].
    pub fn value(self) -> (r: u8)
        ensures
            r == self.spec_value(),
    {
        match self {
            DmaMode::SingleByte => 0,
            DmaMode::MultiByte => 1,
        }
    }
}

/// The number of received bytes after which an interrupt triggers.
#[derive(Clone, Copy, Debug, Hash, PartialEq, Eq, Structural)]
pub enum DmaTriggerLevel {
    /// Trigger after one byte.
    Byte1,
    /// Trigger after four bytes.
    Bytes4,
    /// Trigger after eight bytes.
    Bytes8,
    /// Trigger after fourteen bytes.
    Bytes14,
}

impl DmaTriggerLevel {
    /// The numeric encoding of the trigger level.
    pub open spec fn spec_value(self) -> u8 {
        match self {
            DmaTriggerLevel::Byte1 => 0,
            DmaTriggerLevel::Bytes4 => 1,
            DmaTriggerLevel::Bytes8 => 2,
            DmaTriggerLevel::Bytes14 => 3,
        }
    }

    /// Returns the numeric encoding of this [`DmaTriggerLevel`].
    pub fn value(self) -> (r: u8)
        ensures
            r == self.spec_value(),
    {
        match self {
            DmaTriggerLevel::Byte1 => 0,
            DmaTriggerLevel::Bytes4 => 1,
            DmaTriggerLevel::Bytes8 => 2,
            DmaTriggerLevel::Bytes14 => 3,
        }
    }
}

/// The FIFO-control register value of the serial port.
#[derive(Clone, Copy, Debug, Hash, PartialEq, Eq, Structural)]
pub struct FifoControl(pub u8);

impl FifoControl {
    /// Returns the all-clear [`FifoControl`] value.
    pub fn new() -> (r: Self)
        ensures
            r.0 == 0,
    {
        FifoControl(0)
    }

    /// Returns the value with the FIFO-enable bit set to `enable` and all
    /// other bits kept.
    pub fn enable_fifo(self, enable: bool) -> (r: Self)
        ensures
            r.0 == (self.0 & !0b1) | (if enable {
                1u8
            } else {
                0u8
            }),
    {
        FifoControl((self.0 & !0b1) | (if enable { 1 } else { 0 }))
    }

    /// Returns the value with the receive-FIFO-reset bit set to `reset` and
    /// all other bits kept.
    pub fn reset_receive_fifo(self, reset: bool) -> (r: Self)
        ensures
            r.0 == (self.0 & !0b10) | ((if reset {
                1u8
            } else {
                0u8
            }) << 1),
    {
        FifoControl((self.0 & !0b10) | ((if reset { 1 } else { 0 }) << 1))
    }

    /// Returns the value with the transmit-FIFO-reset bit set to `reset`,
    /// keeping of the other bits only the DMA-mode bit.
    pub fn reset_transmit_fifo(self, reset: bool) -> (r: Self)
        ensures
            r.0 == (self.0 & 0b100) | ((if reset {
                1u8
            } else {
                0u8
            }) << 2),
    {
        FifoControl((self.0 & 0b100) | ((if reset { 1 } else { 0 }) << 2))
    }

    /// Returns the value with the DMA-mode bit set to `dma_mode`, keeping
    /// of the other bits only the transmit-FIFO-reset bit.
    pub fn dma_mode(self, dma_mode: DmaMode) -> (r: Self)
        ensures
            r.0 == (self.0 & 0b1000) | (dma_mode.spec_value() << 3),
    {
        FifoControl((self.0 & 0b1000) | (dma_mode.value() << 3))
    }

    /// Returns the value with the trigger-level bits set to
    /// `dma_trigger_level`, keeping of the other bits only the trigger-level
    /// bits themselves.
    pub fn trigger_level(self, dma_trigger_level: DmaTriggerLevel) -> (r: Self)
        ensures
            r.0 == (self.0 & 0b11000000) | (dma_trigger_level.spec_value() << 6),
    {
        FifoControl((self.0 & 0b11000000) | (dma_trigger_level.value() << 6))
    }
}

/// The number of data bits in a serial word.
#[derive(Clone, Copy, Debug, Hash, PartialEq, Eq, Structural)]
pub enum DataBits {
    /// Five data bits.
    Bits5,
    /// Six data bits.
    Bits6,
    /// Seven data bits.
    Bits7,
    /// Eight data bits.
    Bits8,
}

impl DataBits {
    /// The numeric encoding of the data-bit count.
    pub open spec fn spec_value(self) -> u8 {
        match self {
            DataBits::Bits5 => 0,
            DataBits::Bits6 => 1,
            DataBits::Bits7 => 2,
            DataBits::Bits8 => 3,
        }
    }

    /// Returns the numeric encoding of this [`DataBits`].
    pub fn value(self) -> (r: u8)
        ensures
            r == self.spec_value(),
    {
        match self {
            DataBits::Bits5 => 0,
            DataBits::Bits6 => 1,
            DataBits::Bits7 => 2,
            DataBits::Bits8 => 3,
        }
    }
}

/// The number of stop bits of a serial word.
#[derive(Clone, Copy, Debug, Hash, PartialEq, Eq, Structural)]
pub enum StopBits {
    /// One stop bit.
    OneBit,
    /// One and a half stop bits.
    OneAndHalfBits,
}

impl StopBits {
    /// The numeric encoding of the stop-bit count.
    pub open spec fn spec_value(self) -> u8 {
        match self {
            StopBits::OneBit => 0,
            StopBits::OneAndHalfBits => 1,
        }
    }

    /// Returns the numeric encoding of this [`StopBits`].
    pub fn value(self) -> (r: u8)
        ensures
            r == self.spec_value(),
    {
        match self {
            StopBits::OneBit => 0,
            StopBits::OneAndHalfBits => 1,
        }
    }
}

/// The parity scheme of a serial word.
#[derive(Clone, Copy, Debug, Hash, PartialEq, Eq, Structural)]
pub enum Parity {
    /// No parity bit.
    Disabled,
    /// The parity bit makes the count of set bits odd.
    Odd,
    /// The parity bit makes the count of set bits even.
    Even,
    /// The parity bit is always one.
    Forced1,
    /// The parity bit is always zero.
    Forced0,
}

impl Parity {
    /// The numeric encoding of the parity scheme.
    pub open spec fn spec_value(self) -> u8 {
        match self {
            Parity::Disabled => 0,
            Parity::Odd => 1,
            Parity::Even => 3,
            Parity::Forced1 => 5,
            Parity::Forced0 => 7,
        }
    }

    /// Returns the numeric encoding of this [`Parity`].
    pub fn value(self) -> (r: u8)
        ensures
            r == self.spec_value(),
    {
        match self {
            Parity::Disabled => 0,
            Parity::Odd => 1,
            Parity::Even => 3,
            Parity::Forced1 => 5,
            Parity::Forced0 => 7,
        }
    }
}

/// The parity scheme encoded by the three parity bits `p`: each odd code
/// decodes to the scheme that encodes it, so setting a parity and reading
/// it back round-trips, and the even codes all decode to disabled parity.
pub open spec fn spec_decode_parity(p: u8) -> Parity {
    if p == 1 {
        Parity::Odd
    } else if p == 3 {
        Parity::Even
    } else if p == 5 {
        Parity::Forced1
    } else if p == 7 {
        Parity::Forced0
    } else {
        Parity::Disabled
    }
}

/// The line-control register value of the serial port.
#[derive(Clone, Copy, Debug, Hash, PartialEq, Eq, Structural)]
pub struct LineControl(pub u8);

impl LineControl {
    /// Returns the default [`LineControl`] value: eight data bits, one stop
    /// bit, parity disabled, break and divisor-latch access clear.
    pub fn new() -> (r: Self)
        ensures
            r.0 == 0b11,
    {
        proof {
            assert((((((((((0u8 & !0b11) | 3) & !0b100) | (0u8 << 2)) & !0b111000) | (0u8 << 3))
                & !0b1000000) | (0u8 << 6)) & !0b10000000) | (0u8 << 7) == 0b11) by (bit_vector);
        }
        LineControl(0).set_data_bits(DataBits::Bits8).set_stop_bits(StopBits::OneBit).set_parity(
            Parity::Disabled,
        ).set_break(false).set_dlab(false)
    }

    /// Returns the value with the data-bit field set to `data_bits` and all
    /// other bits kept.
    pub fn set_data_bits(self, data_bits: DataBits) -> (r: Self)
        ensures
            r.0 == (self.0 & !0b11) | data_bits.spec_value(),
    {
        LineControl((self.0 & !0b11) | data_bits.value())
    }

    /// Returns the value with the stop-bit field set to `stop_bits` and all
    /// other bits kept.
    pub fn set_stop_bits(self, stop_bits: StopBits) -> (r: Self)
        ensures
            r.0 == (self.0 & !0b100) | (stop_bits.spec_value() << 2),
    {
        LineControl((self.0 & !0b100) | (stop_bits.value() << 2))
    }

    /// Returns the value with the parity field set to `parity` and all
    /// other bits kept.
    pub fn set_parity(self, parity: Parity) -> (r: Self)
        ensures
            r.0 == (self.0 & !0b111000) | (parity.spec_value() << 3),
    {
        LineControl((self.0 & !0b111000) | (parity.value() << 3))
    }

    /// Returns the value with the break bit set to `enable_break` and all
    /// other bits kept.
    pub fn set_break(self, enable_break: bool) -> (r: Self)
        ensures
            r.0 == (self.0 & !0b1000000) | ((if enable_break {
                1u8
            } else {
                0u8
            }) << 6),
    {
        LineControl((self.0 & !0b1000000) | ((if enable_break { 1 } else { 0 }) << 6))
    }

    /// Returns the value with the divisor-latch-access bit set to
    /// `enable_dlab` and all other bits kept.
    pub fn set_dlab(self, enable_dlab: bool) -> (r: Self)
        ensures
            r.0 == (self.0 & !0b10000000) | ((if enable_dlab {
                1u8
            } else {
                0u8
            }) << 7),
    {
        LineControl((self.0 & !0b10000000) | ((if enable_dlab { 1 } else { 0 }) << 7))
    }

    /// The number of data bits encoded in the value.
    pub fn data_bits(self) -> (r: DataBits)
        ensures
            r.spec_value() == self.0 & 0b11,
    {
        proof {
            let v = self.0;
            assert(v & 0b11 < 4) by (bit_vector);
        }
        match self.0 & 0b11 {
            0 => DataBits::Bits5,
            1 => DataBits::Bits6,
            2 => DataBits::Bits7,
            _ => DataBits::Bits8,
        }
    }

    /// The number of stop bits encoded in the value.
    ///
    /// The selector reads bit 1 of the register value.
    pub fn stop_bits(self) -> (r: StopBits)
        ensures
            r.spec_value() == (self.0 >> 1) & 0b1,
    {
        proof {
            let v = self.0;
            assert((v >> 1) & 0b1 < 2) by (bit_vector);
        }
        match (self.0 >> 1) & 0b1 {
            0 => StopBits::OneBit,
            _ => StopBits::OneAndHalfBits,
        }
    }

    /// The parity scheme encoded in the value; decoding is the inverse of
    /// [`LineControl::set_parity`]'s encoding.
    pub fn parity(self) -> (r: Parity)
        ensures
            r == spec_decode_parity((self.0 >> 3) & 0b111),
    {
        match (self.0 >> 3) & 0b111 {
            1 => Parity::Odd,
            3 => Parity::Even,
            5 => Parity::Forced1,
            7 => Parity::Forced0,
            _ => Parity::Disabled,
        }
    }

    /// Whether the break bit is set.
    pub fn break_bit(self) -> (r: bool)
        ensures
            r == ((self.0 >> 6) & 1 == 1),
    {
        (self.0 >> 6) & 1 == 1
    }

    /// Whether the divisor-latch-access bit is set.
    pub fn dlab_bit(self) -> (r: bool)
        ensures
            r == ((self.0 >> 7) & 1 == 1),
    {
        (self.0 >> 7) & 1 == 1
    }
}

/// The line-status register value of the serial port.
#[derive(Clone, Copy, Debug, Hash, PartialEq, Eq, Structural)]
pub struct LineStatus(pub u8);

impl LineStatus {
    /// Whether received data is ready to be read.
    pub fn data_ready(self) -> (r: bool)
        ensures
            r == (self.0 & 0b1 == 0b1),
    {
        self.0 & 0b1 == 0b1
    }

    /// Whether received data was lost for want of reading.
    pub fn overrun_error(self) -> (r: bool)
        ensures
            r == ((self.0 >> 1) & 0b1 == 0b1),
    {
        (self.0 >> 1) & 0b1 == 0b1
    }

    /// Whether a received word failed its parity check.
    pub fn parity_error(self) -> (r: bool)
        ensures
            r == ((self.0 >> 2) & 0b1 == 0b1),
    {
        (self.0 >> 2) & 0b1 == 0b1
    }

    /// Whether a received word lacked its stop bit.
    pub fn framing_error(self) -> (r: bool)
        ensures
            r == ((self.0 >> 3) & 0b1 == 0b1),
    {
        (self.0 >> 3) & 0b1 == 0b1
    }

    /// Whether a break in the data input was detected.
    pub fn break_indicator(self) -> (r: bool)
        ensures
            r == ((self.0 >> 4) & 0b1 == 0b1),
    {
        (self.0 >> 4) & 0b1 == 0b1
    }

    /// Whether the transmit buffer can take another byte.
    pub fn output_empty(self) -> (r: bool)
        ensures
            r == ((self.0 >> 5) & 0b1 == 0b1),
    {
        (self.0 >> 5) & 0b1 == 0b1
    }

    /// Whether the transmitter is idle.
    pub fn transmitter_empty(self) -> (r: bool)
        ensures
            r == ((self.0 >> 6) & 0b1 == 0b1),
    {
        (self.0 >> 6) & 0b1 == 0b1
    }

    /// Whether a received word of the FIFO carries an error.
    pub fn fifo_error(self) -> (r: bool)
        ensures
            r == ((self.0 >> 7) & 0b1 == 0b1),
    {
        (self.0 >> 7) & 0b1 == 0b1
    }

    /// Whether any error flag of the line status is set: an overrun,
    /// parity, framing or FIFO error.
    pub fn error_set(self) -> (r: bool)
        ensures
            r == ((self.0 >> 1) & 0b1 == 0b1 || (self.0 >> 2) & 0b1 == 0b1 || (self.0 >> 3) & 0b1
                == 0b1 || (self.0 >> 7) & 0b1 == 0b1),
    {
        self.overrun_error() || self.parity_error() || self.framing_error() || self.fifo_error()
    }
}

} // verus!
