//! Decoding of the vendor status register.

use vstd::prelude::*;

verus! {

/// True when the receive FIFO is full: bit 4 of the status byte.
pub open spec fn spec_receive_fifo_full(bits: u8) -> bool {
    bits & 0x10 != 0
}

/// True when the receive FIFO holds at least one byte: bit 3 of the status byte.
pub open spec fn spec_receive_fifo_not_empty(bits: u8) -> bool {
    bits & 0x08 != 0
}

/// True when the transmit FIFO is empty: bit 2 of the status byte.
pub open spec fn spec_transmit_fifo_empty(bits: u8) -> bool {
    bits & 0x04 != 0
}

/// True when the transmit FIFO has a free slot: bit 1 of the status byte.
pub open spec fn spec_transmit_fifo_not_full(bits: u8) -> bool {
    bits & 0x02 != 0
}

/// True when the peripheral is busy: bit 0 of the status byte.
pub open spec fn spec_busy(bits: u8) -> bool {
    bits & 0x01 != 0
}

/// Status settings for the current peripheral: a one-byte snapshot of the
/// status register at one instant.  It is never cached; every query of the
/// hardware takes a fresh snapshot.
#[derive(Clone, Copy, Debug, PartialEq, Eq, Hash, Structural)]
pub struct UartStatus(pub u8);

impl UartStatus {
    /// Returns if the receive FIFO is full.
    pub fn receive_fifo_full(self) -> (r: bool)
        ensures
            r == spec_receive_fifo_full(self.0),
    {
        self.0 & 0x10 != 0
    }

    /// Returns if the receive FIFO is non-empty.
    pub fn receive_fifo_not_empty(self) -> (r: bool)
        ensures
            r == spec_receive_fifo_not_empty(self.0),
    {
        self.0 & 0x08 != 0
    }

    /// Returns if the transmit FIFO is empty.
    pub fn transmit_fifo_empty(self) -> (r: bool)
        ensures
            r == spec_transmit_fifo_empty(self.0),
    {
        self.0 & 0x04 != 0
    }

    /// Returns if the transmit FIFO is not full.
    pub fn transmit_fifo_not_full(self) -> (r: bool)
        ensures
            r == spec_transmit_fifo_not_full(self.0),
    {
        self.0 & 0x02 != 0
    }

    /// Returns if the peripheral is busy.
    pub fn busy(self) -> (r: bool)
        ensures
            r == spec_busy(self.0),
    {
        self.0 & 0x01 != 0
    }
}

} // verus!
