//! The register block of one UART instance, modeled as a typed value.
//!
//! On hardware the block sits behind a base address and every access is one
//! volatile load or store.  The model keeps the byte that each register
//! holds, and a ghost log with one entry per access, so that contracts can
//! say which registers an operation touches and in what order.  The layout —
//! which register sits at which byte offset — is stated by `word_index` and
//! `usr_offset`: a 16550-compatible window of seven 32-bit registers at the
//! base, then 24 reserved words, then the vendor status register.

use vstd::prelude::*;

use crate::hw::{ier_bits, lcr_bits};
use crate::status::UartStatus;

verus! {

/// One register of the block, named by its role.  `Dll` and `Dlh` are the
/// divisor latches, which share the first two word offsets with `RbrThr`
/// and `Ier` while divisor-latch access is enabled.
pub enum Reg {
    RbrThr,
    Ier,
    IirFcr,
    Lcr,
    Mcr,
    Lsr,
    Msr,
    Dll,
    Dlh,
    Usr,
}

/// The word offset (in 32-bit steps from the base) at which a register sits.
pub open spec fn word_index(r: Reg) -> int {
    match r {
        Reg::RbrThr => 0,
        Reg::Ier => 1,
        Reg::IirFcr => 2,
        Reg::Lcr => 3,
        Reg::Mcr => 4,
        Reg::Lsr => 5,
        Reg::Msr => 6,
        Reg::Dll => 0,
        Reg::Dlh => 1,
        Reg::Usr => 31,
    }
}

/// Byte offset of the vendor status register: seven window registers and 24
/// reserved words lie before it, four bytes each.
pub fn usr_offset() -> (r: usize)
    ensures
        r == 4 * word_index(Reg::Usr),
        r == 0x7c,
{
    124
}

/// One volatile access to the block, as the hardware sees it.
pub enum Access {
    Load { reg: Reg },
    Store { reg: Reg, value: u8 },
}

/// What the block holds, register by register, together with the log of
/// every access made so far.  `rbr` is the receive buffer (loads at word 0)
/// and `thr` the transmit holding register (stores at word 0): one address,
/// two latches.
pub struct RegsView {
    pub rbr: u8,
    pub thr: u8,
    pub ier: u8,
    pub lcr: u8,
    pub dll: u8,
    pub dlh: u8,
    pub lsr: u8,
    pub usr: u8,
    pub log: Seq<Access>,
}

/// UART Status Register: the cell holding the vendor status byte.
#[derive(Clone, Copy)]
pub struct USR {
    value: u8,
}

impl USR {
    /// The byte the register holds.
    pub closed spec fn spec_value(&self) -> u8 {
        self.value
    }

    /// Read UART status settings: a snapshot of the byte held.
    pub fn read(&self) -> (r: UartStatus)
        ensures
            r.0 == self.spec_value(),
    {
        UartStatus(self.value)
    }

    /// Write UART status settings.
    pub fn write(&mut self, val: UartStatus)
        ensures
            final(self).spec_value() == val.0,
    {
        self.value = val.0;
    }
}

/// Universal Asynchronous Receiver-Transmitter registers.
#[derive(Clone, Copy)]
pub struct RegisterBlock {
    rbr: u8,
    thr: u8,
    ier: uart16550::InterruptTypes,
    lcr: uart16550::LineControl,
    dll: u8,
    dlh: u8,
    lsr: u8,
    usr: USR,
    log: Ghost<Seq<Access>>,
}

impl View for RegisterBlock {
    type V = RegsView;

    closed spec fn view(&self) -> RegsView {
        RegsView {
            rbr: self.rbr,
            thr: self.thr,
            ier: ier_bits(self.ier),
            lcr: lcr_bits(self.lcr),
            dll: self.dll,
            dlh: self.dlh,
            lsr: self.lsr,
            usr: self.usr.spec_value(),
            log: self.log@,
        }
    }
}

impl RegisterBlock {
    /// A block in the state the platform hands over: interrupt-enable and
    /// line-control settings as the hardware last latched them, the status
    /// and line-status bytes, and the byte waiting in the receive buffer.
    pub fn new(
        ier: uart16550::InterruptTypes,
        lcr: uart16550::LineControl,
        status: UartStatus,
        line_status: u8,
        receive_data: u8,
    ) -> (r: RegisterBlock)
        ensures
            r@ == (RegsView {
                rbr: receive_data,
                thr: 0,
                ier: ier_bits(ier),
                lcr: lcr_bits(lcr),
                dll: 0,
                dlh: 0,
                lsr: line_status,
                usr: status.0,
                log: Seq::empty(),
            }),
    {
        RegisterBlock {
            rbr: receive_data,
            thr: 0,
            ier,
            lcr,
            dll: 0,
            dlh: 0,
            lsr: line_status,
            usr: USR { value: status.0 },
            log: Ghost(Seq::empty()),
        }
    }

    /// One load of the vendor status register.
    pub(crate) fn read_usr(&mut self) -> (r: UartStatus)
        ensures
            r.0 == old(self)@.usr,
            final(self)@ == (RegsView {
                log: old(self)@.log.push(Access::Load { reg: Reg::Usr }),
                ..old(self)@
            }),
    {
        self.log = Ghost(self.log@.push(Access::Load { reg: Reg::Usr }));
        self.usr.read()
    }

    /// One load of the line status register.
    pub(crate) fn read_lsr(&mut self) -> (r: u8)
        ensures
            r == old(self)@.lsr,
            final(self)@ == (RegsView {
                log: old(self)@.log.push(Access::Load { reg: Reg::Lsr }),
                ..old(self)@
            }),
    {
        self.log = Ghost(self.log@.push(Access::Load { reg: Reg::Lsr }));
        self.lsr
    }

    /// One load of the receive buffer register.
    pub(crate) fn read_rbr(&mut self) -> (r: u8)
        ensures
            r == old(self)@.rbr,
            final(self)@ == (RegsView {
                log: old(self)@.log.push(Access::Load { reg: Reg::RbrThr }),
                ..old(self)@
            }),
    {
        self.log = Ghost(self.log@.push(Access::Load { reg: Reg::RbrThr }));
        self.rbr
    }

    /// One store to the transmit holding register.
    pub(crate) fn write_thr(&mut self, value: u8)
        ensures
            final(self)@ == (RegsView {
                thr: value,
                log: old(self)@.log.push(Access::Store { reg: Reg::RbrThr, value }),
                ..old(self)@
            }),
    {
        self.log = Ghost(self.log@.push(Access::Store { reg: Reg::RbrThr, value }));
        self.thr = value;
    }

    /// One load of the interrupt enable register.
    pub(crate) fn read_ier(&mut self) -> (r: uart16550::InterruptTypes)
        ensures
            ier_bits(r) == old(self)@.ier,
            final(self)@ == (RegsView {
                log: old(self)@.log.push(Access::Load { reg: Reg::Ier }),
                ..old(self)@
            }),
    {
        self.log = Ghost(self.log@.push(Access::Load { reg: Reg::Ier }));
        self.ier
    }

    /// One store to the interrupt enable register.
    pub(crate) fn write_ier(&mut self, val: uart16550::InterruptTypes)
        ensures
            final(self)@ == (RegsView {
                ier: ier_bits(val),
                log: old(self)@.log.push(
                    Access::Store { reg: Reg::Ier, value: ier_bits(val) },
                ),
                ..old(self)@
            }),
    {
        self.log = Ghost(self.log@.push(Access::Store { reg: Reg::Ier, value: ier_bits(val) }));
        self.ier = val;
    }

    /// One load of the line control register.
    pub(crate) fn read_lcr(&mut self) -> (r: uart16550::LineControl)
        ensures
            lcr_bits(r) == old(self)@.lcr,
            final(self)@ == (RegsView {
                log: old(self)@.log.push(Access::Load { reg: Reg::Lcr }),
                ..old(self)@
            }),
    {
        self.log = Ghost(self.log@.push(Access::Load { reg: Reg::Lcr }));
        self.lcr
    }

    /// One store to the line control register.
    pub(crate) fn write_lcr(&mut self, val: uart16550::LineControl)
        ensures
            final(self)@ == (RegsView {
                lcr: lcr_bits(val),
                log: old(self)@.log.push(
                    Access::Store { reg: Reg::Lcr, value: lcr_bits(val) },
                ),
                ..old(self)@
            }),
    {
        self.log = Ghost(self.log@.push(Access::Store { reg: Reg::Lcr, value: lcr_bits(val) }));
        self.lcr = val;
    }

    /// Program the divisor latch pair: the low byte into `Dll`, the high
    /// byte into `Dlh`.
    pub(crate) fn write_divisor(&mut self, divisor: u16)
        ensures
            final(self)@ == (RegsView {
                dll: (divisor & 0xff) as u8,
                dlh: (divisor >> 8) as u8,
                log: old(self)@.log
                    .push(Access::Store { reg: Reg::Dll, value: (divisor & 0xff) as u8 })
                    .push(Access::Store { reg: Reg::Dlh, value: (divisor >> 8) as u8 }),
                ..old(self)@
            }),
    {
        let lo: u8 = (divisor & 0xff) as u8;
        let hi: u8 = (divisor >> 8) as u8;
        self.log = Ghost(
            self.log@
                .push(Access::Store { reg: Reg::Dll, value: lo })
                .push(Access::Store { reg: Reg::Dlh, value: hi }),
        );
        self.dll = lo;
        self.dlh = hi;
    }

    /// The divisor the latch pair holds.
    pub fn divisor(&self) -> (r: u16)
        ensures
            r == self@.dll + 256 * self@.dlh,
    {
        let lo: u8 = self.dll;
        let hi: u8 = self.dlh;
        proof {
            assert(((lo as u16) | ((hi as u16) << 8)) == lo + 256 * hi) by (bit_vector);
        }
        (lo as u16) | ((hi as u16) << 8)
    }

    /// The interrupt-enable setting the block holds.
    pub fn interrupt_types(&self) -> (r: uart16550::InterruptTypes)
        ensures
            ier_bits(r) == self@.ier,
    {
        self.ier
    }

    /// The line-control setting the block holds.
    pub fn line_control(&self) -> (r: uart16550::LineControl)
        ensures
            lcr_bits(r) == self@.lcr,
    {
        self.lcr
    }

    /// The byte the vendor status register holds, as a status snapshot.
    pub fn status(&self) -> (r: UartStatus)
        ensures
            r.0 == self@.usr,
    {
        self.usr.read()
    }

    /// The byte the line status register holds.
    pub fn line_status(&self) -> (r: u8)
        ensures
            r == self@.lsr,
    {
        self.lsr
    }

    /// The byte last stored to the transmit holding register.
    pub fn transmit_holding(&self) -> (r: u8)
        ensures
            r == self@.thr,
    {
        self.thr
    }
}

} // verus!
