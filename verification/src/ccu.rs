//! Clock-gate model for the clock control unit.
//!
//! The broader clock tree is an external collaborator: the driver consumes
//! it only as "reset and enable this gate", "disable this gate" and "read
//! the configured frequency of the domain feeding the peripheral".  The
//! model keeps one enable flag per gate.

use vstd::prelude::*;

verus! {

/// The configured frequencies of the clock domains feeding the peripherals.
#[derive(Clone, Copy, Debug, PartialEq, Eq, Structural)]
pub struct Clocks {
    /// Frequency of the APB1 bus clock in Hz, the domain feeding the UARTs.
    pub apb1: u32,
}

/// Clock control unit registers, reduced to what the driver manages: the
/// enable flag of each peripheral clock gate, indexed by gate number.
pub struct RegisterBlock {
    gates: Vec<bool>,
}

impl RegisterBlock {
    /// Whether gate `i` is open.  Gates the unit has never touched are
    /// closed.
    pub closed spec fn spec_gate_on(&self, i: int) -> bool {
        0 <= i < self.gates@.len() && self.gates@[i]
    }

    /// A unit with every gate closed.
    pub fn new() -> (r: RegisterBlock)
        ensures
            forall|i: int| !r.spec_gate_on(i),
    {
        RegisterBlock { gates: Vec::new() }
    }

    /// Whether gate `i` is open.
    pub fn gate_enabled(&self, i: usize) -> (r: bool)
        ensures
            r == self.spec_gate_on(i as int),
    {
        i < self.gates.len() && self.gates[i]
    }

    /// Open or close gate `i`, leaving every other gate as it was.
    pub(crate) fn set_gate(&mut self, i: usize, on: bool)
        ensures
            final(self).spec_gate_on(i as int) == on,
            forall|j: int|
                j != i as int ==> final(self).spec_gate_on(j) == old(self).spec_gate_on(j),
    {
        let ghost orig = self.gates@;
        while self.gates.len() <= i
            invariant
                orig.len() <= self.gates@.len(),
                self.gates@.len() <= orig.len() || self.gates@.len() <= i + 1,
                forall|j: int| 0 <= j < orig.len() ==> self.gates@[j] == orig[j],
                forall|j: int| orig.len() <= j < self.gates@.len() ==> !self.gates@[j],
            decreases i + 1 - self.gates.len(),
        {
            self.gates.push(false);
        }
        self.gates.set(i, on);
    }
}

/// A peripheral clock gate in the clock control unit.
pub trait ClockGate {
    /// Index of this clock gate in the clock control unit.
    spec fn spec_gate() -> int;

    /// Enable and reset this clock gate, synchronously: it is open when
    /// the call returns, and no other one moves.
    fn reset(ccu: &mut RegisterBlock)
        ensures
            final(ccu).spec_gate_on(Self::spec_gate()),
            forall|j: int|
                j != Self::spec_gate() ==> final(ccu).spec_gate_on(j) == old(
                    ccu,
                ).spec_gate_on(j),
    ;

    /// Disable this clock gate, leaving every other one as it was.
    fn free(ccu: &mut RegisterBlock)
        ensures
            !final(ccu).spec_gate_on(Self::spec_gate()),
            forall|j: int|
                j != Self::spec_gate() ==> final(ccu).spec_gate_on(j) == old(
                    ccu,
                ).spec_gate_on(j),
    ;
}

/// The clock gate feeding UART instance `I`.
pub struct UART<const I: usize>;

impl<const I: usize> ClockGate for UART<I> {
    open spec fn spec_gate() -> int {
        I as int
    }

    fn reset(ccu: &mut RegisterBlock) {
        ccu.set_gate(I, true);
    }

    fn free(ccu: &mut RegisterBlock) {
        ccu.set_gate(I, false);
    }
}

} // verus!
