//! The managed serial handle: lifecycle, capability pairing, and the
//! blocking transmit/receive engine.

use vstd::prelude::*;

use crate::ccu;
use crate::ccu::{ClockGate, Clocks};
use crate::config::{spec_divisor, spec_encoded_lcr, Config};
use crate::config::{compute_divisor, encode_line_control};
use crate::hw::{ier_bits, spin_hint};
use crate::registers::{Access, Reg, RegisterBlock, RegsView};
use crate::status::{spec_busy, spec_transmit_fifo_empty};

verus! {

/// Valid serial pads: a pad assignment for UART instance `I` that also
/// names the clock gate this pairing manages.
pub trait Pads<const I: usize> {
    /// The clock gate tied to this pad pairing.
    type Clock: ClockGate;
}

/// Valid transmit pin for UART peripheral `I`.
pub trait Transmit<const I: usize> {

}

/// Valid receive pin for UART peripheral `I`.
pub trait Receive<const I: usize> {

}

/// A transmit pad and a receive pad of the same instance compose into a
/// valid pairing, and that pairing names the instance's own clock gate.
impl<const I: usize, T, R> Pads<I> for (T, R) where T: Transmit<I>, R: Receive<I> {
    type Clock = ccu::UART<I>;
}

/// True when line-status bit 0 is set: a received byte waits in the
/// receive buffer.
pub open spec fn spec_data_ready(bits: u8) -> bool {
    bits & 0x01 != 0
}

/// The access trace one blocking transmit of `bytes` leaves behind: for
/// each byte, one status-register load that found the peripheral idle,
/// then one store of that byte to the transmit holding register.
pub open spec fn write_trace(bytes: Seq<u8>) -> Seq<Access>
    decreases bytes.len(),
{
    if bytes.len() == 0 {
        Seq::empty()
    } else {
        write_trace(bytes.drop_last()) + seq![
            Access::Load { reg: Reg::Usr },
            Access::Store { reg: Reg::RbrThr, value: bytes.last() },
        ]
    }
}

/// The access trace one blocking receive of `n` bytes leaves behind: for
/// each byte, one line-status load that found data ready, then one load of
/// the receive buffer.
pub open spec fn read_trace(n: nat) -> Seq<Access>
    decreases n,
{
    if n == 0 {
        Seq::empty()
    } else {
        read_trace((n - 1) as nat) + seq![
            Access::Load { reg: Reg::Lsr },
            Access::Load { reg: Reg::RbrThr },
        ]
    }
}

/// The register state a blocking transmit of `bytes` leaves behind.
pub open spec fn spec_write_regs(v: RegsView, bytes: Seq<u8>) -> RegsView {
    RegsView {
        thr: if bytes.len() == 0 {
            v.thr
        } else {
            bytes.last()
        },
        log: v.log + write_trace(bytes),
        ..v
    }
}

/// The register state a blocking receive of `n` bytes leaves behind.
pub open spec fn spec_read_regs(v: RegsView, n: nat) -> RegsView {
    RegsView { log: v.log + read_trace(n), ..v }
}

/// The bytes a blocking receive of `n` bytes returns: the receive buffer's
/// byte, `n` times over.
pub open spec fn spec_read_data(v: RegsView, n: nat) -> Seq<u8> {
    Seq::new(n, |i: int| v.rbr)
}

/// Two register states that hold the same bytes, their logs aside.
pub open spec fn same_regs(a: RegsView, b: RegsView) -> bool {
    a == (RegsView { log: a.log, ..b })
}

/// Blocking transmit: for each byte, spin until the peripheral reports
/// idle, then push the byte into the transmit holding register.  Returns
/// the number of bytes written, always the full buffer.
///
/// The transmit path deliberately polls the busy flag — waiting for the
/// peripheral to be entirely idle — rather than the transmit-FIFO-not-full
/// flag; this under-uses the FIFO but keeps the conservative timing of the
/// hardware bring-up sequence.
fn uart_write_blocking(uart: &mut RegisterBlock, buffer: &[u8]) -> (r: usize)
    requires
        buffer@.len() > 0 ==> !spec_busy(old(uart)@.usr),
    ensures
        r == buffer@.len(),
        final(uart)@ == spec_write_regs(old(uart)@, buffer@),
{
    let ghost v0 = uart@;
    let mut i: usize = 0;
    while i < buffer.len()
        invariant
            i <= buffer@.len(),
            buffer@.len() > 0 ==> !spec_busy(v0.usr),
            uart@ == spec_write_regs(v0, buffer@.take(i as int)),
        decreases buffer@.len() - i,
    {
        let ghost entry = uart@;
        loop
            invariant_except_break
                uart@.log == entry.log,
            invariant
                same_regs(uart@, entry),
                !spec_busy(entry.usr),
            ensures
                same_regs(uart@, entry),
                uart@.log == entry.log.push(Access::Load { reg: Reg::Usr }),
            decreases 0int,
        {
            let status = uart.read_usr();
            if !status.busy() {
                break ;
            }
            spin_hint();
        }
        uart.write_thr(buffer[i]);
        proof {
            assert(buffer@.take(i + 1).drop_last() =~= buffer@.take(i as int));
            assert(buffer@.take(i + 1).last() == buffer@[i as int]);
            assert(uart@.log =~= v0.log + write_trace(buffer@.take(i + 1)));
            assert(uart@ =~= spec_write_regs(v0, buffer@.take(i + 1)));
        }
        i = i + 1;
    }
    proof {
        assert(buffer@.take(buffer@.len() as int) =~= buffer@);
    }
    buffer.len()
}

/// Blocking flush: spin until the transmit FIFO reports empty.
fn uart_flush_blocking(uart: &mut RegisterBlock)
    requires
        spec_transmit_fifo_empty(old(uart)@.usr),
    ensures
        final(uart)@ == (RegsView {
            log: old(uart)@.log.push(Access::Load { reg: Reg::Usr }),
            ..old(uart)@
        }),
{
    let ghost entry = uart@;
    loop
        invariant_except_break
            uart@.log == entry.log,
        invariant
            same_regs(uart@, entry),
            spec_transmit_fifo_empty(entry.usr),
        ensures
            same_regs(uart@, entry),
            uart@.log == entry.log.push(Access::Load { reg: Reg::Usr }),
        decreases 0int,
    {
        let status = uart.read_usr();
        if status.transmit_fifo_empty() {
            break ;
        }
        spin_hint();
    }
}

/// Blocking receive: for each slot of `buffer`, spin until the line status
/// reports data ready, then pop a byte from the receive buffer register.
/// Returns the number of bytes read, always the full buffer.
fn uart_read_blocking(uart: &mut RegisterBlock, buffer: &mut Vec<u8>) -> (r: usize)
    requires
        old(buffer)@.len() > 0 ==> spec_data_ready(old(uart)@.lsr),
    ensures
        r == old(buffer)@.len(),
        final(uart)@ == spec_read_regs(old(uart)@, old(buffer)@.len()),
        final(buffer)@ == spec_read_data(old(uart)@, old(buffer)@.len()),
{
    let ghost v0 = uart@;
    let len = buffer.len();
    let mut i: usize = 0;
    while i < len
        invariant
            i <= len,
            len == old(buffer)@.len(),
            buffer@.len() == len,
            len > 0 ==> spec_data_ready(v0.lsr),
            uart@ == spec_read_regs(v0, i as nat),
            forall|j: int| 0 <= j < i ==> buffer@[j] == v0.rbr,
            forall|j: int| i <= j < len ==> buffer@[j] == old(buffer)@[j],
        decreases len - i,
    {
        let ghost entry = uart@;
        loop
            invariant_except_break
                uart@.log == entry.log,
            invariant
                same_regs(uart@, entry),
                spec_data_ready(entry.lsr),
            ensures
                same_regs(uart@, entry),
                uart@.log == entry.log.push(Access::Load { reg: Reg::Lsr }),
            decreases 0int,
        {
            let line_status = uart.read_lsr();
            if line_status & 0x01 != 0 {
                break ;
            }
            spin_hint();
        }
        let byte = uart.read_rbr();
        buffer.set(i, byte);
        proof {
            assert(uart@.log =~= v0.log + read_trace((i + 1) as nat));
            assert(uart@ =~= spec_read_regs(v0, (i + 1) as nat));
        }
        i = i + 1;
    }
    proof {
        assert(buffer@ =~= spec_read_data(v0, len as nat));
    }
    len
}

/// The access trace construction leaves behind: capture and rewrite the
/// interrupt-enable register, store the two divisor-latch bytes, then
/// read-modify-write the line control register.
pub open spec fn construction_trace(v: RegsView, config: Config, apb1: u32) -> Seq<Access> {
    seq![
        Access::Load { reg: Reg::Ier },
        Access::Store { reg: Reg::Ier, value: v.ier & 0xf0 },
        Access::Store {
            reg: Reg::Dll,
            value: (spec_divisor(apb1, config.baudrate) & 0xff) as u8,
        },
        Access::Store {
            reg: Reg::Dlh,
            value: (spec_divisor(apb1, config.baudrate) >> 8) as u8,
        },
        Access::Load { reg: Reg::Lcr },
        Access::Store {
            reg: Reg::Lcr,
            value: spec_encoded_lcr(v.lcr, config.wordlength, config.stopbits, config.parity),
        },
    ]
}

/// The register state construction leaves behind: all four interrupt
/// sources masked off, the divisor latched for the configured baud rate,
/// and the line settings encoded into the line control register.
pub open spec fn spec_configured(v: RegsView, config: Config, apb1: u32) -> RegsView {
    RegsView {
        ier: v.ier & 0xf0,
        dll: (spec_divisor(apb1, config.baudrate) & 0xff) as u8,
        dlh: (spec_divisor(apb1, config.baudrate) >> 8) as u8,
        lcr: spec_encoded_lcr(v.lcr, config.wordlength, config.stopbits, config.parity),
        log: v.log + construction_trace(v, config, apb1),
        ..v
    }
}

/// Managed serial structure with peripheral and pads.
pub struct Serial<const I: usize, PADS: Pads<I>> {
    uart: RegisterBlock,
    pads: PADS,
}

/// Transmit half from a split serial structure.
pub struct TransmitHalf<const I: usize, PADS: Transmit<I>> {
    uart: RegisterBlock,
    _pads: PADS,
}

/// Receive half from a split serial structure.
pub struct ReceiveHalf<const I: usize, PADS: Receive<I>> {
    uart: RegisterBlock,
    _pads: PADS,
}

impl<const I: usize, PADS: Pads<I>> Serial<I, PADS> {
    /// The modeled register block the handle drives.
    pub closed spec fn spec_uart(&self) -> RegsView {
        self.uart@
    }

    /// The pads the handle owns.
    pub closed spec fn spec_pads(&self) -> PADS {
        self.pads
    }

    /// Create a serial instance: open the pad pairing's clock gate, mask
    /// all four interrupt sources (the driver only polls), program the
    /// divisor for the configured baud rate against the bus clock, and
    /// write the line settings.
    pub fn new(
        uart: RegisterBlock,
        pads: PADS,
        config: Config,
        clocks: &Clocks,
        ccu: &mut ccu::RegisterBlock,
    ) -> (r: Serial<I, PADS>)
        requires
            config.wf(),
            clocks.apb1 + 8 * config.baudrate <= u32::MAX,
        ensures
            r.spec_uart() == spec_configured(uart@, config, clocks.apb1),
            r.spec_pads() == pads,
            final(ccu).spec_gate_on(<PADS::Clock as ClockGate>::spec_gate()),
            forall|j: int|
                j != <PADS::Clock as ClockGate>::spec_gate() ==> final(ccu).spec_gate_on(j)
                    == old(ccu).spec_gate_on(j),
    {
        let ghost v0 = uart@;
        let mut uart = uart;
        // init the peripheral clock before touching any register
        PADS::Clock::reset(ccu);
        // mask every interrupt source: this driver is polling-only
        let interrupt_types = uart.read_ier();
        let masked = interrupt_types.disable_ms().disable_rda().disable_rls().disable_thre();
        proof {
            let b = ier_bits(interrupt_types);
            assert(((((b & 0xf7) & 0xfe) & 0xfb) & 0xfd) == (b & 0xf0)) by (bit_vector);
        }
        uart.write_ier(masked);
        // calculate and set the baud rate divisor
        let divisor = compute_divisor(clocks.apb1, config.baudrate);
        uart.write_divisor(divisor);
        // read-modify-write the line control settings
        let lcr = uart.read_lcr();
        let encoded = encode_line_control(lcr, config.wordlength, config.stopbits, config.parity);
        uart.write_lcr(encoded);
        proof {
            assert(uart@.log =~= v0.log + construction_trace(v0, config, clocks.apb1));
            assert(uart@ =~= spec_configured(v0, config, clocks.apb1));
        }
        Serial { uart, pads }
    }

    /// Get a temporary borrow on the underlying GPIO pads.
    pub fn pads(&mut self) -> (r: &mut PADS)
        ensures
            *r == old(self).spec_pads(),
            final(self).spec_pads() == *final(r),
            final(self).spec_uart() == old(self).spec_uart(),
    {
        &mut self.pads
    }

    /// Close the UART and release the peripheral: disable the pad
    /// pairing's clock gate and hand the register block and pads back.
    pub fn free(self, ccu: &mut ccu::RegisterBlock) -> (r: (RegisterBlock, PADS))
        ensures
            r.0@ == self.spec_uart(),
            r.1 == self.spec_pads(),
            !final(ccu).spec_gate_on(<PADS::Clock as ClockGate>::spec_gate()),
            forall|j: int|
                j != <PADS::Clock as ClockGate>::spec_gate() ==> final(ccu).spec_gate_on(j)
                    == old(ccu).spec_gate_on(j),
    {
        PADS::Clock::free(ccu);
        (self.uart, self.pads)
    }

    /// Blocking transmit of the whole buffer; returns the count written,
    /// always the buffer's length.
    pub fn write(&mut self, buffer: &[u8]) -> (r: usize)
        requires
            buffer@.len() > 0 ==> !spec_busy(old(self).spec_uart().usr),
        ensures
            r == buffer@.len(),
            final(self).spec_uart() == spec_write_regs(old(self).spec_uart(), buffer@),
            final(self).spec_pads() == old(self).spec_pads(),
    {
        uart_write_blocking(&mut self.uart, buffer)
    }

    /// Blocking flush: returns once the transmit FIFO reports empty.
    pub fn flush(&mut self)
        requires
            spec_transmit_fifo_empty(old(self).spec_uart().usr),
        ensures
            final(self).spec_uart() == (RegsView {
                log: old(self).spec_uart().log.push(Access::Load { reg: Reg::Usr }),
                ..old(self).spec_uart()
            }),
            final(self).spec_pads() == old(self).spec_pads(),
    {
        uart_flush_blocking(&mut self.uart)
    }

    /// Blocking receive into the whole buffer; returns the count read,
    /// always the buffer's length.
    pub fn read(&mut self, buffer: &mut Vec<u8>) -> (r: usize)
        requires
            old(buffer)@.len() > 0 ==> spec_data_ready(old(self).spec_uart().lsr),
        ensures
            r == old(buffer)@.len(),
            final(self).spec_uart() == spec_read_regs(old(self).spec_uart(), old(buffer)@.len()),
            final(buffer)@ == spec_read_data(old(self).spec_uart(), old(buffer)@.len()),
            final(self).spec_pads() == old(self).spec_pads(),
    {
        uart_read_blocking(&mut self.uart, buffer)
    }

    /// An immutable borrow of the register block, for inspection.
    pub fn registers(&self) -> (r: &RegisterBlock)
        ensures
            r@ == self.spec_uart(),
    {
        &self.uart
    }
}

impl<const I: usize, TX: Transmit<I>, RX: Receive<I>> Serial<I, (TX, RX)> {
    /// Split the serial instance into transmit and receive halves.  Each
    /// half carries the shared register block — the transmit path touches
    /// only the holding and status registers, the receive path only the
    /// receive buffer and line status — together with its own pad.
    pub fn split(self) -> (r: (TransmitHalf<I, TX>, ReceiveHalf<I, RX>))
        ensures
            r.0.spec_uart() == self.spec_uart(),
            r.1.spec_uart() == self.spec_uart(),
            r.0.spec_pads() == self.spec_pads().0,
            r.1.spec_pads() == self.spec_pads().1,
    {
        let Serial { uart, pads } = self;
        let (tx_pads, rx_pads) = pads;
        (TransmitHalf { uart, _pads: tx_pads }, ReceiveHalf { uart, _pads: rx_pads })
    }
}

impl<const I: usize, PADS: Transmit<I>> TransmitHalf<I, PADS> {
    /// The modeled register block the half drives.
    pub closed spec fn spec_uart(&self) -> RegsView {
        self.uart@
    }

    /// The transmit pad the half owns.
    pub closed spec fn spec_pads(&self) -> PADS {
        self._pads
    }

    /// Blocking transmit of the whole buffer; returns the count written,
    /// always the buffer's length.
    pub fn write(&mut self, buffer: &[u8]) -> (r: usize)
        requires
            buffer@.len() > 0 ==> !spec_busy(old(self).spec_uart().usr),
        ensures
            r == buffer@.len(),
            final(self).spec_uart() == spec_write_regs(old(self).spec_uart(), buffer@),
            final(self).spec_pads() == old(self).spec_pads(),
    {
        uart_write_blocking(&mut self.uart, buffer)
    }

    /// Blocking flush: returns once the transmit FIFO reports empty.
    pub fn flush(&mut self)
        requires
            spec_transmit_fifo_empty(old(self).spec_uart().usr),
        ensures
            final(self).spec_uart() == (RegsView {
                log: old(self).spec_uart().log.push(Access::Load { reg: Reg::Usr }),
                ..old(self).spec_uart()
            }),
            final(self).spec_pads() == old(self).spec_pads(),
    {
        uart_flush_blocking(&mut self.uart)
    }

    /// An immutable borrow of the register block, for inspection.
    pub fn registers(&self) -> (r: &RegisterBlock)
        ensures
            r@ == self.spec_uart(),
    {
        &self.uart
    }
}

impl<const I: usize, PADS: Receive<I>> ReceiveHalf<I, PADS> {
    /// The modeled register block the half drives.
    pub closed spec fn spec_uart(&self) -> RegsView {
        self.uart@
    }

    /// The receive pad the half owns.
    pub closed spec fn spec_pads(&self) -> PADS {
        self._pads
    }

    /// Blocking receive into the whole buffer; returns the count read,
    /// always the buffer's length.
    pub fn read(&mut self, buffer: &mut Vec<u8>) -> (r: usize)
        requires
            old(buffer)@.len() > 0 ==> spec_data_ready(old(self).spec_uart().lsr),
        ensures
            r == old(buffer)@.len(),
            final(self).spec_uart() == spec_read_regs(old(self).spec_uart(), old(buffer)@.len()),
            final(buffer)@ == spec_read_data(old(self).spec_uart(), old(buffer)@.len()),
            final(self).spec_pads() == old(self).spec_pads(),
    {
        uart_read_blocking(&mut self.uart, buffer)
    }

    /// An immutable borrow of the register block, for inspection.
    pub fn registers(&self) -> (r: &RegisterBlock)
        ensures
            r@ == self.spec_uart(),
    {
        &self.uart
    }
}

/// The transmit trace visits, for each byte in turn, one status-register
/// load at the even index and one transmit-holding store of that byte at
/// the odd index: exactly one store per byte, each preceded by a status
/// read.
pub proof fn lemma_write_trace_shape(bytes: Seq<u8>)
    ensures
        write_trace(bytes).len() == 2 * bytes.len(),
        forall|k: int|
            0 <= k < write_trace(bytes).len() ==> write_trace(bytes)[k] == (if k % 2 == 0 {
                Access::Load { reg: Reg::Usr }
            } else {
                (Access::Store { reg: Reg::RbrThr, value: bytes[k / 2] })
            }),
    decreases bytes.len(),
{
    if bytes.len() > 0 {
        lemma_write_trace_shape(bytes.drop_last());
        let t = write_trace(bytes);
        let tp = write_trace(bytes.drop_last());
        assert forall|k: int|
            0 <= k < t.len() implies t[k] == (if k % 2 == 0 {
            Access::Load { reg: Reg::Usr }
        } else {
            (Access::Store { reg: Reg::RbrThr, value: bytes[k / 2] })
        }) by {
            if k < tp.len() {
                assert(t[k] == tp[k]);
            }
        }
    }
}

/// The receive trace visits, for each byte in turn, one line-status load
/// at the even index and one receive-buffer load at the odd index: exactly
/// one receive-register load per byte, each preceded by a line-status
/// read.
pub proof fn lemma_read_trace_shape(n: nat)
    ensures
        read_trace(n).len() == 2 * n,
        forall|k: int|
            0 <= k < read_trace(n).len() ==> read_trace(n)[k] == (if k % 2 == 0 {
                Access::Load { reg: Reg::Lsr }
            } else {
                (Access::Load { reg: Reg::RbrThr })
            }),
    decreases n,
{
    if n > 0 {
        lemma_read_trace_shape((n - 1) as nat);
        let t = read_trace(n);
        let tp = read_trace((n - 1) as nat);
        assert forall|k: int|
            0 <= k < t.len() implies t[k] == (if k % 2 == 0 {
            Access::Load { reg: Reg::Lsr }
        } else {
            (Access::Load { reg: Reg::RbrThr })
        }) by {
            if k < tp.len() {
                assert(t[k] == tp[k]);
            }
        }
    }
}

/// After a split, the halves behave as the unsplit handle: both drive
/// register states through the same transmit and receive specifications,
/// a transmit changes nothing a receive observes (the receive buffer and
/// line status), and a receive changes nothing a transmit writes or polls
/// (the holding register and status).
pub proof fn lemma_split_no_cross_interference(v: RegsView, bytes: Seq<u8>, n: nat)
    ensures
        spec_read_data(spec_write_regs(v, bytes), n) == spec_read_data(v, n),
        spec_read_regs(spec_write_regs(v, bytes), n).rbr == v.rbr,
        spec_read_regs(spec_write_regs(v, bytes), n).lsr == v.lsr,
        spec_write_regs(spec_read_regs(v, n), bytes).thr == spec_write_regs(v, bytes).thr,
        spec_write_regs(spec_read_regs(v, n), bytes).usr == v.usr,
{
    assert(spec_read_data(spec_write_regs(v, bytes), n) =~= spec_read_data(v, n));
}

} // verus!

