//! Trusted bindings to the `uart16550` register-definition crate.
//!
//! The driver computes its interrupt-enable and line-control settings through
//! the value types of the `uart16550` crate.  Verus cannot look inside those
//! types, so this module declares them and states, against that crate's
//! source, which bits each operation moves.  The byte behind each opaque
//! value is named by `ier_bits` and `lcr_bits`; every contract below speaks
//! over those names.

use vstd::prelude::*;

verus! {

#[verifier::external_type_specification]
#[verifier::external_body]
pub struct ExInterruptTypes(uart16550::InterruptTypes);

#[verifier::external_type_specification]
#[verifier::external_body]
pub struct ExLineControl(uart16550::LineControl);

/// The byte held by an interrupt-enable setting.
pub uninterp spec fn ier_bits(v: uart16550::InterruptTypes) -> u8;

/// The byte held by a line-control setting.
pub uninterp spec fn lcr_bits(v: uart16550::LineControl) -> u8;

/// Relies on `core::hint::spin_loop`: a scheduling hint to the processor
/// with no effect on program state.
#[verifier::external_body]
pub(crate) fn spin_hint() {
    core::hint::spin_loop()
}

/// Relies on `uart16550::InterruptTypes::disable_rda`: clears bit 0, the
/// received-data-available interrupt enable.
pub assume_specification[ uart16550::InterruptTypes::disable_rda ](
    v: uart16550::InterruptTypes,
) -> (r: uart16550::InterruptTypes)
    ensures
        ier_bits(r) == (ier_bits(v) & 0xfeu8),
;

/// Relies on `uart16550::InterruptTypes::disable_thre`: clears bit 1, the
/// transmit-holding-register-empty interrupt enable.
pub assume_specification[ uart16550::InterruptTypes::disable_thre ](
    v: uart16550::InterruptTypes,
) -> (r: uart16550::InterruptTypes)
    ensures
        ier_bits(r) == (ier_bits(v) & 0xfdu8),
;

/// Relies on `uart16550::InterruptTypes::disable_rls`: clears bit 2, the
/// receiver-line-status interrupt enable.
pub assume_specification[ uart16550::InterruptTypes::disable_rls ](
    v: uart16550::InterruptTypes,
) -> (r: uart16550::InterruptTypes)
    ensures
        ier_bits(r) == (ier_bits(v) & 0xfbu8),
;

/// Relies on `uart16550::InterruptTypes::disable_ms`: clears bit 3, the
/// modem-status interrupt enable.
pub assume_specification[ uart16550::InterruptTypes::disable_ms ](
    v: uart16550::InterruptTypes,
) -> (r: uart16550::InterruptTypes)
    ensures
        ier_bits(r) == (ier_bits(v) & 0xf7u8),
;

/// Relies on `uart16550::LineControl::set_one_stop_bit`: `true` clears bit 2
/// (one stop bit), `false` sets it (more than one stop bit).
pub assume_specification[ uart16550::LineControl::set_one_stop_bit ](
    v: uart16550::LineControl,
    val: bool,
) -> (r: uart16550::LineControl)
    ensures
        lcr_bits(r) == if val {
            lcr_bits(v) & 0xfbu8
        } else {
            (lcr_bits(v) | 0x04u8)
        },
;

/// Relies on `uart16550::LineControl::set_char_len` with
/// `uart16550::CharLen::FIVE`: writes code 0b00 into bits 0..2.
#[verifier::external_body]
pub(crate) fn lcr_char_len_five(v: uart16550::LineControl) -> (r: uart16550::LineControl)
    ensures
        lcr_bits(r) == (lcr_bits(v) & 0xfcu8),
{
    v.set_char_len(uart16550::CharLen::FIVE)
}

/// Relies on `uart16550::LineControl::set_char_len` with
/// `uart16550::CharLen::SIX`: writes code 0b01 into bits 0..2.
#[verifier::external_body]
pub(crate) fn lcr_char_len_six(v: uart16550::LineControl) -> (r: uart16550::LineControl)
    ensures
        lcr_bits(r) == ((lcr_bits(v) & 0xfcu8) | 0x01u8),
{
    v.set_char_len(uart16550::CharLen::SIX)
}

/// Relies on `uart16550::LineControl::set_char_len` with
/// `uart16550::CharLen::SEVEN`: writes code 0b10 into bits 0..2.
#[verifier::external_body]
pub(crate) fn lcr_char_len_seven(v: uart16550::LineControl) -> (r: uart16550::LineControl)
    ensures
        lcr_bits(r) == ((lcr_bits(v) & 0xfcu8) | 0x02u8),
{
    v.set_char_len(uart16550::CharLen::SEVEN)
}

/// Relies on `uart16550::LineControl::set_char_len` with
/// `uart16550::CharLen::EIGHT`: writes code 0b11 into bits 0..2.
#[verifier::external_body]
pub(crate) fn lcr_char_len_eight(v: uart16550::LineControl) -> (r: uart16550::LineControl)
    ensures
        lcr_bits(r) == ((lcr_bits(v) & 0xfcu8) | 0x03u8),
{
    v.set_char_len(uart16550::CharLen::EIGHT)
}

/// Relies on `uart16550::LineControl::set_parity` with
/// `uart16550::PARITY::NONE`: writes code 0b00 into bits 3..5.
#[verifier::external_body]
pub(crate) fn lcr_parity_none(v: uart16550::LineControl) -> (r: uart16550::LineControl)
    ensures
        lcr_bits(r) == (lcr_bits(v) & 0xe7u8),
{
    v.set_parity(uart16550::PARITY::NONE)
}

/// Relies on `uart16550::LineControl::set_parity` with
/// `uart16550::PARITY::ODD`: writes code 0b11 into bits 3..5.
#[verifier::external_body]
pub(crate) fn lcr_parity_odd(v: uart16550::LineControl) -> (r: uart16550::LineControl)
    ensures
        lcr_bits(r) == ((lcr_bits(v) & 0xe7u8) | 0x18u8),
{
    v.set_parity(uart16550::PARITY::ODD)
}

/// Relies on `uart16550::LineControl::set_parity` with
/// `uart16550::PARITY::EVEN`: writes code 0b10 into bits 3..5.
#[verifier::external_body]
pub(crate) fn lcr_parity_even(v: uart16550::LineControl) -> (r: uart16550::LineControl)
    ensures
        lcr_bits(r) == ((lcr_bits(v) & 0xe7u8) | 0x10u8),
{
    v.set_parity(uart16550::PARITY::EVEN)
}

} // verus!
