//! Blocking driver for a memory-mapped, 16550-compatible UART peripheral.
//!
//! The driver models the peripheral's register block as a typed value that
//! records every load and store, so that the configuration sequence, the
//! status decoding and the busy-wait transmit/receive engine are all checked
//! against the hardware's register-level protocol.  Pad capability types tie
//! each transmit/receive pin pair to one UART instance and to the clock gate
//! that must be opened on construction and closed on release.
//!
//! The model is quiescent — no register changes except by a store — so the
//! blocking operations ask, as a precondition, that the status bit they
//! would spin on is already favourable; on live hardware the same poll
//! loops wait for the peripheral instead.

pub mod ccu;

pub mod config;
pub mod hw;
pub mod registers;
pub mod serial;
pub mod status;

pub use serial::construction_trace;
pub use serial::lemma_read_trace_shape;
pub use serial::lemma_split_no_cross_interference;
pub use serial::lemma_write_trace_shape;
pub use serial::read_trace;
pub use serial::same_regs;
pub use serial::spec_configured;
pub use serial::spec_data_ready;
pub use serial::spec_read_data;
pub use serial::spec_read_regs;
pub use serial::spec_write_regs;
pub use serial::write_trace;
pub use serial::Pads;
pub use serial::Receive;
pub use serial::ReceiveHalf;
pub use serial::Serial;
pub use serial::Transmit;
pub use serial::TransmitHalf;

pub use config::compute_divisor;
pub use config::encode_line_control;
pub use config::lemma_line_field_injective;
pub use config::lemma_line_field_round_trip;
pub use config::Config;
pub use config::Parity;
pub use config::StopBits;
pub use config::WordLength;
pub use registers::Access;
pub use registers::Reg;
pub use registers::RegisterBlock;
pub use registers::RegsView;
pub use registers::USR;
pub use registers::usr_offset;
pub use registers::word_index;
pub use status::UartStatus;
