use allwinner_uart::ccu::Clocks;
use allwinner_uart::ccu::RegisterBlock as CcuRegisterBlock;
use allwinner_uart::compute_divisor;
use allwinner_uart::encode_line_control;
use allwinner_uart::usr_offset;
use allwinner_uart::Config;
use allwinner_uart::Parity;
use allwinner_uart::Receive;
use allwinner_uart::RegisterBlock;
use allwinner_uart::Serial;
use allwinner_uart::StopBits;
use allwinner_uart::Transmit;
use allwinner_uart::UartStatus;
use allwinner_uart::WordLength;

struct TxPad;

struct RxPad;

impl Transmit<0> for TxPad {}

impl Receive<0> for RxPad {}

/// A register block as the platform would hand it over at bring-up: two
/// interrupt sources enabled, the reset line-control value, a given status
/// byte, line status and receive byte.
fn bring_up_block(status: u8, line_status: u8, receive_data: u8) -> RegisterBlock {
    let ier = uart16550::InterruptTypes::ZERO.enable_rda().enable_ms();
    let lcr = uart16550::LineControl::default();
    RegisterBlock::new(ier, lcr, UartStatus(status), line_status, receive_data)
}

#[test]
fn offset_uart() {
    assert_eq!(usr_offset(), 0x7c);
}

#[test]
fn status_bits_decode() {
    let s = UartStatus(0b0001_0011);
    assert!(s.receive_fifo_full());
    assert!(!s.receive_fifo_not_empty());
    assert!(!s.transmit_fifo_empty());
    assert!(s.transmit_fifo_not_full());
    assert!(s.busy());
}

#[test]
fn status_bits_each_alone() {
    assert!(UartStatus(0x10).receive_fifo_full());
    assert!(UartStatus(0x08).receive_fifo_not_empty());
    assert!(UartStatus(0x04).transmit_fifo_empty());
    assert!(UartStatus(0x02).transmit_fifo_not_full());
    assert!(UartStatus(0x01).busy());
    assert!(!UartStatus(0xef).receive_fifo_full());
    assert!(!UartStatus(0xf7).receive_fifo_not_empty());
    assert!(!UartStatus(0xfb).transmit_fifo_empty());
    assert!(!UartStatus(0xfd).transmit_fifo_not_full());
    assert!(!UartStatus(0xfe).busy());
}

#[test]
fn divisor_for_24_mhz_at_115200() {
    assert_eq!(compute_divisor(24_000_000, 115200), 13);
}

#[test]
fn divisor_rounds_to_nearest() {
    // 1_000_000 / (16 * 38400) = 1.6...: rounds up to 2
    assert_eq!(compute_divisor(1_000_000, 38400), 2);
    // 1_000_000 / (16 * 115200) = 0.54...: rounds up to 1
    assert_eq!(compute_divisor(1_000_000, 115200), 1);
    // 1_000_000 / (16 * 250000) = 0.25: rounds down to 0
    assert_eq!(compute_divisor(1_000_000, 250_000), 0);
}

#[test]
fn divisor_truncates_to_16_bits() {
    // (1_048_576 + 8) / 16 = 65536, which truncates to 0
    assert_eq!(compute_divisor(1_048_576, 1), 0);
}

#[test]
fn line_settings_total_injective_and_decodable() {
    let word_lengths = [
        WordLength::Five,
        WordLength::Six,
        WordLength::Seven,
        WordLength::Eight,
    ];
    let stop_bits = [StopBits::One, StopBits::Two];
    let parities = [Parity::NoParity, Parity::Odd, Parity::Even];
    let base = uart16550::LineControl::default();
    let mut seen: Vec<uart16550::LineControl> = Vec::new();
    for &wl in &word_lengths {
        for &sb in &stop_bits {
            for &p in &parities {
                let enc = encode_line_control(base, wl, sb, p);
                // read each component back through the register crate
                match wl {
                    WordLength::Five => assert!(matches!(enc.char_len(), uart16550::CharLen::FIVE)),
                    WordLength::Six => assert!(matches!(enc.char_len(), uart16550::CharLen::SIX)),
                    WordLength::Seven => {
                        assert!(matches!(enc.char_len(), uart16550::CharLen::SEVEN))
                    }
                    WordLength::Eight => {
                        assert!(matches!(enc.char_len(), uart16550::CharLen::EIGHT))
                    }
                }
                assert_eq!(enc.is_one_stop_bit(), matches!(sb, StopBits::One));
                match p {
                    Parity::NoParity => assert!(matches!(enc.parity(), uart16550::PARITY::NONE)),
                    Parity::Odd => assert!(matches!(enc.parity(), uart16550::PARITY::ODD)),
                    Parity::Even => assert!(matches!(enc.parity(), uart16550::PARITY::EVEN)),
                }
                // distinct from every earlier combination
                for prev in &seen {
                    assert_ne!(*prev, enc);
                }
                seen.push(enc);
            }
        }
    }
    assert_eq!(seen.len(), 24);
}

#[test]
fn default_construction_programs_115200_8n1() {
    let regs = bring_up_block(0, 0, 0);
    let clocks = Clocks { apb1: 24_000_000 };
    let mut ccu = CcuRegisterBlock::new();
    let serial: Serial<0, (TxPad, RxPad)> =
        Serial::new(regs, (TxPad, RxPad), Config::default(), &clocks, &mut ccu);
    assert!(ccu.gate_enabled(0));
    let r = serial.registers();
    assert_eq!(r.divisor(), 13);
    let it = r.interrupt_types();
    assert!(!it.rda_enabled());
    assert!(!it.thre_enabled());
    assert!(!it.rls_enabled());
    assert!(!it.ms_enabled());
    let lcr = r.line_control();
    assert!(matches!(lcr.char_len(), uart16550::CharLen::EIGHT));
    assert!(lcr.is_one_stop_bit());
    assert!(matches!(lcr.parity(), uart16550::PARITY::NONE));
}

#[test]
fn write_flush_and_free() {
    // transmit FIFO empty, peripheral idle
    let regs = bring_up_block(0b0000_0110, 0, 0);
    let clocks = Clocks { apb1: 24_000_000 };
    let mut ccu = CcuRegisterBlock::new();
    let mut serial: Serial<0, (TxPad, RxPad)> =
        Serial::new(regs, (TxPad, RxPad), Config::default(), &clocks, &mut ccu);
    let n = serial.write(&[0x61, 0x62, 0x63]);
    assert_eq!(n, 3);
    assert_eq!(serial.registers().transmit_holding(), 0x63);
    serial.flush();
    assert!(ccu.gate_enabled(0));
    let (regs, _pads) = serial.free(&mut ccu);
    assert!(!ccu.gate_enabled(0));
    assert_eq!(regs.transmit_holding(), 0x63);
}

#[test]
fn read_fills_whole_buffer() {
    // data ready on the line, 0x5a waiting in the receive buffer
    let regs = bring_up_block(0, 0x01, 0x5a);
    let clocks = Clocks { apb1: 24_000_000 };
    let mut ccu = CcuRegisterBlock::new();
    let mut serial: Serial<0, (TxPad, RxPad)> =
        Serial::new(regs, (TxPad, RxPad), Config::default(), &clocks, &mut ccu);
    let mut buf = vec![0u8; 3];
    let n = serial.read(&mut buf);
    assert_eq!(n, 3);
    assert_eq!(buf, vec![0x5a, 0x5a, 0x5a]);
}

#[test]
fn split_halves_write_and_read_like_the_whole() {
    let regs = bring_up_block(0b0000_0110, 0x01, 0x77);
    let clocks = Clocks { apb1: 24_000_000 };
    let mut ccu = CcuRegisterBlock::new();
    let serial: Serial<0, (TxPad, RxPad)> =
        Serial::new(regs, (TxPad, RxPad), Config::default(), &clocks, &mut ccu);
    let (mut tx, mut rx) = serial.split();
    let n = tx.write(&[0x10, 0x20]);
    assert_eq!(n, 2);
    assert_eq!(tx.registers().transmit_holding(), 0x20);
    tx.flush();
    let mut buf = vec![0u8; 2];
    let n = rx.read(&mut buf);
    assert_eq!(n, 2);
    assert_eq!(buf, vec![0x77, 0x77]);
    // writing through the transmit half left the receive path untouched
    assert_eq!(rx.registers().line_status(), 0x01);
}

#[test]
fn pads_gives_the_pads_back() {
    let regs = bring_up_block(0, 0, 0);
    let clocks = Clocks { apb1: 24_000_000 };
    let mut ccu = CcuRegisterBlock::new();
    let mut serial: Serial<0, (TxPad, RxPad)> =
        Serial::new(regs, (TxPad, RxPad), Config::default(), &clocks, &mut ccu);
    let pads = serial.pads();
    let _tx: &mut TxPad = &mut pads.0;
    let _rx: &mut RxPad = &mut pads.1;
}

#[test]
fn construction_keeps_other_clock_gates() {
    let mut ccu = CcuRegisterBlock::new();
    let clocks = Clocks { apb1: 24_000_000 };
    let regs = bring_up_block(0, 0, 0);
    let serial: Serial<0, (TxPad, RxPad)> =
        Serial::new(regs, (TxPad, RxPad), Config::default(), &clocks, &mut ccu);
    assert!(ccu.gate_enabled(0));
    assert!(!ccu.gate_enabled(1));
    assert!(!ccu.gate_enabled(5));
    let _ = serial.free(&mut ccu);
    assert!(!ccu.gate_enabled(0));
}

#[test]
fn custom_config_programs_its_settings() {
    let regs = bring_up_block(0, 0, 0);
    let clocks = Clocks { apb1: 24_000_000 };
    let mut ccu = CcuRegisterBlock::new();
    let config = Config {
        baudrate: 9600,
        wordlength: WordLength::Seven,
        parity: Parity::Even,
        stopbits: StopBits::Two,
    };
    let serial: Serial<0, (TxPad, RxPad)> =
        Serial::new(regs, (TxPad, RxPad), config, &clocks, &mut ccu);
    let r = serial.registers();
    // (24_000_000 + 8 * 9600) / (16 * 9600) = 156 (24076800 / 153600 = 156.75 -> 156)
    assert_eq!(r.divisor(), 156);
    let lcr = r.line_control();
    assert!(matches!(lcr.char_len(), uart16550::CharLen::SEVEN));
    assert!(!lcr.is_one_stop_bit());
    assert!(matches!(lcr.parity(), uart16550::PARITY::EVEN));
}
