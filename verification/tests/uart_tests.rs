//! Tests of the serial transport driver and the console adapter.

use telemetry_node::console::LpuartConsole;
use telemetry_node::lpuart::Config;
use telemetry_node::lpuart::DataBits;
use telemetry_node::lpuart::IoError;
use telemetry_node::lpuart::Lpuart;
use telemetry_node::lpuart::Parity;
use telemetry_node::lpuart::RxFrame;
use telemetry_node::lpuart::StopBits;
use telemetry_node::lpuart::UartError;
use telemetry_node::lpuart::UartRegisters;
use telemetry_node::lpuart::find_decent_div;

fn clean(byte: u8) -> RxFrame {
    RxFrame { byte, parity_error: false, framing_error: false }
}

fn console_at(tx_slots: usize) -> LpuartConsole {
    let mut console = LpuartConsole::init(UartRegisters::new());
    console.lpuart.regs.tx_slots = tx_slots;
    console
}

#[test]
fn divisor_search_operational_pair() {
    // 8 MHz source at 115200 baud: rounded ratio 69 = 23 * 3.
    assert_eq!(find_decent_div(8_000_000, 115_200), Ok((23, 3)));
}

#[test]
fn divisor_search_is_deterministic() {
    let first = find_decent_div(8_000_000, 115_200);
    let second = find_decent_div(8_000_000, 115_200);
    assert_eq!(first, second);
    assert_eq!(first, Ok((23, 3)));
}

#[test]
fn divisor_search_bounds_hold() {
    for (source, baud) in [
        (8_000_000u32, 115_200u32),
        (8_000_000, 9_600),
        (48_000_000, 115_200),
        (36_700, 1_000),
        (80_000_000, 921_600),
    ] {
        if let Ok((oversampling, divisor)) = find_decent_div(source, baud) {
            assert!((4..=32).contains(&(oversampling as u32)));
            assert!((1..=8191).contains(&(divisor as u32)));
            let product = oversampling as u32 * divisor as u32;
            let rounded = (source + baud / 2) / baud;
            let alternative = if rounded == source / baud { rounded + 1 } else { rounded - 1 };
            assert!(product == rounded || product == alternative);
        } else {
            panic!("expected a solution for {source}/{baud}");
        }
    }
}

#[test]
fn divisor_search_uses_alternative_ratio() {
    // Rounded ratio 37 is prime and too large for any oversampling value;
    // the alternative ratio 36 factors as 18 * 2.
    assert_eq!(find_decent_div(36_700, 1_000), Ok((18, 2)));
}

#[test]
fn divisor_search_unsatisfiable() {
    // Ratios 1 and 2 have no factor in the oversampling range.
    assert_eq!(find_decent_div(100, 100), Err(UartError::UnsatisfiableBaud));
}

#[test]
fn config_default_matches_reset_values() {
    let c = Config::default();
    assert_eq!(c.baudrate, 9600);
    assert_eq!(c.data_bits, DataBits::B8);
    assert_eq!(c.parity, Parity::N);
    assert_eq!(c.stop_bits, StopBits::B1);
}

#[test]
fn init_programs_registers() {
    let config =
        Config { baudrate: 115_200, data_bits: DataBits::B8, parity: Parity::N, stop_bits: StopBits::B1 };
    let uart = Lpuart::init(UartRegisters::new(), config, 8_000_000).unwrap();
    assert!(uart.regs.tx_enabled && uart.regs.rx_enabled);
    assert!(uart.regs.tx_fifo_enabled && uart.regs.rx_fifo_enabled);
    assert_eq!(uart.regs.osr, 22); // oversampling 23, hardware-encoded minus one
    assert_eq!(uart.regs.sbr, 3);
    assert!(!uart.regs.both_edge_sampling); // oversampling 23 >= 8
    assert!(!uart.regs.ten_bit_mode && !uart.regs.seven_bit_mode && !uart.regs.nine_bit_mode);
    assert!(!uart.regs.parity_enabled && !uart.regs.parity_odd);
    assert!(!uart.regs.two_stop_bits);
    assert_eq!(uart.config, config);
}

#[test]
fn init_programs_frame_shape() {
    let config =
        Config { baudrate: 115_200, data_bits: DataBits::B7, parity: Parity::O, stop_bits: StopBits::B2 };
    let uart = Lpuart::init(UartRegisters::new(), config, 8_000_000).unwrap();
    assert!(uart.regs.seven_bit_mode);
    assert!(!uart.regs.nine_bit_mode && !uart.regs.ten_bit_mode);
    assert!(uart.regs.parity_enabled && uart.regs.parity_odd);
    assert!(uart.regs.two_stop_bits);
}

#[test]
fn init_enables_double_edge_sampling_at_low_oversampling() {
    // Ratio 5 factors only as 5 * 1: oversampling below 8 needs double-edge
    // sampling for correct bit recovery.
    assert_eq!(find_decent_div(5, 1), Ok((5, 1)));
    let config =
        Config { baudrate: 1, data_bits: DataBits::B8, parity: Parity::N, stop_bits: StopBits::B1 };
    let uart = Lpuart::init(UartRegisters::new(), config, 5).unwrap();
    assert!(uart.regs.both_edge_sampling);
    assert_eq!(uart.regs.osr, 4);
    assert_eq!(uart.regs.sbr, 1);
}

#[test]
fn init_unsatisfiable_baud_fails() {
    let config =
        Config { baudrate: 100, data_bits: DataBits::B8, parity: Parity::N, stop_bits: StopBits::B1 };
    assert!(matches!(
        Lpuart::init(UartRegisters::new(), config, 100),
        Err(UartError::UnsatisfiableBaud)
    ));
}

#[test]
fn transmit_unready_mutates_nothing() {
    let mut console = console_at(0);
    // No room: buffer exhausted, and the registers are untouched, so the
    // retry is safe to repeat indefinitely.
    for _ in 0..3 {
        assert_eq!(console.lpuart.transmit(0x55), Err(IoError::BufferExhausted));
        assert!(console.lpuart.regs.tx_log.is_empty());
        assert_eq!(console.lpuart.regs.tx_slots, 0);
    }
    // Hardware grants room: the same byte now goes out.
    console.lpuart.regs.tx_slots = 1;
    assert_eq!(console.lpuart.transmit(0x55), Ok(()));
    assert_eq!(console.lpuart.regs.tx_log, vec![0x55]);
    assert_eq!(console.lpuart.regs.tx_slots, 0);
}

#[test]
fn receive_reports_frames_in_order() {
    let mut console = console_at(0);
    let uart = &mut console.lpuart;
    uart.regs.framing_error_flag = true;
    uart.regs.rx_fifo.push(clean(b'a'));
    uart.regs.rx_fifo.push(RxFrame { byte: b'b', parity_error: true, framing_error: false });
    uart.regs.rx_fifo.push(RxFrame { byte: b'c', parity_error: false, framing_error: true });
    assert_eq!(uart.receive(), Ok(b'a'));
    assert_eq!(uart.receive(), Err(IoError::ErrorDetectionCode));
    assert!(uart.regs.framing_error_flag);
    assert_eq!(uart.receive(), Err(IoError::Other));
    assert!(!uart.regs.framing_error_flag); // cleared as a side effect
    assert_eq!(uart.receive(), Err(IoError::BufferExhausted));
}

#[test]
fn write_partial_success_returns_count() {
    // The transmitter accepts 3 of 5 bytes: success with count 3.
    let mut console = console_at(3);
    assert_eq!(console.write(b"hello"), Ok(3));
    assert_eq!(console.lpuart.regs.tx_log, b"hel".to_vec());
    // The caller resubmits the remainder once room returns.
    console.lpuart.regs.tx_slots = 8;
    assert_eq!(console.write(b"lo"), Ok(2));
    assert_eq!(console.lpuart.regs.tx_log, b"hello".to_vec());
}

#[test]
fn write_whole_buffer() {
    let mut console = console_at(16);
    assert_eq!(console.write(b"hi"), Ok(2));
    assert_eq!(console.lpuart.regs.tx_log, b"hi".to_vec());
    assert_eq!(console.write(b""), Ok(0));
}

#[test]
fn read_until_stops_at_terminator() {
    let mut console = console_at(0);
    for b in b"abc\nxyz" {
        console.lpuart.regs.rx_fifo.push(clean(*b));
    }
    let mut buf = vec![0u8; 8];
    // The terminator is written and counted; later input stays queued.
    assert_eq!(console.read_until(b'\n', &mut buf), Ok(4));
    assert_eq!(&buf[..4], b"abc\n");
    assert_eq!(console.lpuart.regs.rx_fifo.len(), 3);
}

#[test]
fn read_until_stops_when_buffer_fills() {
    let mut console = console_at(0);
    for b in b"0123456789" {
        console.lpuart.regs.rx_fifo.push(clean(*b));
    }
    let mut buf = vec![0u8; 8];
    assert_eq!(console.read_until(b'\n', &mut buf), Ok(8));
    assert_eq!(&buf, b"01234567");
    assert_eq!(console.lpuart.regs.rx_fifo.len(), 2);
}

#[test]
fn read_until_empty_buffer_returns_at_once() {
    let mut console = console_at(0);
    console.lpuart.regs.rx_fifo.push(clean(b'a'));
    let mut buf: Vec<u8> = Vec::new();
    assert_eq!(console.read_until(b'\n', &mut buf), Ok(0));
    assert_eq!(console.lpuart.regs.rx_fifo.len(), 1);
}

#[test]
fn read_until_propagates_receive_faults() {
    let mut console = console_at(0);
    console.lpuart.regs.rx_fifo.push(clean(b'a'));
    console.lpuart.regs.rx_fifo.push(RxFrame { byte: b'b', parity_error: true, framing_error: false });
    let mut buf = vec![0u8; 8];
    // The call fails, but the byte already placed stays in the buffer.
    assert_eq!(console.read_until(b'\n', &mut buf), Err(IoError::ErrorDetectionCode));
    assert_eq!(buf[0], b'a');
    assert!(console.lpuart.regs.rx_fifo.is_empty());
}

#[test]
fn console_init_fixed_configuration() {
    let console = LpuartConsole::init(UartRegisters::new());
    assert_eq!(console.lpuart.config.baudrate, 115_200);
    assert_eq!(console.lpuart.config.data_bits, DataBits::B8);
    assert_eq!(console.lpuart.config.parity, Parity::N);
    assert_eq!(console.lpuart.config.stop_bits, StopBits::B1);
    assert_eq!(console.lpuart.regs.osr, 22);
    assert_eq!(console.lpuart.regs.sbr, 3);
}
