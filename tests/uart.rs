use el_boot::registry::Registry;
use el_boot::uart::{
    baud_divisors, is_busy, simulate, transmit_fifo_full, SimError, TxRecord, Uart, UartOp,
};

fn init_sequence() -> Vec<UartOp> {
    vec![
        UartOp::WaitWhileBusy,
        UartOp::WriteCr(0),
        UartOp::WriteIcr(0),
        UartOp::WriteIbrd(26),
        UartOp::WriteFbrd(3),
        UartOp::WriteLcrh(0x70),
        UartOp::WriteCr(0x301),
    ]
}

fn sent(bytes: &[u8]) -> Vec<UartOp> {
    let mut v = Vec::new();
    for b in bytes {
        v.push(UartOp::WaitWhileTxFull);
        v.push(UartOp::WriteData(*b as u32));
    }
    v
}

#[test]
fn divisors_at_reference_rate() {
    assert_eq!(baud_divisors(48_000_000, 115_200), (26, 3));
}

#[test]
fn divisors_at_other_rates() {
    // 48e6 / (16 * 9600) = 312.5: fraction 0.5 * 64 = 32
    assert_eq!(baud_divisors(48_000_000, 9600), (312, 32));
    // 48e6 / (16 * 38400) = 78.125: fraction 0.125 * 64 = 8
    assert_eq!(baud_divisors(48_000_000, 38_400), (78, 8));
    // 3e6 / (16 * 115200) = 1.6276: fraction 0.6276 * 64 = 40.17
    assert_eq!(baud_divisors(3_000_000, 115_200), (1, 40));
    assert_eq!(baud_divisors(0, 115_200), (0, 0));
}

#[test]
fn uart_take_initialises_once() {
    let mut reg = Registry::new();
    let uart = Uart::take(&mut reg).expect("first acquisition");
    assert_eq!(uart.ops, init_sequence());
    assert!(Uart::take(&mut reg).is_none());
    assert!(reg.uart_taken);
    assert!(!reg.gpio_taken);
}

#[test]
fn steal_reinitialises() {
    let mut reg = Registry::new();
    let _owned = Uart::take(&mut reg);
    let stolen = Uart::steal();
    assert_eq!(stolen.ops, init_sequence());
}

#[test]
fn write_waits_for_room_before_each_byte() {
    let mut uart = Uart::steal();
    uart.ops.clear();
    uart.write("ab");
    assert_eq!(uart.ops, sent(b"ab"));
}

#[test]
fn write_truncates_to_low_byte() {
    let mut uart = Uart::steal();
    uart.ops.clear();
    uart.write("\u{141}");
    assert_eq!(uart.ops, sent(&[0x41]));
}

#[test]
fn writeln_appends_one_newline() {
    let mut a = Uart::steal();
    a.write("hi");
    let mut b = Uart::steal();
    b.writeln("hi");
    let mut expected = a.ops.clone();
    expected.extend(sent(b"\n"));
    assert_eq!(b.ops, expected);
}

#[test]
fn writeln_of_empty_is_single_newline() {
    let mut uart = Uart::steal();
    uart.ops.clear();
    uart.writeln("");
    assert_eq!(uart.ops, sent(b"\n"));
}

#[test]
fn flush_waits_while_busy() {
    let mut uart = Uart::steal();
    uart.ops.clear();
    uart.flush();
    assert_eq!(uart.ops, vec![UartOp::WaitWhileBusy]);
}

#[test]
fn flag_register_decoding() {
    assert!(transmit_fifo_full(1 << 5));
    assert!(!transmit_fifo_full(!(1 << 5)));
    assert!(is_busy(1 << 3));
    assert!(!is_busy(0x90));
}

const FULL: u32 = 1 << 5;
const ROOM: u32 = 0;
const BUSY: u32 = 1 << 3;

#[test]
fn simulated_bytes_wait_for_room() {
    let mut uart = Uart::steal();
    uart.ops.clear();
    uart.write("ok");
    let feed = vec![FULL, FULL, ROOM, FULL, ROOM];
    let w = simulate(&uart.ops, &feed).expect("feed suffices");
    assert_eq!(
        w,
        vec![TxRecord { value: b'o' as u32, sample: 2 }, TxRecord { value: b'k' as u32, sample: 4 }]
    );
}

#[test]
fn simulated_init_waits_while_busy() {
    let uart = Uart::steal();
    let w = simulate(&uart.ops, &vec![BUSY, BUSY, 0]).expect("feed suffices");
    assert!(w.is_empty());
    assert_eq!(simulate(&uart.ops, &vec![BUSY, BUSY]), Err(SimError::FeedExhausted));
}

#[test]
fn simulated_full_fifo_runs_out_of_feed() {
    let mut uart = Uart::steal();
    uart.ops.clear();
    uart.writeln("");
    assert_eq!(simulate(&uart.ops, &vec![FULL, FULL, FULL]), Err(SimError::FeedExhausted));
    let w = simulate(&uart.ops, &vec![FULL, ROOM]).expect("feed suffices");
    assert_eq!(w, vec![TxRecord { value: 10, sample: 1 }]);
}

#[test]
fn simulated_unguarded_write_is_reported() {
    let ops = vec![UartOp::WriteData(0x41)];
    assert_eq!(simulate(&ops, &vec![ROOM]), Err(SimError::UnguardedWrite));
    let ops = vec![UartOp::WaitWhileTxFull, UartOp::WriteData(1), UartOp::WriteData(2)];
    assert_eq!(simulate(&ops, &vec![ROOM]), Err(SimError::UnguardedWrite));
}

#[test]
fn simulated_quiet_line_sends_everything() {
    let mut uart = Uart::steal();
    uart.writeln("hey");
    // seven init ops hold one wait; each of four bytes holds one more
    let feed = vec![ROOM; 5];
    let w = simulate(&uart.ops, &feed).expect("one sample per wait");
    let values: Vec<u32> = w.iter().map(|r| r.value).collect();
    assert_eq!(values, vec![b'h' as u32, b'e' as u32, b'y' as u32, 10]);
    let samples: Vec<usize> = w.iter().map(|r| r.sample).collect();
    assert_eq!(samples, vec![1, 2, 3, 4]);
}
