use serial_tester::engine::{bytes_equal, run_trial, wait_millis, DEFAULT_BAUD};
use serial_tester::loopback::{EchoPort, SinkPort};
use serial_tester::payload::{generate, random_data, zero_data, PayloadMode};

#[test]
fn empty_payload_always_passes_on_echo() {
    let mut port = EchoPort::new(9600);
    let payload: Vec<u8> = Vec::new();
    assert!(run_trial(&mut port, &payload));
}

#[test]
fn empty_payload_always_passes_on_sink() {
    let mut port = SinkPort::new();
    let payload: Vec<u8> = Vec::new();
    assert!(run_trial(&mut port, &payload));
}

#[test]
fn echo_port_passes_all_sizes() {
    let mut port = EchoPort::new(115200);
    for size in [0usize, 1, 16, 256, 4096] {
        let payload = random_data(size);
        assert!(run_trial(&mut port, &payload), "size {} failed", size);
    }
}

#[test]
fn sink_port_fails_fixed_nonzero_payload() {
    let mut port = SinkPort::new();
    let payload: Vec<u8> = vec![0xA5, 0x5A, 0xFF, 0x01];
    assert!(!run_trial(&mut port, &payload));
}

#[test]
fn sink_port_fails_random_payloads() {
    let mut port = SinkPort::new();
    // A spurious pass would need an all-zero random draw: probability 2^-128.
    for _ in 0..4 {
        let payload = random_data(16);
        if payload.iter().any(|b| *b != 0) {
            assert!(!run_trial(&mut port, &payload));
        }
    }
}

#[test]
fn sink_port_passes_all_zero_payload() {
    // The accepted limitation: a zero payload matches the untouched buffer.
    let mut port = SinkPort::new();
    let payload = zero_data(8);
    assert!(run_trial(&mut port, &payload));
}

#[test]
fn wait_duration_matches_formula() {
    // baud = 9600, size = 100: bits = 800, bit_rate = 7680,
    // one way ~ 104.2 ms, tripled ~ 312.5 ms, truncated to whole millis.
    let ms = wait_millis(100, 9600);
    let bits = 8.0 * 100.0_f64;
    let bit_rate = (8.0 * 9600.0_f64) / 10.0;
    let expected = 3.0 * 1000.0 * (bits / bit_rate);
    assert!((ms as f64 - expected).abs() <= 1.0);
    assert_eq!(ms, 312);
}

#[test]
fn wait_duration_zero_size_is_instant() {
    assert_eq!(wait_millis(0, 9600), 0);
}

#[test]
fn wait_duration_truncates_once_at_the_end() {
    // 30000 * 1 / 9600 = 3.125, truncated to 3.
    assert_eq!(wait_millis(1, 9600), 3);
    // 30000 * 1 / 7000 = 4.28..., truncated to 4: truncating the one-way time
    // before tripling would have given 3.
    assert_eq!(wait_millis(1, 7000), 4);
    // 30000 * 64 / 115200 = 16.66..., truncated to 16.
    assert_eq!(wait_millis(64, 115200), 16);
}

#[test]
fn wait_duration_saturates() {
    assert_eq!(wait_millis(usize::MAX, 1), u64::MAX);
}

#[test]
fn default_baud_is_9600() {
    assert_eq!(DEFAULT_BAUD, 9600);
}

#[test]
fn bytes_equal_checks_exactly() {
    assert!(bytes_equal(&vec![1, 2, 3], &vec![1, 2, 3]));
    assert!(!bytes_equal(&vec![1, 2, 3], &vec![1, 2, 4]));
    assert!(!bytes_equal(&vec![1, 2, 3], &vec![1, 2]));
    assert!(bytes_equal(&Vec::new(), &Vec::new()));
}

#[test]
fn zero_mode_is_idempotent() {
    for size in [0usize, 1, 64, 1000] {
        let a = generate(size, PayloadMode::Zero);
        let b = generate(size, PayloadMode::Zero);
        assert_eq!(a, b);
        assert_eq!(a.len(), size);
        assert!(a.iter().all(|x| *x == 0));
    }
}

#[test]
fn random_mode_draws_fresh_buffers() {
    // Two equal 32-byte draws would be a 2^-256 coincidence.
    let a = generate(32, PayloadMode::Random);
    let b = generate(32, PayloadMode::Random);
    assert_eq!(a.len(), 32);
    assert_eq!(b.len(), 32);
    assert_ne!(a, b);
}
