use serial_tester::loopback::{EchoPort, SinkPort};
use serial_tester::orchestrator::{
    all_passed, run_size_group, run_suite, TestConfiguration, TrialOutcome,
};
use serial_tester::port::Port;
use serial_tester::report::{report_group, ReportLine};

#[test]
fn configuration_requires_positive_repetitions() {
    assert!(TestConfiguration::new(9600, false, 0, vec![8]).is_none());
    let config = TestConfiguration::new(9600, true, 3, vec![8, 16]).expect("valid configuration");
    assert_eq!(config.baud, 9600);
    assert!(config.fail_only);
    assert_eq!(config.reps, 3);
    assert_eq!(config.sizes, vec![8, 16]);
}

#[test]
fn suite_over_echo_port_all_passes() {
    let mut port = EchoPort::new(9600);
    let config = TestConfiguration::new(9600, false, 3, vec![0, 1, 16, 256]).unwrap();
    let results = run_suite(&mut port, &config);
    assert_eq!(results.len(), 4);
    for (group, &size) in results.iter().zip(config.sizes.iter()) {
        assert_eq!(group.size, size);
        assert_eq!(group.outcomes.len(), 3);
        for outcome in &group.outcomes {
            assert_eq!(outcome.size, size);
            assert!(outcome.passed);
        }
        assert!(all_passed(&group.outcomes));
    }
}

#[test]
fn size_group_over_sink_port_fails_nonempty_sizes() {
    let mut port = SinkPort::new();
    let outcomes = run_size_group(&mut port, 16, 5);
    assert_eq!(outcomes.len(), 5);
    for outcome in &outcomes {
        assert_eq!(outcome.size, 16);
        assert!(!outcome.passed);
    }
    assert!(!all_passed(&outcomes));
}

#[test]
fn size_group_of_zero_size_always_passes() {
    let mut port = SinkPort::new();
    let outcomes = run_size_group(&mut port, 0, 4);
    assert_eq!(outcomes.len(), 4);
    assert!(all_passed(&outcomes));
}

#[test]
fn echo_port_queues_and_drains() {
    let mut port = EchoPort::new(9600);
    assert_eq!(port.current_baud_rate(), Some(9600));
    assert!(port.flush().is_ok());
    assert_eq!(port.write(&vec![1, 2, 3]), Ok(3));
    let mut buf = vec![0u8; 3];
    assert_eq!(port.read(&mut buf), Ok(3));
    assert_eq!(buf, vec![1, 2, 3]);
    // Drained: a second read finds nothing and leaves the buffer alone.
    let mut buf2 = vec![9u8; 2];
    assert_eq!(port.read(&mut buf2), Ok(0));
    assert_eq!(buf2, vec![9, 9]);
}

#[test]
fn echo_port_short_buffer_keeps_the_rest() {
    let mut port = EchoPort::new(9600);
    port.write(&vec![1, 2, 3, 4]).unwrap();
    let mut buf = vec![0u8; 2];
    assert_eq!(port.read(&mut buf), Ok(2));
    assert_eq!(buf, vec![1, 2]);
    let mut rest = vec![0u8; 4];
    assert_eq!(port.read(&mut rest), Ok(2));
    assert_eq!(rest, vec![3, 4, 0, 0]);
}

#[test]
fn sink_port_reports_no_baud_and_returns_nothing() {
    let mut port = SinkPort::new();
    assert_eq!(port.current_baud_rate(), None);
    assert_eq!(port.write(&vec![1, 2, 3]), Ok(3));
    let mut buf = vec![7u8; 3];
    assert_eq!(port.read(&mut buf), Ok(0));
    assert_eq!(buf, vec![7, 7, 7]);
}

fn outcome(size: usize, passed: bool) -> TrialOutcome {
    TrialOutcome { size, passed }
}

#[test]
fn fail_only_all_passed_emits_single_confirmation() {
    let outcomes = vec![outcome(8, true), outcome(8, true), outcome(8, true)];
    let lines = report_group(8, &outcomes, true);
    assert_eq!(
        lines,
        vec![ReportLine::Header { size: 8, reps: 3 }, ReportLine::AllPassed]
    );
}

#[test]
fn full_mode_emits_one_line_per_trial() {
    let outcomes = vec![outcome(4, true), outcome(4, false), outcome(4, true)];
    let lines = report_group(4, &outcomes, false);
    assert_eq!(lines.len(), 4);
    assert_eq!(lines[0], ReportLine::Header { size: 4, reps: 3 });
    assert_eq!(lines[1], ReportLine::Trial { index: 1, size: 4, passed: true });
    assert_eq!(lines[2], ReportLine::Trial { index: 2, size: 4, passed: false });
    assert_eq!(lines[3], ReportLine::Trial { index: 3, size: 4, passed: true });
}

#[test]
fn fail_only_shows_failures_without_confirmation() {
    let outcomes = vec![outcome(4, true), outcome(4, false), outcome(4, true)];
    let lines = report_group(4, &outcomes, true);
    assert_eq!(lines.len(), 2);
    assert_eq!(lines[0], ReportLine::Header { size: 4, reps: 3 });
    assert_eq!(lines[1], ReportLine::Trial { index: 2, size: 4, passed: false });
}

#[test]
fn empty_group_report_in_full_mode_is_header_only() {
    let lines = report_group(4, &Vec::new(), false);
    assert_eq!(lines, vec![ReportLine::Header { size: 4, reps: 0 }]);
}
