use ticket_printer::endpoint::{OsError, TransportKind};
use ticket_printer::transmit::{
    select_transport, temp_file_name, Action, Capabilities, Event, Job, Progress, Report,
    ShellFailure, Step, TransmitError, TransmitFailure, Transport,
};

const ALL: Capabilities = Capabilities { spooler_api: true, shell: true };

fn os_error(code: i32, message: &str) -> OsError {
    OsError { code, message: message.to_string() }
}

/// Runs a job to `address` over `events`, returning the actions it asked for and its report.
fn drive(
    transport: Transport,
    caps: Capabilities,
    address: &str,
    len: usize,
    events: Vec<Event>,
) -> (Vec<Action>, Report) {
    let mut progress = Job::start(transport, caps, address.to_string(), len);
    let mut actions = Vec::new();
    let mut events = events.into_iter();
    loop {
        match progress {
            Progress::Finished(report) => return (actions, report),
            Progress::Next(job, action) => {
                actions.push(action);
                let e = events.next().expect("job did not finish");
                progress = job.advance(e);
            }
        }
    }
}

fn failure(report: Report) -> TransmitFailure {
    match report {
        Ok(r) => panic!("expected a failure, got {:?}", r),
        Err(f) => f,
    }
}

#[test]
fn serial_full_write_is_success() {
    for len in [0usize, 1, 42, 4096] {
        let (acts, report) =
            drive(Transport::Serial, ALL, "COM3", len, vec![Event::Done, Event::Wrote(len), Event::Done]);
        assert_eq!(acts.len(), 3);
        match &acts[0] {
            Action::OpenSerial(p) => {
                assert_eq!(p.baud_rate, 9600);
                assert_eq!(p.timeout_ms, 3000);
            }
            other => panic!("unexpected first action {:?}", other),
        }
        assert!(matches!(acts[1], Action::WriteSerial));
        assert!(matches!(acts[2], Action::CloseSerial));
        let r = report.unwrap();
        assert!(r.success);
        assert_eq!(r.bytes_written, len);
    }
}

#[test]
fn serial_short_write_is_partial_write() {
    let (acts, report) = drive(Transport::Serial, ALL, "COM3", 10, vec![Event::Done, Event::Wrote(7), Event::Done]);
    assert!(matches!(acts[2], Action::CloseSerial));
    let f = failure(report);
    assert_eq!(f.address, "COM3");
    assert!(matches!(f.error, TransmitError::PartialWrite { written: 7, expected: 10, os: None }));
}

#[test]
fn serial_write_error_keeps_os_diagnostic() {
    let (_, report) = drive(Transport::Serial, ALL, "COM3", 3, vec![
        Event::Done,
        Event::Failed(os_error(31, "device not functioning")),
        Event::Done,
    ]);
    match failure(report).error {
        TransmitError::PartialWrite { written: 0, expected: 3, os: Some(e) } => assert_eq!(e.code, 31),
        other => panic!("expected a partial write, got {:?}", other),
    }
}

#[test]
fn serial_open_failure_is_open_failed() {
    let (acts, report) = drive(Transport::Serial, ALL, "/dev/ttyUSB9", 3, vec![Event::Failed(os_error(2, "not found"))]);
    assert_eq!(acts.len(), 1);
    let f = failure(report);
    assert_eq!(f.address, "/dev/ttyUSB9");
    assert!(matches!(f.error, TransmitError::OpenFailed(e) if e.code == 2));
}

#[test]
fn unknown_printer_fails_at_open_without_document_steps() {
    let (acts, report) = drive(Transport::NativeSpooler, ALL, "EPSON TM-T81", 12, vec![Event::Failed(
        os_error(1801, "The printer name is invalid."),
    )]);
    assert_eq!(acts.len(), 1);
    assert!(matches!(acts[0], Action::OpenPrinter));
    let f = failure(report);
    assert_eq!(f.address, "EPSON TM-T81");
    assert!(matches!(f.error, TransmitError::OpenFailed(e) if e.code == 1801));
}

#[test]
fn spooler_job_runs_all_six_steps() {
    let (acts, report) = drive(Transport::NativeSpooler, ALL, "TM-T20", 5, vec![
        Event::Done,
        Event::Done,
        Event::Done,
        Event::Wrote(5),
        Event::Done,
        Event::Done,
        Event::Done,
    ]);
    assert!(matches!(acts[0], Action::OpenPrinter));
    assert!(matches!(acts[1], Action::StartRawDoc));
    assert!(matches!(acts[2], Action::StartPage));
    assert!(matches!(acts[3], Action::WritePrinter));
    assert!(matches!(acts[4], Action::EndPage));
    assert!(matches!(acts[5], Action::EndDoc));
    assert!(matches!(acts[6], Action::ClosePrinter));
    assert_eq!(acts.len(), 7);
    let r = report.unwrap();
    assert_eq!(r.bytes_written, 5);
    assert!(r.success);
}

#[test]
fn spooler_step_failure_closes_printer_and_names_step() {
    let (acts, report) = drive(Transport::NativeSpooler, ALL, "TM-T20", 5, vec![
        Event::Done,
        Event::Done,
        Event::Failed(os_error(6, "invalid handle")),
        Event::Done,
    ]);
    assert_eq!(acts.len(), 4);
    assert!(matches!(acts[3], Action::ClosePrinter));
    let f = failure(report);
    assert_eq!(f.address, "TM-T20");
    assert!(matches!(f.error, TransmitError::SpoolerStepFailed { step: Step::StartPage, os } if os.code == 6));
}

#[test]
fn spooler_write_failure_names_write_step() {
    let (acts, report) = drive(Transport::NativeSpooler, ALL, "TM-T20", 5, vec![
        Event::Done,
        Event::Done,
        Event::Done,
        Event::Failed(os_error(1784, "invalid buffer")),
        Event::Done,
    ]);
    assert_eq!(acts.len(), 5);
    assert!(matches!(acts[4], Action::ClosePrinter));
    assert!(matches!(
        failure(report).error,
        TransmitError::SpoolerStepFailed { step: Step::WritePrinter, os } if os.code == 1784
    ));
}

#[test]
fn spooler_short_write_is_partial_write() {
    let (acts, report) = drive(Transport::NativeSpooler, ALL, "TM-T20", 5, vec![
        Event::Done,
        Event::Done,
        Event::Done,
        Event::Wrote(2),
        Event::Done,
    ]);
    assert!(matches!(acts[4], Action::ClosePrinter));
    assert!(matches!(failure(report).error, TransmitError::PartialWrite { written: 2, expected: 5, .. }));
}

#[test]
fn spooler_close_failure_is_reported() {
    let (_, report) = drive(Transport::NativeSpooler, ALL, "TM-T20", 1, vec![
        Event::Done,
        Event::Done,
        Event::Done,
        Event::Wrote(1),
        Event::Done,
        Event::Done,
        Event::Failed(os_error(6, "invalid handle")),
    ]);
    assert!(matches!(failure(report).error, TransmitError::SpoolerStepFailed { step: Step::ClosePrinter, .. }));
}

#[test]
fn non_zero_exit_at_a_spooler_step_is_a_failure() {
    let (_, report) = drive(Transport::NativeSpooler, ALL, "TM-T20", 1, vec![
        Event::Done,
        Event::Exited { code: 5, stderr: "denied".to_string() },
        Event::Done,
    ]);
    assert!(matches!(
        failure(report).error,
        TransmitError::SpoolerStepFailed { step: Step::StartDoc, os } if os.code == 5 && os.message == "denied"
    ));
}

#[test]
fn native_spooler_without_api_is_unsupported() {
    let caps = Capabilities { spooler_api: false, shell: true };
    let (acts, report) = drive(Transport::NativeSpooler, caps, "TM-T20", 1, vec![]);
    assert!(acts.is_empty());
    let f = failure(report);
    assert_eq!(f.address, "TM-T20");
    assert!(matches!(f.error, TransmitError::PlatformUnsupported(Transport::NativeSpooler)));
}

#[test]
fn shell_job_deletes_temp_file_on_success() {
    let (acts, report) = drive(Transport::ShellPrint, ALL, "POS-58", 8, vec![
        Event::Done,
        Event::Exited { code: 0, stderr: String::new() },
        Event::Done,
    ]);
    assert!(matches!(acts[0], Action::WriteTempFile));
    assert!(matches!(acts[1], Action::RunShell));
    assert!(matches!(acts[2], Action::DeleteTempFile));
    assert_eq!(report.unwrap().bytes_written, 8);
}

#[test]
fn shell_job_deletes_temp_file_on_failure() {
    let (acts, report) = drive(Transport::ShellPrint, ALL, "POS-58", 8, vec![
        Event::Done,
        Event::Exited { code: 1, stderr: "printer offline".to_string() },
        Event::Failed(os_error(32, "in use")),
    ]);
    assert!(matches!(acts[2], Action::DeleteTempFile));
    match failure(report).error {
        TransmitError::ShellInvocationFailed(ShellFailure::ExitStatus { code: 1, stderr }) => {
            assert_eq!(stderr, "printer offline")
        }
        other => panic!("expected a shell failure, got {:?}", other),
    }
    let (acts, report) =
        drive(Transport::ShellPrint, ALL, "POS-58", 8, vec![Event::Failed(os_error(28, "disk full")), Event::Done]);
    assert!(matches!(acts[1], Action::DeleteTempFile));
    assert!(matches!(
        failure(report).error,
        TransmitError::ShellInvocationFailed(ShellFailure::TempFileWrite(e)) if e.code == 28
    ));
}

#[test]
fn shell_spawn_failure_is_shell_invocation_failure() {
    let (acts, report) =
        drive(Transport::ShellPrint, ALL, "POS-58", 8, vec![Event::Done, Event::Failed(os_error(2, "no shell")), Event::Done]);
    assert!(matches!(acts[2], Action::DeleteTempFile));
    assert!(matches!(
        failure(report).error,
        TransmitError::ShellInvocationFailed(ShellFailure::Spawn(e)) if e.code == 2
    ));
}

#[test]
fn shell_without_exit_status_is_not_success() {
    let (acts, report) = drive(Transport::ShellPrint, ALL, "POS-58", 8, vec![Event::Done, Event::Done, Event::Done]);
    assert!(matches!(acts[2], Action::DeleteTempFile));
    assert!(matches!(failure(report).error, TransmitError::ShellInvocationFailed(ShellFailure::NoStatus)));
}

fn next(p: Progress, e: Event) -> Progress {
    match p {
        Progress::Next(job, _) => job.advance(e),
        Progress::Finished(r) => panic!("already finished: {:?}", r),
    }
}

#[test]
fn two_jobs_to_distinct_endpoints_are_independent() {
    let a = Job::start(Transport::Serial, ALL, "COM1".to_string(), 100);
    let b = Job::start(Transport::Serial, ALL, "COM2".to_string(), 30);
    let a = next(a, Event::Done);
    let b = next(b, Event::Done);
    let b = next(b, Event::Wrote(30));
    let a = next(a, Event::Wrote(100));
    let a = next(a, Event::Done);
    let b = next(b, Event::Done);
    match (a, b) {
        (Progress::Finished(Ok(ra)), Progress::Finished(Ok(rb))) => {
            assert_eq!(ra.bytes_written, 100);
            assert_eq!(rb.bytes_written, 30);
        }
        other => panic!("both jobs should succeed: {:?}", other),
    }
}

#[test]
fn transport_follows_kind_and_platform() {
    assert_eq!(select_transport(TransportKind::SerialPort, ALL), Transport::Serial);
    assert_eq!(select_transport(TransportKind::SpoolerPrinter, ALL), Transport::NativeSpooler);
    let no_api = Capabilities { spooler_api: false, shell: true };
    assert_eq!(select_transport(TransportKind::SpoolerPrinter, no_api), Transport::ShellPrint);
}

#[test]
fn temp_file_name_carries_timestamp() {
    assert_eq!(temp_file_name(1700000000123), "ticket_1700000000123.prn");
    assert_ne!(temp_file_name(1), temp_file_name(2));
}
