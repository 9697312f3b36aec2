//! The transmission protocol, one operating-system step at a time.
//!
//! A [`Job`] decides; its caller acts. [`Job::start`] and [`Job::advance`] name the
//! next [`Action`]; the caller performs it and reports the [`Event`] it produced,
//! until the job has [`Progress::Finished`], with a report that names the endpoint
//! on every failure. A job on a serial line opens, writes and
//! closes; a native spooler job opens the printer, starts a raw document and a page,
//! writes, ends the page and the document, and closes the printer; a shell job
//! writes a temporary file, has the shell print it, and deletes it. A failed step
//! ends the job: the printer handle is closed and the temporary file deleted first.
//! No step is ever retried.
use vstd::prelude::*;
use crate::endpoint::{OsError, TransportKind};
use crate::probe::{transmit_parameters, SerialParameters, BAUD_RATE, TRANSMIT_TIMEOUT_MS};
use crate::text::{decimal, decimal_string};

verus! {

/// How a payload reaches a printer.
#[derive(Clone, Copy, Debug, PartialEq, Eq, Structural)]
pub enum Transport {
    /// Raw bytes over a serial line.
    Serial,
    /// A raw document submitted through the operating system's spooler interface.
    NativeSpooler,
    /// A temporary file handed to a shell print command.
    ShellPrint,
}

/// What the running platform offers.
#[derive(Clone, Copy, Debug, PartialEq, Eq, Structural)]
pub struct Capabilities {
    pub spooler_api: bool,
    pub shell: bool,
}

pub open spec fn transport_for(kind: TransportKind, caps: Capabilities) -> Transport {
    match kind {
        TransportKind::SerialPort => Transport::Serial,
        TransportKind::SpoolerPrinter => if caps.spooler_api {
            Transport::NativeSpooler
        } else {
            Transport::ShellPrint
        },
    }
}

/// The transport for an endpoint kind: the spooler interface where the platform
/// has one, else the shell.
pub fn select_transport(kind: TransportKind, caps: Capabilities) -> (r: Transport)
    ensures
        r == transport_for(kind, caps),
{
    match kind {
        TransportKind::SerialPort => Transport::Serial,
        TransportKind::SpoolerPrinter => if caps.spooler_api {
            Transport::NativeSpooler
        } else {
            Transport::ShellPrint
        },
    }
}

/// A step of a native spooler job after the printer is open, named in its errors.
#[derive(Clone, Copy, Debug, PartialEq, Eq, Structural)]
pub enum Step {
    StartDoc,
    StartPage,
    WritePrinter,
    EndPage,
    EndDoc,
    ClosePrinter,
}

/// Why a shell print failed.
#[derive(Clone, Debug)]
pub enum ShellFailure {
    /// The temporary file could not be written.
    TempFileWrite(OsError),
    /// The shell command could not be started.
    Spawn(OsError),
    /// The shell command exited with a non-zero status.
    ExitStatus { code: i32, stderr: String },
    /// The shell command reported no exit status.
    NoStatus,
}

/// A completed transmission.
#[derive(Clone, Copy, Debug, PartialEq, Eq, Structural)]
pub struct TransmissionResult {
    pub bytes_written: usize,
    pub success: bool,
}

#[derive(Clone, Debug)]
pub enum TransmitError {
    /// The serial device or the printer could not be opened.
    OpenFailed(OsError),
    /// The device took a different number of bytes than the payload holds.
    PartialWrite { written: usize, expected: usize, os: Option<OsError> },
    /// A spooler step failed.
    SpoolerStepFailed { step: Step, os: OsError },
    /// The shell print path failed.
    ShellInvocationFailed(ShellFailure),
    /// The platform lacks what the transport needs.
    PlatformUnsupported(Transport),
}

/// A failed transmission: the endpoint's address and what went wrong.
#[derive(Clone, Debug)]
pub struct TransmitFailure {
    pub address: String,
    pub error: TransmitError,
}

/// The outcome a job holds while it still has cleanup to do.
pub type Outcome = Result<TransmissionResult, TransmitError>;

/// The outcome of a whole transmission.
pub type Report = Result<TransmissionResult, TransmitFailure>;

/// What the caller reports after performing an action. A step fails on `Failed`,
/// or on `Exited` with a non-zero status; at a write, only `Wrote` counts bytes as
/// taken; the shell step succeeds only on `Exited` with status zero.
#[derive(Clone, Debug)]
pub enum Event {
    /// The operation succeeded.
    Done,
    /// A write completed, taking this many bytes.
    Wrote(usize),
    /// A command exited with this status and standard error.
    Exited { code: i32, stderr: String },
    /// The operation failed.
    Failed(OsError),
}

/// What the caller is to do next.
#[derive(Clone, Debug)]
pub enum Action {
    OpenSerial(SerialParameters),
    WriteSerial,
    CloseSerial,
    OpenPrinter,
    StartRawDoc,
    StartPage,
    WritePrinter,
    EndPage,
    EndDoc,
    ClosePrinter,
    WriteTempFile,
    RunShell,
    DeleteTempFile,
}

/// Where a job stands: the action it waits on, and what it already knows.
#[derive(Debug)]
pub enum Phase {
    SerialOpening,
    SerialWriting,
    SerialClosing(Outcome),
    PrinterOpening,
    DocStarting,
    PageStarting,
    PrinterWriting,
    PageEnding,
    DocEnding,
    PrinterClosing,
    PrinterAborting(TransmitError),
    TempWriting,
    ShellRunning,
    TempDeleting(Outcome),
}

/// One transmission of a payload of `payload_len` bytes to `address`.
#[derive(Debug)]
pub struct Job {
    pub transport: Transport,
    pub address: String,
    pub payload_len: usize,
    pub phase: Phase,
}

/// A job that waits for the event of its action, or the report of a finished one.
#[derive(Debug)]
pub enum Progress {
    Next(Job, Action),
    Finished(Report),
}

pub open spec fn success(n: usize) -> Outcome {
    Ok(TransmissionResult { bytes_written: n, success: true })
}

pub open spec fn serial_settings() -> SerialParameters {
    SerialParameters {
        baud_rate: BAUD_RATE,
        data_bits: 8,
        parity: false,
        stop_bits: 1,
        flow_control: false,
        timeout_ms: TRANSMIT_TIMEOUT_MS,
    }
}

/// The operating-system error an event reports, if it reports a failure.
pub open spec fn failure_of(e: Event) -> Option<OsError> {
    match e {
        Event::Failed(os) => Some(os),
        Event::Exited { code, stderr } => if code != 0 {
            Some(OsError { code, message: stderr })
        } else {
            None
        },
        _ => None,
    }
}

/// The byte count an event reports, if it reports a write.
pub open spec fn written_by(e: Event) -> Option<usize> {
    match e {
        Event::Wrote(w) => Some(w),
        _ => None,
    }
}

/// The verdict on a write of an `n`-byte payload that did not fail: `None` when
/// exactly `n` bytes went out.
pub open spec fn count_verdict(n: usize, e: Event) -> Option<TransmitError> {
    match written_by(e) {
        Some(w) => if w == n {
            None
        } else {
            Some(TransmitError::PartialWrite { written: w, expected: n, os: None })
        },
        None => Some(TransmitError::PartialWrite { written: 0, expected: n, os: None }),
    }
}

pub open spec fn report(address: String, o: Outcome) -> Report {
    match o {
        Ok(r) => Ok(r),
        Err(error) => Err(TransmitFailure { address, error }),
    }
}

/// `j` moved on to `phase`, waiting on `a`.
pub open spec fn next(j: Job, phase: Phase, a: Action) -> Progress {
    Progress::Next(
        Job { transport: j.transport, address: j.address, payload_len: j.payload_len, phase },
        a,
    )
}

pub open spec fn finish(j: Job, o: Outcome) -> Progress {
    Progress::Finished(report(j.address, o))
}

/// The first action of a job, or its report when the platform cannot serve it.
pub open spec fn start_spec(t: Transport, caps: Capabilities, address: String, n: usize) -> Progress {
    let j = |phase: Phase| Job { transport: t, address, payload_len: n, phase };
    match t {
        Transport::Serial => Progress::Next(j(Phase::SerialOpening), Action::OpenSerial(serial_settings())),
        Transport::NativeSpooler => if caps.spooler_api {
            Progress::Next(j(Phase::PrinterOpening), Action::OpenPrinter)
        } else {
            Progress::Finished(report(address, Err(TransmitError::PlatformUnsupported(t))))
        },
        Transport::ShellPrint => if caps.shell {
            Progress::Next(j(Phase::TempWriting), Action::WriteTempFile)
        } else {
            Progress::Finished(report(address, Err(TransmitError::PlatformUnsupported(t))))
        },
    }
}

/// After a failed spooler step: close the printer, then report `err`.
pub open spec fn abort(j: Job, err: TransmitError) -> Progress {
    next(j, Phase::PrinterAborting(err), Action::ClosePrinter)
}

/// A spooler step between opening and closing the printer: a failure aborts.
pub open spec fn spooler_step(j: Job, e: Event, step: Step, phase: Phase, a: Action) -> Progress {
    match failure_of(e) {
        Some(os) => abort(j, TransmitError::SpoolerStepFailed { step, os }),
        None => next(j, phase, a),
    }
}

/// What the shell step leaves to report once the temporary file is gone.
pub open spec fn shell_outcome(n: usize, e: Event) -> Outcome {
    match e {
        Event::Exited { code, stderr } => if code == 0 {
            success(n)
        } else {
            Err(TransmitError::ShellInvocationFailed(ShellFailure::ExitStatus { code, stderr }))
        },
        Event::Failed(os) => Err(TransmitError::ShellInvocationFailed(ShellFailure::Spawn(os))),
        _ => Err(TransmitError::ShellInvocationFailed(ShellFailure::NoStatus)),
    }
}

/// Where `j` goes once the caller reports `e`.
pub open spec fn step(j: Job, e: Event) -> Progress {
    let n = j.payload_len;
    match j.phase {
        Phase::SerialOpening => match failure_of(e) {
            Some(os) => finish(j, Err(TransmitError::OpenFailed(os))),
            None => next(j, Phase::SerialWriting, Action::WriteSerial),
        },
        Phase::SerialWriting => match failure_of(e) {
            Some(os) => next(
                j,
                Phase::SerialClosing(Err(TransmitError::PartialWrite { written: 0, expected: n, os: Some(os) })),
                Action::CloseSerial,
            ),
            None => match count_verdict(n, e) {
                None => next(j, Phase::SerialClosing(success(n)), Action::CloseSerial),
                Some(err) => next(j, Phase::SerialClosing(Err(err)), Action::CloseSerial),
            },
        },
        Phase::SerialClosing(o) => finish(j, o),
        Phase::PrinterOpening => match failure_of(e) {
            Some(os) => finish(j, Err(TransmitError::OpenFailed(os))),
            None => next(j, Phase::DocStarting, Action::StartRawDoc),
        },
        Phase::DocStarting => spooler_step(j, e, Step::StartDoc, Phase::PageStarting, Action::StartPage),
        Phase::PageStarting => spooler_step(j, e, Step::StartPage, Phase::PrinterWriting, Action::WritePrinter),
        Phase::PrinterWriting => match failure_of(e) {
            Some(os) => abort(j, TransmitError::SpoolerStepFailed { step: Step::WritePrinter, os }),
            None => match count_verdict(n, e) {
                None => next(j, Phase::PageEnding, Action::EndPage),
                Some(err) => abort(j, err),
            },
        },
        Phase::PageEnding => spooler_step(j, e, Step::EndPage, Phase::DocEnding, Action::EndDoc),
        Phase::DocEnding => spooler_step(j, e, Step::EndDoc, Phase::PrinterClosing, Action::ClosePrinter),
        Phase::PrinterClosing => match failure_of(e) {
            Some(os) => finish(j, Err(TransmitError::SpoolerStepFailed { step: Step::ClosePrinter, os })),
            None => finish(j, success(n)),
        },
        Phase::PrinterAborting(err) => finish(j, Err(err)),
        Phase::TempWriting => match failure_of(e) {
            Some(os) => next(
                j,
                Phase::TempDeleting(Err(TransmitError::ShellInvocationFailed(ShellFailure::TempFileWrite(os)))),
                Action::DeleteTempFile,
            ),
            None => next(j, Phase::ShellRunning, Action::RunShell),
        },
        Phase::ShellRunning => next(j, Phase::TempDeleting(shell_outcome(n, e)), Action::DeleteTempFile),
        Phase::TempDeleting(o) => finish(j, o),
    }
}

fn failure(e: Event) -> (r: Option<OsError>)
    ensures
        r == failure_of(e),
{
    match e {
        Event::Failed(os) => Some(os),
        Event::Exited { code, stderr } => if code != 0 {
            Some(OsError { code, message: stderr })
        } else {
            None
        },
        _ => None,
    }
}

fn written(e: &Event) -> (r: Option<usize>)
    ensures
        r == written_by(*e),
{
    match e {
        Event::Wrote(w) => Some(*w),
        _ => None,
    }
}

fn verdict_on_count(n: usize, w: Option<usize>) -> (r: Option<TransmitError>)
    ensures
        forall|e: Event| written_by(e) == w ==> r == count_verdict(n, e),
{
    match w {
        Some(w) => if w == n {
            None
        } else {
            Some(TransmitError::PartialWrite { written: w, expected: n, os: None })
        },
        None => Some(TransmitError::PartialWrite { written: 0, expected: n, os: None }),
    }
}

fn outcome_of_shell(n: usize, e: Event) -> (r: Outcome)
    ensures
        r == shell_outcome(n, e),
{
    match e {
        Event::Exited { code, stderr } => if code == 0 {
            Ok(TransmissionResult { bytes_written: n, success: true })
        } else {
            Err(TransmitError::ShellInvocationFailed(ShellFailure::ExitStatus { code, stderr }))
        },
        Event::Failed(os) => Err(TransmitError::ShellInvocationFailed(ShellFailure::Spawn(os))),
        _ => Err(TransmitError::ShellInvocationFailed(ShellFailure::NoStatus)),
    }
}

fn to_report(address: String, o: Outcome) -> (r: Report)
    ensures
        r == report(address, o),
{
    match o {
        Ok(r) => Ok(r),
        Err(error) => Err(TransmitFailure { address, error }),
    }
}

impl Job {
    /// Begins a transmission of `payload_len` bytes to `address` over `transport`. A
    /// transport the platform cannot serve finishes at once with `PlatformUnsupported`.
    pub fn start(transport: Transport, caps: Capabilities, address: String, payload_len: usize) -> (r: Progress)
        ensures
            r == start_spec(transport, caps, address, payload_len),
    {
        let t = transport;
        let n = payload_len;
        match transport {
            Transport::Serial => {
                let p = transmit_parameters();
                Progress::Next(
                    Job { transport: t, address, payload_len: n, phase: Phase::SerialOpening },
                    Action::OpenSerial(p),
                )
            },
            Transport::NativeSpooler => if caps.spooler_api {
                Progress::Next(
                    Job { transport: t, address, payload_len: n, phase: Phase::PrinterOpening },
                    Action::OpenPrinter,
                )
            } else {
                Progress::Finished(to_report(address, Err(TransmitError::PlatformUnsupported(t))))
            },
            Transport::ShellPrint => if caps.shell {
                Progress::Next(
                    Job { transport: t, address, payload_len: n, phase: Phase::TempWriting },
                    Action::WriteTempFile,
                )
            } else {
                Progress::Finished(to_report(address, Err(TransmitError::PlatformUnsupported(t))))
            },
        }
    }

    fn moved(self, phase: Phase, a: Action) -> (r: Progress)
        ensures
            r == next(self, phase, a),
    {
        Progress::Next(
            Job { transport: self.transport, address: self.address, payload_len: self.payload_len, phase },
            a,
        )
    }

    fn finished(self, o: Outcome) -> (r: Progress)
        ensures
            r == finish(self, o),
    {
        Progress::Finished(to_report(self.address, o))
    }

    fn after_spooler_step(self, e: Event, step: Step, phase: Phase, a: Action) -> (r: Progress)
        ensures
            r == spooler_step(self, e, step, phase, a),
    {
        match failure(e) {
            Some(os) => self.moved(
                Phase::PrinterAborting(TransmitError::SpoolerStepFailed { step, os }),
                Action::ClosePrinter,
            ),
            None => self.moved(phase, a),
        }
    }

    /// Takes the event that the last action produced and moves the job on.
    pub fn advance(self, e: Event) -> (r: Progress)
        ensures
            r == step(self, e),
    {
        let n = self.payload_len;
        let w = written(&e);
        // The phase is taken out to be matched on; `job` keeps the rest.
        let Job { transport, address, payload_len, phase } = self;
        let job = Job { transport, address, payload_len, phase: Phase::SerialOpening };
        match phase {
            Phase::SerialOpening => match failure(e) {
                Some(os) => job.finished(Err(TransmitError::OpenFailed(os))),
                None => job.moved(Phase::SerialWriting, Action::WriteSerial),
            },
            Phase::SerialWriting => match failure(e) {
                Some(os) => job.moved(
                    Phase::SerialClosing(
                        Err(TransmitError::PartialWrite { written: 0, expected: n, os: Some(os) }),
                    ),
                    Action::CloseSerial,
                ),
                None => match verdict_on_count(n, w) {
                    None => job.moved(
                        Phase::SerialClosing(Ok(TransmissionResult { bytes_written: n, success: true })),
                        Action::CloseSerial,
                    ),
                    Some(err) => job.moved(Phase::SerialClosing(Err(err)), Action::CloseSerial),
                },
            },
            Phase::SerialClosing(o) => job.finished(o),
            Phase::PrinterOpening => match failure(e) {
                Some(os) => job.finished(Err(TransmitError::OpenFailed(os))),
                None => job.moved(Phase::DocStarting, Action::StartRawDoc),
            },
            Phase::DocStarting => job.after_spooler_step(e, Step::StartDoc, Phase::PageStarting, Action::StartPage),
            Phase::PageStarting => job.after_spooler_step(
                e,
                Step::StartPage,
                Phase::PrinterWriting,
                Action::WritePrinter,
            ),
            Phase::PrinterWriting => match failure(e) {
                Some(os) => job.moved(
                    Phase::PrinterAborting(TransmitError::SpoolerStepFailed { step: Step::WritePrinter, os }),
                    Action::ClosePrinter,
                ),
                None => match verdict_on_count(n, w) {
                    None => job.moved(Phase::PageEnding, Action::EndPage),
                    Some(err) => job.moved(Phase::PrinterAborting(err), Action::ClosePrinter),
                },
            },
            Phase::PageEnding => job.after_spooler_step(e, Step::EndPage, Phase::DocEnding, Action::EndDoc),
            Phase::DocEnding => job.after_spooler_step(
                e,
                Step::EndDoc,
                Phase::PrinterClosing,
                Action::ClosePrinter,
            ),
            Phase::PrinterClosing => match failure(e) {
                Some(os) => job.finished(
                    Err(TransmitError::SpoolerStepFailed { step: Step::ClosePrinter, os }),
                ),
                None => job.finished(Ok(TransmissionResult { bytes_written: n, success: true })),
            },
            Phase::PrinterAborting(err) => job.finished(Err(err)),
            Phase::TempWriting => match failure(e) {
                Some(os) => job.moved(
                    Phase::TempDeleting(
                        Err(TransmitError::ShellInvocationFailed(ShellFailure::TempFileWrite(os))),
                    ),
                    Action::DeleteTempFile,
                ),
                None => job.moved(Phase::ShellRunning, Action::RunShell),
            },
            Phase::ShellRunning => {
                let o = outcome_of_shell(n, e);
                job.moved(Phase::TempDeleting(o), Action::DeleteTempFile)
            },
            Phase::TempDeleting(o) => job.finished(o),
        }
    }
}

/// The name of the temporary file for a ticket sent at `millis` milliseconds.
pub open spec fn temp_file_name_of(millis: nat) -> Seq<char> {
    "ticket_"@ + decimal(millis) + ".prn"@
}

/// The temporary file's name; the timestamp keeps concurrent tickets apart.
pub fn temp_file_name(millis: u64) -> (r: String)
    ensures
        r@ == temp_file_name_of(millis as nat),
{
    let mut s = String::from_str("ticket_");
    let digits = decimal_string(millis);
    s.append(digits.as_str());
    s.append(".prn");
    s
}

/// The phases in which a serial or printer handle is open.
pub open spec fn holds_handle(p: Phase) -> bool {
    ||| p is SerialWriting
    ||| p is DocStarting
    ||| p is PageStarting
    ||| p is PrinterWriting
    ||| p is PageEnding
    ||| p is DocEnding
}

/// An open handle is always released: a job starts holding none, a step out of a
/// phase that holds a handle into one that does not asks for the handle to be
/// closed, and a job never finishes while it holds one.
pub proof fn lemma_handles_released(j: Job, e: Event, caps: Capabilities)
    ensures
        match start_spec(j.transport, caps, j.address, j.payload_len) {
            Progress::Next(j0, _) => !holds_handle(j0.phase),
            Progress::Finished(_) => true,
        },
        match step(j, e) {
            Progress::Next(j2, a) => holds_handle(j.phase) && !holds_handle(j2.phase) ==> (a is CloseSerial
                || a is ClosePrinter),
            Progress::Finished(_) => !holds_handle(j.phase),
        },
{
}

/// The action a progress asks for, if any.
pub open spec fn issued(p: Progress) -> Seq<Action> {
    match p {
        Progress::Next(_, a) => seq![a],
        Progress::Finished(_) => Seq::empty(),
    }
}

/// Drives `p` through the events `es`, one step each, until it finishes; returns
/// where it ends and the actions it asked for on the way.
pub open spec fn run(p: Progress, es: Seq<Event>) -> (Progress, Seq<Action>)
    decreases es.len(),
{
    match p {
        Progress::Next(j, _) => if es.len() == 0 {
            (p, Seq::empty())
        } else {
            let p2 = step(j, es[0]);
            let rest = run(p2, es.drop_first());
            (rest.0, issued(p2) + rest.1)
        },
        Progress::Finished(_) => (p, Seq::empty()),
    }
}

/// A whole transmission: its start, then the events `es`.
pub open spec fn transcript(
    t: Transport,
    caps: Capabilities,
    address: String,
    n: usize,
    es: Seq<Event>,
) -> (Progress, Seq<Action>) {
    let first = start_spec(t, caps, address, n);
    let rest = run(first, es);
    (rest.0, issued(first) + rest.1)
}

/// Whether the temporary file exists after `acts`, given whether it existed before.
pub open spec fn temp_file_after(present: bool, acts: Seq<Action>) -> bool
    decreases acts.len(),
{
    if acts.len() == 0 {
        present
    } else {
        let now = match acts[0] {
            Action::WriteTempFile => true,
            Action::DeleteTempFile => false,
            _ => present,
        };
        temp_file_after(now, acts.drop_first())
    }
}

pub open spec fn shell_progress(p: Progress) -> bool {
    match p {
        Progress::Next(j, _) => j.phase is TempWriting || j.phase is ShellRunning || j.phase is TempDeleting,
        Progress::Finished(_) => true,
    }
}

pub open spec fn holds_temp_file(p: Progress) -> bool {
    match p {
        Progress::Next(j, _) => j.phase is TempWriting || j.phase is ShellRunning,
        Progress::Finished(_) => false,
    }
}

proof fn lemma_shell_run(p: Progress, es: Seq<Event>, present: bool)
    requires
        shell_progress(p),
        present == holds_temp_file(p),
    ensures
        shell_progress(run(p, es).0),
        temp_file_after(present, run(p, es).1) == holds_temp_file(run(p, es).0),
    decreases es.len(),
{
    match p {
        Progress::Next(j, _) => if es.len() > 0 {
            let p2 = step(j, es[0]);
            let rest = run(p2, es.drop_first());
            match p2 {
                Progress::Next(_, a) => {
                    let now = match a {
                        Action::WriteTempFile => true,
                        Action::DeleteTempFile => false,
                        _ => present,
                    };
                    lemma_shell_run(p2, es.drop_first(), now);
                    assert((seq![a] + rest.1).drop_first() =~= rest.1);
                },
                Progress::Finished(_) => {
                    assert(issued(p2) + rest.1 =~= Seq::<Action>::empty());
                },
            }
        },
        Progress::Finished(_) => {},
    }
}

/// A shell job never ends leaving its temporary file behind: whatever each step
/// reports, once the job has finished the file it wrote has been deleted.
pub proof fn lemma_shell_job_removes_temp_file(caps: Capabilities, address: String, n: usize, es: Seq<Event>)
    ensures
        transcript(Transport::ShellPrint, caps, address, n, es).0 is Finished ==> !temp_file_after(
            false,
            transcript(Transport::ShellPrint, caps, address, n, es).1,
        ),
{
    let first = start_spec(Transport::ShellPrint, caps, address, n);
    let rest = run(first, es);
    let acts = issued(first) + rest.1;
    if caps.shell {
        assert(acts[0] == Action::WriteTempFile);
        assert(acts.drop_first() =~= rest.1);
        lemma_shell_run(first, es, true);
    } else {
        assert(acts =~= Seq::<Action>::empty());
    }
}

/// Every `Ok` that `p` holds or reports is a success over all `n` bytes.
pub open spec fn full_successes(p: Progress, n: usize) -> bool {
    match p {
        Progress::Next(j, _) => j.payload_len == n && match j.phase {
            Phase::SerialClosing(o) => o is Ok ==> o == success(n),
            Phase::TempDeleting(o) => o is Ok ==> o == success(n),
            _ => true,
        },
        Progress::Finished(r) => r is Ok ==> r == Ok::<TransmissionResult, TransmitFailure>(
            TransmissionResult { bytes_written: n, success: true },
        ),
    }
}

proof fn lemma_run_full_successes(p: Progress, es: Seq<Event>, n: usize)
    requires
        full_successes(p, n),
    ensures
        full_successes(run(p, es).0, n),
    decreases es.len(),
{
    match p {
        Progress::Next(j, _) => if es.len() > 0 {
            lemma_run_full_successes(step(j, es[0]), es.drop_first(), n);
        },
        Progress::Finished(_) => {},
    }
}

/// A transmission that finishes with success reports `bytes_written` equal to the
/// payload's length, on every transport and for every sequence of events.
pub proof fn lemma_success_is_full_length(
    t: Transport,
    caps: Capabilities,
    address: String,
    n: usize,
    es: Seq<Event>,
)
    ensures
        transcript(t, caps, address, n, es).0 is Finished && transcript(t, caps, address, n, es).0->Finished_0 is Ok
            ==> transcript(t, caps, address, n, es).0 == Progress::Finished(
            Ok(TransmissionResult { bytes_written: n, success: true }),
        ),
{
    lemma_run_full_successes(start_spec(t, caps, address, n), es, n);
}

/// A serial device that opens, takes every byte and closes yields success with the
/// payload's length as the byte count.
pub proof fn lemma_serial_full_write_succeeds(caps: Capabilities, address: String, n: usize)
    ensures
        transcript(Transport::Serial, caps, address, n, seq![Event::Done, Event::Wrote(n), Event::Done]).0
            == Progress::Finished(Ok(TransmissionResult { bytes_written: n, success: true })),
        transcript(Transport::Serial, caps, address, n, seq![Event::Done, Event::Wrote(n), Event::Done]).1
            =~= seq![Action::OpenSerial(serial_settings()), Action::WriteSerial, Action::CloseSerial],
{
    let es = seq![Event::Done, Event::Wrote(n), Event::Done];
    let j0 = Job { transport: Transport::Serial, address, payload_len: n, phase: Phase::SerialOpening };
    let j1 = Job { transport: Transport::Serial, address, payload_len: n, phase: Phase::SerialWriting };
    let j2 = Job { transport: Transport::Serial, address, payload_len: n, phase: Phase::SerialClosing(success(n)) };
    let p0 = Progress::Next(j0, Action::OpenSerial(serial_settings()));
    let p1 = Progress::Next(j1, Action::WriteSerial);
    let p2 = Progress::Next(j2, Action::CloseSerial);
    let p3 = Progress::Finished(report(address, success(n)));
    assert(step(j0, es[0]) == p1);
    assert(step(j1, es[1]) == p2);
    assert(step(j2, es[2]) == p3);
    assert(run(p3, es.drop_first().drop_first().drop_first()).1 =~= Seq::<Action>::empty());
    assert(run(p2, es.drop_first().drop_first()).1 =~= Seq::<Action>::empty());
    assert(run(p1, es.drop_first()).1 =~= seq![Action::CloseSerial]);
    assert(run(p0, es).1 =~= seq![Action::WriteSerial, Action::CloseSerial]);
}

/// A serial device that takes a number of bytes other than the payload's length
/// yields `PartialWrite` with both counts, never success.
pub proof fn lemma_serial_short_write_fails(caps: Capabilities, address: String, n: usize, w: usize)
    requires
        w != n,
    ensures
        transcript(Transport::Serial, caps, address, n, seq![Event::Done, Event::Wrote(w), Event::Done]).0
            == Progress::Finished(Err(TransmitFailure {
            address,
            error: TransmitError::PartialWrite { written: w, expected: n, os: None },
        })),
        transcript(Transport::Serial, caps, address, n, seq![Event::Done, Event::Wrote(w), Event::Done]).1
            =~= seq![Action::OpenSerial(serial_settings()), Action::WriteSerial, Action::CloseSerial],
{
    let es = seq![Event::Done, Event::Wrote(w), Event::Done];
    let o: Outcome = Err(TransmitError::PartialWrite { written: w, expected: n, os: None });
    let j0 = Job { transport: Transport::Serial, address, payload_len: n, phase: Phase::SerialOpening };
    let j1 = Job { transport: Transport::Serial, address, payload_len: n, phase: Phase::SerialWriting };
    let j2 = Job { transport: Transport::Serial, address, payload_len: n, phase: Phase::SerialClosing(o) };
    let p0 = Progress::Next(j0, Action::OpenSerial(serial_settings()));
    let p1 = Progress::Next(j1, Action::WriteSerial);
    let p2 = Progress::Next(j2, Action::CloseSerial);
    let p3 = Progress::Finished(report(address, o));
    assert(step(j0, es[0]) == p1);
    assert(step(j1, es[1]) == p2);
    assert(step(j2, es[2]) == p3);
    assert(run(p3, es.drop_first().drop_first().drop_first()).1 =~= Seq::<Action>::empty());
    assert(run(p2, es.drop_first().drop_first()).1 =~= Seq::<Action>::empty());
    assert(run(p1, es.drop_first()).1 =~= seq![Action::CloseSerial]);
    assert(run(p0, es).1 =~= seq![Action::WriteSerial, Action::CloseSerial]);
}

/// A spooler job whose printer cannot be opened finishes with `OpenFailed`, naming
/// the printer, right after the open: it attempts no document, page or close step,
/// whatever follows.
pub proof fn lemma_printer_open_failure_stops(
    caps: Capabilities,
    address: String,
    n: usize,
    os: OsError,
    later: Seq<Event>,
)
    requires
        caps.spooler_api,
    ensures
        transcript(Transport::NativeSpooler, caps, address, n, seq![Event::Failed(os)] + later).0
            == Progress::Finished(Err(TransmitFailure { address, error: TransmitError::OpenFailed(os) })),
        transcript(Transport::NativeSpooler, caps, address, n, seq![Event::Failed(os)] + later).1 =~= seq![
            Action::OpenPrinter,
        ],
{
    let es = seq![Event::Failed(os)] + later;
    assert(es[0] == Event::Failed(os));
    let j0 = Job { transport: Transport::NativeSpooler, address, payload_len: n, phase: Phase::PrinterOpening };
    let p1 = Progress::Finished(report(address, Err(TransmitError::OpenFailed(os))));
    assert(step(j0, es[0]) == p1);
    assert(run(p1, es.drop_first()).1 =~= Seq::<Action>::empty());
    assert(run(Progress::Next(j0, Action::OpenPrinter), es).1 =~= Seq::<Action>::empty());
}

} // verus!
