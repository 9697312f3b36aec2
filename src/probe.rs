//! Serial connection parameters and the judgement of a probe.
use vstd::prelude::*;
use crate::endpoint::OsError;
use crate::text::{signed_decimal, signed_decimal_string};

verus! {

/// Line settings for a serial printer: baud rate, data bits, parity, stop bits,
/// flow control, and how long an operation may wait.
#[derive(Clone, Copy, Debug, PartialEq, Eq, Structural)]
pub struct SerialParameters {
    pub baud_rate: u32,
    pub data_bits: u8,
    pub parity: bool,
    pub stop_bits: u8,
    pub flow_control: bool,
    pub timeout_ms: u32,
}

pub const BAUD_RATE: u32 = 9600;
pub const PROBE_TIMEOUT_MS: u32 = 1000;
pub const TRANSMIT_TIMEOUT_MS: u32 = 3000;

/// 9600 baud, 8 data bits, no parity, 1 stop bit, no flow control.
pub open spec fn line_settings(p: SerialParameters, timeout_ms: u32) -> bool {
    &&& p.baud_rate == BAUD_RATE
    &&& p.data_bits == 8
    &&& !p.parity
    &&& p.stop_bits == 1
    &&& !p.flow_control
    &&& p.timeout_ms == timeout_ms
}

fn serial_parameters(timeout_ms: u32) -> (r: SerialParameters)
    ensures
        line_settings(r, timeout_ms),
{
    SerialParameters {
        baud_rate: BAUD_RATE,
        data_bits: 8,
        parity: false,
        stop_bits: 1,
        flow_control: false,
        timeout_ms,
    }
}

/// The settings a probe opens a serial device with.
pub fn probe_parameters() -> (r: SerialParameters)
    ensures
        line_settings(r, PROBE_TIMEOUT_MS),
{
    serial_parameters(PROBE_TIMEOUT_MS)
}

/// The settings a transmission opens a serial device with; it waits longer than a probe.
pub fn transmit_parameters() -> (r: SerialParameters)
    ensures
        line_settings(r, TRANSMIT_TIMEOUT_MS),
{
    serial_parameters(TRANSMIT_TIMEOUT_MS)
}

/// A serial endpoint that could be opened.
#[derive(Clone, Debug)]
pub struct Reachable {
    pub address: String,
}

/// A serial endpoint that could not be opened, with the operating system's error.
#[derive(Clone, Debug)]
pub struct ProbeError {
    pub address: String,
    pub os: OsError,
}

/// `"<address>: os error <code> (<message>)"`.
pub open spec fn probe_error_text(address: Seq<char>, code: int, message: Seq<char>) -> Seq<char> {
    address + ": os error "@ + signed_decimal(code) + " ("@ + message + ")"@
}

impl ProbeError {
    /// The error as one line of text naming the address and the code.
    pub fn describe(&self) -> (r: String)
        ensures
            r@ == probe_error_text(self.address@, self.os.code as int, self.os.message@),
    {
        let mut s = self.address.clone();
        s.append(": os error ");
        let code = signed_decimal_string(self.os.code);
        s.append(code.as_str());
        s.append(" (");
        s.append(self.os.message.as_str());
        s.append(")");
        s
    }
}

/// The verdict of a probe, from whether opening `address` succeeded.
pub fn probe_outcome(address: String, opened: Result<(), OsError>) -> (r: Result<Reachable, ProbeError>)
    ensures
        match opened {
            Ok(()) => r == Ok::<Reachable, ProbeError>(Reachable { address }),
            Err(e) => r == Err::<Reachable, ProbeError>(ProbeError { address, os: e }),
        },
{
    match opened {
        Ok(()) => Ok(Reachable { address }),
        Err(e) => Err(ProbeError { address, os: e }),
    }
}

/// The verdict for each probed serial port: `opened[i]` tells whether `ports[i]`
/// could be opened.
pub fn test_printers(ports: &Vec<String>, opened: &Vec<Result<(), OsError>>) -> (r: Vec<
    Result<Reachable, ProbeError>,
>)
    requires
        ports@.len() == opened@.len(),
    ensures
        r@.len() == ports@.len(),
        forall|i: int|
            0 <= i < r@.len() ==> match (#[trigger] r@[i], opened@[i]) {
                (Ok(a), Ok(())) => a.address@ == ports@[i]@,
                (Err(pe), Err(e)) => pe.address@ == ports@[i]@ && pe.os.code == e.code
                    && pe.os.message@ == e.message@,
                _ => false,
            },
{
    let mut out: Vec<Result<Reachable, ProbeError>> = Vec::new();
    let mut i: usize = 0;
    while i < ports.len()
        invariant
            i <= ports@.len(),
            ports@.len() == opened@.len(),
            out@.len() == i,
            forall|k: int|
                0 <= k < i ==> match (#[trigger] out@[k], opened@[k]) {
                    (Ok(a), Ok(())) => a.address@ == ports@[k]@,
                    (Err(pe), Err(e)) => pe.address@ == ports@[k]@ && pe.os.code == e.code
                        && pe.os.message@ == e.message@,
                    _ => false,
                },
        decreases ports@.len() - i,
    {
        let verdict = match &opened[i] {
            Ok(()) => Ok(()),
            Err(e) => Err(OsError { code: e.code, message: e.message.clone() }),
        };
        out.push(probe_outcome(ports[i].clone(), verdict));
        i = i + 1;
    }
    out
}

} // verus!
