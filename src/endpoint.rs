//! Printer endpoints and the facts discovery reads about them.
use vstd::prelude::*;
use crate::text::{contains_ci, contains_ignore_case};

verus! {

/// The communication mechanism through which a printer is reached.
#[derive(Clone, Copy, Debug, PartialEq, Eq, Structural)]
pub enum TransportKind {
    SerialPort,
    SpoolerPrinter,
}

/// An error reported by the operating system: its numeric code and its text.
#[derive(Clone, Debug)]
pub struct OsError {
    pub code: i32,
    pub message: String,
}

/// A printer as the operating system's printer registry lists it.
#[derive(Clone, Debug)]
pub struct PrinterInfo {
    pub name: String,
    pub port: String,
}

pub struct PrinterView {
    pub name: Seq<char>,
    pub port: Seq<char>,
}

impl View for PrinterInfo {
    type V = PrinterView;

    open spec fn view(&self) -> PrinterView {
        PrinterView { name: self.name@, port: self.port@ }
    }
}

/// Which registered printers a listing keeps.
#[derive(Clone, Copy, Debug, PartialEq, Eq, Structural)]
pub enum PrinterFilter {
    All,
    UsbLike,
    ComLike,
}

/// An addressable printer target.
#[derive(Clone, Debug)]
pub struct Endpoint {
    pub kind: TransportKind,
    /// A serial device path, or the printer's name in the registry.
    pub address: String,
    /// A human-readable label for listings.
    pub display_label: Option<String>,
}

pub struct EndpointView {
    pub kind: TransportKind,
    pub address: Seq<char>,
    pub display_label: Option<Seq<char>>,
}

impl View for Endpoint {
    type V = EndpointView;

    open spec fn view(&self) -> EndpointView {
        EndpointView {
            kind: self.kind,
            address: self.address@,
            display_label: match self.display_label {
                Some(l) => Some(l@),
                None => None,
            },
        }
    }
}

/// A printer whose name or port mentions "usb", "epson" or "receipt", in any case.
pub open spec fn usb_like(p: PrinterView) -> bool {
    ||| contains_ci(p.port, "usb"@)
    ||| contains_ci(p.name, "usb"@)
    ||| contains_ci(p.port, "epson"@)
    ||| contains_ci(p.name, "epson"@)
    ||| contains_ci(p.port, "receipt"@)
    ||| contains_ci(p.name, "receipt"@)
}

/// A printer whose port mentions "com", in any case.
pub open spec fn com_like(p: PrinterView) -> bool {
    contains_ci(p.port, "com"@)
}

pub open spec fn keeps(f: PrinterFilter, p: PrinterView) -> bool {
    match f {
        PrinterFilter::All => true,
        PrinterFilter::UsbLike => usb_like(p),
        PrinterFilter::ComLike => com_like(p),
    }
}

/// The printers of `ps` that `f` keeps, in their order.
pub open spec fn filtered(ps: Seq<PrinterView>, f: PrinterFilter) -> Seq<PrinterView>
    decreases ps.len(),
{
    if ps.len() == 0 {
        Seq::empty()
    } else {
        let rest = filtered(ps.drop_last(), f);
        if keeps(f, ps.last()) {
            rest.push(ps.last())
        } else {
            rest
        }
    }
}

/// `"name (port)"`.
pub open spec fn printer_label(p: PrinterView) -> Seq<char> {
    p.name + " ("@ + p.port + ")"@
}

pub open spec fn spooler_endpoint(p: PrinterView) -> EndpointView {
    EndpointView {
        kind: TransportKind::SpoolerPrinter,
        address: p.name,
        display_label: Some(printer_label(p)),
    }
}

pub open spec fn serial_endpoint(path: Seq<char>) -> EndpointView {
    EndpointView { kind: TransportKind::SerialPort, address: path, display_label: Some(path) }
}

impl PrinterInfo {
    /// Whether the printer looks like a USB receipt printer.
    pub fn is_usb_like(&self) -> (r: bool)
        ensures
            r == usb_like(self@),
    {
        contains_ignore_case(self.port.as_str(), "usb")
            || contains_ignore_case(self.name.as_str(), "usb")
            || contains_ignore_case(self.port.as_str(), "epson")
            || contains_ignore_case(self.name.as_str(), "epson")
            || contains_ignore_case(self.port.as_str(), "receipt")
            || contains_ignore_case(self.name.as_str(), "receipt")
    }

    /// Whether the printer sits on a COM port.
    pub fn is_com_like(&self) -> (r: bool)
        ensures
            r == com_like(self@),
    {
        contains_ignore_case(self.port.as_str(), "com")
    }

    /// Whether `filter` keeps this printer.
    pub fn passes(&self, filter: PrinterFilter) -> (r: bool)
        ensures
            r == keeps(filter, self@),
    {
        match filter {
            PrinterFilter::All => true,
            PrinterFilter::UsbLike => self.is_usb_like(),
            PrinterFilter::ComLike => self.is_com_like(),
        }
    }

    /// The label `"name (port)"`.
    pub fn label(&self) -> (r: String)
        ensures
            r@ == printer_label(self@),
    {
        let mut s = self.name.clone();
        s.append(" (");
        s.append(self.port.as_str());
        s.append(")");
        s
    }
}

impl Endpoint {
    /// The endpoint for a serial device path; its label is the path itself.
    pub fn serial(path: String) -> (r: Endpoint)
        ensures
            r@ == serial_endpoint(path@),
    {
        let label = path.clone();
        Endpoint { kind: TransportKind::SerialPort, address: path, display_label: Some(label) }
    }

    /// The endpoint for a registered printer, labelled `"name (port)"`.
    pub fn spooler(p: &PrinterInfo) -> (r: Endpoint)
        ensures
            r@ == spooler_endpoint(p@),
    {
        Endpoint {
            kind: TransportKind::SpoolerPrinter,
            address: p.name.clone(),
            display_label: Some(p.label()),
        }
    }

    /// The label a listing shows: the display label, or else the address.
    pub fn listing_text(&self) -> (r: String)
        ensures
            r@ == listing_text(self@),
    {
        match &self.display_label {
            Some(l) => l.clone(),
            None => self.address.clone(),
        }
    }
}

pub open spec fn listing_text(e: EndpointView) -> Seq<char> {
    match e.display_label {
        Some(l) => l,
        None => e.address,
    }
}

} // verus!
