//! Unified printer listings composed from the enumerators.
use vstd::prelude::*;
use crate::discovery::{
    endpoint_views, found, found_items, list_serial_endpoints, list_spooler_endpoints,
    printer_views, string_views,
};
use crate::endpoint::{
    com_like, filtered, keeps, listing_text, serial_endpoint, spooler_endpoint, usb_like, Endpoint,
    EndpointView, OsError, PrinterFilter, PrinterInfo, PrinterView,
};
use crate::text::contains_ci;

verus! {

/// Every registered printer, as spooler endpoints.
pub fn all_printers(registry: &Vec<PrinterInfo>) -> (r: Vec<Endpoint>)
    ensures
        endpoint_views(r@) == filtered(printer_views(registry@), PrinterFilter::All).map_values(
            |p: PrinterView| spooler_endpoint(p),
        ),
{
    list_spooler_endpoints(registry, PrinterFilter::All)
}

/// The USB-like registered printers, as spooler endpoints.
pub fn usb_printers(registry: &Vec<PrinterInfo>) -> (r: Vec<Endpoint>)
    ensures
        endpoint_views(r@) == filtered(printer_views(registry@), PrinterFilter::UsbLike).map_values(
            |p: PrinterView| spooler_endpoint(p),
        ),
{
    list_spooler_endpoints(registry, PrinterFilter::UsbLike)
}

/// The COM-like registered printers, followed by the serial device paths.
/// A device seen through both transports appears twice.
pub fn com_printers(registry: &Vec<PrinterInfo>, serial_paths: &Vec<String>) -> (r: Vec<Endpoint>)
    ensures
        endpoint_views(r@) == filtered(printer_views(registry@), PrinterFilter::ComLike).map_values(
            |p: PrinterView| spooler_endpoint(p),
        ) + string_views(serial_paths@).map_values(|s: Seq<char>| serial_endpoint(s)),
{
    let mut out = list_spooler_endpoints(registry, PrinterFilter::ComLike);
    let mut serial = list_serial_endpoints(serial_paths);
    let ghost a = out@;
    let ghost b = serial@;
    out.append(&mut serial);
    assert(endpoint_views(out@) =~= endpoint_views(a) + endpoint_views(b));
    out
}

/// The serial device paths, as serial endpoints.
pub fn serial_ports(paths: &Vec<String>) -> (r: Vec<Endpoint>)
    ensures
        endpoint_views(r@) == string_views(paths@).map_values(|s: Seq<char>| serial_endpoint(s)),
{
    list_serial_endpoints(paths)
}

/// The serial device paths; empty when the query failed.
pub fn list_serial_ports(serial: Result<Vec<String>, OsError>) -> (r: Vec<String>)
    ensures
        string_views(r@) == string_views(found_items(serial)),
{
    let paths = found(serial);
    let es = serial_ports(&paths);
    let r = listing_texts(&es);
    assert(string_views(r@) =~= string_views(paths@));
    r
}

/// The text each endpoint shows in a listing.
pub fn listing_texts(endpoints: &Vec<Endpoint>) -> (r: Vec<String>)
    ensures
        string_views(r@) == endpoint_views(endpoints@).map_values(|e: EndpointView| listing_text(e)),
{
    let mut out: Vec<String> = Vec::new();
    let mut i: usize = 0;
    while i < endpoints.len()
        invariant
            i <= endpoints@.len(),
            string_views(out@) =~= endpoint_views(endpoints@.take(i as int)).map_values(
                |e: EndpointView| listing_text(e),
            ),
        decreases endpoints@.len() - i,
    {
        let t = endpoints[i].listing_text();
        let ghost prev = out@;
        out.push(t);
        assert(out@ =~= prev.push(t));
        assert(string_views(out@) =~= string_views(prev).push(listing_text(endpoints@[i as int]@)));
        assert(endpoint_views(endpoints@.take(i + 1)) =~= endpoint_views(endpoints@.take(i as int)).push(
            endpoints@[i as int]@,
        ));
        i = i + 1;
    }
    assert(endpoints@.take(i as int) =~= endpoints@);
    out
}

/// The names of all registered printers; empty when the registry could not be read.
pub fn list_all_printers(registry: Result<Vec<PrinterInfo>, OsError>) -> (r: Vec<String>)
    ensures
        string_views(r@) == filtered(printer_views(found_items(registry)), PrinterFilter::All).map_values(
            |p: PrinterView| p.name,
        ),
{
    let printers = found(registry);
    let es = all_printers(&printers);
    let mut out: Vec<String> = Vec::new();
    let mut i: usize = 0;
    while i < es.len()
        invariant
            i <= es@.len(),
            string_views(out@) =~= endpoint_views(es@.take(i as int)).map_values(
                |e: EndpointView| e.address,
            ),
        decreases es@.len() - i,
    {
        let t = es[i].address.clone();
        let ghost prev = out@;
        out.push(t);
        assert(out@ =~= prev.push(t));
        assert(string_views(out@) =~= string_views(prev).push(es@[i as int]@.address));
        assert(endpoint_views(es@.take(i + 1)) =~= endpoint_views(es@.take(i as int)).push(
            es@[i as int]@,
        ));
        i = i + 1;
    }
    assert(es@.take(i as int) =~= es@);
    let ghost sel = filtered(printer_views(printers@), PrinterFilter::All);
    assert(string_views(out@) =~= sel.map_values(|p: PrinterView| p.name)) by {
        assert(endpoint_views(es@).len() == sel.len());
        assert forall|k: int| 0 <= k < sel.len() implies #[trigger] string_views(out@)[k]
            == sel[k].name by {
            assert(endpoint_views(es@)[k] == spooler_endpoint(sel[k]));
        }
    }
    out
}

/// `"name (port)"` of each USB-like registered printer; empty when the registry could
/// not be read.
pub fn list_usb_printers(registry: Result<Vec<PrinterInfo>, OsError>) -> (r: Vec<String>)
    ensures
        string_views(r@) == filtered(printer_views(found_items(registry)), PrinterFilter::UsbLike).map_values(
            |p: PrinterView| listing_text(spooler_endpoint(p)),
        ),
{
    let printers = found(registry);
    let es = usb_printers(&printers);
    let r = listing_texts(&es);
    assert(string_views(r@) =~= filtered(printer_views(printers@), PrinterFilter::UsbLike).map_values(
        |p: PrinterView| listing_text(spooler_endpoint(p)),
    ));
    r
}

/// `"name (port)"` of each COM-like registered printer, then each serial device path.
/// A query that failed contributes nothing.
pub fn list_printers(
    registry: Result<Vec<PrinterInfo>, OsError>,
    serial: Result<Vec<String>, OsError>,
) -> (r: Vec<String>)
    ensures
        string_views(r@) == filtered(printer_views(found_items(registry)), PrinterFilter::ComLike).map_values(
            |p: PrinterView| listing_text(spooler_endpoint(p)),
        ) + string_views(found_items(serial)),
{
    let printers = found(registry);
    let paths = found(serial);
    let es = com_printers(&printers, &paths);
    let r = listing_texts(&es);
    let ghost sel = filtered(printer_views(printers@), PrinterFilter::ComLike);
    assert(string_views(r@) =~= sel.map_values(|p: PrinterView| listing_text(spooler_endpoint(p)))
        + string_views(paths@));
    r
}

/// A printer listed by a filter is in the registry and passes the filter.
proof fn lemma_filtered_member(ps: Seq<PrinterView>, f: PrinterFilter, p: PrinterView)
    requires
        filtered(ps, f).contains(p),
    ensures
        ps.contains(p),
        keeps(f, p),
    decreases ps.len(),
{
    if ps.len() > 0 {
        let rest = filtered(ps.drop_last(), f);
        if rest.contains(p) {
            lemma_filtered_member(ps.drop_last(), f, p);
            let k = choose|k: int| 0 <= k < ps.drop_last().len() && ps.drop_last()[k] == p;
            assert(ps[k] == p);
        } else {
            assert(p == ps.last());
            assert(ps[ps.len() - 1] == p);
        }
    }
}

/// No printer is listed both as USB-like and as COM-like, provided no port mentions
/// both "usb" and "com", and a COM-like printer is USB-like only through "usb" in its
/// port (a printer named "EPSON ..." on a COM port is both).
pub proof fn lemma_usb_and_com_listings_disjoint(ps: Seq<PrinterView>)
    requires
        forall|i: int|
            0 <= i < ps.len() ==> !(contains_ci(#[trigger] ps[i].port, "usb"@) && contains_ci(
                ps[i].port,
                "com"@,
            )),
        forall|i: int|
            0 <= i < ps.len() && com_like(#[trigger] ps[i]) && usb_like(ps[i]) ==> contains_ci(
                ps[i].port,
                "usb"@,
            ),
    ensures
        forall|p: PrinterView|
            !(#[trigger] filtered(ps, PrinterFilter::UsbLike).contains(p) && filtered(
                ps,
                PrinterFilter::ComLike,
            ).contains(p)),
{
    assert forall|p: PrinterView|
        !(#[trigger] filtered(ps, PrinterFilter::UsbLike).contains(p) && filtered(
            ps,
            PrinterFilter::ComLike,
        ).contains(p)) by {
        if filtered(ps, PrinterFilter::UsbLike).contains(p) && filtered(
            ps,
            PrinterFilter::ComLike,
        ).contains(p) {
            lemma_filtered_member(ps, PrinterFilter::UsbLike, p);
            lemma_filtered_member(ps, PrinterFilter::ComLike, p);
            let k = choose|k: int| 0 <= k < ps.len() && ps[k] == p;
            assert(com_like(ps[k]) && usb_like(ps[k]));
        }
    }
}

} // verus!
