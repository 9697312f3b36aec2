//! Enumeration of candidate endpoints per transport kind.
use vstd::prelude::*;
use crate::endpoint::{
    filtered, serial_endpoint, spooler_endpoint, Endpoint, EndpointView, OsError, PrinterFilter,
    PrinterInfo, PrinterView,
};

verus! {

pub open spec fn printer_views(ps: Seq<PrinterInfo>) -> Seq<PrinterView> {
    ps.map_values(|p: PrinterInfo| p@)
}

pub open spec fn endpoint_views(es: Seq<Endpoint>) -> Seq<EndpointView> {
    es.map_values(|e: Endpoint| e@)
}

pub open spec fn string_views(ss: Seq<String>) -> Seq<Seq<char>> {
    ss.map_values(|s: String| s@)
}

/// What an operating-system query found; a failed query found nothing.
pub open spec fn found_items<T>(query: Result<Vec<T>, OsError>) -> Seq<T> {
    match query {
        Ok(v) => v@,
        Err(_) => Seq::empty(),
    }
}

/// Discovery failures are soft: a failed query yields an empty listing.
pub fn found<T>(query: Result<Vec<T>, OsError>) -> (r: Vec<T>)
    ensures
        r@ == found_items(query),
{
    match query {
        Ok(v) => v,
        Err(_) => Vec::new(),
    }
}

/// One serial endpoint per device path, in order, unfiltered.
pub fn list_serial_endpoints(paths: &Vec<String>) -> (r: Vec<Endpoint>)
    ensures
        endpoint_views(r@) == string_views(paths@).map_values(|s: Seq<char>| serial_endpoint(s)),
{
    let mut out: Vec<Endpoint> = Vec::new();
    let mut i: usize = 0;
    while i < paths.len()
        invariant
            i <= paths@.len(),
            endpoint_views(out@) =~= string_views(paths@.take(i as int)).map_values(
                |s: Seq<char>| serial_endpoint(s),
            ),
        decreases paths@.len() - i,
    {
        let e = Endpoint::serial(paths[i].clone());
        let ghost prev = out@;
        out.push(e);
        assert(out@ =~= prev.push(e));
        assert(endpoint_views(out@) =~= endpoint_views(prev).push(serial_endpoint(paths@[i as int]@)));
        assert(string_views(paths@.take(i + 1)) =~= string_views(paths@.take(i as int)).push(
            paths@[i as int]@,
        ));
        i = i + 1;
    }
    assert(paths@.take(i as int) =~= paths@);
    out
}

/// The registered printers that `filter` keeps, as spooler endpoints, in registry order.
pub fn list_spooler_endpoints(printers: &Vec<PrinterInfo>, filter: PrinterFilter) -> (r: Vec<
    Endpoint,
>)
    ensures
        endpoint_views(r@) == filtered(printer_views(printers@), filter).map_values(
            |p: PrinterView| spooler_endpoint(p),
        ),
{
    let mut out: Vec<Endpoint> = Vec::new();
    let mut i: usize = 0;
    while i < printers.len()
        invariant
            i <= printers@.len(),
            endpoint_views(out@) =~= filtered(printer_views(printers@.take(i as int)), filter).map_values(
                |p: PrinterView| spooler_endpoint(p),
            ),
        decreases printers@.len() - i,
    {
        let ghost before = printer_views(printers@.take(i as int));
        let ghost after = printer_views(printers@.take(i + 1));
        assert(after.drop_last() =~= before);
        assert(after.last() == printers@[i as int]@);
        if printers[i].passes(filter) {
            let e = Endpoint::spooler(&printers[i]);
            let ghost prev = out@;
            out.push(e);
            assert(out@ =~= prev.push(e));
            assert(endpoint_views(out@) =~= endpoint_views(prev).push(spooler_endpoint(after.last())));
        }
        i = i + 1;
    }
    assert(printers@.take(i as int) =~= printers@);
    out
}

} // verus!
