use ticket_printer::directory::{
    all_printers, com_printers, list_all_printers, list_printers, list_serial_ports,
    list_usb_printers, usb_printers,
};
use ticket_printer::discovery::{found, list_serial_endpoints, list_spooler_endpoints};
use ticket_printer::endpoint::{Endpoint, OsError, PrinterFilter, PrinterInfo, TransportKind};
use ticket_printer::text::{contains_ignore_case, decimal_string, signed_decimal_string};

fn printer(name: &str, port: &str) -> PrinterInfo {
    PrinterInfo { name: name.to_string(), port: port.to_string() }
}

fn registry() -> Vec<PrinterInfo> {
    vec![
        printer("Office Laser", "192.168.1.20"),
        printer("POS-58", "USB001"),
        printer("TM-T20", "COM3"),
        printer("Kitchen Receipt", "LPT1"),
        printer("Star", "com9"),
    ]
}

fn os_error(code: i32, message: &str) -> OsError {
    OsError { code, message: message.to_string() }
}

#[test]
fn contains_ignore_case_matches_any_case() {
    assert!(contains_ignore_case("USB001", "usb"));
    assert!(contains_ignore_case("my Epson printer", "EPSON"));
    assert!(contains_ignore_case("com", "com"));
    assert!(!contains_ignore_case("co", "com"));
    assert!(!contains_ignore_case("LPT1", "usb"));
    assert!(contains_ignore_case("anything", ""));
    assert!(!contains_ignore_case("", "x"));
}

#[test]
fn decimal_rendering() {
    assert_eq!(decimal_string(0), "0");
    assert_eq!(decimal_string(7), "7");
    assert_eq!(decimal_string(1700000000123), "1700000000123");
    assert_eq!(decimal_string(u64::MAX), "18446744073709551615");
    assert_eq!(signed_decimal_string(-2), "-2");
    assert_eq!(signed_decimal_string(i32::MIN), "-2147483648");
    assert_eq!(signed_decimal_string(121), "121");
}

#[test]
fn serial_listing_of_no_devices_is_empty() {
    let none: Vec<String> = Vec::new();
    assert!(list_serial_endpoints(&none).is_empty());
    assert!(found::<String>(Ok(Vec::new())).is_empty());
    assert!(list_serial_ports(Ok(Vec::new())).is_empty());
    assert!(list_serial_ports(Err(os_error(5, "denied"))).is_empty());
    assert_eq!(list_serial_ports(Ok(vec!["/dev/ttyS0".to_string(), "/dev/ttyUSB0".to_string()])), vec![
        "/dev/ttyS0".to_string(),
        "/dev/ttyUSB0".to_string(),
    ]);
}

#[test]
fn failed_query_yields_empty_listing() {
    let r: Result<Vec<String>, OsError> = Err(os_error(5, "Access is denied."));
    assert!(found(r).is_empty());
    assert!(list_all_printers(Err(os_error(1722, "RPC server unavailable"))).is_empty());
    assert_eq!(list_printers(Err(os_error(5, "denied")), Ok(vec!["/dev/ttyS0".to_string()])), vec![
        "/dev/ttyS0".to_string(),
    ]);
}

#[test]
fn serial_endpoints_keep_paths_in_order() {
    let paths = vec!["/dev/ttyUSB0".to_string(), "COM4".to_string()];
    let es = list_serial_endpoints(&paths);
    assert_eq!(es.len(), 2);
    assert_eq!(es[0].kind, TransportKind::SerialPort);
    assert_eq!(es[0].address, "/dev/ttyUSB0");
    assert_eq!(es[0].display_label.as_deref(), Some("/dev/ttyUSB0"));
    assert_eq!(es[1].address, "COM4");
}

#[test]
fn usb_filter_matches_port_name_and_brand() {
    let es = usb_printers(&registry());
    let names: Vec<&str> = es.iter().map(|e| e.address.as_str()).collect();
    assert_eq!(names, vec!["POS-58", "Kitchen Receipt"]);
    assert_eq!(es[0].kind, TransportKind::SpoolerPrinter);
    assert_eq!(es[0].display_label.as_deref(), Some("POS-58 (USB001)"));
    let brand = vec![printer("EPSON TM-T81", "LPT2")];
    assert_eq!(usb_printers(&brand).len(), 1);
}

#[test]
fn com_filter_matches_port_only() {
    let reg = vec![printer("Com Printer", "LPT1"), printer("TM-T20", "COM3")];
    let es = list_spooler_endpoints(&reg, PrinterFilter::ComLike);
    assert_eq!(es.len(), 1);
    assert_eq!(es[0].address, "TM-T20");
}

#[test]
fn usb_and_com_listings_are_disjoint() {
    let reg = registry();
    let usb: Vec<String> = usb_printers(&reg).into_iter().map(|e| e.address).collect();
    let com: Vec<String> = list_spooler_endpoints(&reg, PrinterFilter::ComLike)
        .into_iter()
        .map(|e| e.address)
        .collect();
    assert_eq!(com, vec!["TM-T20".to_string(), "Star".to_string()]);
    for u in &usb {
        assert!(!com.contains(u));
    }
}

#[test]
fn branded_printer_on_com_port_is_in_both_listings() {
    let reg = vec![printer("EPSON TM-T20", "COM3")];
    assert_eq!(usb_printers(&reg).len(), 1);
    assert_eq!(list_spooler_endpoints(&reg, PrinterFilter::ComLike).len(), 1);
}

#[test]
fn all_printers_lists_every_registered_printer() {
    let es = all_printers(&registry());
    assert_eq!(es.len(), 5);
    assert_eq!(es[2].display_label.as_deref(), Some("TM-T20 (COM3)"));
    assert_eq!(list_all_printers(Ok(registry())), vec![
        "Office Laser".to_string(),
        "POS-58".to_string(),
        "TM-T20".to_string(),
        "Kitchen Receipt".to_string(),
        "Star".to_string(),
    ]);
}

#[test]
fn usb_listing_shows_name_and_port() {
    assert_eq!(list_usb_printers(Ok(registry())), vec![
        "POS-58 (USB001)".to_string(),
        "Kitchen Receipt (LPT1)".to_string(),
    ]);
}

#[test]
fn same_device_through_two_transports_appears_twice() {
    let reg = vec![printer("TM-T20", "COM3")];
    let paths = vec!["COM3".to_string()];
    let es: Vec<Endpoint> = com_printers(&reg, &paths);
    assert_eq!(es.len(), 2);
    assert_eq!(es[0].kind, TransportKind::SpoolerPrinter);
    assert_eq!(es[1].kind, TransportKind::SerialPort);
    assert_eq!(list_printers(Ok(reg), Ok(paths)), vec![
        "TM-T20 (COM3)".to_string(),
        "COM3".to_string(),
    ]);
}
