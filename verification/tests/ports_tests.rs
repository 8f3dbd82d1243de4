use launcher_core::ports::PortRange;
use launcher_core::ports::PortScan;
use launcher_core::ports::find_available_port;
use launcher_core::ports::port_or_default;

fn range(start: u16, end: u16) -> PortRange {
    PortRange { start, end }
}

#[test]
fn first_free_port_is_returned() {
    // Ports 8085 and 8086 taken, 8087 free, 8088 free: the first free wins.
    let free = vec![false, false, true, true];
    let r = find_available_port(range(8085, 8089), &free);
    assert_eq!(r, Some(8087));
}

#[test]
fn free_port_lies_in_range() {
    let free = vec![true, true, true];
    let r = find_available_port(range(9000, 9003), &free).unwrap();
    assert!(9000 <= r && r < 9003);
    assert_eq!(r, 9000);
}

#[test]
fn exhausted_range_returns_none_and_fallback_applies() {
    // No free port: the caller's fallback path is exercised.
    let free = vec![false, false, false];
    let r = find_available_port(range(8085, 8088), &free);
    assert_eq!(r, None);
    assert_eq!(port_or_default(r, 8085), 8085);
}

#[test]
fn fallback_keeps_found_port() {
    assert_eq!(port_or_default(Some(8091), 8085), 8091);
}

#[test]
fn single_port_range() {
    assert_eq!(find_available_port(range(8085, 8086), &vec![true]), Some(8085));
    assert_eq!(find_available_port(range(8085, 8086), &vec![false]), None);
}

#[test]
fn scanner_walks_ports_in_order() {
    let mut scan = PortScan::new(range(8085, 8088));
    assert_eq!(scan.candidate(), Some(8085));
    scan.mark_unavailable();
    assert_eq!(scan.candidate(), Some(8086));
    scan.mark_unavailable();
    assert_eq!(scan.candidate(), Some(8087));
    scan.mark_unavailable();
    assert_eq!(scan.candidate(), None);
}
