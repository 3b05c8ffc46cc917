use proxy_server::addr::{to_ipv4_mapped, Addr, IpAddress};
use proxy_server::drain::{DrainSignal, Watch, WatchAction, WatchEvent};
use proxy_server::ports::port_set_of;
use proxy_server::protocol::{has_prefix, is_http1_request_start, Protocol};
use proxy_server::server::{Adapter, ConnAction, ConnEvent, ConnState, Server};
use proxy_server::source::{Source, TlsStatus};

const PREFACE: &[u8] = b"PRI * HTTP/2.0\r\n\r\nSM\r\n\r\n";

fn v4(a: u8, b: u8, c: u8, d: u8, port: u16) -> Addr {
    let ip = u32::from_be_bytes([a, b, c, d]);
    Addr::new(IpAddress::V4(ip), port)
}

fn v6(ip: u128, port: u16) -> Addr {
    Addr::new(IpAddress::V6(ip), port)
}

fn mapped(a: u8, b: u8, c: u8, d: u8, port: u16) -> Addr {
    let low = u32::from_be_bytes([a, b, c, d]) as u128;
    v6((0xffffu128 << 32) | low, port)
}

fn source_with(local: Addr, orig_dst: Option<Addr>) -> Source {
    Source::for_test(v4(192, 168, 1, 9, 40000), local, orig_dst, TlsStatus::NotTls)
}

fn server_with(ports: &[u16]) -> Server {
    Server::new(v4(0, 0, 0, 0, 4143), port_set_of(&ports.to_vec()))
}

#[test]
fn orig_dst_equal_to_mapped_local_is_suppressed() {
    let s = source_with(mapped(10, 0, 0, 1, 80), Some(v4(10, 0, 0, 1, 80)));
    assert_eq!(s.orig_dst_if_not_local(), None);
}

#[test]
fn orig_dst_on_other_port_is_kept() {
    let s = source_with(v4(10, 0, 0, 1, 81), Some(v4(10, 0, 0, 1, 80)));
    assert_eq!(s.orig_dst_if_not_local(), Some(v4(10, 0, 0, 1, 80)));
}

#[test]
fn orig_dst_absent_stays_absent() {
    let s = source_with(v4(10, 0, 0, 1, 80), None);
    assert_eq!(s.orig_dst_if_not_local(), None);
}

#[test]
fn orig_dst_same_family_equal_is_suppressed() {
    let s = source_with(v4(10, 0, 0, 1, 80), Some(v4(10, 0, 0, 1, 80)));
    assert_eq!(s.orig_dst_if_not_local(), None);
    let s = source_with(v6(1, 443), Some(v6(1, 443)));
    assert_eq!(s.orig_dst_if_not_local(), None);
}

#[test]
fn orig_dst_mapped_against_v4_local_is_suppressed() {
    let s = source_with(v4(127, 0, 0, 1, 4143), Some(mapped(127, 0, 0, 1, 4143)));
    assert_eq!(s.orig_dst_if_not_local(), None);
}

#[test]
fn orig_dst_other_host_is_kept() {
    let s = source_with(v4(10, 0, 0, 1, 80), Some(mapped(10, 0, 0, 2, 80)));
    assert_eq!(s.orig_dst_if_not_local(), Some(mapped(10, 0, 0, 2, 80)));
}

#[test]
fn ipv4_mapped_form_is_recognized() {
    let low = u32::from_be_bytes([1, 2, 3, 4]);
    assert_eq!(to_ipv4_mapped((0xffffu128 << 32) | low as u128), Some(low));
    // the IPv4-compatible form `::1.2.3.4` is not a mapped address
    assert_eq!(to_ipv4_mapped(low as u128), None);
    assert_eq!(to_ipv4_mapped(1), None);
}

#[test]
fn preface_is_http2_whatever_follows() {
    assert_eq!(Protocol::detect(PREFACE), Some(Protocol::Http2));
    let mut w = PREFACE.to_vec();
    w.extend_from_slice(&[0, 0, 18, 4, 0, 0, 0, 0, 0, 0xff]);
    assert_eq!(Protocol::detect(&w), Some(Protocol::Http2));
}

#[test]
fn partial_preface_is_undetected() {
    assert_eq!(Protocol::detect(&PREFACE[..10]), None);
    assert_eq!(Protocol::detect(&PREFACE[..PREFACE.len() - 1]), None);
}

#[test]
fn request_lines_are_http1() {
    for m in ["GET", "HEAD", "POST", "PUT", "DELETE", "CONNECT", "OPTIONS", "TRACE", "PATCH"] {
        let w = format!("{} /index.html HTTP/1.1\r\nHost: a\r\n\r\n", m);
        assert_eq!(Protocol::detect(w.as_bytes()), Some(Protocol::Http1), "{}", m);
    }
    assert_eq!(Protocol::detect(b"CONNECT example.com:443 HTTP/1.1\r\n"), Some(Protocol::Http1));
    assert_eq!(Protocol::detect(b"OPTIONS * HTTP/1.1\r\n"), Some(Protocol::Http1));
    assert_eq!(Protocol::detect(b"GET /"), Some(Protocol::Http1));
    assert!(is_http1_request_start(b"GET /a"));
}

#[test]
fn short_or_malformed_request_lines_are_undetected() {
    assert_eq!(Protocol::detect(b"GET "), None);
    assert_eq!(Protocol::detect(b"GET"), None);
    assert_eq!(Protocol::detect(b"GET  /"), None);
    assert_eq!(Protocol::detect(b"get / HTTP/1.1\r\n"), None);
    assert_eq!(Protocol::detect(b"FETCH / HTTP/1.1\r\n"), None);
    assert_eq!(Protocol::detect(b"GETX / HTTP/1.1\r\n"), None);
    assert!(!is_http1_request_start(b"POST"));
}

#[test]
fn binary_bytes_are_undetected() {
    assert_eq!(Protocol::detect(&[]), None);
    assert_eq!(Protocol::detect(&[0x16, 0x03, 0x01, 0x02, 0x00, 0x01, 0x00, 0x01, 0xfc]), None);
    assert_eq!(Protocol::detect(&[0xff, 0xfe, 0x00, 0x80, 0x7f]), None);
}

#[test]
fn prefix_check() {
    assert!(has_prefix(b"abc", &b"ab".to_vec()));
    assert!(has_prefix(b"abc", &Vec::new()));
    assert!(!has_prefix(b"ab", &b"abc".to_vec()));
    assert!(!has_prefix(b"axc", &b"ab".to_vec()));
}

#[test]
fn port_set_holds_given_ports() {
    let s = port_set_of(&vec![25, 3306, 25]);
    assert!(s.contains(&25));
    assert!(s.contains(&3306));
    assert!(!s.contains(&80));
    assert_eq!(s.len(), 2);
}

#[test]
fn disabled_port_forwards_without_peeking() {
    let server = server_with(&[25, 3306]);
    let s = source_with(v4(10, 0, 0, 1, 4143), Some(v4(10, 0, 0, 7, 3306)));
    assert!(server.detection_disabled(&s));
    let (st, a) = server.serve(&s);
    assert_eq!((st, a), (ConnState::Serving(Adapter::Opaque), ConnAction::Forward));
    // bytes that look like HTTP change nothing once forwarding has begun
    let (st2, a2) = st.on_event(&ConnEvent::Peeked(b"GET / HTTP/1.1\r\n".to_vec()));
    assert_eq!((st2, a2), (st, ConnAction::Wait));
    assert_eq!(st.on_event(&ConnEvent::Finished), (ConnState::Closed, ConnAction::Close));
}

#[test]
fn enabled_port_peeks_first() {
    let server = server_with(&[25]);
    let s = source_with(v4(10, 0, 0, 1, 4143), Some(v4(10, 0, 0, 7, 80)));
    assert!(!server.detection_disabled(&s));
    assert_eq!(server.serve(&s), (ConnState::Peeking, ConnAction::Peek));
    let none = source_with(v4(10, 0, 0, 1, 4143), None);
    assert!(!server.detection_disabled(&none));
    assert_eq!(server.serve(&none), (ConnState::Peeking, ConnAction::Peek));
}

#[test]
fn source_falls_back_to_listen_addr() {
    let server = server_with(&[]);
    let remote = v4(192, 168, 1, 9, 40000);
    let s = server.source(remote, None, None, TlsStatus::Tls);
    assert_eq!(s.local, v4(0, 0, 0, 0, 4143));
    assert_eq!(s.remote, remote);
    assert_eq!(s.tls_status, TlsStatus::Tls);
    let s = server.source(remote, Some(v4(10, 0, 0, 1, 5000)), Some(v4(1, 1, 1, 1, 80)), TlsStatus::NotTls);
    assert_eq!(s.local, v4(10, 0, 0, 1, 5000));
    assert_eq!(s.orig_dst, Some(v4(1, 1, 1, 1, 80)));
}

#[test]
fn http1_connection_makes_one_route_and_serves() {
    let server = server_with(&[25]);
    let s = server.source(v4(192, 168, 1, 9, 40000), None, Some(v4(10, 0, 0, 7, 80)), TlsStatus::Tls);
    assert_eq!(s.tls_status, TlsStatus::Tls);
    let (st, a) = server.serve(&s);
    assert_eq!(a, ConnAction::Peek);
    let (st, a) = st.on_event(&ConnEvent::Peeked(b"GET / HTTP/1.1\r\nHost: x\r\n\r\n".to_vec()));
    assert_eq!((st, a), (ConnState::Routing, ConnAction::MakeRoute));
    let (st, a) = st.on_event(&ConnEvent::RouteMade);
    assert_eq!((st, a), (ConnState::Serving(Adapter::Http1), ConnAction::ServeHttp1));
    // a second request on the same kept-alive connection asks for no new route
    let (st, a) = st.on_event(&ConnEvent::RouteMade);
    assert_eq!((st, a), (ConnState::Serving(Adapter::Http1), ConnAction::Wait));
    assert_eq!(st.on_event(&ConnEvent::Finished), (ConnState::Closed, ConnAction::Close));
}

#[test]
fn http1_route_failure_closes() {
    let (st, a) = ConnState::Routing.on_event(&ConnEvent::RouteFailed);
    assert_eq!((st, a), (ConnState::Closed, ConnAction::Close));
}

#[test]
fn http2_connection_is_served_by_the_multiplexer() {
    let (st, a) = ConnState::Peeking.on_event(&ConnEvent::Peeked(PREFACE.to_vec()));
    assert_eq!((st, a), (ConnState::Serving(Adapter::Http2), ConnAction::ServeHttp2));
    assert_eq!(st.on_event(&ConnEvent::Finished), (ConnState::Closed, ConnAction::Close));
}

#[test]
fn undetected_connection_is_forwarded() {
    let (st, a) = ConnState::Peeking.on_event(&ConnEvent::Peeked(vec![0x16, 0x03, 0x01]));
    assert_eq!((st, a), (ConnState::Serving(Adapter::Opaque), ConnAction::Forward));
}

#[test]
fn peek_failure_closes_and_nothing_follows() {
    let (st, a) = ConnState::Peeking.on_event(&ConnEvent::PeekFailed);
    assert_eq!((st, a), (ConnState::Closed, ConnAction::Close));
    for ev in [
        ConnEvent::Peeked(b"GET / HTTP/1.1\r\n".to_vec()),
        ConnEvent::RouteMade,
        ConnEvent::RouteFailed,
        ConnEvent::Finished,
        ConnEvent::PeekFailed,
    ] {
        assert_eq!(st.on_event(&ev), (ConnState::Closed, ConnAction::Wait));
    }
}

#[test]
fn drain_twice_has_no_further_effect() {
    let mut d = DrainSignal::new();
    assert!(!d.is_draining());
    assert!(d.drain());
    assert!(d.is_draining());
    assert!(!d.drain());
    assert!(d.is_draining());
}

#[test]
fn drain_mid_request_shuts_down_gracefully_then_completes() {
    let mut w = Watch::new();
    assert_eq!(w.on_event(WatchEvent::Drain), WatchAction::RunOnDrain);
    assert_eq!(w.on_event(WatchEvent::Drain), WatchAction::Nothing);
    assert_eq!(w.on_event(WatchEvent::Complete), WatchAction::ReportDone);
    assert_eq!(w.on_event(WatchEvent::Complete), WatchAction::Nothing);
    assert_eq!(w.on_event(WatchEvent::Drain), WatchAction::Nothing);
}

#[test]
fn completed_task_never_runs_on_drain() {
    let mut w = Watch::new();
    assert_eq!(w.on_event(WatchEvent::Complete), WatchAction::ReportDone);
    assert_eq!(w.on_event(WatchEvent::Drain), WatchAction::Nothing);
    assert!(!w.signaled);
}
