use xdp::bounds::{check_access, read_be16};
use xdp::packet::{Transport, XdpAction, XdpContext};

/// 14-byte Ethernet header (ethertype IPv4) + 20-byte minimal IPv4 header
/// (protocol TCP) + 20-byte TCP header (source port 80, dest port 443),
/// followed by `payload`.
fn tcp_packet(payload: &[u8]) -> Vec<u8> {
    let mut b = vec![0u8; 54];
    b[12] = 0x08;
    b[13] = 0x00;
    b[23] = 6;
    b[34] = 0x00;
    b[35] = 80;
    b[36] = 0x01;
    b[37] = 0xbb;
    b.extend_from_slice(payload);
    b
}

/// 14-byte Ethernet header (ethertype IPv4) + 20-byte minimal IPv4 header
/// (protocol UDP) + 8-byte UDP header (source port 5353, dest port 53).
fn udp_packet() -> Vec<u8> {
    let mut b = vec![0u8; 42];
    b[12] = 0x08;
    b[13] = 0x00;
    b[23] = 17;
    b[34] = 0x14;
    b[35] = 0xe9;
    b[36] = 0x00;
    b[37] = 0x35;
    b
}

#[test]
fn link_header_absent_on_short_buffer() {
    let empty: Vec<u8> = Vec::new();
    assert!(XdpContext::new(&empty).eth().is_none());
    let thirteen = vec![0u8; 13];
    assert!(XdpContext::new(&thirteen).eth().is_none());
    let fourteen = vec![0u8; 14];
    assert!(XdpContext::new(&fourteen).eth().is_some());
}

#[test]
fn link_header_idempotent() {
    let b = tcp_packet(&[]);
    let ctx = XdpContext::new(&b);
    let h1 = ctx.eth().unwrap();
    let h2 = ctx.eth().unwrap();
    assert_eq!(h1.offset(), h2.offset());
    assert_eq!(h1.offset(), 0);
}

#[test]
fn network_header_absent_on_arp() {
    let mut b = vec![0u8; 64];
    b[12] = 0x08;
    b[13] = 0x06;
    let ctx = XdpContext::new(&b);
    assert!(ctx.eth().is_some());
    assert!(ctx.ip().is_none());
    assert!(ctx.transport().is_none());
    assert!(ctx.data().is_none());
    let action = if ctx.ip().is_none() { XdpAction::Pass } else { XdpAction::Drop };
    assert_eq!(action, XdpAction::Pass);
}

#[test]
fn network_header_absent_on_truncated_ip() {
    let mut b = vec![0u8; 33];
    b[12] = 0x08;
    b[13] = 0x00;
    let ctx = XdpContext::new(&b);
    assert!(ctx.eth().is_some());
    assert!(ctx.ip().is_none());
    let mut full = vec![0u8; 34];
    full[12] = 0x08;
    full[13] = 0x00;
    let ctx = XdpContext::new(&full);
    assert_eq!(ctx.ip().unwrap().offset(), 14);
}

#[test]
fn transport_header_absent_on_other_protocol() {
    let mut b = vec![0u8; 64];
    b[12] = 0x08;
    b[13] = 0x00;
    b[23] = 1;
    let ctx = XdpContext::new(&b);
    assert!(ctx.ip().is_some());
    assert!(ctx.transport().is_none());
    assert!(ctx.data().is_none());
}

#[test]
fn tcp_flow_ports_and_empty_payload() {
    let b = tcp_packet(&[]);
    let ctx = XdpContext::new(&b);
    let t = ctx.transport().unwrap();
    assert!(matches!(t, Transport::TCP(_)));
    assert_eq!(t.source(), 80);
    assert_eq!(t.dest(), 443);
    let d = ctx.data().unwrap();
    assert_eq!(d.offset(), 54);
    assert_eq!(d.len(), 0);
}

#[test]
fn transport_header_absent_when_truncated() {
    let b = tcp_packet(&[]);
    let short = &b[..33];
    let ctx = XdpContext::new(short);
    assert!(ctx.transport().is_none());
    let one_short = &b[..53];
    let ctx = XdpContext::new(one_short);
    assert!(ctx.ip().is_some());
    assert!(ctx.transport().is_none());
    let exact = &b[..54];
    let ctx = XdpContext::new(exact);
    assert!(ctx.transport().is_some());
}

#[test]
fn udp_flow_ports_and_payload_cursor() {
    let b = udp_packet();
    let ctx = XdpContext::new(&b);
    let t = ctx.transport().unwrap();
    assert!(matches!(t, Transport::UDP(_)));
    assert_eq!(t.source(), 5353);
    assert_eq!(t.dest(), 53);
    let d = ctx.data().unwrap();
    assert_eq!(d.offset(), 42);
    assert_eq!(d.len(), 0);
}

#[test]
fn slice_exactly_when_enough_remains() {
    let b = tcp_packet(&[10, 20, 30, 40, 50]);
    let ctx = XdpContext::new(&b);
    let d = ctx.data().unwrap();
    assert_eq!(d.len(), 5);
    let all = d.slice(5).unwrap();
    assert_eq!(all, &[10, 20, 30, 40, 50]);
    let part = d.slice(3).unwrap();
    assert_eq!(part, &[10, 20, 30]);
    let none = d.slice(6);
    assert!(none.is_none());
    let empty = d.slice(0).unwrap();
    assert_eq!(empty.len(), 0);
}

#[test]
fn window_accessors() {
    let b = tcp_packet(&[1, 2, 3]);
    let ctx = XdpContext::new(&b);
    assert_eq!(ctx.len(), 57);
    assert_eq!(ctx.inner(), &b[..]);
    let eth = ctx.eth().unwrap();
    assert_eq!(eth.offset(), 0);
    assert_eq!(eth.h_proto(), 0x0800);
    let ip = ctx.ip().unwrap();
    assert_eq!(ip.offset(), 14);
    assert_eq!(ip.protocol(), 6);
}

#[test]
fn bounds_oracle_and_field_read() {
    assert!(check_access(0, 14, 14));
    assert!(!check_access(1, 14, 14));
    assert!(!check_access(0, 15, 14));
    assert!(check_access(34, 20, 54));
    assert!(!check_access(34, 20, 53));
    assert_eq!(read_be16(0x12, 0x34), 0x1234);
    assert_eq!(read_be16(0x00, 0x50), 80);
    assert_eq!(read_be16(0xff, 0xff), 0xffff);
}
