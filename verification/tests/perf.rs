use xdp::packet::XdpContext;
use xdp::perf::{PerfMap, PerfMapFlags};

/// A minimal valid TCP packet window: Ethernet (IPv4) + IPv4 (TCP) + TCP
/// header, 54 bytes.
fn tcp_packet() -> Vec<u8> {
    let mut b = vec![0u8; 54];
    b[12] = 0x08;
    b[13] = 0x00;
    b[23] = 6;
    b[34] = 0x00;
    b[35] = 80;
    b[36] = 0x01;
    b[37] = 0xbb;
    b
}

#[test]
fn flags_builders() {
    let f = PerfMapFlags::new();
    assert_eq!(f.index, None);
    assert_eq!(f.xdp_size, None);
    let f = PerfMapFlags::with_xdp_size(32);
    assert_eq!(f.index, None);
    assert_eq!(f.xdp_size, Some(32));
}

#[test]
fn insert_fails_at_capacity_without_corruption() {
    let b = tcp_packet();
    let ctx = XdpContext::new(&b);
    let mut map: PerfMap<u64> = PerfMap::new(2);
    assert_eq!(map.capacity(), 2);
    assert!(map.insert(&ctx, 1, 4).is_ok());
    assert!(map.insert(&ctx, 2, 4).is_ok());
    assert!(map.insert(&ctx, 3, 4).is_err());
    assert_eq!(map.queued(), 2);
    let first = map.pop().unwrap();
    assert_eq!(first.data, 1);
    assert_eq!(first.captured, Some(vec![0u8, 0, 0, 0]));
    assert!(map.insert(&ctx, 4, 4).is_ok());
    assert_eq!(map.queued(), 2);
    assert_eq!(map.pop().unwrap().data, 2);
    assert_eq!(map.pop().unwrap().data, 4);
    assert!(map.pop().is_none());
}

#[test]
fn lane_delivers_in_insert_order() {
    let b = tcp_packet();
    let ctx = XdpContext::new(&b);
    let mut map: PerfMap<u32> = PerfMap::new(8);
    for i in 0..5u32 {
        assert!(map.insert_with_flags(&ctx, i, PerfMapFlags::new()).is_ok());
    }
    for i in 0..5u32 {
        assert_eq!(map.pop().unwrap().data, i);
    }
}

#[test]
fn capture_is_clamped_to_window() {
    let b = tcp_packet();
    let ctx = XdpContext::new(&b);
    let mut map: PerfMap<u8> = PerfMap::new(4);
    assert!(map.insert(&ctx, 0, 1000).is_ok());
    let e = map.pop().unwrap();
    assert_eq!(e.captured, Some(b.clone()));
}

#[test]
fn absent_and_zero_length_capture_differ() {
    let b = tcp_packet();
    let ctx = XdpContext::new(&b);
    let mut map: PerfMap<u8> = PerfMap::new(4);
    assert!(map.insert_with_flags(&ctx, 1, PerfMapFlags::new()).is_ok());
    assert!(map.insert_with_flags(&ctx, 2, PerfMapFlags::with_xdp_size(0)).is_ok());
    let no_capture = map.pop().unwrap();
    assert_eq!(no_capture.captured, None);
    let empty_capture = map.pop().unwrap();
    assert_eq!(empty_capture.captured, Some(Vec::new()));
}

#[test]
fn capture_takes_leading_bytes() {
    let b = tcp_packet();
    let ctx = XdpContext::new(&b);
    let mut map: PerfMap<u8> = PerfMap::new(1);
    assert!(map.insert(&ctx, 0, 14).is_ok());
    let e = map.pop().unwrap();
    assert_eq!(e.captured, Some(b[..14].to_vec()));
}

#[test]
fn zero_capacity_lane_rejects_everything() {
    let b = tcp_packet();
    let ctx = XdpContext::new(&b);
    let mut map: PerfMap<u8> = PerfMap::new(0);
    assert!(map.insert(&ctx, 1, 0).is_err());
    assert_eq!(map.queued(), 0);
    assert!(map.pop().is_none());
}
