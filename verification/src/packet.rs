//! The packet context and its header-chain parser: link, network and
//! transport header views over one invocation's byte window, each validated
//! by the bounds oracle before construction, and the payload cursor that
//! follows the last validated header.

use vstd::prelude::*;
use vstd::slice::{slice_index_get, slice_subrange};

use crate::bounds::{access_ok, be16, check_access, read_be16};

verus! {

/// Number of bytes in a link-layer header.
pub const ETH_HLEN: usize = 14;

/// Offset of the ethertype field inside the link-layer header.
pub const ETH_PROTO_OFF: usize = 12;

/// Ethertype identifying an IPv4 payload, in host order.
pub const ETH_P_IP: u16 = 0x0800;

/// Number of bytes in a minimal, option-free IPv4 header.
pub const IP_HLEN: usize = 20;

/// Offset of the protocol field inside the IPv4 header.
pub const IP_PROTO_OFF: usize = 9;

/// Protocol number of TCP.
pub const IPPROTO_TCP: u8 = 6;

/// Protocol number of UDP.
pub const IPPROTO_UDP: u8 = 17;

/// Number of bytes in a TCP header without options.
pub const TCP_HLEN: usize = 20;

/// Number of bytes in a UDP header.
pub const UDP_HLEN: usize = 8;

/// The terminal forwarding decision of one invocation.
#[derive(Clone, Copy, Debug, PartialEq, Eq, Structural)]
pub enum XdpAction {
    Aborted,
    Drop,
    Pass,
    Tx,
    Redirect,
}

/// The window holds a complete link-layer header.
pub open spec fn eth_valid(b: Seq<u8>) -> bool {
    ETH_HLEN <= b.len()
}

/// Host-order ethertype of the link-layer header at the start of the window.
pub open spec fn eth_proto(b: Seq<u8>) -> int {
    be16(b[ETH_PROTO_OFF as int], b[ETH_PROTO_OFF as int + 1])
}

/// The window holds a link-layer header carrying IPv4, followed by a
/// complete IPv4 header.
pub open spec fn ip_valid(b: Seq<u8>) -> bool {
    &&& eth_valid(b)
    &&& eth_proto(b) == ETH_P_IP
    &&& ETH_HLEN + IP_HLEN <= b.len()
}

/// Protocol field of the IPv4 header that follows the link-layer header.
pub open spec fn ip_proto(b: Seq<u8>) -> u8 {
    b[ETH_HLEN as int + IP_PROTO_OFF as int]
}

/// Size of the transport header selected by the IPv4 protocol field.
pub open spec fn transport_size(b: Seq<u8>) -> int {
    if ip_proto(b) == IPPROTO_TCP {
        TCP_HLEN as int
    } else {
        UDP_HLEN as int
    }
}

/// The window holds a full chain: link header carrying IPv4, IPv4 header
/// carrying TCP or UDP, and a complete transport header.
pub open spec fn transport_valid(b: Seq<u8>) -> bool {
    &&& ip_valid(b)
    &&& (ip_proto(b) == IPPROTO_TCP || ip_proto(b) == IPPROTO_UDP)
    &&& ETH_HLEN + IP_HLEN + transport_size(b) <= b.len()
}

/// Offset of the first payload byte, just past the transport header.
pub open spec fn payload_off(b: Seq<u8>) -> int {
    ETH_HLEN + IP_HLEN + transport_size(b)
}

/// A validated link-layer header view into the window.
pub struct EthHdr<'a> {
    buf: &'a [u8],
    off: usize,
}

impl<'a> View for EthHdr<'a> {
    type V = Seq<u8>;

    closed spec fn view(&self) -> Seq<u8> {
        self.buf@
    }
}

impl<'a> EthHdr<'a> {
    /// Offset of the header inside the window.
    pub closed spec fn start(&self) -> int {
        self.off as int
    }

    /// Size in bytes of the header view.
    pub open spec fn size(&self) -> int {
        ETH_HLEN as int
    }

    /// The whole header lies inside the window.
    pub open spec fn wf(&self) -> bool {
        access_ok(self.start(), ETH_HLEN as int, self@.len() as int)
    }

    /// Offset of the header inside the window.
    pub fn offset(&self) -> (n: usize)
        ensures
            n == self.start(),
    {
        self.off
    }

    /// Host-order ethertype field.
    pub fn h_proto(&self) -> (p: u16)
        requires
            self.wf(),
        ensures
            p == be16(
                self@[self.start() + ETH_PROTO_OFF as int],
                self@[self.start() + ETH_PROTO_OFF as int + 1],
            ),
    {
        proof {
            assert(self.off + ETH_HLEN <= self.buf.len());
        }
        let hi = *slice_index_get(self.buf, self.off + ETH_PROTO_OFF);
        let lo = *slice_index_get(self.buf, self.off + ETH_PROTO_OFF + 1);
        read_be16(hi, lo)
    }
}

/// A validated IPv4 header view into the window.
pub struct IpHdr<'a> {
    buf: &'a [u8],
    off: usize,
}

impl<'a> View for IpHdr<'a> {
    type V = Seq<u8>;

    closed spec fn view(&self) -> Seq<u8> {
        self.buf@
    }
}

impl<'a> IpHdr<'a> {
    /// Offset of the header inside the window.
    pub closed spec fn start(&self) -> int {
        self.off as int
    }

    /// The whole header lies inside the window.
    pub open spec fn wf(&self) -> bool {
        access_ok(self.start(), IP_HLEN as int, self@.len() as int)
    }

    /// Offset of the header inside the window.
    pub fn offset(&self) -> (n: usize)
        ensures
            n == self.start(),
    {
        self.off
    }

    /// Protocol field of the header.
    pub fn protocol(&self) -> (p: u8)
        requires
            self.wf(),
        ensures
            p == self@[self.start() + IP_PROTO_OFF as int],
    {
        proof {
            assert(self.off + IP_HLEN <= self.buf.len());
        }
        *slice_index_get(self.buf, self.off + IP_PROTO_OFF)
    }
}

/// A validated TCP header view into the window.
pub struct TcpHdr<'a> {
    buf: &'a [u8],
    off: usize,
}

impl<'a> View for TcpHdr<'a> {
    type V = Seq<u8>;

    closed spec fn view(&self) -> Seq<u8> {
        self.buf@
    }
}

impl<'a> TcpHdr<'a> {
    /// Offset of the header inside the window.
    pub closed spec fn start(&self) -> int {
        self.off as int
    }

    /// The whole header lies inside the window.
    pub open spec fn wf(&self) -> bool {
        access_ok(self.start(), TCP_HLEN as int, self@.len() as int)
    }

    /// Host-order source port: the first 16-bit big-endian field.
    pub fn source(&self) -> (p: u16)
        requires
            self.wf(),
        ensures
            p == be16(self@[self.start()], self@[self.start() + 1]),
    {
        proof {
            assert(self.off + 4 <= self.buf.len());
        }
        let hi = *slice_index_get(self.buf, self.off);
        let lo = *slice_index_get(self.buf, self.off + 1);
        read_be16(hi, lo)
    }

    /// Host-order destination port: the second 16-bit big-endian field.
    pub fn dest(&self) -> (p: u16)
        requires
            self.wf(),
        ensures
            p == be16(self@[self.start() + 2], self@[self.start() + 3]),
    {
        proof {
            assert(self.off + 4 <= self.buf.len());
        }
        let hi = *slice_index_get(self.buf, self.off + 2);
        let lo = *slice_index_get(self.buf, self.off + 3);
        read_be16(hi, lo)
    }
}

/// A validated UDP header view into the window.
pub struct UdpHdr<'a> {
    buf: &'a [u8],
    off: usize,
}

impl<'a> View for UdpHdr<'a> {
    type V = Seq<u8>;

    closed spec fn view(&self) -> Seq<u8> {
        self.buf@
    }
}

impl<'a> UdpHdr<'a> {
    /// Offset of the header inside the window.
    pub closed spec fn start(&self) -> int {
        self.off as int
    }

    /// The whole header lies inside the window.
    pub open spec fn wf(&self) -> bool {
        access_ok(self.start(), UDP_HLEN as int, self@.len() as int)
    }

    /// Host-order source port: the first 16-bit big-endian field.
    pub fn source(&self) -> (p: u16)
        requires
            self.wf(),
        ensures
            p == be16(self@[self.start()], self@[self.start() + 1]),
    {
        proof {
            assert(self.off + 4 <= self.buf.len());
        }
        let hi = *slice_index_get(self.buf, self.off);
        let lo = *slice_index_get(self.buf, self.off + 1);
        read_be16(hi, lo)
    }

    /// Host-order destination port: the second 16-bit big-endian field.
    pub fn dest(&self) -> (p: u16)
        requires
            self.wf(),
        ensures
            p == be16(self@[self.start() + 2], self@[self.start() + 3]),
    {
        proof {
            assert(self.off + 4 <= self.buf.len());
        }
        let hi = *slice_index_get(self.buf, self.off + 2);
        let lo = *slice_index_get(self.buf, self.off + 3);
        read_be16(hi, lo)
    }
}

/// The transport-layer view: a tagged union over the two recognised
/// transport headers, each already bounds-checked at construction.
pub enum Transport<'a> {
    TCP(TcpHdr<'a>),
    UDP(UdpHdr<'a>),
}

impl<'a> View for Transport<'a> {
    type V = Seq<u8>;

    open spec fn view(&self) -> Seq<u8> {
        match self {
            Transport::TCP(h) => h@,
            Transport::UDP(h) => h@,
        }
    }
}

impl<'a> Transport<'a> {
    /// Offset of the transport header inside the window.
    pub open spec fn start(&self) -> int {
        match self {
            Transport::TCP(h) => h.start(),
            Transport::UDP(h) => h.start(),
        }
    }

    /// Size in bytes of the carried header.
    pub open spec fn size(&self) -> int {
        match self {
            Transport::TCP(_) => TCP_HLEN as int,
            Transport::UDP(_) => UDP_HLEN as int,
        }
    }

    /// The whole carried header lies inside the window.
    pub open spec fn wf(&self) -> bool {
        match self {
            Transport::TCP(h) => h.wf(),
            Transport::UDP(h) => h.wf(),
        }
    }

    /// Host-order source port: the big-endian-to-host conversion of the
    /// first 16-bit field of the transport header.
    pub fn source(&self) -> (p: u16)
        requires
            self.wf(),
        ensures
            p == be16(self@[self.start()], self@[self.start() + 1]),
    {
        match self {
            Transport::TCP(h) => h.source(),
            Transport::UDP(h) => h.source(),
        }
    }

    /// Host-order destination port: the big-endian-to-host conversion of
    /// the second 16-bit field of the transport header.
    pub fn dest(&self) -> (p: u16)
        requires
            self.wf(),
        ensures
            p == be16(self@[self.start() + 2], self@[self.start() + 3]),
    {
        match self {
            Transport::TCP(h) => h.dest(),
            Transport::UDP(h) => h.dest(),
        }
    }
}

/// The payload cursor: the window together with the offset of the first
/// byte past the last validated header.
pub struct Data<'a> {
    buf: &'a [u8],
    base: usize,
}

impl<'a> View for Data<'a> {
    type V = Seq<u8>;

    closed spec fn view(&self) -> Seq<u8> {
        self.buf@
    }
}

impl<'a> Data<'a> {
    /// Offset of the cursor inside the window.
    pub closed spec fn start(&self) -> int {
        self.base as int
    }

    /// The cursor lies inside the window.
    pub open spec fn wf(&self) -> bool {
        self.start() <= self@.len()
    }

    /// Bytes consumed so far: the distance from the start of the window.
    pub fn offset(&self) -> (n: usize)
        ensures
            n == self.start(),
    {
        self.base
    }

    /// Bytes remaining between the cursor and the end of the window.
    pub fn len(&self) -> (n: usize)
        requires
            self.wf(),
        ensures
            n == self@.len() - self.start(),
    {
        self.buf.len() - self.base
    }

    /// A read-only view of exactly `len` payload bytes, present iff `len`
    /// bytes remain past the cursor; never a shorter view.
    pub fn slice(&self, len: usize) -> (r: Option<&'a [u8]>)
        requires
            self.wf(),
        ensures
            r is Some <==> access_ok(self.start(), len as int, self@.len() as int),
            r matches Some(s) ==> s@ == self@.subrange(self.start(), self.start() + len)
                && s@.len() == len,
    {
        if check_access(self.base, len, self.buf.len()) {
            Some(slice_subrange(self.buf, self.base, self.base + len))
        } else {
            None
        }
    }
}

/// What a link-header read of a window `b` returns: a view at the very
/// start of `b`, present exactly when `b` holds a complete link header.
pub open spec fn eth_post<'a>(b: Seq<u8>, r: Option<EthHdr<'a>>) -> bool {
    &&& (r is Some <==> eth_valid(b))
    &&& (r matches Some(h) ==> h@ == b && h.start() == 0 && h.wf())
}

/// What a network-header read of a window `b` returns: a view just past the
/// link header, present exactly when the link header carries IPv4 and a
/// complete IPv4 header fits in `b`.
pub open spec fn ip_post<'a>(b: Seq<u8>, r: Option<IpHdr<'a>>) -> bool {
    &&& (r is Some <==> ip_valid(b))
    &&& (r matches Some(h) ==> h@ == b && h.start() == ETH_HLEN && h.wf())
}

/// What a transport-header read of a window `b` returns: a TCP or UDP view
/// just past the IPv4 header, present exactly when the full chain is valid,
/// tagged by the IPv4 protocol field.
pub open spec fn transport_post<'a>(b: Seq<u8>, r: Option<Transport<'a>>) -> bool {
    &&& (r is Some <==> transport_valid(b))
    &&& (r matches Some(t) ==> {
        &&& t@ == b
        &&& t.wf()
        &&& t.start() == ETH_HLEN + IP_HLEN
        &&& (t is TCP <==> ip_proto(b) == IPPROTO_TCP)
        &&& (t is UDP <==> ip_proto(b) == IPPROTO_UDP)
    })
}

/// What a payload-cursor read of a window `b` returns: a cursor at the
/// first byte past the transport header, present exactly when the full
/// chain is valid.
pub open spec fn data_post<'a>(b: Seq<u8>, r: Option<Data<'a>>) -> bool {
    &&& (r is Some <==> transport_valid(b))
    &&& (r matches Some(d) ==> d@ == b && d.start() == payload_off(b) && d.wf())
}

/// One invocation's packet context: the raw byte window this invocation may
/// touch, and nothing else.
pub struct XdpContext<'a> {
    buf: &'a [u8],
}

impl<'a> View for XdpContext<'a> {
    type V = Seq<u8>;

    closed spec fn view(&self) -> Seq<u8> {
        self.buf@
    }
}

impl<'a> XdpContext<'a> {
    /// The window is addressable with 32-bit offsets.
    pub open spec fn wf(&self) -> bool {
        self@.len() <= u32::MAX
    }

    /// Wraps one invocation's byte window.
    pub fn new(buf: &'a [u8]) -> (ctx: Self)
        requires
            buf@.len() <= u32::MAX,
        ensures
            ctx@ == buf@,
            ctx.wf(),
    {
        XdpContext { buf }
    }

    /// The raw window handed to this invocation.
    pub fn inner(&self) -> (b: &'a [u8])
        ensures
            b@ == self@,
    {
        self.buf
    }

    /// Length in bytes of the window.
    pub fn len(&self) -> (n: u32)
        requires
            self.wf(),
        ensures
            n == self@.len(),
    {
        self.buf.len() as u32
    }

    /// The link-layer header view, present iff the window is long enough to
    /// hold one.
    pub fn eth(&self) -> (r: Option<EthHdr<'a>>)
        ensures
            eth_post(self@, r),
    {
        if check_access(0, ETH_HLEN, self.buf.len()) {
            Some(EthHdr { buf: self.buf, off: 0 })
        } else {
            None
        }
    }

    /// The IPv4 header view, present iff the link header is valid, carries
    /// the IPv4 ethertype, and a complete IPv4 header fits in the window.
    pub fn ip(&self) -> (r: Option<IpHdr<'a>>)
        ensures
            ip_post(self@, r),
    {
        let eth = match self.eth() {
            Some(eth) => eth,
            None => return None,
        };
        if eth.h_proto() != ETH_P_IP {
            return None;
        }
        if !check_access(ETH_HLEN, IP_HLEN, self.buf.len()) {
            return None;
        }
        Some(IpHdr { buf: self.buf, off: ETH_HLEN })
    }

    /// The transport header view, present iff the IPv4 header is valid, its
    /// protocol field names TCP or UDP, and the respective header fits in
    /// the window. Any other protocol number is a normal absence.
    pub fn transport(&self) -> (r: Option<Transport<'a>>)
        ensures
            transport_post(self@, r),
    {
        let ip = match self.ip() {
            Some(ip) => ip,
            None => return None,
        };
        let base = ETH_HLEN + IP_HLEN;
        let proto = ip.protocol();
        if proto == IPPROTO_TCP {
            if check_access(base, TCP_HLEN, self.buf.len()) {
                Some(Transport::TCP(TcpHdr { buf: self.buf, off: base }))
            } else {
                None
            }
        } else if proto == IPPROTO_UDP {
            if check_access(base, UDP_HLEN, self.buf.len()) {
                Some(Transport::UDP(UdpHdr { buf: self.buf, off: base }))
            } else {
                None
            }
        } else {
            None
        }
    }

    /// The payload cursor, positioned just past the transport header,
    /// present iff the transport header is.
    pub fn data(&self) -> (r: Option<Data<'a>>)
        ensures
            data_post(self@, r),
    {
        let t = match self.transport() {
            Some(t) => t,
            None => return None,
        };
        let base = match t {
            Transport::TCP(_) => ETH_HLEN + IP_HLEN + TCP_HLEN,
            Transport::UDP(_) => ETH_HLEN + IP_HLEN + UDP_HLEN,
        };
        Some(Data { buf: self.buf, base })
    }
}

/// Idempotence of the link-header step: two link-header reads of the same,
/// unmutated window agree on presence, and any two views they return have
/// identical offset and size.
pub proof fn lemma_eth_idempotent<'a, 'b>(
    b: Seq<u8>,
    r1: Option<EthHdr<'a>>,
    r2: Option<EthHdr<'b>>,
)
    requires
        eth_post(b, r1),
        eth_post(b, r2),
    ensures
        r1 is Some <==> r2 is Some,
        r1 matches Some(h1) ==> r2 matches Some(h2) ==> h1.start() == h2.start() && h1.size()
            == h2.size(),
{
}

} // verus!
