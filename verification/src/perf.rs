//! The outbound event channel: a fixed-capacity, non-blocking, in-order
//! queue of records, each a caller-chosen fixed-layout value optionally
//! followed by a captured prefix of the originating packet window.

use vstd::prelude::*;
use vstd::slice::slice_index_get;

use crate::packet::XdpContext;

verus! {

/// Behaviour flags for one delivery: an optional explicit delivery-lane
/// index (absent, the runtime routes to the lane of the worker running the
/// invocation; this crate never chooses the lane) and an optional
/// packet-capture length.
#[derive(Clone, Copy, Debug, PartialEq, Eq, Structural)]
pub struct PerfMapFlags {
    pub index: Option<u32>,
    pub xdp_size: Option<u32>,
}

impl PerfMapFlags {
    /// Flags asking for no capture, on the runtime-chosen lane.
    pub fn new() -> (f: Self)
        ensures
            f.index is None,
            f.xdp_size is None,
    {
        PerfMapFlags { index: None, xdp_size: None }
    }

    /// Flags asking to append up to `size` bytes of the packet window.
    pub fn with_xdp_size(size: u32) -> (f: Self)
        ensures
            f.index is None,
            f.xdp_size == Some(size),
    {
        PerfMapFlags { index: None, xdp_size: Some(size) }
    }
}

/// The failure of a non-blocking delivery: the lane's bounded capacity is
/// exhausted. The caller sees it at once; nothing queued is disturbed and
/// nothing is retried.
#[derive(Clone, Copy, Debug, PartialEq, Eq, Structural)]
pub struct ChannelFull;

/// One delivered event: the fixed-layout record, followed by the captured
/// prefix of the packet window when capture was requested.
pub struct PerfEvent<T> {
    pub data: T,
    pub captured: Option<Vec<u8>>,
}

/// The mathematical shape of one delivered event.
pub struct EventModel<T> {
    pub data: T,
    pub captured: Option<Seq<u8>>,
}

impl<T> View for PerfEvent<T> {
    type V = EventModel<T>;

    open spec fn view(&self) -> EventModel<T> {
        EventModel {
            data: self.data,
            captured: match self.captured {
                Some(v) => Some(v@),
                None => None,
            },
        }
    }
}

/// The bytes a capture request of `n` takes from a window `packet`: the
/// requested prefix, clamped by the channel to the window's length.
pub open spec fn capture_bytes(n: u32, packet: Seq<u8>) -> Seq<u8> {
    if n <= packet.len() {
        packet.take(n as int)
    } else {
        packet
    }
}

/// The captured part of one event, for a capture request of `size`: absent
/// and zero-length requests stay distinguishable.
pub open spec fn capture_model(size: Option<u32>, packet: Seq<u8>) -> Option<Seq<u8>> {
    match size {
        None => None,
        Some(n) => Some(capture_bytes(n, packet)),
    }
}

/// Copies the first `min(n, buf.len())` bytes of the window.
fn capture_prefix(buf: &[u8], n: u32) -> (v: Vec<u8>)
    ensures
        v@ == capture_bytes(n, buf@),
{
    let len = buf.len();
    let m: usize = if (n as usize) <= len {
        n as usize
    } else {
        len
    };
    let mut v: Vec<u8> = Vec::new();
    let mut i: usize = 0;
    while i < m
        invariant
            i <= m <= buf@.len(),
            m == capture_bytes(n, buf@).len(),
            v@ == buf@.take(i as int),
        decreases m - i,
    {
        v.push(*slice_index_get(buf, i));
        proof {
            assert(buf@.take(i + 1) =~= buf@.take(i as int).push(buf@[i as int]));
        }
        i += 1;
    }
    proof {
        assert(buf@.take(buf@.len() as int) =~= buf@);
    }
    v
}

/// The one-way, fixed-capacity event channel: one delivery lane's bounded,
/// in-order queue of events. Lanes are independent of one another; the
/// runtime hands each invocation the lane of the worker executing it.
pub struct PerfMap<T> {
    queue: Vec<PerfEvent<T>>,
    capacity: usize,
}

impl<T> View for PerfMap<T> {
    type V = Seq<EventModel<T>>;

    closed spec fn view(&self) -> Seq<EventModel<T>> {
        self.queue@.map_values(|e: PerfEvent<T>| e@)
    }
}

impl<T> PerfMap<T> {
    /// Capacity of the lane, fixed at construction.
    pub closed spec fn capacity_spec(&self) -> int {
        self.capacity as int
    }

    /// The queue never outgrows the capacity fixed at construction.
    pub open spec fn wf(&self) -> bool {
        self@.len() <= self.capacity_spec()
    }

    /// A channel lane whose capacity is fixed, for its whole life, at
    /// `capacity` events.
    pub fn new(capacity: usize) -> (m: Self)
        ensures
            m@ == Seq::<EventModel<T>>::empty(),
            m.capacity_spec() == capacity,
            m.wf(),
    {
        PerfMap { queue: Vec::new(), capacity }
    }

    /// Capacity of the lane.
    pub fn capacity(&self) -> (n: usize)
        ensures
            n == self.capacity_spec(),
    {
        self.capacity
    }

    /// Number of queued, not yet consumed events.
    pub fn queued(&self) -> (n: usize)
        ensures
            n == self@.len(),
    {
        self.queue.len()
    }

    /// Non-blocking delivery of one record, asking the channel to append up
    /// to `packet_size` bytes of the packet window; fails, changing
    /// nothing, iff the lane is already at capacity.
    pub fn insert<'a>(&mut self, ctx: &XdpContext<'a>, data: T, packet_size: u32) -> (r: Result<
        (),
        ChannelFull,
    >)
        requires
            old(self).wf(),
        ensures
            final(self).wf(),
            final(self).capacity_spec() == old(self).capacity_spec(),
            r is Ok <==> old(self)@.len() < old(self).capacity_spec(),
            r is Ok ==> final(self)@ == old(self)@.push(
                (EventModel { data, captured: Some(capture_bytes(packet_size, ctx@)) }),
            ),
            r is Err ==> final(self)@ == old(self)@,
    {
        self.insert_with_flags(ctx, data, PerfMapFlags::with_xdp_size(packet_size))
    }

    /// Non-blocking delivery of one record under explicit flags; fails,
    /// changing nothing, iff the lane is already at capacity. On success
    /// the event is appended after everything queued earlier on this lane:
    /// one lane delivers in insertion order.
    pub fn insert_with_flags<'a>(
        &mut self,
        ctx: &XdpContext<'a>,
        data: T,
        flags: PerfMapFlags,
    ) -> (r: Result<(), ChannelFull>)
        requires
            old(self).wf(),
        ensures
            final(self).wf(),
            final(self).capacity_spec() == old(self).capacity_spec(),
            r is Ok <==> old(self)@.len() < old(self).capacity_spec(),
            r is Ok ==> final(self)@ == old(self)@.push(
                (EventModel { data, captured: capture_model(flags.xdp_size, ctx@) }),
            ),
            r is Err ==> final(self)@ == old(self)@,
    {
        if self.queue.len() >= self.capacity {
            return Err(ChannelFull);
        }
        let captured = match flags.xdp_size {
            Some(n) => Some(capture_prefix(ctx.inner(), n)),
            None => None,
        };
        let ev = PerfEvent { data, captured };
        proof {
            old(self).queue@.lemma_push_map_commute(|e: PerfEvent<T>| e@, ev);
        }
        self.queue.push(ev);
        Ok(())
    }

    /// The consumer's side: takes the oldest queued event, if any. Events
    /// leave a lane in the order their inserts were made.
    pub fn pop(&mut self) -> (r: Option<PerfEvent<T>>)
        requires
            old(self).wf(),
        ensures
            final(self).wf(),
            final(self).capacity_spec() == old(self).capacity_spec(),
            r is Some <==> old(self)@.len() > 0,
            r matches Some(e) ==> e@ == old(self)@[0] && final(self)@ == old(self)@.subrange(
                1,
                old(self)@.len() as int,
            ),
            r is None ==> final(self)@ == old(self)@,
    {
        if self.queue.len() == 0 {
            return None;
        }
        let e = self.queue.remove(0);
        proof {
            assert(self.queue@.map_values(|e: PerfEvent<T>| e@) =~= old(
                self,
            ).queue@.map_values(|e: PerfEvent<T>| e@).subrange(
                1,
                old(self).queue@.len() as int,
            ));
        }
        Some(e)
    }
}

} // verus!
