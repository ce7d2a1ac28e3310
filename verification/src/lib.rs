//! A bounds-checked, zero-copy packet-header walker over a raw byte window,
//! together with a fixed-capacity, non-blocking event channel for exporting
//! records to an external consumer.
//!
//! Every header view and payload slice handed out by this crate is validated
//! against the window's end before it is constructed: no access past the end
//! of the declared byte range is ever performed.

pub mod bounds;
pub mod packet;
pub mod perf;
