//! The relay step: once a pairing is made, bytes are copied both ways
//! between the two streams until either direction ends, and the first end
//! tears both down. The copying itself is the caller's I/O; the decisions,
//! and the bytes to hand on, are made here.

use vstd::prelude::*;

verus! {

/// What one read on either stream of a pairing reported.
pub enum RelayEvent {
    /// `count` bytes arrived on one side and await forwarding.
    Data { count: usize },
    /// One side reached end of stream.
    Eof,
    /// One side failed. Errors are not retried.
    Failed,
}

/// What the relay does next.
#[derive(Clone, Copy, Debug, PartialEq, Eq, Structural)]
pub enum RelayStep {
    /// Forward the bytes to the other side and keep copying.
    Forward,
    /// Close both streams now: the first end of either direction ends the
    /// pairing, rather than leaving the other direction to time out.
    CloseBoth,
}

/// Decide the next step after one read: data is forwarded, and the first
/// end-of-stream or error on either side closes both.
pub fn relay_step(ev: &RelayEvent) -> (r: RelayStep)
    ensures
        r == (match ev {
            RelayEvent::Data { .. } => RelayStep::Forward,
            RelayEvent::Eof => RelayStep::CloseBoth,
            RelayEvent::Failed => RelayStep::CloseBoth,
        }),
{
    match ev {
        RelayEvent::Data { .. } => RelayStep::Forward,
        RelayEvent::Eof => RelayStep::CloseBoth,
        RelayEvent::Failed => RelayStep::CloseBoth,
    }
}

/// The bytes to forward after a read that put `count` bytes at the front of
/// `buf`: exactly those bytes, unchanged and in order. The relay applies no
/// framing and never rewrites tunneled traffic.
pub fn forward_chunk(buf: &[u8], count: usize) -> (r: Vec<u8>)
    requires
        count <= buf@.len(),
    ensures
        r@ == buf@.take(count as int),
{
    let mut out: Vec<u8> = Vec::new();
    let mut k: usize = 0;
    while k < count
        invariant
            count <= buf@.len(),
            k <= count,
            out@ == buf@.take(k as int),
        decreases count - k,
    {
        out.push(buf[k]);
        k = k + 1;
        assert(out@ =~= buf@.take(k as int));
    }
    out
}

} // verus!
