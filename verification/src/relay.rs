//! The decisions of the byte pumps that run between a session's
//! pseudo-terminal and the socket of its client.

use vstd::prelude::*;

verus! {

/// The most bytes that a pump reads at once.
pub const PUMP_CHUNK: usize = 4096;

/// The milliseconds that a pump rests after each chunk.
pub const PUMP_REST_MS: u64 = 1;

/// What a pump does with what a read gave. A read is made only while a
/// client holds the session; what it gave is written even if the client
/// is let go meanwhile.
#[derive(Clone, Copy, Debug, PartialEq, Eq, Structural)]
pub enum PumpStep {
    /// The source is at its end: record that the client is gone, flush, stop.
    Disconnect,
    /// Write the first `usize` bytes of the buffer to the sink, flush, go on.
    Forward(usize),
}

/// Whether a pump makes another read: it does as long as a client holds the session.
pub fn pump_runs(connected: bool) -> (r: bool)
    ensures
        r == connected,
{
    connected
}

/// What a pump does after a read that gave `count` bytes.
pub open spec fn spec_pump_step(count: usize) -> PumpStep {
    if count == 0 {
        PumpStep::Disconnect
    } else {
        PumpStep::Forward(count)
    }
}

pub fn pump_step(count: usize) -> (r: PumpStep)
    ensures
        r == spec_pump_step(count),
{
    if count == 0 {
        PumpStep::Disconnect
    } else {
        PumpStep::Forward(count)
    }
}

/// The bytes that a pump has written to its sink once it has made the
/// reads `reads`, in their order. Each read is the bytes that it gave.
pub open spec fn pumped(reads: Seq<Seq<u8>>) -> Seq<u8>
    decreases reads.len(),
{
    if reads.len() == 0 {
        Seq::empty()
    } else {
        match spec_pump_step(reads.first().len() as usize) {
            PumpStep::Forward(n) => reads.first().take(n as int) + pumped(reads.drop_first()),
            PumpStep::Disconnect => Seq::empty(),
        }
    }
}

/// As long as no read comes back empty, a pump writes every byte that
/// it reads, in the order in which it read them.
pub proof fn lemma_pump_keeps_every_byte(reads: Seq<Seq<u8>>)
    requires
        forall|i: int| 0 <= i < reads.len() ==> 0 < (#[trigger] reads[i]).len() <= PUMP_CHUNK,
    ensures
        pumped(reads) == reads.flatten(),
    decreases reads.len(),
{
    if reads.len() > 0 {
        let rest = reads.drop_first();
        assert forall|i: int| 0 <= i < rest.len() implies 0 < (#[trigger] rest[i]).len()
            <= PUMP_CHUNK by {
            assert(rest[i] == reads[i + 1]);
        }
        lemma_pump_keeps_every_byte(rest);
        assert(reads.first() == reads[0]);
        assert(reads.first().take(reads.first().len() as int) =~= reads.first());
    }
}

/// A pump writes nothing of what comes after an empty read.
pub proof fn lemma_pump_stops_at_empty_read(before: Seq<Seq<u8>>, after: Seq<Seq<u8>>)
    requires
        forall|i: int| 0 <= i < before.len() ==> 0 < (#[trigger] before[i]).len() <= PUMP_CHUNK,
    ensures
        pumped(before + seq![Seq::<u8>::empty()] + after) == before.flatten(),
    decreases before.len(),
{
    let all = before + seq![Seq::<u8>::empty()] + after;
    if before.len() == 0 {
        assert(all.first() == Seq::<u8>::empty());
    } else {
        let rest = before.drop_first();
        assert forall|i: int| 0 <= i < rest.len() implies 0 < (#[trigger] rest[i]).len()
            <= PUMP_CHUNK by {
            assert(rest[i] == before[i + 1]);
        }
        lemma_pump_stops_at_empty_read(rest, after);
        assert(all.first() == before[0]);
        assert(before.first() == before[0]);
        assert(all.drop_first() =~= rest + seq![Seq::<u8>::empty()] + after);
        assert(all.first().take(all.first().len() as int) =~= all.first());
    }
}

/// The bytes that a pump forwards after a read of `count` bytes into `buffer`.
pub fn forwarded(buffer: &[u8], count: usize) -> (r: &[u8])
    requires
        count <= buffer@.len(),
    ensures
        r@ == buffer@.take(count as int),
{
    vstd::slice::slice_subrange(buffer, 0, count)
}

} // verus!
