//! Throughput accounting for the upload and download probes.
//!
//! Each probe moves data one way in pipe-sized chunks and counts the bytes
//! that went through, until a target count is reached, the stream ends
//! (download only: a read of zero bytes), or the run is cancelled. A periodic
//! tick races each chunk; it changes nothing and is there for progress
//! reports. The caller performs the transfers and hands in what happened.

use vstd::prelude::*;

verus! {

/// Size of one chunk: the size of a pipe buffer.
pub const CHUNK_SIZE: usize = 4096;

/// Bytes a probe moves before it stops on its own: a hundred chunks.
pub const TARGET_BYTES: u64 = 409600;

/// Which way the data goes.
#[derive(Debug, Clone, Copy, PartialEq, Eq, Structural)]
pub enum Direction {
    /// From here to a remote sink.
    Upload,
    /// From a remote source to here.
    Download,
}

/// What ended a probe.
#[derive(Debug, Clone, Copy, PartialEq, Eq, Structural)]
pub enum StopReason {
    /// The target byte count was reached.
    TargetReached,
    /// The remote source ended its stream.
    EndOfStream,
    /// The run was cancelled.
    Cancelled,
}

/// What happened while the probe waited.
#[derive(Debug, Clone, Copy, PartialEq, Eq, Structural)]
pub enum ThroughputEvent {
    /// One chunk transfer completed with this many bytes.
    Transferred(u64),
    /// The periodic tick fired first.
    Tick,
    /// Cancellation fired first.
    Cancelled,
}

/// What to do next.
#[derive(Debug, Clone, Copy, PartialEq, Eq, Structural)]
pub enum ThroughputStep {
    /// Transfer another chunk.
    Continue,
    /// End the probe.
    Stop(StopReason),
}

/// Byte count after adding `n` to `total`, saturating at the largest `u64`.
pub open spec fn add_saturating(total: u64, n: u64) -> u64 {
    if total + n > u64::MAX {
        u64::MAX
    } else {
        (total + n) as u64
    }
}

/// The state of one throughput probe.
pub struct ThroughputMeter {
    direction: Direction,
    target: u64,
    transferred: u64,
    stopped: Option<StopReason>,
}

impl ThroughputMeter {
    /// Which way the probe moves data.
    pub closed spec fn direction_spec(&self) -> Direction {
        self.direction
    }

    /// Byte count at which the probe stops.
    pub closed spec fn target_spec(&self) -> u64 {
        self.target
    }

    /// Bytes moved so far.
    pub closed spec fn transferred_spec(&self) -> u64 {
        self.transferred
    }

    /// Why the probe stopped early, if it did.
    pub closed spec fn stopped_spec(&self) -> Option<StopReason> {
        self.stopped
    }

    /// Whether the probe moves no more data.
    pub open spec fn done_spec(&self) -> bool {
        self.stopped_spec() is Some || self.transferred_spec() >= self.target_spec()
    }

    /// A probe in `direction` that stops after `target` bytes.
    pub fn new(direction: Direction, target: u64) -> (m: ThroughputMeter)
        ensures
            m.direction_spec() == direction,
            m.target_spec() == target,
            m.transferred_spec() == 0,
            m.stopped_spec() is None,
    {
        ThroughputMeter { direction, target, transferred: 0, stopped: None }
    }

    /// Whether the probe moves no more data.
    pub fn is_done(&self) -> (r: bool)
        ensures
            r == self.done_spec(),
    {
        self.stopped.is_some() || self.transferred >= self.target
    }

    /// Bytes moved so far.
    pub fn transferred(&self) -> (r: u64)
        ensures
            r == self.transferred_spec(),
    {
        self.transferred
    }

    /// Takes in one event and says what follows: a transfer adds its bytes and
    /// stops the probe at the target; a zero-byte read ends a download; a tick
    /// changes nothing; cancellation stops the probe.
    pub fn on_event(&mut self, event: ThroughputEvent) -> (r: ThroughputStep)
        requires
            !old(self).done_spec(),
        ensures
            final(self).direction_spec() == old(self).direction_spec(),
            final(self).target_spec() == old(self).target_spec(),
            r is Stop <==> final(self).done_spec(),
            match event {
                ThroughputEvent::Transferred(n) => if n == 0 && old(self).direction_spec()
                    == Direction::Download {
                    &&& r == ThroughputStep::Stop(StopReason::EndOfStream)
                    &&& final(self).transferred_spec() == old(self).transferred_spec()
                } else {
                    &&& final(self).transferred_spec() == add_saturating(
                        old(self).transferred_spec(),
                        n,
                    )
                    &&& r == if final(self).transferred_spec() >= old(self).target_spec() {
                        ThroughputStep::Stop(StopReason::TargetReached)
                    } else {
                        ThroughputStep::Continue
                    }
                },
                ThroughputEvent::Tick => {
                    &&& r == ThroughputStep::Continue
                    &&& final(self).transferred_spec() == old(self).transferred_spec()
                },
                ThroughputEvent::Cancelled => {
                    &&& r == ThroughputStep::Stop(StopReason::Cancelled)
                    &&& final(self).transferred_spec() == old(self).transferred_spec()
                },
            },
    {
        match event {
            ThroughputEvent::Transferred(n) => {
                if n == 0 && self.direction == Direction::Download {
                    self.stopped = Some(StopReason::EndOfStream);
                    ThroughputStep::Stop(StopReason::EndOfStream)
                } else {
                    self.transferred = self.transferred.saturating_add(n);
                    if self.transferred >= self.target {
                        ThroughputStep::Stop(StopReason::TargetReached)
                    } else {
                        ThroughputStep::Continue
                    }
                }
            },
            ThroughputEvent::Tick => ThroughputStep::Continue,
            ThroughputEvent::Cancelled => {
                self.stopped = Some(StopReason::Cancelled);
                ThroughputStep::Stop(StopReason::Cancelled)
            },
        }
    }
}

/// The fixed content written by the upload probe: one chunk of bytes that
/// count up from 0 to 254 and start over.
pub fn upload_chunk() -> (v: Vec<u8>)
    ensures
        v@.len() == CHUNK_SIZE,
        forall|i: int| 0 <= i < CHUNK_SIZE ==> #[trigger] v@[i] == (i % 255) as u8,
{
    let mut v: Vec<u8> = Vec::with_capacity(CHUNK_SIZE);
    let mut i: usize = 0;
    while i < CHUNK_SIZE
        invariant
            i <= CHUNK_SIZE,
            v@.len() == i,
            forall|j: int| 0 <= j < i ==> #[trigger] v@[j] == (j % 255) as u8,
        decreases CHUNK_SIZE - i,
    {
        v.push((i % 255) as u8);
        i = i + 1;
    }
    v
}

/// Rate of `bytes` moved in `elapsed_micros` microseconds, in whole bytes per
/// second, saturating at the largest `u64`; `None` when no time has elapsed.
pub fn bytes_per_second(bytes: u64, elapsed_micros: u64) -> (r: Option<u64>)
    ensures
        r is None <==> elapsed_micros == 0,
        r matches Some(rate) ==> rate == if bytes * 1_000_000 / elapsed_micros as int
            > u64::MAX {
            u64::MAX as int
        } else {
            bytes * 1_000_000 / elapsed_micros as int
        },
{
    if elapsed_micros == 0 {
        return None;
    }
    let scaled: u128 = bytes as u128 * 1_000_000u128;
    let rate: u128 = scaled / elapsed_micros as u128;
    if rate > u64::MAX as u128 {
        Some(u64::MAX)
    } else {
        Some(rate as u64)
    }
}

} // verus!
