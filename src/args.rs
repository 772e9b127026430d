//! The options of the two probes.

use crate::interval::Interval;
use vstd::prelude::*;

verus! {

/// Default number of payload bytes per echo frame.
pub const DEFAULT_PAYLOAD_SIZE: u64 = 256;

/// Options of a latency probe: how often to probe, how many times, and how
/// many payload bytes each echo frame carries.
#[derive(Debug, Clone, Copy, PartialEq, Eq, Structural)]
pub struct PingArgs {
    interval: Interval,
    count: u64,
    size: u64,
}

impl PingArgs {
    /// Time between probes.
    pub closed spec fn interval_spec(&self) -> Interval {
        self.interval
    }

    /// Number of probes.
    pub closed spec fn count_spec(&self) -> u64 {
        self.count
    }

    /// Payload bytes per echo frame.
    pub closed spec fn size_spec(&self) -> u64 {
        self.size
    }

    /// The payload is not empty and a whole frame fits in memory.
    pub closed spec fn wf(&self) -> bool {
        1 <= self.size <= usize::MAX - 8
    }

    /// The options, or `None` when `size` is zero or a frame of `8 + size`
    /// bytes could not be addressed.
    pub fn new(interval: Interval, count: u64, size: u64) -> (r: Option<PingArgs>)
        ensures
            r is None <==> (size == 0 || size > usize::MAX - 8),
            r matches Some(a) ==> {
                &&& a.wf()
                &&& a.interval_spec() == interval
                &&& a.count_spec() == count
                &&& a.size_spec() == size
            },
    {
        if size == 0 || size > (usize::MAX - 8) as u64 {
            None
        } else {
            Some(PingArgs { interval, count, size })
        }
    }

    /// Time between probes.
    pub fn interval(&self) -> (r: Interval)
        ensures
            r == self.interval_spec(),
    {
        self.interval
    }

    /// Number of probes.
    pub fn count(&self) -> (r: u64)
        ensures
            r == self.count_spec(),
    {
        self.count
    }

    /// Payload bytes per echo frame.
    pub fn size(&self) -> (r: u64)
        ensures
            r == self.size_spec(),
            self.wf() ==> 1 <= r <= usize::MAX - 8,
    {
        self.size
    }
}

/// Options of a throughput test: which of its two phases to leave out.
#[derive(Debug, Clone, Copy, PartialEq, Eq, Structural)]
pub struct SpeedTestArgs {
    no_upload: bool,
    no_download: bool,
}

impl SpeedTestArgs {
    /// Options that leave out the upload phase when `no_upload` holds and the
    /// download phase when `no_download` holds.
    pub fn new(no_upload: bool, no_download: bool) -> (r: SpeedTestArgs)
        ensures
            r.runs_upload_spec() == !no_upload,
            r.runs_download_spec() == !no_download,
    {
        SpeedTestArgs { no_upload, no_download }
    }

    /// Whether the upload phase runs.
    pub closed spec fn runs_upload_spec(&self) -> bool {
        !self.no_upload
    }

    /// Whether the download phase runs.
    pub closed spec fn runs_download_spec(&self) -> bool {
        !self.no_download
    }

    /// Whether the upload phase runs.
    pub fn runs_upload(&self) -> (r: bool)
        ensures
            r == self.runs_upload_spec(),
    {
        !self.no_upload
    }

    /// Whether the download phase runs.
    pub fn runs_download(&self) -> (r: bool)
        ensures
            r == self.runs_download_spec(),
    {
        !self.no_download
    }
}

} // verus!
