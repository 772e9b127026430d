//! A probing interval: whole seconds plus a fraction in nanoseconds.

use vstd::prelude::*;

verus! {

/// Nanoseconds in one second.
pub const NANOS_PER_SEC: u32 = 1_000_000_000;

/// The text that the alternate `Debug` form of a duration of `secs` seconds
/// and `nanos` nanoseconds reads, such as `1.5s` or `8.164ms`.
pub uninterp spec fn duration_text(secs: u64, nanos: u32) -> Seq<char>;

/// Relies on the alternate `Debug` form (`{:#?}`) of `std::time::Duration`,
/// whose text depends on the duration alone. `Duration::new` panics only when
/// the nanoseconds carry past the largest second count, which `requires`
/// leaves out.
#[verifier::external_body]
pub(crate) fn duration_debug(secs: u64, nanos: u32) -> (r: String)
    requires
        nanos < NANOS_PER_SEC,
    ensures
        r@ == duration_text(secs, nanos),
{
    format!("{:#?}", std::time::Duration::new(secs, nanos))
}

/// The time between two probes.
#[derive(Debug, Clone, Copy, PartialEq, Eq, Structural)]
pub struct Interval {
    secs: u64,
    nanos: u32,
}

impl Interval {
    /// Whole seconds.
    pub closed spec fn secs_spec(&self) -> u64 {
        self.secs
    }

    /// Nanoseconds past the whole seconds.
    pub closed spec fn nanos_spec(&self) -> u32 {
        self.nanos
    }

    /// The fraction is less than a second.
    pub closed spec fn wf(&self) -> bool {
        self.nanos < NANOS_PER_SEC
    }

    /// An interval of `secs` whole seconds.
    pub fn from_secs(secs: u64) -> (r: Interval)
        ensures
            r.wf(),
            r.secs_spec() == secs,
            r.nanos_spec() == 0,
    {
        Interval { secs, nanos: 0 }
    }

    /// An interval of `secs` seconds and `nanos` nanoseconds, or `None` when
    /// `nanos` is a second or more.
    pub fn new(secs: u64, nanos: u32) -> (r: Option<Interval>)
        ensures
            r is None <==> nanos >= NANOS_PER_SEC,
            r matches Some(i) ==> i.wf() && i.secs_spec() == secs && i.nanos_spec() == nanos,
    {
        if nanos >= NANOS_PER_SEC {
            None
        } else {
            Some(Interval { secs, nanos })
        }
    }

    /// The interval as text, such as `1.5s`.
    pub fn to_string(&self) -> (r: String)
        requires
            self.wf(),
        ensures
            r@ == duration_text(self.secs_spec(), self.nanos_spec()),
    {
        duration_debug(self.secs, self.nanos)
    }

    /// Whole seconds.
    pub fn secs(&self) -> (r: u64)
        ensures
            r == self.secs_spec(),
    {
        self.secs
    }

    /// Nanoseconds past the whole seconds.
    pub fn subsec_nanos(&self) -> (r: u32)
        ensures
            r == self.nanos_spec(),
    {
        self.nanos
    }
}

} // verus!
