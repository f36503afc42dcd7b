//! Track metadata and track durations.

use vstd::prelude::*;

verus! {

/// One billion: nanoseconds per second.
pub const NANOS_PER_SEC: u64 = 1_000_000_000;

/// A span of time with nanosecond precision, as `std::time::Duration` holds
/// it: whole seconds and the nanoseconds below one second.
#[derive(Debug, Clone, Copy)]
pub struct TrackDuration {
    secs: u64,
    nanos: u32,
}

impl TrackDuration {
    #[verifier::type_invariant]
    spec fn inv(self) -> bool {
        self.nanos < NANOS_PER_SEC
    }

    /// The whole length in nanoseconds.
    pub closed spec fn total_nanos(self) -> nat {
        (self.secs * NANOS_PER_SEC + self.nanos) as nat
    }

    /// The largest length a duration can hold.
    pub open spec fn max_nanos() -> nat {
        ((u64::MAX as nat) * (NANOS_PER_SEC as nat) + (NANOS_PER_SEC as nat) - 1) as nat
    }

    /// A duration of `secs` seconds and `nanos` nanoseconds, `nanos` being
    /// below one second (as `Duration::as_secs` and
    /// `Duration::subsec_nanos` give them).
    pub fn from_parts(secs: u64, nanos: u32) -> (d: Self)
        requires
            nanos < NANOS_PER_SEC,
        ensures
            d.total_nanos() == secs * NANOS_PER_SEC + nanos,
    {
        TrackDuration { secs, nanos }
    }

    /// `Duration::from_millis`.
    pub fn from_millis(ms: u64) -> (d: Self)
        ensures
            d.total_nanos() == ms * 1_000_000,
    {
        let secs = ms / 1000;
        let nanos = ((ms % 1000) * 1_000_000) as u32;
        assert(secs * NANOS_PER_SEC + nanos == ms * 1_000_000) by (nonlinear_arith)
            requires
                secs == ms / 1000,
                nanos == (ms % 1000) * 1_000_000,
        ;
        TrackDuration { secs, nanos }
    }

    /// `Duration::from_secs`.
    pub fn from_secs(secs: u64) -> (d: Self)
        ensures
            d.total_nanos() == secs * NANOS_PER_SEC,
    {
        TrackDuration { secs, nanos: 0 }
    }

    /// A zero-length duration.
    pub fn zero() -> (d: Self)
        ensures
            d.total_nanos() == 0,
    {
        TrackDuration { secs: 0, nanos: 0 }
    }

    /// `Duration::as_secs`: the whole seconds.
    pub fn as_secs(&self) -> (s: u64)
        ensures
            s == self.total_nanos() / (NANOS_PER_SEC as nat),
    {
        proof {
            use_type_invariant(self);
            assert((self.secs * NANOS_PER_SEC + self.nanos) / (NANOS_PER_SEC as int) == self.secs)
                by (nonlinear_arith)
                requires
                    self.nanos < NANOS_PER_SEC,
            ;
        }
        self.secs
    }

    /// `Duration::subsec_nanos`: the nanoseconds below one second.
    pub fn subsec_nanos(&self) -> (n: u32)
        ensures
            n == self.total_nanos() % (NANOS_PER_SEC as nat),
    {
        proof {
            use_type_invariant(self);
            assert((self.secs * NANOS_PER_SEC + self.nanos) % (NANOS_PER_SEC as int) == self.nanos)
                by (nonlinear_arith)
                requires
                    self.nanos < NANOS_PER_SEC,
            ;
        }
        self.nanos
    }

    /// `Duration::checked_add`: the sum, or `None` when it does not fit.
    pub fn checked_add(&self, other: &Self) -> (r: Option<Self>)
        ensures
            match r {
                Some(d) => d.total_nanos() == self.total_nanos() + other.total_nanos()
                    && d.total_nanos() <= Self::max_nanos(),
                None => self.total_nanos() + other.total_nanos() > Self::max_nanos(),
            },
    {
        proof {
            use_type_invariant(self);
            use_type_invariant(other);
        }
        let mut nanos: u64 = self.nanos as u64 + other.nanos as u64;
        let mut carry: u64 = 0;
        if nanos >= NANOS_PER_SEC {
            nanos = nanos - NANOS_PER_SEC;
            carry = 1;
        }
        if self.secs > u64::MAX - other.secs || self.secs + other.secs > u64::MAX - carry {
            proof {
                assert(self.secs * NANOS_PER_SEC + self.nanos + other.secs * NANOS_PER_SEC
                    + other.nanos > (u64::MAX as nat) * (NANOS_PER_SEC as nat) + (NANOS_PER_SEC
                    as nat) - 1) by (nonlinear_arith)
                    requires
                        self.secs + other.secs + carry > u64::MAX,
                        carry == 1 ==> self.nanos + other.nanos >= NANOS_PER_SEC,
                        carry == 0 ==> self.nanos + other.nanos >= 0,
                        carry <= 1,
                ;
            }
            return None;
        }
        let secs = self.secs + other.secs + carry;
        assert(secs * NANOS_PER_SEC + nanos == self.secs * NANOS_PER_SEC + self.nanos + other.secs
            * NANOS_PER_SEC + other.nanos) by (nonlinear_arith)
            requires
                secs == self.secs + other.secs + carry,
                nanos + carry * NANOS_PER_SEC == self.nanos + other.nanos,
        ;
        assert(secs * NANOS_PER_SEC + nanos <= (u64::MAX as nat) * (NANOS_PER_SEC as nat) + (NANOS_PER_SEC as nat) - 1) by (nonlinear_arith)
            requires
                secs <= u64::MAX,
                nanos < NANOS_PER_SEC,
        ;
        Some(TrackDuration { secs, nanos: nanos as u32 })
    }
}

/// What the bot knows of one playable track.
#[derive(Debug, Clone)]
pub struct TrackMetadata {
    pub title: String,
    pub url: String,
    pub stream_url: String,
    pub duration: Option<TrackDuration>,
    pub thumbnail: Option<String>,
    pub author: Option<String>,
    pub source: String,
    pub requester: Option<String>,
    pub view_count: Option<u64>,
}

/// A copy of an optional string.
pub fn copy_opt_string(s: &Option<String>) -> (r: Option<String>)
    ensures
        r == *s,
{
    match s {
        Some(v) => Some(v.clone()),
        None => None,
    }
}

impl TrackMetadata {
    /// A field-by-field copy of the track.
    pub fn duplicate(&self) -> (r: Self)
        ensures
            r == *self,
    {
        TrackMetadata {
            title: self.title.clone(),
            url: self.url.clone(),
            stream_url: self.stream_url.clone(),
            duration: self.duration,
            thumbnail: copy_opt_string(&self.thumbnail),
            author: copy_opt_string(&self.author),
            source: self.source.clone(),
            requester: copy_opt_string(&self.requester),
            view_count: self.view_count,
        }
    }
}

/// Copies of all tracks of `v`, in order.
pub fn duplicate_tracks(v: &Vec<TrackMetadata>) -> (r: Vec<TrackMetadata>)
    ensures
        r@ == v@,
{
    let mut out: Vec<TrackMetadata> = Vec::new();
    let mut i: usize = 0;
    while i < v.len()
        invariant
            i <= v@.len(),
            out@ == v@.take(i as int),
        decreases v@.len() - i,
    {
        out.push(v[i].duplicate());
        i += 1;
        assert(out@ =~= v@.take(i as int));
    }
    assert(v@.take(v@.len() as int) =~= v@);
    out
}

} // verus!
