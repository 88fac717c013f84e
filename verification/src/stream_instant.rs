//! Stream timestamps: the instant a captured buffer was taken, and
//! the span between two such instants.
//!
//! A `Duration` here is the usual seconds-plus-subsecond-nanoseconds
//! span, held as plain values so the arithmetic on it can be verified;
//! the operating-system boundary converts it to and from its own span
//! type field for field.

use vstd::prelude::*;

verus! {

pub const NANOS_PER_SEC: u32 = 1_000_000_000;

/// Truncating division (rounding toward zero) of `x` by a positive
/// divisor `d`: the semantics of the machine's signed division.
pub open spec fn trunc_div(x: int, d: int) -> int
    recommends
        d > 0,
{
    if x >= 0 {
        x / d
    } else {
        -((-x) / d)
    }
}

/// `trunc_div` leaves a remainder smaller than the divisor and on the
/// dividend's side of zero.
pub proof fn lemma_trunc_div_bounds(x: int, d: int)
    requires
        d > 0,
    ensures
        x >= 0 ==> trunc_div(x, d) >= 0 && 0 <= x - trunc_div(x, d) * d < d && trunc_div(x, d) <= x,
        x < 0 ==> trunc_div(x, d) <= 0 && -d < x - trunc_div(x, d) * d <= 0 && x <= trunc_div(x, d),
{
    if x >= 0 {
        vstd::arithmetic::div_mod::lemma_fundamental_div_mod(x, d);
        vstd::arithmetic::div_mod::lemma_mod_division_less_than_divisor(x, d);
        vstd::arithmetic::div_mod::lemma_div_pos_is_pos(x, d);
        vstd::arithmetic::div_mod::lemma_div_nonincreasing(x, d);
        assert(x - trunc_div(x, d) * d == x % d) by (nonlinear_arith)
            requires d != 0 && trunc_div(x, d) == x / d && x == d * (x / d) + x % d;
    } else {
        let y = -x;
        let q = y / d;
        vstd::arithmetic::div_mod::lemma_fundamental_div_mod(y, d);
        vstd::arithmetic::div_mod::lemma_mod_division_less_than_divisor(y, d);
        vstd::arithmetic::div_mod::lemma_div_pos_is_pos(y, d);
        vstd::arithmetic::div_mod::lemma_div_nonincreasing(y, d);
        assert(x - trunc_div(x, d) * d == -(y % d)) by (nonlinear_arith)
            requires d != 0 && y == -x && trunc_div(x, d) == -(y / d) && y == d * (y / d) + y % d;
    }
}

/// The value a narrowing conversion to 32 bits leaves for a count
/// already within one 32-bit period of zero.
pub open spec fn wrap_u32(v: int) -> int
    recommends
        -0x1_0000_0000 < v < 0x1_0000_0000,
{
    if v >= 0 {
        v
    } else {
        v + 0x1_0000_0000
    }
}

/// A span of time: whole seconds plus a subsecond nanosecond part.
#[derive(Clone, Copy, Debug, PartialEq, Eq, Hash, Structural)]
pub struct Duration {
    secs: u64,
    nanos: u32,
}

impl Duration {
    pub closed spec fn spec_secs(self) -> u64 {
        self.secs
    }

    pub closed spec fn spec_nanos(self) -> u32 {
        self.nanos
    }

    /// The subsecond part stays below one second.
    pub open spec fn wf(self) -> bool {
        self.spec_nanos() < NANOS_PER_SEC
    }

    /// The whole span in nanoseconds.
    pub open spec fn spec_as_nanos(self) -> int {
        self.spec_secs() * (NANOS_PER_SEC as int) + self.spec_nanos()
    }

    pub fn new(secs: u64, nanos: u32) -> (d: Self)
        requires
            nanos < NANOS_PER_SEC,
        ensures
            d.spec_secs() == secs,
            d.spec_nanos() == nanos,
            d.wf(),
    {
        Self { secs, nanos }
    }

    /// The span of `nanos` nanoseconds.
    pub fn from_nanos(nanos: u64) -> (d: Self)
        ensures
            d.wf(),
            d.spec_as_nanos() == nanos,
    {
        let secs = nanos / (NANOS_PER_SEC as u64);
        let subsec = (nanos % (NANOS_PER_SEC as u64)) as u32;
        proof {
            vstd::arithmetic::div_mod::lemma_fundamental_div_mod(nanos as int, NANOS_PER_SEC as int);
            vstd::arithmetic::div_mod::lemma_mod_division_less_than_divisor(nanos as int, NANOS_PER_SEC as int);
        }
        Self { secs, nanos: subsec }
    }

    /// The whole span in nanoseconds.
    pub fn as_nanos(&self) -> (n: u128)
        ensures
            n == self.spec_as_nanos(),
    {
        proof {
            vstd::arithmetic::mul::lemma_mul_upper_bound(
                self.secs as int,
                u64::MAX as int,
                NANOS_PER_SEC as int,
                NANOS_PER_SEC as int,
            );
        }
        self.secs as u128 * NANOS_PER_SEC as u128 + self.nanos as u128
    }
}

/// The instant a stream buffer was captured, counted from the
/// platform's performance-counter origin.
#[derive(Copy, Clone, Debug, Eq, Hash, PartialEq, PartialOrd, Ord, Structural)]
pub struct StreamInstant {
    secs: i64,
    nanos: u32,
}

impl StreamInstant {
    pub closed spec fn spec_secs(self) -> i64 {
        self.secs
    }

    pub closed spec fn spec_nanos(self) -> u32 {
        self.nanos
    }

    /// The instant as one nanosecond count.
    pub open spec fn spec_as_nanos(self) -> int {
        self.spec_secs() * (NANOS_PER_SEC as int) + self.spec_nanos()
    }

    /// Field-by-field ordering: seconds first, then the subsecond
    /// part.
    pub open spec fn spec_lt(self, other: StreamInstant) -> bool {
        self.spec_secs() < other.spec_secs() || (self.spec_secs() == other.spec_secs()
            && self.spec_nanos() < other.spec_nanos())
    }

    pub fn new(secs: i64, nanos: u32) -> (i: Self)
        ensures
            i.spec_secs() == secs,
            i.spec_nanos() == nanos,
    {
        Self { secs, nanos }
    }

    /// The instant `nanos` nanoseconds after (or, negative, before)
    /// the origin. A negative count leaves a negative whole-second
    /// part with the subsecond remainder wrapped into the nanosecond
    /// field, as the machine's narrowing conversion leaves it.
    pub closed spec fn spec_from_nanos_any(n: int) -> StreamInstant {
        let secs = trunc_div(n, NANOS_PER_SEC as int);
        StreamInstant {
            secs: secs as i64,
            nanos: wrap_u32(n - secs * (NANOS_PER_SEC as int)) as u32,
        }
    }

    /// The instant `nanos` nanoseconds from the origin, when the
    /// whole-second count fits its field.
    pub closed spec fn spec_from_nanos_i128(n: int) -> Option<StreamInstant> {
        let secs = trunc_div(n, NANOS_PER_SEC as int);
        if secs > i64::MAX || secs < i64::MIN {
            None
        } else {
            Some(StreamInstant::spec_from_nanos_any(n))
        }
    }

    /// A nonnegative nanosecond count with a representable second part
    /// converts exactly: the instant it names counts that many
    /// nanoseconds from the origin.
    pub proof fn lemma_from_nanos_exact(n: int)
        requires
            0 <= n,
            n / (NANOS_PER_SEC as int) <= i64::MAX,
        ensures
            StreamInstant::spec_from_nanos_i128(n) is Some,
            StreamInstant::spec_from_nanos_i128(n).unwrap().spec_as_nanos() == n,
            StreamInstant::spec_from_nanos_i128(n).unwrap().spec_nanos() < NANOS_PER_SEC,
            StreamInstant::spec_from_nanos_any(n).spec_as_nanos() == n,
    {
        lemma_trunc_div_bounds(n, NANOS_PER_SEC as int);
    }

    /// The amount of time elapsed from another instant to this one.
    ///
    /// `None` when `earlier` orders after `self`, and also when the
    /// two instants' nanosecond counts disagree with that order or lie
    /// more than `u64::MAX` nanoseconds apart.
    pub fn duration_since(&self, earlier: &Self) -> (r: Option<Duration>)
        ensures
            self.spec_lt(*earlier) ==> r is None,
            !self.spec_lt(*earlier) ==> {
                let diff = self.spec_as_nanos() - earlier.spec_as_nanos();
                if 0 <= diff <= u64::MAX {
                    r is Some && r.unwrap().spec_as_nanos() == diff && r.unwrap().wf()
                } else {
                    r is None
                }
            },
    {
        if self.secs < earlier.secs || (self.secs == earlier.secs && self.nanos < earlier.nanos) {
            None
        } else {
            let diff = self.as_nanos_i128() - earlier.as_nanos_i128();
            if diff < 0 || diff > u64::MAX as i128 {
                None
            } else {
                Some(Duration::from_nanos(diff as u64))
            }
        }
    }

    /// The instant in time after the given duration has passed.
    ///
    /// `None` when the whole-second count of the sum no longer fits.
    pub fn add(&self, duration: Duration) -> (r: Option<Self>)
        ensures
            r == StreamInstant::spec_from_nanos_i128(self.spec_as_nanos() + duration.spec_as_nanos()),
    {
        let total = self.as_nanos_i128().checked_add(duration.as_nanos() as i128);
        match total {
            Some(n) => Self::from_nanos_i128(n),
            None => None,
        }
    }

    /// The instant in time one `duration` ago.
    ///
    /// `None` when the whole-second count of the difference no longer
    /// fits. An underflow past the origin that still fits yields the
    /// wrapped representation `spec_from_nanos_any` describes: on some
    /// platforms a stream's instants begin at zero, and stepping back
    /// over that origin has no clean representation.
    pub fn sub(&self, duration: Duration) -> (r: Option<Self>)
        ensures
            r == StreamInstant::spec_from_nanos_i128(self.spec_as_nanos() - duration.spec_as_nanos()),
    {
        let total = self.as_nanos_i128().checked_sub(duration.as_nanos() as i128);
        match total {
            Some(n) => Self::from_nanos_i128(n),
            None => None,
        }
    }

    /// The instant as one nanosecond count.
    pub fn as_nanos_i128(&self) -> (n: i128)
        ensures
            n == self.spec_as_nanos(),
    {
        proof {
            let s = self.secs as int;
            let d = NANOS_PER_SEC as int;
            assert(i64::MIN * d <= s * d <= i64::MAX * d) by (nonlinear_arith)
                requires i64::MIN <= s <= i64::MAX && d == NANOS_PER_SEC;
        }
        (self.secs as i128 * NANOS_PER_SEC as i128) + self.nanos as i128
    }

    /// The instant `nanos` nanoseconds from the origin, `None` when
    /// its whole-second count does not fit.
    pub fn from_nanos_i128(nanos: i128) -> (r: Option<Self>)
        ensures
            r == StreamInstant::spec_from_nanos_i128(nanos as int),
    {
        proof {
            lemma_trunc_div_bounds(nanos as int, NANOS_PER_SEC as int);
        }
        let secs = match nanos.checked_div(NANOS_PER_SEC as i128) {
            Some(s) => s,
            None => 0,
        };
        proof {
            let n = nanos as int;
            let d = NANOS_PER_SEC as int;
            vstd::arithmetic::div_mod::lemma_div_of0(d);
            assert(secs == trunc_div(n, d));
        }
        if secs > i64::MAX as i128 || secs < i64::MIN as i128 {
            None
        } else {
            let subsec_nanos = nanos - secs * NANOS_PER_SEC as i128;
            let wrapped = if subsec_nanos >= 0 {
                subsec_nanos as u32
            } else {
                (subsec_nanos + 0x1_0000_0000) as u32
            };
            Some(Self::new(secs as i64, wrapped))
        }
    }

    /// The instant `nanos` nanoseconds from the origin; an `i64`
    /// count's whole-second part always fits.
    pub fn from_nanos(nanos: i64) -> (r: Self)
        ensures
            r == StreamInstant::spec_from_nanos_any(nanos as int),
    {
        proof {
            lemma_trunc_div_bounds(nanos as int, NANOS_PER_SEC as int);
        }
        let secs = match nanos.checked_div(NANOS_PER_SEC as i64) {
            Some(s) => s,
            None => 0,
        };
        proof {
            let n = nanos as int;
            let d = NANOS_PER_SEC as int;
            vstd::arithmetic::div_mod::lemma_div_of0(d);
            assert(secs == trunc_div(n, d));
        }
        let subsec_nanos = nanos - secs * NANOS_PER_SEC as i64;
        let wrapped = if subsec_nanos >= 0 {
            subsec_nanos as u32
        } else {
            (subsec_nanos + 0x1_0000_0000) as u32
        };
        Self::new(secs, wrapped)
    }
}

} // verus!
