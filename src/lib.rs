//! Peer clock synchronisation: a master broadcasts timestamped beacons and
//! answers delay probes, a slave runs a four-timestamp exchange per round and
//! smooths the resulting offsets over a sliding window.
//!
//! Instants are nanoseconds since the Unix epoch (UTC) held in an `i64`;
//! durations are non-negative nanosecond counts held in a `u128`.
use vstd::prelude::*;
use vstd::string::StringExecFns;

pub mod client;
mod foreign;
pub mod server;
pub mod window;

verus! {

/// Largest magnitude that an offset can hold.
pub const MAX_MAGNITUDE: u128 = 0xffff_ffff_ffff_ffff_ffff_ffff_ffff_ffff;

/// A signed clock difference, kept as a sign tag and a non-negative
/// magnitude in nanoseconds.
///
/// `Earlier(d)` moves an instant forward by `d` when applied with
/// [`TimeOffset::correct`]; `Later(d)` moves it back by `d`.
#[derive(PartialEq, Eq, Structural, Clone, Copy, Debug)]
pub enum TimeOffset {
    Later(u128),
    Earlier(u128),
}

impl TimeOffset {
    /// The magnitude, whatever the sign tag.
    pub open spec fn magnitude(self) -> nat {
        match self {
            TimeOffset::Later(d) => d as nat,
            TimeOffset::Earlier(d) => d as nat,
        }
    }

    /// The signed amount by which the offset moves an instant.
    pub open spec fn value(self) -> int {
        match self {
            TimeOffset::Later(d) => -(d as int),
            TimeOffset::Earlier(d) => d as int,
        }
    }

    pub open spec fn is_earlier(self) -> bool {
        self is Earlier
    }
}

/// `diff(base, sample)`: `Later(base - sample)` when `sample < base`,
/// `Earlier(sample - base)` otherwise.
pub open spec fn diff_of(base: i64, sample: i64) -> TimeOffset {
    if sample < base {
        TimeOffset::Later((base - sample) as u128)
    } else {
        TimeOffset::Earlier((sample - base) as u128)
    }
}

/// Whether adding the two magnitudes stays representable (needed only when
/// the signs agree).
pub open spec fn add_fits(a: TimeOffset, b: TimeOffset) -> bool {
    a.is_earlier() == b.is_earlier() ==> a.magnitude() + b.magnitude() <= MAX_MAGNITUDE
}

/// Sum of two offsets: equal signs add magnitudes and keep the sign;
/// opposite signs take the difference of the magnitudes and the sign of the
/// larger one; when they cancel exactly the result is the zero `Later(0)`.
pub open spec fn add_of(a: TimeOffset, b: TimeOffset) -> TimeOffset {
    match (a, b) {
        (TimeOffset::Earlier(x), TimeOffset::Earlier(y)) => TimeOffset::Earlier((x + y) as u128),
        (TimeOffset::Later(x), TimeOffset::Later(y)) => TimeOffset::Later((x + y) as u128),
        (TimeOffset::Earlier(x), TimeOffset::Later(y)) => if x > y {
            TimeOffset::Earlier((x - y) as u128)
        } else {
            TimeOffset::Later((y - x) as u128)
        },
        (TimeOffset::Later(x), TimeOffset::Earlier(y)) => if x >= y {
            TimeOffset::Later((x - y) as u128)
        } else {
            TimeOffset::Earlier((y - x) as u128)
        },
    }
}

/// The same magnitude under the other sign tag.
pub open spec fn neg_of(a: TimeOffset) -> TimeOffset {
    match a {
        TimeOffset::Later(d) => TimeOffset::Earlier(d),
        TimeOffset::Earlier(d) => TimeOffset::Later(d),
    }
}

/// `|n|` as a natural number.
pub open spec fn abs_of(n: i32) -> nat {
    if n < 0 {
        (-n) as nat
    } else {
        n as nat
    }
}

/// Magnitude divided by `|n|` (rounding down), sign flipped when `n < 0`.
pub open spec fn div_of(a: TimeOffset, n: i32) -> TimeOffset {
    let q = match a {
        TimeOffset::Later(d) => TimeOffset::Later((d as nat / abs_of(n)) as u128),
        TimeOffset::Earlier(d) => TimeOffset::Earlier((d as nat / abs_of(n)) as u128),
    };
    if n < 0 {
        neg_of(q)
    } else {
        q
    }
}

impl TimeOffset {
    /// The offset of `sample` measured from `base`.
    pub fn diff(base: i64, sample: i64) -> (r: TimeOffset)
        ensures
            r == diff_of(base, sample),
            r.value() == sample - base,
    {
        if sample < base {
            TimeOffset::Later(((base as i128) - (sample as i128)) as u128)
        } else {
            TimeOffset::Earlier(((sample as i128) - (base as i128)) as u128)
        }
    }

    /// Applies the offset to an instant: `Earlier(d)` advances it by `d`,
    /// `Later(d)` moves it back by `d`.
    pub fn correct(&self, time: i64) -> (r: i64)
        requires
            i64::MIN <= time + self.value() <= i64::MAX,
        ensures
            r == time + self.value(),
    {
        match *self {
            TimeOffset::Earlier(d) => ((time as i128) + (d as i128)) as i64,
            TimeOffset::Later(d) => ((time as i128) - (d as i128)) as i64,
        }
    }

    pub fn add(self, rhs: TimeOffset) -> (r: TimeOffset)
        requires
            add_fits(self, rhs),
        ensures
            r == add_of(self, rhs),
            r.value() == self.value() + rhs.value(),
    {
        match (self, rhs) {
            (TimeOffset::Earlier(x), TimeOffset::Earlier(y)) => TimeOffset::Earlier(x + y),
            (TimeOffset::Earlier(x), TimeOffset::Later(y)) => if x > y {
                TimeOffset::Earlier(x - y)
            } else {
                TimeOffset::Later(y - x)
            },
            (TimeOffset::Later(x), TimeOffset::Earlier(y)) => if x >= y {
                TimeOffset::Later(x - y)
            } else {
                TimeOffset::Earlier(y - x)
            },
            (TimeOffset::Later(x), TimeOffset::Later(y)) => TimeOffset::Later(x + y),
        }
    }

    pub fn neg(self) -> (r: TimeOffset)
        ensures
            r == neg_of(self),
            r.value() == -self.value(),
    {
        match self {
            TimeOffset::Earlier(d) => TimeOffset::Later(d),
            TimeOffset::Later(d) => TimeOffset::Earlier(d),
        }
    }

    /// `self + (-rhs)`.
    pub fn sub(self, rhs: TimeOffset) -> (r: TimeOffset)
        requires
            add_fits(self, neg_of(rhs)),
        ensures
            r == add_of(self, neg_of(rhs)),
            r.value() == self.value() - rhs.value(),
    {
        self.add(rhs.neg())
    }

    pub fn add_assign(&mut self, rhs: TimeOffset)
        requires
            add_fits(*old(self), rhs),
        ensures
            *final(self) == add_of(*old(self), rhs),
    {
        *self = self.add(rhs);
    }

    pub fn sub_assign(&mut self, rhs: TimeOffset)
        requires
            add_fits(*old(self), neg_of(rhs)),
        ensures
            *final(self) == add_of(*old(self), neg_of(rhs)),
    {
        *self = self.sub(rhs);
    }

    /// Divides the magnitude by `|rhs|` and negates the result when
    /// `rhs < 0`.
    pub fn div(self, rhs: i32) -> (r: TimeOffset)
        requires
            rhs != 0,
        ensures
            r == div_of(self, rhs),
    {
        let is_neg = rhs < 0;
        let rhs_abs: u128 = if is_neg {
            (0i64 - rhs as i64) as u128
        } else {
            rhs as u128
        };
        let ret = match self {
            TimeOffset::Earlier(t) => TimeOffset::Earlier(t / rhs_abs),
            TimeOffset::Later(t) => TimeOffset::Later(t / rhs_abs),
        };
        if is_neg {
            ret.neg()
        } else {
            ret
        }
    }
}

/// Nanoseconds in a second.
pub const NANOS_PER_SEC: u128 = 1_000_000_000;

/// The readable rendering of a duration of `secs` seconds and `nanos`
/// nanoseconds ("1s 500ms").
pub uninterp spec fn humanized(secs: u64, nanos: u32) -> Seq<char>;

/// Relies on humantime::format_duration, whose text depends on the duration
/// alone.
#[verifier::external_body]
fn format_duration(secs: u64, nanos: u32) -> (r: String)
    requires
        nanos < 1_000_000_000,
    ensures
        r@ == humanized(secs, nanos),
{
    humantime::format_duration(std::time::Duration::new(secs, nanos)).to_string()
}

impl TimeOffset {
    /// The word that a log line puts before the magnitude.
    pub fn label(&self) -> (r: &'static str)
        ensures
            r@ == (if self.is_earlier() {
                "Early"@
            } else {
                "Later"@
            }),
    {
        match self {
            TimeOffset::Earlier(_) => "Early",
            TimeOffset::Later(_) => "Later",
        }
    }

    /// The magnitude as readable text, or `None` when it exceeds the
    /// 2^64 seconds that the rendering can take.
    pub fn magnitude_text(&self) -> (r: Option<String>)
        ensures
            self.magnitude() / (NANOS_PER_SEC as nat) <= u64::MAX ==> r is Some && r->0@
                == humanized(
                (self.magnitude() / (NANOS_PER_SEC as nat)) as u64,
                (self.magnitude() % (NANOS_PER_SEC as nat)) as u32,
            ),
            self.magnitude() / (NANOS_PER_SEC as nat) > u64::MAX ==> r is None,
    {
        let d = match self {
            TimeOffset::Earlier(d) => *d,
            TimeOffset::Later(d) => *d,
        };
        let secs = d / NANOS_PER_SEC;
        if secs > u64::MAX as u128 {
            None
        } else {
            Some(format_duration(secs as u64, (d % NANOS_PER_SEC) as u32))
        }
    }
}

impl TimeOffset {
    /// The text of a log line for this offset: the label and the readable
    /// magnitude in parentheses, as in `Early(1s 500ms)`; `None` when the
    /// magnitude cannot be rendered.
    pub fn describe(&self) -> (r: Option<String>)
        ensures
            self.magnitude() / (NANOS_PER_SEC as nat) <= u64::MAX ==> r is Some && r->0@ == (
            if self.is_earlier() {
                "Early"@
            } else {
                "Later"@
            }) + "("@ + humanized(
                (self.magnitude() / (NANOS_PER_SEC as nat)) as u64,
                (self.magnitude() % (NANOS_PER_SEC as nat)) as u32,
            ) + ")"@,
            self.magnitude() / (NANOS_PER_SEC as nat) > u64::MAX ==> r is None,
    {
        match self.magnitude_text() {
            Some(text) => {
                let mut out = String::from_str(self.label());
                out.append("(");
                out.append(text.as_str());
                out.append(")");
                Some(out)
            },
            None => None,
        }
    }
}

impl Default for TimeOffset {
    /// The zero offset, `Later(0)`.
    fn default() -> (r: TimeOffset)
        ensures
            r == TimeOffset::Later(0),
    {
        TimeOffset::Later(0)
    }
}

/// Taking the difference of an instant with itself gives a zero offset;
/// moving the sample `a` forward gives `Earlier(a)`, moving it `a > 0` back
/// gives `Later(a)`.
pub proof fn lemma_diff_laws(base: i64, a: u64)
    ensures
        diff_of(base, base).value() == TimeOffset::Later(0).value(),
        diff_of(base, base) == TimeOffset::Earlier(0),
        base + a <= i64::MAX ==> diff_of(base, (base + a) as i64) == TimeOffset::Earlier(a as u128),
        a > 0 && base - a >= i64::MIN ==> diff_of(base, (base - a) as i64) == TimeOffset::Later(
            a as u128,
        ),
{
}

/// Addition commutes.
pub proof fn lemma_add_commutes(x: TimeOffset, y: TimeOffset)
    requires
        add_fits(x, y),
    ensures
        add_of(x, y) == add_of(y, x),
{
}

/// An offset plus its negation is the zero `Later(0)`.
pub proof fn lemma_add_negation(x: TimeOffset)
    ensures
        add_fits(x, neg_of(x)),
        add_of(x, neg_of(x)) == TimeOffset::Later(0),
{
}

/// Dividing by one changes nothing; dividing by minus one negates.
pub proof fn lemma_div_unit(x: TimeOffset)
    ensures
        div_of(x, 1) == x,
        div_of(x, -1i32) == neg_of(x),
{
    let d = x.magnitude();
    assert(abs_of(1) == 1 && abs_of(-1i32) == 1);
    assert(d / 1 == d) by (nonlinear_arith);
}

} // verus!
