//! The elapsed-duration value: whole seconds plus a sub-second nanosecond
//! remainder, with unit-converted accessors and a unit-auto-selecting
//! string rendering.

use vstd::prelude::*;
use crate::text::Alignment;
use crate::text::digit;
use crate::text::pad;
use crate::text::push_dec;
use crate::text::spec_dec;
use crate::text::spec_digit;
use crate::text::spec_pad;

verus! {

/// One second in nanoseconds; an `Elapsed` sub-second remainder is always
/// strictly below it.
pub const NANOS_PER_SEC: u32 = 1_000_000_000;

/// The time unit a duration is rendered in: the coarsest unit whose
/// whole-number value is strictly positive, nanoseconds for zero.
#[derive(Clone, Copy, Debug, PartialEq, Eq, Structural)]
pub enum TimeUnit {
    Seconds,
    Millis,
    Micros,
    Nanos,
}

/// An immutable, non-negative elapsed-time measurement, held canonically as
/// whole seconds plus a sub-second remainder in nanoseconds. Every accessor
/// and the rendering are computed from these two fields, so they cannot
/// disagree about the instant they describe.
#[derive(Clone, Copy, Debug, PartialEq, Eq, Structural)]
pub struct Elapsed {
    /// Whole seconds.
    pub secs: u64,
    /// Sub-second remainder in nanoseconds, always below `NANOS_PER_SEC`.
    pub subsec_nanos: u32,
}

impl Elapsed {
    /// The sub-second remainder stays below one second.
    pub open spec fn wf(self) -> bool {
        self.subsec_nanos < NANOS_PER_SEC
    }

    /// The whole-seconds count.
    pub open spec fn spec_seconds(self) -> int {
        self.secs as int
    }

    /// The whole-milliseconds count: seconds scaled up plus the remainder
    /// scaled down, truncating.
    pub open spec fn spec_millis(self) -> int {
        self.secs as int * 1000 + self.subsec_nanos as int / 1_000_000
    }

    /// The whole-microseconds count: seconds scaled up plus the remainder
    /// scaled down, truncating.
    pub open spec fn spec_micros(self) -> int {
        self.secs as int * 1_000_000 + self.subsec_nanos as int / 1_000
    }

    /// The whole-nanoseconds count.
    pub open spec fn spec_nanos(self) -> int {
        self.secs as int * 1_000_000_000 + self.subsec_nanos as int
    }

    /// Wraps a whole-seconds count and a sub-second nanosecond remainder.
    pub fn new(seconds: u64, subsec_nanos: u32) -> (r: Elapsed)
        requires
            subsec_nanos < NANOS_PER_SEC,
        ensures
            r.secs == seconds,
            r.subsec_nanos == subsec_nanos,
            r.wf(),
    {
        Elapsed { secs: seconds, subsec_nanos }
    }

    /// The whole-seconds count.
    pub fn seconds(&self) -> (r: u64)
        ensures
            r as int == self.spec_seconds(),
    {
        self.secs
    }

    /// The whole-milliseconds count, for durations where it fits in 64 bits.
    pub fn millis(&self) -> (r: u64)
        requires
            self.wf(),
            self.spec_millis() <= u64::MAX,
        ensures
            r as int == self.spec_millis(),
    {
        self.secs * 1000 + (self.subsec_nanos / 1_000_000) as u64
    }

    /// The whole-microseconds count, for durations where it fits in 64 bits.
    pub fn micros(&self) -> (r: u64)
        requires
            self.wf(),
            self.spec_micros() <= u64::MAX,
        ensures
            r as int == self.spec_micros(),
    {
        self.secs * 1_000_000 + (self.subsec_nanos / 1_000) as u64
    }

    /// The whole-nanoseconds count, for durations where it fits in 64 bits.
    pub fn nanos(&self) -> (r: u64)
        requires
            self.wf(),
            self.spec_nanos() <= u64::MAX,
        ensures
            r as int == self.spec_nanos(),
    {
        self.secs * 1_000_000_000 + self.subsec_nanos as u64
    }

    /// The whole-milliseconds count, or `None` exactly when it overflows
    /// 64 bits.
    pub fn checked_millis(&self) -> (r: Option<u64>)
        requires
            self.wf(),
        ensures
            match r {
                Some(v) => v as int == self.spec_millis() && self.spec_millis() <= u64::MAX,
                None => self.spec_millis() > u64::MAX,
            },
    {
        match self.secs.checked_mul(1000) {
            Some(m) => m.checked_add((self.subsec_nanos / 1_000_000) as u64),
            None => None,
        }
    }

    /// The whole-microseconds count, or `None` exactly when it overflows
    /// 64 bits.
    pub fn checked_micros(&self) -> (r: Option<u64>)
        requires
            self.wf(),
        ensures
            match r {
                Some(v) => v as int == self.spec_micros() && self.spec_micros() <= u64::MAX,
                None => self.spec_micros() > u64::MAX,
            },
    {
        match self.secs.checked_mul(1_000_000) {
            Some(m) => m.checked_add((self.subsec_nanos / 1_000) as u64),
            None => None,
        }
    }

    /// The whole-nanoseconds count, or `None` exactly when it overflows
    /// 64 bits.
    pub fn checked_nanos(&self) -> (r: Option<u64>)
        requires
            self.wf(),
        ensures
            match r {
                Some(v) => v as int == self.spec_nanos() && self.spec_nanos() <= u64::MAX,
                None => self.spec_nanos() > u64::MAX,
            },
    {
        match self.secs.checked_mul(1_000_000_000) {
            Some(m) => m.checked_add(self.subsec_nanos as u64),
            None => None,
        }
    }

    /// The unit the rendering selects: the coarsest unit whose whole-number
    /// accessor is strictly positive; nanoseconds when the duration is zero.
    pub open spec fn spec_unit(self) -> TimeUnit {
        if self.spec_seconds() > 0 {
            TimeUnit::Seconds
        } else if self.spec_millis() > 0 {
            TimeUnit::Millis
        } else if self.spec_micros() > 0 {
            TimeUnit::Micros
        } else {
            TimeUnit::Nanos
        }
    }

    /// The whole-number value of the duration at the selected unit.
    pub open spec fn spec_coarse(self) -> int {
        match self.spec_unit() {
            TimeUnit::Seconds => self.spec_seconds(),
            TimeUnit::Millis => self.spec_millis(),
            TimeUnit::Micros => self.spec_micros(),
            TimeUnit::Nanos => self.spec_nanos(),
        }
    }

    /// The whole-number value of the duration at the unit one step finer
    /// than the selected one; at nanoseconds, the nanosecond count scaled
    /// by a thousand, so that the fraction is zero.
    pub open spec fn spec_fine(self) -> int {
        match self.spec_unit() {
            TimeUnit::Seconds => self.spec_millis(),
            TimeUnit::Millis => self.spec_micros(),
            TimeUnit::Micros => self.spec_nanos(),
            TimeUnit::Nanos => self.spec_nanos() * 1000,
        }
    }

    /// The three decimal digits the next-finer unit adds below the coarse
    /// whole-number value.
    pub open spec fn spec_frac3(self) -> int {
        self.spec_fine() - self.spec_coarse() * 1000
    }

    /// The unit suffix the rendering appends after the numeric value.
    pub open spec fn spec_suffix(u: TimeUnit) -> Seq<char> {
        match u {
            TimeUnit::Seconds => seq!['s'],
            TimeUnit::Millis => seq!['m', 's'],
            TimeUnit::Micros => seq!['μ', 's'],
            TimeUnit::Nanos => seq!['n', 's'],
        }
    }

    /// The rendered duration: the coarse whole-number value, a dot, the
    /// first two of the three sub-unit decimal digits (truncated, never
    /// rounded up), a space, and the unit suffix.
    pub open spec fn spec_format(self) -> Seq<char> {
        spec_dec(self.spec_coarse() as nat) + seq![
            '.',
            spec_digit(self.spec_frac3() / 100),
            spec_digit((self.spec_frac3() / 10) % 10),
            ' ',
        ] + Self::spec_suffix(self.spec_unit())
    }

    /// Rendering only scales seconds up to milliseconds, so it stays free
    /// of overflow exactly when the whole-milliseconds count fits in 64
    /// bits; a duration with a zero seconds field always fits.
    pub open spec fn format_fits(self) -> bool {
        self.spec_millis() <= u64::MAX
    }

    /// The selected unit, as a value.
    pub fn unit(&self) -> (u: TimeUnit)
        requires
            self.wf(),
        ensures
            u == self.spec_unit(),
    {
        if self.secs > 0 {
            TimeUnit::Seconds
        } else if self.subsec_nanos / 1_000_000 > 0 {
            TimeUnit::Millis
        } else if self.subsec_nanos / 1_000 > 0 {
            TimeUnit::Micros
        } else {
            TimeUnit::Nanos
        }
    }

    /// Renders the duration as `spec_format` describes. Callers must rule
    /// out the overflowing seconds counts; `checked_format` does so and
    /// reports them instead of failing.
    pub fn format(&self) -> (r: String)
        requires
            self.wf(),
            self.format_fits(),
        ensures
            r@ == self.spec_format(),
    {
        let coarse: u64;
        let frac3: u32;
        if self.secs > 0 {
            coarse = self.secs;
            frac3 = self.subsec_nanos / 1_000_000;
        } else if self.subsec_nanos / 1_000_000 > 0 {
            coarse = (self.subsec_nanos / 1_000_000) as u64;
            frac3 = self.subsec_nanos / 1_000 % 1000;
            proof {
                lemma_frac3_millis(*self);
            }
        } else if self.subsec_nanos / 1_000 > 0 {
            coarse = (self.subsec_nanos / 1_000) as u64;
            frac3 = self.subsec_nanos % 1000;
            proof {
                lemma_frac3_micros(*self);
            }
        } else {
            coarse = self.subsec_nanos as u64;
            frac3 = 0;
        }
        let mut out = String::new();
        push_dec(&mut out, coarse);
        out.push('.');
        out.push(digit((frac3 / 100) as u64));
        out.push(digit((frac3 / 10 % 10) as u64));
        out.push(' ');
        match self.unit() {
            TimeUnit::Seconds => {
                out.push('s');
            },
            TimeUnit::Millis => {
                out.push('m');
                out.push('s');
            },
            TimeUnit::Micros => {
                out.push('μ');
                out.push('s');
            },
            TimeUnit::Nanos => {
                out.push('n');
                out.push('s');
            },
        }
        proof {
            assert(out@ =~= self.spec_format());
        }
        out
    }

    /// Renders the duration, or returns `None` exactly when the rendering
    /// would overflow 64-bit unit scaling; never a silently wrong value.
    pub fn checked_format(&self) -> (r: Option<String>)
        requires
            self.wf(),
        ensures
            match r {
                Some(s) => s@ == self.spec_format() && self.format_fits(),
                None => !self.format_fits(),
            },
    {
        match self.checked_millis() {
            Some(_) => Some(self.format()),
            None => None,
        }
    }

    /// Renders the duration and embeds it in a field of at least `width`
    /// characters, positioned by `align` and filled with `fill`.
    pub fn format_padded(&self, width: usize, align: Alignment, fill: char) -> (r: String)
        requires
            self.wf(),
            self.format_fits(),
        ensures
            r@ == spec_pad(self.spec_format(), width as nat, align, fill),
    {
        let s = self.format();
        pad(s.as_str(), width, align, fill)
    }
}

/// At a millisecond selection the three extra digits are the microsecond
/// count's last three decimal digits.
proof fn lemma_frac3_millis(d: Elapsed)
    requires
        d.wf(),
        d.spec_unit() == TimeUnit::Millis,
    ensures
        d.spec_frac3() == d.subsec_nanos as int / 1_000 % 1000,
        0 <= d.spec_frac3() < 1000,
{
    let sub = d.subsec_nanos as int;
    vstd::arithmetic::div_mod::lemma_div_denominator(sub, 1_000, 1_000);
    assert(sub / 1_000_000 == sub / 1_000 / 1000);
    vstd::arithmetic::div_mod::lemma_fundamental_div_mod(sub / 1_000, 1000);
    vstd::arithmetic::div_mod::lemma_mod_bound(sub / 1_000, 1000);
}

/// At a microsecond selection the three extra digits are the nanosecond
/// count's last three decimal digits.
proof fn lemma_frac3_micros(d: Elapsed)
    requires
        d.wf(),
        d.spec_unit() == TimeUnit::Micros,
    ensures
        d.spec_frac3() == d.subsec_nanos as int % 1000,
        0 <= d.spec_frac3() < 1000,
{
    let sub = d.subsec_nanos as int;
    vstd::arithmetic::div_mod::lemma_fundamental_div_mod(sub, 1000);
    vstd::arithmetic::div_mod::lemma_mod_bound(sub, 1000);
}

/// The scaled accessors of one value are mutually consistent: each finer
/// unit count, divided down by the scale between the units, gives back
/// exactly the coarser count, for every well-formed duration.
pub proof fn lemma_accessor_consistency(d: Elapsed)
    requires
        d.wf(),
    ensures
        d.spec_seconds() == d.spec_millis() / 1000,
        d.spec_millis() == d.spec_micros() / 1000,
        d.spec_micros() == d.spec_nanos() / 1000,
        d.spec_millis() == d.spec_nanos() / 1_000_000,
        d.spec_seconds() == d.spec_nanos() / 1_000_000_000,
{
    let s = d.secs as int;
    let sub = d.subsec_nanos as int;
    vstd::arithmetic::div_mod::lemma_fundamental_div_mod_converse(
        d.spec_millis(),
        1000,
        s,
        sub / 1_000_000,
    );
    vstd::arithmetic::div_mod::lemma_div_denominator(sub, 1_000, 1_000);
    vstd::arithmetic::div_mod::lemma_fundamental_div_mod(sub / 1_000, 1000);
    vstd::arithmetic::div_mod::lemma_mod_bound(sub / 1_000, 1000);
    assert(d.spec_micros() == d.spec_millis() * 1000 + sub / 1_000 % 1000) by {
        assert(sub / 1_000_000 == sub / 1_000 / 1000);
    };
    vstd::arithmetic::div_mod::lemma_fundamental_div_mod_converse(
        d.spec_micros(),
        1000,
        d.spec_millis(),
        sub / 1_000 % 1000,
    );
    vstd::arithmetic::div_mod::lemma_fundamental_div_mod(sub, 1000);
    vstd::arithmetic::div_mod::lemma_mod_bound(sub, 1000);
    vstd::arithmetic::div_mod::lemma_fundamental_div_mod_converse(
        d.spec_nanos(),
        1000,
        d.spec_micros(),
        sub % 1000,
    );
    vstd::arithmetic::div_mod::lemma_fundamental_div_mod(sub, 1_000_000);
    vstd::arithmetic::div_mod::lemma_mod_bound(sub, 1_000_000);
    vstd::arithmetic::div_mod::lemma_fundamental_div_mod_converse(
        d.spec_nanos(),
        1_000_000,
        d.spec_millis(),
        sub % 1_000_000,
    );
    vstd::arithmetic::div_mod::lemma_fundamental_div_mod_converse(
        d.spec_nanos(),
        1_000_000_000,
        s,
        sub,
    );
}

/// Unit selection is monotonic and coarsest-first: the rendering never
/// selects a finer unit while a coarser unit's whole-number accessor is
/// strictly positive, and an all-zero duration falls through to
/// nanoseconds.
pub proof fn lemma_unit_selection_coarsest_first(d: Elapsed)
    requires
        d.wf(),
    ensures
        d.spec_seconds() > 0 ==> d.spec_unit() == TimeUnit::Seconds,
        d.spec_millis() > 0 ==> d.spec_unit() == TimeUnit::Seconds || d.spec_unit()
            == TimeUnit::Millis,
        d.spec_micros() > 0 ==> d.spec_unit() != TimeUnit::Nanos,
        d.spec_unit() == TimeUnit::Seconds ==> d.spec_seconds() > 0,
        d.spec_unit() == TimeUnit::Millis ==> d.spec_millis() > 0,
        d.spec_unit() == TimeUnit::Micros ==> d.spec_micros() > 0,
        d.spec_nanos() == 0 ==> d.spec_unit() == TimeUnit::Nanos,
{
}

} // verus!
