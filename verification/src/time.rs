//! Fixed-point time: seconds held as whole microseconds.

use vstd::prelude::*;

verus! {

/// Microseconds in one second.
pub const MICROS_PER_SEC: u64 = 1_000_000;

/// Whole samples that fit in `micros` microseconds at `rate` samples per second.
pub open spec fn samples_in(micros: nat, rate: nat) -> nat {
    micros * rate / 1_000_000
}

/// Whole microseconds that `samples` samples last at `rate` samples per second.
/// At rate zero nothing ever ends: any audio at all lasts `u64::MAX`.
pub open spec fn micros_of(samples: nat, rate: nat) -> nat {
    if rate == 0 {
        if samples == 0 {
            0
        } else {
            u64::MAX as nat
        }
    } else {
        samples * 1_000_000 / rate
    }
}

/// The smaller of two naturals.
pub open spec fn least(a: nat, b: nat) -> nat {
    if a <= b {
        a
    } else {
        b
    }
}

/// A span of time, or a position on the recording's timeline, in seconds.
///
/// The value is `micros / 1_000_000` seconds; it is never negative.
#[derive(Clone, Copy, Debug, PartialEq, Eq, Structural)]
pub struct Seconds {
    pub micros: u64,
}

impl Seconds {
    /// The span of no time.
    pub fn zero() -> (s: Seconds)
        ensures
            s.micros == 0,
    {
        Seconds { micros: 0 }
    }

    /// A span of `micros` microseconds.
    pub fn from_micros(micros: u64) -> (s: Seconds)
        ensures
            s.micros == micros,
    {
        Seconds { micros }
    }

    /// A span of `millis` milliseconds, or the longest span if that is more.
    pub fn from_millis(millis: u64) -> (s: Seconds)
        ensures
            s.micros == least(millis as nat * 1000, u64::MAX as nat),
    {
        if millis > u64::MAX / 1000 {
            Seconds { micros: u64::MAX }
        } else {
            Seconds { micros: millis * 1000 }
        }
    }

    /// A span of `secs` whole seconds, or the longest span if that is more.
    pub fn from_secs(secs: u64) -> (s: Seconds)
        ensures
            s.micros == least(secs as nat * 1_000_000, u64::MAX as nat),
    {
        if secs > u64::MAX / MICROS_PER_SEC {
            Seconds { micros: u64::MAX }
        } else {
            Seconds { micros: secs * MICROS_PER_SEC }
        }
    }

    /// The span in whole microseconds.
    pub fn as_micros(&self) -> (micros: u64)
        ensures
            micros == self.micros,
    {
        self.micros
    }

    /// The span in whole seconds, rounded down.
    pub fn whole_secs(&self) -> (secs: u64)
        ensures
            secs == self.micros / 1_000_000,
    {
        self.micros / MICROS_PER_SEC
    }

    /// How many whole samples the span holds at `sample_rate`, rounded down;
    /// `usize::MAX` where the count does not fit.
    pub fn sample_count(&self, sample_rate: u32) -> (n: usize)
        ensures
            n == least(samples_in(self.micros as nat, sample_rate as nat), usize::MAX as nat),
    {
        assert(self.micros as nat * sample_rate as nat <= 0xffff_ffff_ffff_ffff * 0xffff_ffff)
            by (nonlinear_arith)
            requires
                self.micros <= 0xffff_ffff_ffff_ffff,
                sample_rate <= 0xffff_ffff,
        ;
        let product: u128 = self.micros as u128 * sample_rate as u128;
        let count: u128 = product / 1_000_000;
        if count > usize::MAX as u128 {
            usize::MAX
        } else {
            count as usize
        }
    }

    /// How long `samples` samples last at `sample_rate`: [`micros_of`], up to
    /// the longest span.
    pub open spec fn spec_of_samples(samples: usize, sample_rate: u32) -> Seconds {
        Seconds {
            micros: least(micros_of(samples as nat, sample_rate as nat), u64::MAX as nat) as u64,
        }
    }

    /// How long `samples` samples last at `sample_rate`, rounded down to a
    /// microsecond; the longest span where that is more, or where the rate is
    /// zero and there is any audio.
    pub fn of_samples(samples: usize, sample_rate: u32) -> (s: Seconds)
        ensures
            s == Seconds::spec_of_samples(samples, sample_rate),
            s.micros == least(micros_of(samples as nat, sample_rate as nat), u64::MAX as nat),
    {
        if sample_rate == 0 {
            if samples == 0 {
                Seconds { micros: 0 }
            } else {
                Seconds { micros: u64::MAX }
            }
        } else {
            let scaled: u128 = samples as u128 * 1_000_000;
            let micros: u128 = scaled / sample_rate as u128;
            if micros > u64::MAX as u128 {
                Seconds { micros: u64::MAX }
            } else {
                Seconds { micros: micros as u64 }
            }
        }
    }

    /// The sum of two spans, or the longest span if that is more.
    pub fn saturating_add(self, other: Seconds) -> (s: Seconds)
        ensures
            s.micros == least(self.micros as nat + other.micros as nat, u64::MAX as nat),
    {
        if self.micros > u64::MAX - other.micros {
            Seconds { micros: u64::MAX }
        } else {
            Seconds { micros: self.micros + other.micros }
        }
    }

    /// What is left of the span after `other`, or nothing if `other` is longer.
    pub fn saturating_sub(self, other: Seconds) -> (s: Seconds)
        ensures
            s.micros == if self.micros >= other.micros {
                self.micros - other.micros
            } else {
                0
            },
    {
        if self.micros >= other.micros {
            Seconds { micros: self.micros - other.micros }
        } else {
            Seconds { micros: 0 }
        }
    }
}

/// More audio never lasts less: at a fixed rate the duration grows with the
/// number of samples.
pub proof fn lemma_micros_of_monotonic(fewer: nat, more: nat, rate: nat)
    requires
        fewer <= more,
    ensures
        micros_of(fewer, rate) <= micros_of(more, rate),
{
    if rate > 0 {
        vstd::arithmetic::div_mod::lemma_div_is_ordered(
            (fewer * 1_000_000) as int,
            (more * 1_000_000) as int,
            rate as int,
        );
    }
}

} // verus!
