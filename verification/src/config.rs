//! Matrix geometry and timing, as handed to a plugin when it is set up.

use vstd::prelude::*;
use vstd::arithmetic::div_mod::lemma_fundamental_div_mod;

verus! {

/// Nanoseconds in a thousand seconds: the tick interval of a matrix driven at
/// one thousandth of a frame per second.
pub const NANOS_PER_KILOSECOND: u64 = 1_000_000_000_000;

/// Matrix configuration passed to a plugin's setup operation.
///
/// Rates and scale factors are fixed-point numbers in thousandths, so that
/// every decision taken on them is exact.
#[derive(Clone, Copy, Debug, PartialEq, Eq, Structural)]
pub struct MatrixConfiguration {
    /// Width of the matrix, in number of LEDs.
    pub width: usize,
    /// Height of the matrix, in number of LEDs.
    pub height: usize,
    /// Frame rate the host tries to drive the LEDs at, in thousandths of a
    /// frame per second. Zero asks for no throttling at all.
    pub target_fps_milli: u32,
    /// Whether the data line alternates direction from one line of LEDs to
    /// the next.
    pub serpentine: bool,
    /// Magnification of a simulated matrix, in thousandths. `None` on
    /// hardware, which has no use for it.
    pub magnification_milli: Option<u32>,
}

impl MatrixConfiguration {
    /// The configuration that `default()` returns.
    pub open spec fn spec_default() -> MatrixConfiguration {
        MatrixConfiguration {
            width: 0,
            height: 0,
            target_fps_milli: 0,
            serpentine: false,
            magnification_milli: None,
        }
    }

    /// Whether the host spaces ticks out at all.
    pub open spec fn spec_is_throttled(&self) -> bool {
        self.target_fps_milli > 0
    }

    /// Nominal time between two tick starts, in nanoseconds: the reciprocal
    /// of the frame rate, rounded down, and zero when unthrottled.
    pub open spec fn spec_tick_interval_nanos(&self) -> nat {
        if self.target_fps_milli > 0 {
            (NANOS_PER_KILOSECOND as nat) / (self.target_fps_milli as nat)
        } else {
            0
        }
    }

    /// Time left to sleep after a tick whose work took `elapsed`
    /// nanoseconds: what is left of the tick interval, and nothing once the
    /// interval is used up. Time lost on one tick is not made up on the next.
    pub open spec fn spec_sleep_nanos(&self, elapsed: nat) -> nat {
        if elapsed >= self.spec_tick_interval_nanos() {
            0
        } else {
            (self.spec_tick_interval_nanos() - elapsed) as nat
        }
    }

    /// Whether the host spaces ticks out at all: it does for every frame
    /// rate but zero.
    #[verifier::when_used_as_spec(spec_is_throttled)]
    pub fn is_throttled(&self) -> (throttled: bool)
        ensures
            throttled == self.spec_is_throttled(),
    {
        self.target_fps_milli > 0
    }

    /// Nominal time between two tick starts, in nanoseconds; zero when
    /// unthrottled.
    pub fn tick_interval_nanos(&self) -> (interval: u64)
        ensures
            interval == self.spec_tick_interval_nanos(),
    {
        if self.target_fps_milli > 0 {
            NANOS_PER_KILOSECOND / (self.target_fps_milli as u64)
        } else {
            0
        }
    }
}

impl MatrixConfiguration {
    /// How long the host sleeps before the next tick, in nanoseconds, when
    /// `elapsed_nanos` have passed since the tick began.
    pub fn sleep_nanos(&self, elapsed_nanos: u64) -> (sleep: u64)
        ensures
            sleep == self.spec_sleep_nanos(elapsed_nanos as nat),
    {
        let interval = self.tick_interval_nanos();
        if elapsed_nanos >= interval {
            0
        } else {
            interval - elapsed_nanos
        }
    }

    /// The tick interval is the frame rate's reciprocal, rounded down to a
    /// nanosecond: that many frames take no longer than a thousand seconds,
    /// and with one nanosecond more to each they would.
    pub proof fn lemma_tick_interval_is_reciprocal(&self)
        requires
            self.is_throttled(),
        ensures
            self.spec_tick_interval_nanos() * self.target_fps_milli <= NANOS_PER_KILOSECOND,
            NANOS_PER_KILOSECOND < (self.spec_tick_interval_nanos() + 1) * self.target_fps_milli,
    {
        let rate = self.target_fps_milli as int;
        let total = NANOS_PER_KILOSECOND as int;
        lemma_fundamental_div_mod(total, rate);
        assert((total / rate + 1) * rate == (total / rate) * rate + rate) by (nonlinear_arith);
    }

    /// An unthrottled host never sleeps between ticks.
    pub proof fn lemma_unthrottled_never_sleeps(&self, elapsed: nat)
        requires
            !self.is_throttled(),
        ensures
            self.spec_tick_interval_nanos() == 0,
            self.spec_sleep_nanos(elapsed) == 0,
    {
    }

    /// Work and sleep together fill the tick interval exactly, unless the
    /// work alone took longer: then there is no sleep at all.
    pub proof fn lemma_sleep_fills_interval(&self, elapsed: nat)
        ensures
            elapsed + self.spec_sleep_nanos(elapsed) == (if elapsed
                >= self.spec_tick_interval_nanos() {
                elapsed
            } else {
                self.spec_tick_interval_nanos()
            }),
    {
    }
}

impl Default for MatrixConfiguration {
    fn default() -> (config: Self)
        ensures
            config == MatrixConfiguration::spec_default(),
    {
        MatrixConfiguration {
            width: 0,
            height: 0,
            target_fps_milli: 0,
            serpentine: false,
            magnification_milli: None,
        }
    }
}

} // verus!
