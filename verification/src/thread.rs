//! Software PWM for the heater: the decision taken at every control period.
use vstd::prelude::*;

verus! {

struct PWMControlConfig {
    set_width: u32,
    set_duration: u32,
}

/// The heater's duty-cycle setting: on for `width` periods out of every
/// `duration` periods.
pub struct PWMControl {
    config: PWMControlConfig,
}

/// The PWM setting as numbers: (width, duration).
pub ghost struct PwmView {
    pub width: nat,
    pub duration: nat,
}

impl View for PWMControl {
    type V = PwmView;

    closed spec fn view(&self) -> PwmView {
        PwmView { width: self.config.set_width as nat, duration: self.config.set_duration as nat }
    }
}

/// The period counter after one control period.
pub open spec fn pwm_next(count: nat, duration: nat) -> nat {
    if count + 1 >= duration { 0 } else { count + 1 }
}

/// Whether the heater is on for a counter value.
pub open spec fn pwm_level(count: nat, width: nat) -> bool {
    count < width
}

/// The number of periods, out of the next `k` starting from counter `count`,
/// in which the heater is on.
pub open spec fn on_periods(count: nat, width: nat, duration: nat, k: nat) -> nat
    decreases k,
{
    if k == 0 {
        0
    } else {
        let n = pwm_next(count, duration);
        (if pwm_level(n, width) { 1nat } else { 0nat }) + on_periods(n, width, duration, (k - 1) as nat)
    }
}

/// The counter after `k` control periods starting from `count`.
pub open spec fn counter_after(count: nat, duration: nat, k: nat) -> nat
    decreases k,
{
    if k == 0 {
        count
    } else {
        counter_after(pwm_next(count, duration), duration, (k - 1) as nat)
    }
}

impl PWMControl {
    /// A controller with the heater always off.
    pub fn new() -> (p: Self)
        ensures
            p@ == (PwmView { width: 0, duration: 0 }),
    {
        Self { config: PWMControlConfig { set_width: 0, set_duration: 0 } }
    }

    /// Sets the duty cycle: on for `width` periods out of `duration`.
    pub fn set_pwm(&mut self, width: u32, duration: u32)
        ensures
            final(self)@ == (PwmView { width: width as nat, duration: duration as nat }),
    {
        self.config.set_width = width;
        self.config.set_duration = duration;
    }

    /// One control period: advances the counter (wrapping to 0 at the end of
    /// the cycle) and says whether the heater is on for it.
    pub fn tick(&self, count: u32) -> (r: (u32, bool))
        requires
            count < u32::MAX,
        ensures
            r.0 == pwm_next(count as nat, self@.duration),
            r.1 == pwm_level(r.0 as nat, self@.width),
            r.0 < u32::MAX,
    {
        let mut count = count + 1;
        if count >= self.config.set_duration {
            count = 0;
        }
        (count, count < self.config.set_width)
    }
}

/// The number of integers in `[a, b)` that are below `w`.
pub open spec fn count_below(a: nat, b: nat, w: nat) -> nat {
    if w <= a || b <= a {
        0
    } else if w >= b {
        (b - a) as nat
    } else {
        (w - a) as nat
    }
}

proof fn on_periods_without_wrap(count: nat, width: nat, duration: nat, k: nat)
    requires
        count + k < duration,
    ensures
        on_periods(count, width, duration, k) == count_below(count + 1, count + k + 1, width),
        counter_after(count, duration, k) == count + k,
    decreases k,
{
    if k > 0 {
        on_periods_without_wrap(count + 1, width, duration, (k - 1) as nat);
    }
}

proof fn on_periods_split(count: nat, width: nat, duration: nat, k: nat)
    ensures
        on_periods(count, width, duration, k + 1) == on_periods(count, width, duration, k) + (if pwm_level(
            counter_after(count, duration, k + 1),
            width,
        ) { 1nat } else { 0nat }),
        counter_after(count, duration, k + 1) == pwm_next(counter_after(count, duration, k), duration),
    decreases k,
{
    let n = pwm_next(count, duration);
    assert(on_periods(count, width, duration, k + 1) == (if pwm_level(n, width) { 1nat } else { 0nat })
        + on_periods(n, width, duration, k));
    assert(counter_after(count, duration, k + 1) == counter_after(n, duration, k));
    if k > 0 {
        on_periods_split(n, width, duration, (k - 1) as nat);
        assert(on_periods(count, width, duration, k) == (if pwm_level(n, width) { 1nat } else { 0nat })
            + on_periods(n, width, duration, (k - 1) as nat));
        assert(counter_after(count, duration, k) == counter_after(n, duration, (k - 1) as nat));
    }
}

/// The duty cycle holds: over one full cycle of `duration` periods that
/// starts from a fresh counter, the heater is on in exactly
/// `min(width, duration)` periods, and the counter is fresh again after it.
pub proof fn duty_cycle(width: nat, duration: nat)
    requires
        duration > 0,
    ensures
        on_periods(0, width, duration, duration) == if width < duration { width } else { duration },
        counter_after(0, duration, duration) == 0,
{
    let d1 = (duration - 1) as nat;
    on_periods_without_wrap(0, width, duration, d1);
    on_periods_split(0, width, duration, d1);
}

proof fn on_periods_append(count: nat, width: nat, duration: nat, k1: nat, k2: nat)
    ensures
        on_periods(count, width, duration, k1 + k2) == on_periods(count, width, duration, k1) + on_periods(
            counter_after(count, duration, k1),
            width,
            duration,
            k2,
        ),
        counter_after(count, duration, k1 + k2) == counter_after(counter_after(count, duration, k1), duration, k2),
    decreases k1,
{
    if k1 > 0 {
        let n = pwm_next(count, duration);
        on_periods_append(n, width, duration, (k1 - 1) as nat, k2);
        assert((k1 + k2 - 1) as nat == (k1 - 1) as nat + k2);
    }
}

proof fn count_below_split(a: nat, b: nat, e: nat, w: nat)
    requires
        a <= b <= e,
    ensures
        count_below(a, b, w) + count_below(b, e, w) == count_below(a, e, w),
{
}

/// The duty cycle holds over any `duration` consecutive control periods,
/// whatever the counter was at the start: the heater is on in exactly
/// `min(width, duration)` of them. A counter within the cycle is back where
/// it started after them.
pub proof fn duty_cycle_from_any_counter(count: nat, width: nat, duration: nat)
    requires
        duration > 0,
    ensures
        on_periods(count, width, duration, duration) == if width < duration { width } else { duration },
        count < duration ==> counter_after(count, duration, duration) == count,
{
    let d1 = (duration - 1) as nat;
    if count + 1 >= duration {
        on_periods_without_wrap(0, width, duration, d1);
        assert(on_periods(count, width, duration, duration) == (if pwm_level(0, width) { 1nat } else { 0nat })
            + on_periods(0, width, duration, d1));
        assert(counter_after(count, duration, duration) == counter_after(0, duration, d1));
        count_below_split(0, 1, duration, width);
    } else {
        let k1 = (d1 - count) as nat;
        let k2 = (count + 1) as nat;
        on_periods_without_wrap(count, width, duration, k1);
        on_periods_append(count, width, duration, k1, k2);
        assert(k1 + k2 == duration);
        assert(counter_after(count, duration, k1) == d1);
        on_periods_without_wrap(0, width, duration, count);
        assert(on_periods(d1, width, duration, k2) == (if pwm_level(0, width) { 1nat } else { 0nat })
            + on_periods(0, width, duration, count));
        assert(counter_after(d1, duration, k2) == counter_after(0, duration, count));
        count_below_split(0, 1, count + 1, width);
        count_below_split(0, count + 1, duration, width);
    }
}

/// With a zero duration the counter never leaves 0, so the heater is either
/// always on (non-zero width) or always off.
pub proof fn zero_duration_is_constant(count: nat, width: nat)
    ensures
        pwm_next(count, 0) == 0,
        pwm_level(pwm_next(count, 0), width) == (width > 0),
{
}

/// The counter never runs past the cycle: after a period it is 0 or below
/// the duration.
pub proof fn counter_stays_in_cycle(count: nat, duration: nat)
    ensures
        pwm_next(count, duration) == 0 || pwm_next(count, duration) < duration,
{
}

} // verus!
