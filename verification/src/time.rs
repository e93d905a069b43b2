//! Architectural timer arithmetic: converting between counter values of the generic timer and
//! durations, and planning busy waits.

use vstd::prelude::*;

verus! {

/// Nanoseconds per second.
pub const NANOSEC_PER_SEC: u64 = 1_000_000_000;

/// A duration: whole seconds and the nanoseconds of the second begun.
#[derive(Copy, Clone, PartialEq, Eq, Structural)]
pub struct DurationParts {
    pub secs: u64,
    pub nanos: u32,
}

impl DurationParts {
    /// The duration in nanoseconds.
    pub open spec fn total_nanos(self) -> int {
        self.secs * NANOSEC_PER_SEC + self.nanos
    }

    /// The nanoseconds are those of a second begun.
    pub open spec fn wf(self) -> bool {
        self.nanos < NANOSEC_PER_SEC
    }

    /// The duration in nanoseconds.
    pub fn as_nanos(&self) -> (r: u128)
        ensures
            r == self.total_nanos(),
    {
        proof {
            assert((self.secs as u128) * (NANOSEC_PER_SEC as u128) <= 0xFFFF_FFFF_FFFF_FFFFu128
                * 1_000_000_000u128) by (nonlinear_arith);
        }
        (self.secs as u128) * (NANOSEC_PER_SEC as u128) + (self.nanos as u128)
    }
}

/// A value of the generic timer's counter.
#[derive(Copy, Clone, PartialEq, Eq, Structural)]
pub struct GenericTimerCounterValue(pub u64);

impl GenericTimerCounterValue {
    /// The largest counter value.
    pub fn max() -> (r: Self)
        ensures
            r.0 == u64::MAX,
    {
        GenericTimerCounterValue(u64::MAX)
    }
}

impl core::ops::Add for GenericTimerCounterValue {
    type Output = Self;

    /// Counter values add up modulo 2^64.
    fn add(self, other: Self) -> (r: Self) {
        GenericTimerCounterValue(self.0.wrapping_add(other.0))
    }
}

impl vstd::std_specs::ops::AddSpecImpl for GenericTimerCounterValue {
    open spec fn obeys_add_spec() -> bool {
        true
    }

    open spec fn add_req(self, rhs: Self) -> bool {
        true
    }

    open spec fn add_spec(self, rhs: Self) -> Self {
        GenericTimerCounterValue(((self.0 + rhs.0) % 0x1_0000_0000_0000_0000) as u64)
    }
}

/// The duration that `counter` ticks of a counter running at `frequency` Hz take, rounded down
/// to whole nanoseconds.
pub open spec fn counter_duration_nanos(counter: u64, frequency: u32) -> int {
    (counter * NANOSEC_PER_SEC) / (frequency as int)
}

/// The duration of `counter_value` ticks at `frequency` Hz.
pub fn counter_to_duration(counter_value: GenericTimerCounterValue, frequency: u32) -> (r:
    DurationParts)
    requires
        frequency > 0,
    ensures
        r.secs == (counter_value.0 as int) / (frequency as int),
        r.nanos == ((counter_value.0 as int) % (frequency as int)) * NANOSEC_PER_SEC / (frequency as int),
        r.wf(),
{
    if counter_value.0 == 0 {
        return DurationParts { secs: 0, nanos: 0 };
    }
    let frequency = frequency as u64;
    let secs = counter_value.0 / frequency;
    let sub_second_counter_value = counter_value.0 % frequency;
    proof {
        assert(sub_second_counter_value * NANOSEC_PER_SEC < frequency * NANOSEC_PER_SEC)
            by (nonlinear_arith)
            requires
                sub_second_counter_value < frequency,
        ;
        assert(frequency * NANOSEC_PER_SEC <= 0xFFFF_FFFF * 1_000_000_000) by (nonlinear_arith)
            requires
                frequency <= 0xFFFF_FFFF,
        ;
        assert((sub_second_counter_value * NANOSEC_PER_SEC) / (frequency as int) < NANOSEC_PER_SEC)
            by (nonlinear_arith)
            requires
                sub_second_counter_value < frequency,
                frequency > 0,
        ;
    }
    let nanos = ((sub_second_counter_value * NANOSEC_PER_SEC) / frequency) as u32;
    DurationParts { secs, nanos }
}

/// The duration of `counter` ticks is exactly the counter's duration rounded down to whole
/// nanoseconds, split into seconds and nanoseconds.
pub proof fn lemma_counter_duration_exact(counter: u64, frequency: u32)
    requires
        frequency > 0,
    ensures
        ((counter as int) / (frequency as int)) * NANOSEC_PER_SEC + ((counter as int) % (frequency as int))
            * NANOSEC_PER_SEC / (frequency as int) == counter_duration_nanos(counter, frequency),
{
    let f = frequency as int;
    let c = counter as int;
    let q = c / f;
    let r = c % f;
    vstd::arithmetic::div_mod::lemma_fundamental_div_mod(c, f);
    assert(c * NANOSEC_PER_SEC == (q * NANOSEC_PER_SEC) * f + r * NANOSEC_PER_SEC)
        by (nonlinear_arith)
        requires
            c == f * q + r,
    ;
    vstd::arithmetic::div_mod::lemma_hoist_over_denominator(
        r * NANOSEC_PER_SEC,
        q * NANOSEC_PER_SEC,
        f as nat,
    );
}

/// The timer's resolution: the duration of one tick.
pub fn resolution(frequency: u32) -> (r: DurationParts)
    requires
        frequency > 0,
    ensures
        r == spec_counter_to_duration(1, frequency),
{
    counter_to_duration(GenericTimerCounterValue(1), frequency)
}

/// The longest duration the counter can measure: the duration of its largest value.
pub fn max_duration(frequency: u32) -> (r: DurationParts)
    requires
        frequency > 0,
    ensures
        r == spec_counter_to_duration(u64::MAX, frequency),
{
    counter_to_duration(GenericTimerCounterValue::max(), frequency)
}

/// The duration of `counter` ticks at `frequency` Hz.
pub open spec fn spec_counter_to_duration(counter: u64, frequency: u32) -> DurationParts {
    DurationParts {
        secs: ((counter as int) / (frequency as int)) as u64,
        nanos: (((counter as int) % (frequency as int)) * NANOSEC_PER_SEC / (frequency as int)) as u32,
    }
}

/// Message of the error that a duration is longer than the counter can measure.
pub open spec fn too_big_message() -> Seq<char> {
    "Conversion error. Duration too big"@
}

/// The counter value that a duration converts to: zero below the resolution, an error above the
/// longest measurable duration, else the ticks that the duration takes, rounded down.
pub open spec fn duration_to_counter(duration: DurationParts, frequency: u32) -> Result<u64, ()> {
    if duration.total_nanos() < spec_counter_to_duration(1, frequency).total_nanos() {
        Ok(0)
    } else if duration.total_nanos() > spec_counter_to_duration(u64::MAX, frequency).total_nanos() {
        Err(())
    } else {
        Ok(((duration.total_nanos() * frequency) / (NANOSEC_PER_SEC as int)) as u64)
    }
}

/// Convert a duration into the counter value it takes at `frequency` Hz.
pub fn try_from_duration(duration: DurationParts, frequency: u32) -> (r: Result<
    GenericTimerCounterValue,
    &'static str,
>)
    requires
        frequency > 0,
        duration.wf(),
    ensures
        match r {
            Ok(v) => duration_to_counter(duration, frequency) == Ok::<u64, ()>(v.0),
            Err(e) => duration_to_counter(duration, frequency) is Err && e@ == too_big_message(),
        },
{
    let nanos = duration.as_nanos();
    if nanos < resolution(frequency).as_nanos() {
        return Ok(GenericTimerCounterValue(0));
    }
    let max = max_duration(frequency);
    if nanos > max.as_nanos() {
        return Err("Conversion error. Duration too big");
    }
    let f = frequency as u128;
    proof {
        lemma_counter_duration_exact(u64::MAX, frequency);
        let x: int = 0xFFFF_FFFF_FFFF_FFFFint * 1_000_000_000int;
        let d: int = x / (f as int);
        assert(nanos <= d);
        vstd::arithmetic::div_mod::lemma_fundamental_div_mod(x, f as int);
        assert(d * f <= x) by (nonlinear_arith)
            requires
                x == (f as int) * d + x % (f as int),
                x % (f as int) >= 0,
        ;
        assert(nanos * f <= d * f) by (nonlinear_arith)
            requires
                nanos <= d,
                f >= 0,
        ;
        vstd::arithmetic::div_mod::lemma_div_is_ordered(nanos * f, x, 1_000_000_000);
    }
    let counter_value = (nanos * f) / (NANOSEC_PER_SEC as u128);
    Ok(GenericTimerCounterValue(counter_value as u64))
}

/// The counter value to busy-wait for when spinning for `duration` from the counter value
/// `current`: the current value plus the ticks that the duration takes, modulo 2^64; or the
/// error that the duration is too long to measure.
pub fn spin_for_target(
    current: GenericTimerCounterValue,
    duration: DurationParts,
    frequency: u32,
) -> (r: Result<GenericTimerCounterValue, &'static str>)
    requires
        frequency > 0,
        duration.wf(),
    ensures
        match duration_to_counter(duration, frequency) {
            Ok(delta) => r == Ok::<GenericTimerCounterValue, &'static str>(
                GenericTimerCounterValue(((current.0 + delta) % 0x1_0000_0000_0000_0000) as u64),
            ),
            Err(_) => r is Err && r->Err_0@ == too_big_message(),
        },
{
    let counter_value_delta = match try_from_duration(duration, frequency) {
        Err(msg) => return Err(msg),
        Ok(val) => val,
    };
    Ok(current + counter_value_delta)
}

/// The duration of a counter value, in nanoseconds, is the counter's duration rounded down.
pub proof fn lemma_spec_duration_total(counter: u64, frequency: u32)
    requires
        frequency > 0,
    ensures
        spec_counter_to_duration(counter, frequency).total_nanos() == counter_duration_nanos(
            counter,
            frequency,
        ),
        spec_counter_to_duration(counter, frequency).wf(),
{
    let f = frequency as int;
    let c = counter as int;
    lemma_counter_duration_exact(counter, frequency);
    assert(c / f <= c) by (nonlinear_arith)
        requires
            f >= 1,
            c >= 0,
    ;
    assert((c % f) * NANOSEC_PER_SEC / f < NANOSEC_PER_SEC) by (nonlinear_arith)
        requires
            0 <= c % f < f,
            f > 0,
    ;
    assert(0 <= (c % f) * NANOSEC_PER_SEC / f) by (nonlinear_arith)
        requires
            0 <= c % f,
            f > 0,
    ;
}

/// Converting the duration of a counter value back into a counter value never gives more ticks
/// than there were.
pub proof fn lemma_counter_round_trip(counter: u64, frequency: u32)
    requires
        frequency > 0,
    ensures
        duration_to_counter(spec_counter_to_duration(counter, frequency), frequency) is Ok,
        duration_to_counter(spec_counter_to_duration(counter, frequency), frequency)->Ok_0
            <= counter,
{
    let f = frequency as int;
    lemma_spec_duration_total(counter, frequency);
    lemma_spec_duration_total(u64::MAX, frequency);
    assert(counter_duration_nanos(counter, frequency) <= counter_duration_nanos(u64::MAX, frequency))
        by {
        vstd::arithmetic::div_mod::lemma_div_is_ordered(
            counter * NANOSEC_PER_SEC,
            u64::MAX * NANOSEC_PER_SEC,
            f,
        );
    }
    let c = counter as int;
    let x = c * NANOSEC_PER_SEC;
    let d = x / f;
    vstd::arithmetic::div_mod::lemma_fundamental_div_mod(x, f);
    assert(d * f <= x) by (nonlinear_arith)
        requires
            x == f * d + x % f,
            x % f >= 0,
    ;
    vstd::arithmetic::div_mod::lemma_div_is_ordered(d * f, x, NANOSEC_PER_SEC as int);
    assert(x / (NANOSEC_PER_SEC as int) == c) by {
        vstd::arithmetic::div_mod::lemma_div_multiples_vanish(c, NANOSEC_PER_SEC as int);
        assert(x == (NANOSEC_PER_SEC as int) * c) by (nonlinear_arith)
            requires
                x == c * NANOSEC_PER_SEC,
        ;
    }
    assert(((c / f) * NANOSEC_PER_SEC) <= x) by (nonlinear_arith)
        requires
            c / f <= c,
            0 <= c / f,
            x == c * NANOSEC_PER_SEC,
    ;
    assert((c % f) * NANOSEC_PER_SEC / f < NANOSEC_PER_SEC) by (nonlinear_arith)
        requires
            0 <= c % f < f,
            f > 0,
    ;
    assert(d * f == f * d) by (nonlinear_arith);
}

/// What a busy wait of the timer comes to: return at once, skip it for one of three reasons, or
/// count down the given number of ticks.
#[derive(Copy, Clone, PartialEq, Eq, Structural)]
pub enum SpinPlan {
    /// The duration is zero.
    Immediate,
    /// The ticks of the duration do not fit into 64 bits.
    TooLong,
    /// The duration is shorter than one tick.
    Smaller,
    /// The duration takes more ticks than the 32-bit compare register holds.
    Bigger,
    /// Count down this many ticks.
    Wait(u32),
}

/// Plan a busy wait of `duration_nanos` nanoseconds with a counter running at `frequency` Hz.
/// The duration is taken modulo 2^64 nanoseconds.
pub fn spin_plan(frequency: u64, duration_nanos: u128) -> (r: SpinPlan)
    ensures
        duration_nanos == 0 ==> r == SpinPlan::Immediate,
        duration_nanos != 0 && frequency * (duration_nanos as u64) > u64::MAX ==> r
            == SpinPlan::TooLong,
        duration_nanos != 0 && frequency * (duration_nanos as u64) <= u64::MAX ==> {
            let tval = frequency * (duration_nanos as u64) / (NANOSEC_PER_SEC as int);
            &&& tval == 0 ==> r == SpinPlan::Smaller
            &&& tval > u32::MAX ==> r == SpinPlan::Bigger
            &&& 0 < tval <= u32::MAX ==> r == SpinPlan::Wait(tval as u32)
        },
{
    if duration_nanos == 0 {
        return SpinPlan::Immediate;
    }
    let x = match frequency.checked_mul(duration_nanos as u64) {
        None => return SpinPlan::TooLong,
        Some(val) => val,
    };
    let tval = x / NANOSEC_PER_SEC;
    if tval == 0 {
        SpinPlan::Smaller
    } else if tval > 0xFFFF_FFFF {
        SpinPlan::Bigger
    } else {
        SpinPlan::Wait(tval as u32)
    }
}

/// The timer's resolution in nanoseconds: the length of one tick, rounded down.
pub fn resolution_nanos(frequency: u64) -> (r: u64)
    requires
        frequency > 0,
    ensures
        r == NANOSEC_PER_SEC / frequency,
{
    NANOSEC_PER_SEC / frequency
}

/// The time in nanoseconds, rounded down, that `count` ticks at `frequency` Hz take.
pub fn uptime_nanos(count: u64, frequency: u64) -> (r: u64)
    requires
        frequency > 0,
        count * NANOSEC_PER_SEC <= u64::MAX,
    ensures
        r == (count * NANOSEC_PER_SEC) / (frequency as int),
{
    let current_count: u64 = count * NANOSEC_PER_SEC;
    current_count / frequency
}

//------------------------------------------------------------------------------
// Cache benchmark arithmetic
//------------------------------------------------------------------------------

/// Milliseconds between two counter readings `t1 <= t2` at `frequency` Hz, or nothing for a zero
/// frequency.
pub fn batch_modify_time(t1: u64, t2: u64, frequency: u64) -> (r: Option<u64>)
    requires
        t1 <= t2,
        (t2 - t1) * 1000 <= u64::MAX,
    ensures
        frequency == 0 ==> r is None,
        frequency != 0 ==> r == Some(((t2 - t1) * 1000 / (frequency as int)) as u64),
{
    ((t2 - t1) * 1000).checked_div(frequency)
}

/// How much faster, in whole hundreds of percent, the cacheable run (`cacheable` ms) was than
/// the non-cacheable one (`non_cacheable` ms); nothing when the cacheable run took no time.
pub fn percent_faster(non_cacheable: u64, cacheable: u64) -> (r: Option<u64>)
    requires
        cacheable <= non_cacheable,
        cacheable != 0 ==> ((non_cacheable - cacheable) / (cacheable as int)) * 100 <= u64::MAX,
    ensures
        cacheable == 0 ==> r is None,
        cacheable != 0 ==> r == Some((((non_cacheable - cacheable) / (cacheable as int)) * 100) as u64),
{
    match (non_cacheable - cacheable).checked_div(cacheable) {
        Some(t) => Some(t * 100),
        None => None,
    }
}

/// By how many percent the non-cacheable run (`non_cacheable` ms) was slower than the cacheable
/// one (`cacheable` ms), rounded down.
pub fn percent_difference(non_cacheable: u32, cacheable: u32) -> (r: u32)
    requires
        0 < cacheable <= non_cacheable,
        (non_cacheable - cacheable) * 100 <= u32::MAX,
    ensures
        r == (non_cacheable - cacheable) * 100 / (cacheable as int),
{
    (non_cacheable - cacheable) * 100 / cacheable
}

} // verus!
