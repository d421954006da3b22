use crate::arith::{lemma_product_fits_u128, lemma_scaled_fraction};
use crate::error::StreamflowError;
use vstd::arithmetic::div_mod::{lemma_div_is_ordered, lemma_div_pos_is_pos};
use vstd::prelude::*;

verus! {

/// The release curve of a schedule.
#[derive(Debug, Clone, Copy, PartialEq, Eq, Structural)]
pub enum StreamType {
    /// Vests continuously from the unlock time to the end time.
    Linear,
    /// Vests everything at once, at the unlock time.
    Cliff,
    /// Vests in equal parts at every whole `step_interval` after the start time.
    SteppedLinear,
}

/// The vesting schedule of a stream.
#[derive(Debug, Clone, Copy)]
pub struct StreamConfig {
    pub stream_type: StreamType,
    pub start_time: i64,
    pub end_time: i64,
    pub cliff_time: Option<i64>,
    /// Length of one step, in seconds; used by `SteppedLinear` only.
    pub step_interval: u64,
}

impl StreamConfig {
    /// The earliest time at which anything vests: the cliff if one is set,
    /// else the start time.
    pub open spec fn unlock_time(self) -> int {
        match self.cliff_time {
            Some(c) => c as int,
            None => self.start_time as int,
        }
    }

    pub open spec fn spec_duration(self) -> int {
        self.end_time - self.start_time
    }

    /// Number of whole steps between start and end.
    pub open spec fn total_steps(self) -> int {
        self.spec_duration() / (self.step_interval as int)
    }

    /// Number of whole steps between start and `t`.
    pub open spec fn steps_elapsed(self, t: int) -> int {
        (t - self.start_time) / (self.step_interval as int)
    }

    pub open spec fn cliff_in_range(self) -> bool {
        match self.cliff_time {
            Some(c) => self.start_time <= c <= self.end_time,
            None => true,
        }
    }

    /// A schedule that the calculator can evaluate without dividing by zero.
    pub open spec fn is_valid(self) -> bool {
        &&& self.start_time < self.end_time
        &&& self.cliff_in_range()
        &&& self.step_interval > 0
        &&& self.stream_type == StreamType::SteppedLinear ==> self.total_steps() >= 1
    }

    /// The amount of `total` vested at time `t`.
    pub open spec fn vested(self, total: u64, t: int) -> int {
        if t < self.unlock_time() {
            0
        } else if t >= self.end_time {
            total as int
        } else {
            match self.stream_type {
                StreamType::Linear => total * (t - self.unlock_time()) / (self.end_time
                    - self.unlock_time()),
                StreamType::Cliff => total as int,
                StreamType::SteppedLinear => total * self.steps_elapsed(t) / self.total_steps(),
            }
        }
    }

    /// The outcome of checking the schedule: the first rule that fails.
    pub open spec fn validation(self) -> Result<(), StreamflowError> {
        if !(self.start_time < self.end_time) {
            Err(StreamflowError::InvalidEndTime)
        } else if !self.cliff_in_range() {
            Err(StreamflowError::InvalidCliffTime)
        } else if !self.is_valid() {
            Err(StreamflowError::InvalidStepInterval)
        } else {
            Ok(())
        }
    }

    /// Checks the schedule, reporting the first rule that fails.
    pub fn validate(&self) -> (r: Result<(), StreamflowError>)
        ensures
            r == self.validation(),
            r is Ok <==> self.is_valid(),
    {
        if self.end_time <= self.start_time {
            return Err(StreamflowError::InvalidEndTime);
        }
        if let Some(cliff) = self.cliff_time {
            if cliff < self.start_time || cliff > self.end_time {
                return Err(StreamflowError::InvalidCliffTime);
            }
        }
        if self.step_interval == 0 {
            return Err(StreamflowError::InvalidStepInterval);
        }
        if self.stream_type == StreamType::SteppedLinear {
            if self.duration() / self.step_interval == 0 {
                return Err(StreamflowError::InvalidStepInterval);
            }
        }
        Ok(())
    }

    /// Length of the schedule in seconds.
    pub fn duration(&self) -> (r: u64)
        requires
            self.start_time <= self.end_time,
        ensures
            r == self.spec_duration(),
    {
        (self.end_time as i128 - self.start_time as i128) as u64
    }

    /// Whether anything may have vested at `current_time`.
    pub fn is_cliff_reached(&self, current_time: i64) -> (r: bool)
        ensures
            r == (current_time >= self.unlock_time()),
    {
        match self.cliff_time {
            Some(cliff_time) => current_time >= cliff_time,
            None => current_time >= self.start_time,
        }
    }

    /// The amount of `total_amount` vested at `current_time`.
    ///
    /// Products are formed in 128 bits, so no input overflows, and floor
    /// division leaves any remainder unvested.
    pub fn calculate_vested_amount(&self, total_amount: u64, current_time: i64) -> (r: u64)
        requires
            self.is_valid(),
        ensures
            r == self.vested(total_amount, current_time as int),
    {
        if !self.is_cliff_reached(current_time) {
            return 0;
        }
        if current_time >= self.end_time {
            return total_amount;
        }
        let unlock = match self.cliff_time {
            Some(c) => c,
            None => self.start_time,
        };
        match self.stream_type {
            StreamType::Linear => {
                let elapsed = (current_time as i128 - unlock as i128) as u128;
                let span = (self.end_time as i128 - unlock as i128) as u128;
                proof {
                    lemma_product_fits_u128(total_amount as int, elapsed as int);
                    lemma_scaled_fraction(
                        total_amount as int,
                        elapsed as int,
                        elapsed as int,
                        span as int,
                    );
                }
                ((total_amount as u128 * elapsed) / span) as u64
            },
            StreamType::Cliff => total_amount,
            StreamType::SteppedLinear => {
                let step = self.step_interval as u128;
                let steps_elapsed = (current_time as i128 - self.start_time as i128) as u128
                    / step;
                let total_steps = self.duration() as u128 / step;
                proof {
                    lemma_div_is_ordered(
                        current_time - self.start_time,
                        self.spec_duration(),
                        step as int,
                    );
                    lemma_div_pos_is_pos(current_time - self.start_time, step as int);
                    lemma_product_fits_u128(total_amount as int, steps_elapsed as int);
                    lemma_scaled_fraction(
                        total_amount as int,
                        steps_elapsed as int,
                        steps_elapsed as int,
                        total_steps as int,
                    );
                }
                ((total_amount as u128 * steps_elapsed) / total_steps) as u64
            },
        }
    }
}

/// Whatever the schedule and the time, the vested amount lies between zero
/// and the total.
pub proof fn lemma_vested_bounded(config: StreamConfig, total: u64, t: int)
    requires
        config.is_valid(),
    ensures
        0 <= config.vested(total, t) <= total,
{
    if config.unlock_time() <= t < config.end_time {
        match config.stream_type {
            StreamType::Linear => {
                let a = t - config.unlock_time();
                let d = config.end_time - config.unlock_time();
                lemma_scaled_fraction(total as int, a, a, d);
            },
            StreamType::Cliff => {},
            StreamType::SteppedLinear => {
                lemma_steps_within_schedule(config, t, t);
                let s = config.steps_elapsed(t);
                lemma_scaled_fraction(total as int, s, s, config.total_steps());
            },
        }
    }
}

/// Whole steps elapsed grow with time and, before the end, stay within the
/// number of steps of the schedule.
proof fn lemma_steps_within_schedule(config: StreamConfig, t1: int, t2: int)
    requires
        config.is_valid(),
        config.start_time <= t1 <= t2 < config.end_time,
    ensures
        0 <= config.steps_elapsed(t1) <= config.steps_elapsed(t2) <= config.total_steps(),
{
    let step = config.step_interval as int;
    lemma_div_pos_is_pos(t1 - config.start_time, step);
    lemma_div_is_ordered(t1 - config.start_time, t2 - config.start_time, step);
    lemma_div_is_ordered(t2 - config.start_time, config.spec_duration(), step);
}

/// The vested amount never decreases as time goes on.
pub proof fn lemma_vested_monotonic(config: StreamConfig, total: u64, t1: int, t2: int)
    requires
        config.is_valid(),
        t1 <= t2,
    ensures
        config.vested(total, t1) <= config.vested(total, t2),
{
    lemma_vested_bounded(config, total, t1);
    lemma_vested_bounded(config, total, t2);
    if config.unlock_time() <= t1 && t2 < config.end_time {
        match config.stream_type {
            StreamType::Linear => {
                let d = config.end_time - config.unlock_time();
                lemma_scaled_fraction(
                    total as int,
                    t1 - config.unlock_time(),
                    t2 - config.unlock_time(),
                    d,
                );
            },
            StreamType::Cliff => {},
            StreamType::SteppedLinear => {
                lemma_steps_within_schedule(config, t1, t2);
                lemma_scaled_fraction(
                    total as int,
                    config.steps_elapsed(t1),
                    config.steps_elapsed(t2),
                    config.total_steps(),
                );
            },
        }
    }
}

/// A linear schedule without a cliff vests nothing at its start, everything
/// at its end, and, when its duration is even, half the total (rounded down)
/// at its midpoint.
pub proof fn lemma_linear_endpoints(config: StreamConfig, total: u64)
    requires
        config.is_valid(),
        config.stream_type == StreamType::Linear,
        config.cliff_time is None,
    ensures
        config.vested(total, config.start_time as int) == 0,
        config.vested(total, config.end_time as int) == total,
        config.spec_duration() % 2 == 0 ==> config.vested(
            total,
            config.start_time + config.spec_duration() / 2,
        ) == total / 2,
{
    let d = config.spec_duration();
    let h = d / 2;
    assert(total * 0 == 0) by (nonlinear_arith);
    if d % 2 == 0 {
        assert(h * 2 == d);
        vstd::arithmetic::mul::lemma_mul_nonnegative(total as int, h);
        vstd::arithmetic::div_mod::lemma_div_denominator(total * h, h, 2);
        vstd::arithmetic::div_mod::lemma_div_multiples_vanish(total as int, h);
        assert(h * total == total * h) by (nonlinear_arith);
    }
}

/// A cliff schedule vests nothing before its unlock time and everything
/// from then on, with no amount in between.
pub proof fn lemma_cliff_all_or_nothing(config: StreamConfig, total: u64, t: int)
    requires
        config.is_valid(),
        config.stream_type == StreamType::Cliff,
    ensures
        t < config.unlock_time() ==> config.vested(total, t) == 0,
        t >= config.unlock_time() ==> config.vested(total, t) == total,
        config.vested(total, t) == 0 || config.vested(total, t) == total,
{
}

/// A stepped schedule vests the same amount at any two times within one step,
/// unless the cliff falls between them.
pub proof fn lemma_stepped_constant_within_step(
    config: StreamConfig,
    total: u64,
    t1: int,
    t2: int,
)
    requires
        config.is_valid(),
        config.stream_type == StreamType::SteppedLinear,
        config.start_time <= t1 <= t2,
        config.steps_elapsed(t1) == config.steps_elapsed(t2),
        !(t1 < config.unlock_time() <= t2),
    ensures
        config.vested(total, t1) == config.vested(total, t2),
{
    if t1 < config.end_time && t2 >= config.end_time {
        let step = config.step_interval as int;
        lemma_div_is_ordered(config.spec_duration(), t2 - config.start_time, step);
        lemma_steps_within_schedule(config, t1, t1);
        lemma_scaled_fraction(
            total as int,
            config.total_steps(),
            config.total_steps(),
            config.total_steps(),
        );
        vstd::arithmetic::div_mod::lemma_div_multiples_vanish(
            total as int,
            config.total_steps(),
        );
        assert(total * config.total_steps() == config.total_steps() * total) by (
        nonlinear_arith);
    }
}

impl Default for StreamConfig {
    /// A linear schedule with every time at zero; it does not pass
    /// `validate` until its times are set.
    fn default() -> (r: Self)
        ensures
            r.stream_type == StreamType::Linear,
            r.start_time == 0,
            r.end_time == 0,
            r.cliff_time is None,
            r.step_interval == 1,
    {
        StreamConfig {
            stream_type: StreamType::Linear,
            start_time: 0,
            end_time: 0,
            cliff_time: None,
            step_interval: 1,
        }
    }
}

} // verus!
