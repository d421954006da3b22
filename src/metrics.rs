use vstd::prelude::*;

verus! {

/// Running counters kept beside a stream. Every counter saturates rather
/// than wrapping.
#[derive(Debug, Clone, Copy)]
pub struct StreamMetrics {
    pub total_deposited: u64,
    pub total_withdrawn: u64,
    pub last_withdrawal_time: i64,
    pub withdrawal_count: u32,
    pub pause_count: u32,
    pub total_paused_duration: i64,
}

/// `a + b`, clamped to the range of `i64`.
pub open spec fn saturating_i64_add(a: int, b: int) -> int {
    if a + b > i64::MAX {
        i64::MAX as int
    } else if a + b < i64::MIN {
        i64::MIN as int
    } else {
        a + b
    }
}

/// `a + b`, clamped to at most `max`.
pub open spec fn capped_add(a: int, b: int, max: int) -> int {
    if a + b > max {
        max
    } else {
        a + b
    }
}

impl StreamMetrics {
    /// Counts one withdrawal of `amount` at `current_time`.
    pub fn update_withdrawal(&mut self, amount: u64, current_time: i64)
        ensures
            final(self).total_withdrawn == capped_add(
                old(self).total_withdrawn as int,
                amount as int,
                u64::MAX as int,
            ),
            final(self).last_withdrawal_time == current_time,
            final(self).withdrawal_count == capped_add(
                old(self).withdrawal_count as int,
                1,
                u32::MAX as int,
            ),
            final(self).total_deposited == old(self).total_deposited,
            final(self).pause_count == old(self).pause_count,
            final(self).total_paused_duration == old(self).total_paused_duration,
    {
        self.total_withdrawn = self.total_withdrawn.saturating_add(amount);
        self.last_withdrawal_time = current_time;
        self.withdrawal_count = self.withdrawal_count.saturating_add(1);
    }

    /// Counts one pause that lasted `pause_duration` seconds.
    pub fn update_pause(&mut self, pause_duration: i64)
        ensures
            final(self).pause_count == capped_add(old(self).pause_count as int, 1, u32::MAX as int),
            final(self).total_paused_duration == saturating_i64_add(
                old(self).total_paused_duration as int,
                pause_duration as int,
            ),
            final(self).total_deposited == old(self).total_deposited,
            final(self).total_withdrawn == old(self).total_withdrawn,
            final(self).last_withdrawal_time == old(self).last_withdrawal_time,
            final(self).withdrawal_count == old(self).withdrawal_count,
    {
        self.pause_count = self.pause_count.saturating_add(1);
        self.total_paused_duration = match self.total_paused_duration.checked_add(pause_duration) {
            Some(sum) => sum,
            None => if pause_duration > 0 {
                i64::MAX
            } else {
                i64::MIN
            },
        };
    }

    /// What is left of `total_deposited` after the withdrawals, or zero.
    pub fn available_to_withdraw(&self, total_deposited: u64) -> (r: u64)
        ensures
            r == (if total_deposited >= self.total_withdrawn {
                total_deposited - self.total_withdrawn
            } else {
                0
            }),
    {
        total_deposited.saturating_sub(self.total_withdrawn)
    }
}

impl Default for StreamMetrics {
    fn default() -> (r: Self)
        ensures
            r.total_deposited == 0,
            r.total_withdrawn == 0,
            r.last_withdrawal_time == 0,
            r.withdrawal_count == 0,
            r.pause_count == 0,
            r.total_paused_duration == 0,
    {
        StreamMetrics {
            total_deposited: 0,
            total_withdrawn: 0,
            last_withdrawal_time: 0,
            withdrawal_count: 0,
            pause_count: 0,
            total_paused_duration: 0,
        }
    }
}

} // verus!
