use crate::address::Address;
use crate::error::StreamflowError;
use crate::vesting::{lemma_vested_bounded, StreamConfig};
use vstd::prelude::*;

verus! {

/// Where a stream stands in its lifecycle. `Cancelled` and `Completed` are
/// terminal: no transition leaves them.
#[derive(Debug, Clone, Copy, PartialEq, Eq, Structural)]
pub enum StreamStatus {
    Active,
    Paused,
    Cancelled,
    Completed,
}

impl StreamStatus {
    pub open spec fn spec_is_terminal(self) -> bool {
        self == StreamStatus::Cancelled || self == StreamStatus::Completed
    }

    pub fn is_terminal(&self) -> (r: bool)
        ensures
            r == self.spec_is_terminal(),
    {
        *self == StreamStatus::Cancelled || *self == StreamStatus::Completed
    }
}

/// A sender's allocation to a recipient, locked in escrow and released on a
/// schedule.
#[derive(Debug, Clone, Copy)]
pub struct Stream {
    pub sender: Address,
    pub recipient: Address,
    /// The asset being streamed.
    pub mint: Address,
    pub total_amount: u64,
    /// Everything paid to the recipient so far, fees included.
    pub withdrawn_amount: u64,
    pub config: StreamConfig,
    pub status: StreamStatus,
    pub cancelable_by_sender: bool,
    pub cancelable_by_recipient: bool,
    pub transferable_by_sender: bool,
    pub transferable_by_recipient: bool,
    pub created_at: i64,
    pub cancelled_at: Option<i64>,
    pub last_withdrawn_at: Option<i64>,
}

impl Stream {
    /// The invariant that every operation keeps.
    pub open spec fn is_valid(&self) -> bool {
        &&& self.total_amount > 0
        &&& self.config.is_valid()
        &&& self.withdrawn_amount <= self.total_amount
        &&& self.status == StreamStatus::Completed ==> self.withdrawn_amount == self.total_amount
        &&& (self.status == StreamStatus::Cancelled <==> self.cancelled_at is Some)
    }

    /// Checks the invariant, for records read back from storage.
    pub fn is_well_formed(&self) -> (r: bool)
        ensures
            r == self.is_valid(),
    {
        let cancelled = self.status == StreamStatus::Cancelled;
        self.total_amount > 0 && self.config.validate().is_ok()
            && self.withdrawn_amount <= self.total_amount && (self.status
            != StreamStatus::Completed || self.withdrawn_amount == self.total_amount) && (cancelled
            == self.cancelled_at.is_some())
    }

    /// The amount vested at `t`.
    pub open spec fn vested(&self, t: int) -> int {
        self.config.vested(self.total_amount, t)
    }

    /// What the recipient may still take at `t`: vested minus withdrawn, or
    /// zero when withdrawals are already ahead of vesting.
    pub open spec fn withdrawable(&self, t: int) -> int {
        if self.vested(t) > self.withdrawn_amount {
            self.vested(t) - self.withdrawn_amount
        } else {
            0
        }
    }

    /// The amount the recipient may withdraw at `current_time`.
    pub fn withdrawable_amount(&self, current_time: i64) -> (r: u64)
        requires
            self.is_valid(),
        ensures
            r == self.withdrawable(current_time as int),
    {
        let vested = self.config.calculate_vested_amount(self.total_amount, current_time);
        vested.saturating_sub(self.withdrawn_amount)
    }

    /// Whether the stream is running and `current_time` lies within its schedule.
    pub fn is_active(&self, current_time: i64) -> (r: bool)
        ensures
            r == (self.status == StreamStatus::Active && self.config.start_time <= current_time
                <= self.config.end_time),
    {
        self.status == StreamStatus::Active && current_time >= self.config.start_time
            && current_time <= self.config.end_time
    }

    /// Whether the schedule is over at `current_time` or the stream is terminal.
    pub fn is_ended(&self, current_time: i64) -> (r: bool)
        ensures
            r == (current_time > self.config.end_time || self.status.spec_is_terminal()),
    {
        current_time > self.config.end_time || self.status.is_terminal()
    }

    pub fn is_fully_withdrawn(&self) -> (r: bool)
        ensures
            r == (self.withdrawn_amount >= self.total_amount),
    {
        self.withdrawn_amount >= self.total_amount
    }

    /// What is left in escrow.
    pub fn remaining_amount(&self) -> (r: u64)
        requires
            self.is_valid(),
        ensures
            r == self.total_amount - self.withdrawn_amount,
    {
        self.total_amount - self.withdrawn_amount
    }

    /// Elapsed share of the schedule, in whole percent; zero once cancelled.
    pub fn progress_percentage(&self, current_time: i64) -> (r: u8)
        requires
            self.config.start_time < self.config.end_time,
        ensures
            self.status == StreamStatus::Cancelled || current_time < self.config.start_time
                ==> r == 0,
            self.status != StreamStatus::Cancelled && current_time >= self.config.end_time ==> r
                == 100,
            self.status != StreamStatus::Cancelled && self.config.start_time <= current_time
                < self.config.end_time ==> r == (current_time - self.config.start_time) * 100
                / self.config.spec_duration(),
    {
        if self.status == StreamStatus::Cancelled || current_time < self.config.start_time {
            return 0;
        }
        if current_time >= self.config.end_time {
            return 100;
        }
        let elapsed = (current_time as i128 - self.config.start_time as i128) as u128;
        let total = self.config.duration() as u128;
        proof {
            crate::arith::lemma_product_fits_u128(elapsed as int, 100);
            crate::arith::lemma_scaled_fraction(100, elapsed as int, elapsed as int, total as int);
            assert(elapsed * 100 == 100 * elapsed) by (nonlinear_arith);
        }
        ((elapsed * 100) / total) as u8
    }

    /// Checks the parameters of a new stream, reporting the first rule that
    /// fails: the amount, then the schedule.
    pub fn validate_params(total_amount: u64, config: &StreamConfig) -> (r: Result<
        (),
        StreamflowError,
    >)
        ensures
            r is Ok <==> (total_amount > 0 && config.is_valid()),
            total_amount == 0 ==> r == Err::<(), _>(StreamflowError::InvalidAmount),
            total_amount > 0 ==> r == config.validation(),
    {
        if total_amount == 0 {
            return Err(StreamflowError::InvalidAmount);
        }
        config.validate()
    }

    /// Whether `actor` may cancel: as sender with `cancelable_by_sender`, or
    /// as recipient with `cancelable_by_recipient`.
    pub open spec fn may_cancel(&self, actor: Address) -> bool {
        (actor@ == self.sender@ && self.cancelable_by_sender) || (actor@ == self.recipient@
            && self.cancelable_by_recipient)
    }

    /// Whether `actor` may reassign the recipient.
    pub open spec fn may_transfer(&self, actor: Address) -> bool {
        (actor@ == self.sender@ && self.transferable_by_sender) || (actor@ == self.recipient@
            && self.transferable_by_recipient)
    }

    /// Whether `actor` is the sender or the recipient.
    pub open spec fn is_party(&self, actor: Address) -> bool {
        actor@ == self.sender@ || actor@ == self.recipient@
    }

    /// Recipient's share when the stream is cancelled at `t`: whatever has
    /// vested and not been withdrawn.
    pub open spec fn recipient_share(&self, t: int) -> int {
        self.withdrawable(t)
    }

    /// Sender's share when the stream is cancelled at `t`: everything left in
    /// escrow that the recipient does not get.
    pub open spec fn sender_share(&self, t: int) -> int {
        self.total_amount - self.withdrawn_amount - self.recipient_share(t)
    }

    /// Status after withdrawals have reached `withdrawn` at `t`: `Completed`
    /// once everything is withdrawn and the schedule has ended, else unchanged.
    pub open spec fn status_after_withdrawal(&self, withdrawn: int, t: int) -> StreamStatus {
        if withdrawn == self.total_amount && t >= self.config.end_time {
            StreamStatus::Completed
        } else {
            self.status
        }
    }

    /// Records a withdrawal of `amount` at `current_time`. Refused on a
    /// terminal stream, or when `amount` exceeds what is left in escrow.
    pub fn update_after_withdrawal(&mut self, amount: u64, current_time: i64) -> (r: Result<
        (),
        StreamflowError,
    >)
        requires
            old(self).is_valid(),
        ensures
            final(self).is_valid(),
            old(self).status.spec_is_terminal() ==> r == Err::<(), _>(
                StreamflowError::StreamTerminal,
            ),
            !old(self).status.spec_is_terminal() && amount > old(self).total_amount
                - old(self).withdrawn_amount ==> r == Err::<(), _>(
                StreamflowError::InsufficientAvailable,
            ),
            r is Ok <==> !old(self).status.spec_is_terminal() && amount <= old(self).total_amount
                - old(self).withdrawn_amount,
            r is Err ==> *final(self) == *old(self),
            r is Ok ==> final(self).withdrawn_amount == old(self).withdrawn_amount + amount,
            r is Ok && 0 < amount <= old(self).withdrawable(current_time as int)
                ==> final(self).withdrawn_amount <= old(self).vested(current_time as int),
            r is Ok ==> final(self).last_withdrawn_at == Some(current_time),
            r is Ok ==> final(self).status == old(self).status_after_withdrawal(
                final(self).withdrawn_amount as int,
                current_time as int,
            ),
            r is Ok ==> (*final(self) == Stream {
                withdrawn_amount: final(self).withdrawn_amount,
                last_withdrawn_at: final(self).last_withdrawn_at,
                status: final(self).status,
                ..*old(self)
            }),
    {
        if self.status.is_terminal() {
            return Err(StreamflowError::StreamTerminal);
        }
        if amount > self.total_amount - self.withdrawn_amount {
            return Err(StreamflowError::InsufficientAvailable);
        }
        self.withdrawn_amount = self.withdrawn_amount + amount;
        self.last_withdrawn_at = Some(current_time);
        if self.withdrawn_amount == self.total_amount && current_time >= self.config.end_time {
            self.status = StreamStatus::Completed;
        }
        Ok(())
    }

    /// Cancels the stream at `current_time` on behalf of `actor` and settles
    /// it: returns `(recipient_share, sender_share)`. The recipient's share
    /// counts as withdrawn; together with what was withdrawn before, the two
    /// shares make up the total.
    pub fn cancel(&mut self, actor: &Address, current_time: i64) -> (r: Result<
        (u64, u64),
        StreamflowError,
    >)
        requires
            old(self).is_valid(),
        ensures
            final(self).is_valid(),
            !old(self).may_cancel(*actor) ==> r == Err::<(u64, u64), _>(
                StreamflowError::Unauthorized,
            ),
            old(self).may_cancel(*actor) && old(self).status.spec_is_terminal() ==> r == Err::<
                (u64, u64),
                _,
            >(StreamflowError::AlreadyTerminal),
            r is Ok <==> old(self).may_cancel(*actor) && !old(self).status.spec_is_terminal(),
            r is Err ==> *final(self) == *old(self),
            r is Ok ==> {
                let (recipient_share, sender_share) = r->Ok_0;
                &&& recipient_share == old(self).recipient_share(current_time as int)
                &&& sender_share == old(self).sender_share(current_time as int)
                &&& recipient_share + sender_share + old(self).withdrawn_amount
                    == old(self).total_amount
                &&& (old(self).vested(current_time as int) >= old(self).withdrawn_amount
                    ==> sender_share == old(self).total_amount - old(self).vested(
                    current_time as int,
                ))
                &&& *final(self) == (Stream {
                    withdrawn_amount: (old(self).withdrawn_amount + recipient_share) as u64,
                    status: StreamStatus::Cancelled,
                    cancelled_at: Some(current_time),
                    ..*old(self)
                })
            },
    {
        let is_sender = actor.same_as(&self.sender);
        let is_recipient = actor.same_as(&self.recipient);
        if !((is_sender && self.cancelable_by_sender) || (is_recipient
            && self.cancelable_by_recipient)) {
            return Err(StreamflowError::Unauthorized);
        }
        if self.status.is_terminal() {
            return Err(StreamflowError::AlreadyTerminal);
        }
        proof {
            lemma_vested_bounded(self.config, self.total_amount, current_time as int);
        }
        let recipient_share = self.withdrawable_amount(current_time);
        let sender_share = self.total_amount - self.withdrawn_amount - recipient_share;
        self.withdrawn_amount = self.withdrawn_amount + recipient_share;
        self.status = StreamStatus::Cancelled;
        self.cancelled_at = Some(current_time);
        Ok((recipient_share, sender_share))
    }

    /// Hands the stream to `new_recipient` on behalf of `actor`. No amount
    /// changes.
    pub fn transfer_to(&mut self, actor: &Address, new_recipient: Address) -> (r: Result<
        (),
        StreamflowError,
    >)
        requires
            old(self).is_valid(),
        ensures
            final(self).is_valid(),
            !old(self).is_party(*actor) ==> r == Err::<(), _>(StreamflowError::Unauthorized),
            old(self).is_party(*actor) && !old(self).may_transfer(*actor) ==> r == Err::<(), _>(
                StreamflowError::NotTransferable,
            ),
            old(self).may_transfer(*actor) && old(self).status == StreamStatus::Cancelled ==> r
                == Err::<(), _>(StreamflowError::StreamTerminal),
            old(self).may_transfer(*actor) && old(self).status != StreamStatus::Cancelled
                && new_recipient@ == old(self).recipient@ ==> r == Err::<(), _>(
                StreamflowError::SameRecipient,
            ),
            r is Ok <==> old(self).may_transfer(*actor) && old(self).status
                != StreamStatus::Cancelled && new_recipient@ != old(self).recipient@,
            r is Err ==> *final(self) == *old(self),
            r is Ok ==> *final(self) == (Stream { recipient: new_recipient, ..*old(self) }),
    {
        let is_sender = actor.same_as(&self.sender);
        let is_recipient = actor.same_as(&self.recipient);
        if !is_sender && !is_recipient {
            return Err(StreamflowError::Unauthorized);
        }
        if !((is_sender && self.transferable_by_sender) || (is_recipient
            && self.transferable_by_recipient)) {
            return Err(StreamflowError::NotTransferable);
        }
        if self.status == StreamStatus::Cancelled {
            return Err(StreamflowError::StreamTerminal);
        }
        if new_recipient.same_as(&self.recipient) {
            return Err(StreamflowError::SameRecipient);
        }
        self.recipient = new_recipient;
        Ok(())
    }

    /// Lets the sender change any of the four permission flags; a flag given
    /// as `None` keeps its value.
    pub fn update_permissions(
        &mut self,
        actor: &Address,
        cancelable_by_sender: Option<bool>,
        cancelable_by_recipient: Option<bool>,
        transferable_by_sender: Option<bool>,
        transferable_by_recipient: Option<bool>,
    ) -> (r: Result<(), StreamflowError>)
        requires
            old(self).is_valid(),
        ensures
            final(self).is_valid(),
            actor@ != old(self).sender@ ==> r == Err::<(), _>(StreamflowError::Unauthorized),
            actor@ == old(self).sender@ && old(self).status == StreamStatus::Cancelled ==> r
                == Err::<(), _>(StreamflowError::StreamTerminal),
            r is Ok <==> actor@ == old(self).sender@ && old(self).status
                != StreamStatus::Cancelled,
            r is Err ==> *final(self) == *old(self),
            r is Ok ==> *final(self) == (Stream {
                cancelable_by_sender: cancelable_by_sender.unwrap_or(
                    old(self).cancelable_by_sender,
                ),
                cancelable_by_recipient: cancelable_by_recipient.unwrap_or(
                    old(self).cancelable_by_recipient,
                ),
                transferable_by_sender: transferable_by_sender.unwrap_or(
                    old(self).transferable_by_sender,
                ),
                transferable_by_recipient: transferable_by_recipient.unwrap_or(
                    old(self).transferable_by_recipient,
                ),
                ..*old(self)
            }),
    {
        if !actor.same_as(&self.sender) {
            return Err(StreamflowError::Unauthorized);
        }
        if self.status == StreamStatus::Cancelled {
            return Err(StreamflowError::StreamTerminal);
        }
        if let Some(flag) = cancelable_by_sender {
            self.cancelable_by_sender = flag;
        }
        if let Some(flag) = cancelable_by_recipient {
            self.cancelable_by_recipient = flag;
        }
        if let Some(flag) = transferable_by_sender {
            self.transferable_by_sender = flag;
        }
        if let Some(flag) = transferable_by_recipient {
            self.transferable_by_recipient = flag;
        }
        Ok(())
    }
}

/// The kind of allocation a stream records, as stored in one byte.
#[derive(Debug, Clone, Copy, PartialEq, Eq, Structural)]
pub enum StreamCategory {
    Vesting,
    Streaming,
    Lock,
}

impl StreamCategory {
    /// Decoding of the stored byte: 0, 1 and 2 name a category; any other
    /// byte reads as `Streaming`.
    pub open spec fn from_byte(value: u8) -> StreamCategory {
        if value == 0 {
            StreamCategory::Vesting
        } else if value == 2 {
            StreamCategory::Lock
        } else {
            StreamCategory::Streaming
        }
    }
}

impl From<u8> for StreamCategory {
    fn from(value: u8) -> (r: StreamCategory) {
        match value {
            0 => StreamCategory::Vesting,
            1 => StreamCategory::Streaming,
            2 => StreamCategory::Lock,
            _ => StreamCategory::Streaming,
        }
    }
}

impl vstd::std_specs::convert::FromSpecImpl<u8> for StreamCategory {
    open spec fn obeys_from_spec() -> bool {
        true
    }

    open spec fn from_spec(v: u8) -> StreamCategory {
        StreamCategory::from_byte(v)
    }
}

} // verus!
