use crate::address::Address;
use crate::error::StreamflowError;
use crate::fees::{layered_fee, FeeConfig};
use crate::stream::Stream;
use crate::vesting::lemma_vested_bounded;
use vstd::prelude::*;

verus! {

/// Record of a withdrawal: what left escrow, what reached the recipient and
/// what went to the fee collector.
#[derive(Debug, Clone, Copy)]
pub struct WithdrawEvent {
    pub recipient: Address,
    /// Gross amount that left escrow.
    pub amount: u64,
    pub net_amount: u64,
    pub fee_amount: u64,
    pub timestamp: i64,
    /// What is left in escrow afterwards.
    pub remaining_amount: u64,
}

/// The amount a withdrawal asks for: the requested amount, or everything
/// available when none is given.
pub open spec fn withdraw_amount(stream: Stream, requested_amount: Option<u64>, t: int) -> int {
    match requested_amount {
        Some(a) => a as int,
        None => stream.withdrawable(t),
    }
}

/// The refusal a withdrawal at `t` meets, if any, in the order of the checks.
pub open spec fn withdraw_error(stream: Stream, requested_amount: Option<u64>, t: int) -> Option<
    StreamflowError,
> {
    if stream.withdrawable(t) == 0 || requested_amount == Some(0u64) {
        Some(StreamflowError::NothingAvailable)
    } else if stream.status.spec_is_terminal() {
        Some(StreamflowError::StreamTerminal)
    } else if withdraw_amount(stream, requested_amount, t) > stream.withdrawable(t) {
        Some(StreamflowError::InsufficientAvailable)
    } else {
        None
    }
}

/// Withdraws `requested_amount`, or everything available when `None`, at
/// `current_time`. The gross amount counts as withdrawn; the withdrawal fee
/// and the platform fee are carved out of it.
pub fn withdraw(
    stream: &mut Stream,
    requested_amount: Option<u64>,
    current_time: i64,
    fees: &FeeConfig,
) -> (r: Result<WithdrawEvent, StreamflowError>)
    requires
        old(stream).is_valid(),
        fees.is_valid(),
    ensures
        final(stream).is_valid(),
        r is Err <==> withdraw_error(*old(stream), requested_amount, current_time as int) is Some,
        r is Err ==> r->Err_0 == withdraw_error(
            *old(stream),
            requested_amount,
            current_time as int,
        )->0,
        r is Err ==> *final(stream) == *old(stream),
        r is Ok ==> {
            let event = r->Ok_0;
            let amount = withdraw_amount(*old(stream), requested_amount, current_time as int);
            &&& 0 < amount <= old(stream).withdrawable(current_time as int)
            &&& event.amount == amount
            &&& event.fee_amount == layered_fee(
                amount,
                fees.withdrawal_fee_rate as int,
                fees.platform_fee_rate as int,
            )
            &&& event.net_amount + event.fee_amount == amount
            &&& event.recipient@ == old(stream).recipient@
            &&& event.timestamp == current_time
            &&& event.remaining_amount == old(stream).total_amount - final(stream).withdrawn_amount
            &&& final(stream).withdrawn_amount == old(stream).withdrawn_amount + amount
            &&& final(stream).withdrawn_amount <= old(stream).vested(current_time as int)
            &&& final(stream).last_withdrawn_at == Some(current_time)
            &&& final(stream).status == old(stream).status_after_withdrawal(
                final(stream).withdrawn_amount as int,
                current_time as int,
            )
            &&& *final(stream) == (Stream {
                withdrawn_amount: final(stream).withdrawn_amount,
                last_withdrawn_at: final(stream).last_withdrawn_at,
                status: final(stream).status,
                ..*old(stream)
            })
        },
{
    let available = stream.withdrawable_amount(current_time);
    if available == 0 || requested_amount == Some(0u64) {
        return Err(StreamflowError::NothingAvailable);
    }
    if stream.status.is_terminal() {
        return Err(StreamflowError::StreamTerminal);
    }
    let amount = match requested_amount {
        Some(a) => a,
        None => available,
    };
    if amount > available {
        return Err(StreamflowError::InsufficientAvailable);
    }
    proof {
        lemma_vested_bounded(stream.config, stream.total_amount, current_time as int);
    }
    let (net_amount, fee_amount) = fees.charge(amount, fees.withdrawal_fee_rate);
    stream.update_after_withdrawal(amount, current_time)?;
    Ok(WithdrawEvent {
        recipient: stream.recipient,
        amount,
        net_amount,
        fee_amount,
        timestamp: current_time,
        remaining_amount: stream.remaining_amount(),
    })
}

/// A withdrawal of zero, or any withdrawal once everything has been
/// withdrawn, is refused as having nothing available; it never partly
/// succeeds.
pub proof fn lemma_nothing_available(stream: Stream, requested_amount: Option<u64>, t: int)
    requires
        stream.is_valid(),
        requested_amount == Some(0u64) || stream.withdrawn_amount == stream.total_amount,
    ensures
        withdraw_error(stream, requested_amount, t) == Some(StreamflowError::NothingAvailable),
{
    lemma_vested_bounded(stream.config, stream.total_amount, t);
}

} // verus!
