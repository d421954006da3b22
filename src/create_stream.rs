use crate::address::Address;
use crate::error::StreamflowError;
use crate::stream::{Stream, StreamStatus};
use crate::vesting::StreamConfig;
use vstd::prelude::*;

verus! {

/// Creates a stream of `total_amount` from `sender` to `recipient`, active
/// from `current_time` on. The parameters are checked first: the amount,
/// then the schedule; nothing is created when one fails.
pub fn handler(
    sender: Address,
    recipient: Address,
    mint: Address,
    total_amount: u64,
    config: StreamConfig,
    cancelable_by_sender: bool,
    cancelable_by_recipient: bool,
    transferable_by_sender: bool,
    transferable_by_recipient: bool,
    current_time: i64,
) -> (r: Result<Stream, StreamflowError>)
    ensures
        r is Ok <==> total_amount > 0 && config.is_valid(),
        total_amount == 0 ==> r == Err::<Stream, _>(StreamflowError::InvalidAmount),
        total_amount > 0 && !config.is_valid() ==> r == Err::<Stream, _>(
            config.validation()->Err_0,
        ),
        r is Ok ==> r->Ok_0.is_valid() && r->Ok_0 == (Stream {
            sender,
            recipient,
            mint,
            total_amount,
            withdrawn_amount: 0,
            config,
            status: StreamStatus::Active,
            cancelable_by_sender,
            cancelable_by_recipient,
            transferable_by_sender,
            transferable_by_recipient,
            created_at: current_time,
            cancelled_at: None,
            last_withdrawn_at: None,
        }),
{
    Stream::validate_params(total_amount, &config)?;
    Ok(Stream {
        sender,
        recipient,
        mint,
        total_amount,
        withdrawn_amount: 0,
        config,
        status: StreamStatus::Active,
        cancelable_by_sender,
        cancelable_by_recipient,
        transferable_by_sender,
        transferable_by_recipient,
        created_at: current_time,
        cancelled_at: None,
        last_withdrawn_at: None,
    })
}

} // verus!
