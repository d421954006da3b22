use crate::address::Address;
use crate::error::StreamflowError;
use crate::fees::{layered_fee, FeeConfig};
use crate::stream::{Stream, StreamStatus};
use vstd::prelude::*;

verus! {

/// Settlement of a cancelled stream: both legs, computed together.
#[derive(Debug, Clone, Copy)]
pub struct StreamCancelled {
    pub sender: Address,
    pub recipient: Address,
    /// The recipient's gross share: vested and not yet withdrawn.
    pub streamed_amount: u64,
    /// What reaches the recipient once fees are taken from its share.
    pub recipient_amount: u64,
    pub fee_amount: u64,
    /// The unvested remainder, returned to the sender.
    pub returned_amount: u64,
    pub cancelled_at: i64,
}

/// Cancels `stream` on behalf of `actor` at `current_time` and settles it.
/// The cancellation fee and the platform fee are taken from the recipient's
/// share only; the sender gets the unvested remainder in full.
pub fn cancel_stream(
    stream: &mut Stream,
    actor: &Address,
    current_time: i64,
    fees: &FeeConfig,
) -> (r: Result<StreamCancelled, StreamflowError>)
    requires
        old(stream).is_valid(),
        fees.is_valid(),
    ensures
        final(stream).is_valid(),
        !old(stream).may_cancel(*actor) ==> r == Err::<StreamCancelled, _>(
            StreamflowError::Unauthorized,
        ),
        old(stream).may_cancel(*actor) && old(stream).status.spec_is_terminal() ==> r == Err::<
            StreamCancelled,
            _,
        >(StreamflowError::AlreadyTerminal),
        r is Ok <==> old(stream).may_cancel(*actor) && !old(stream).status.spec_is_terminal(),
        r is Err ==> *final(stream) == *old(stream),
        r is Ok ==> {
            let s = r->Ok_0;
            let t = current_time as int;
            &&& s.streamed_amount == old(stream).recipient_share(t)
            &&& s.returned_amount == old(stream).sender_share(t)
            &&& s.streamed_amount + s.returned_amount + old(stream).withdrawn_amount
                == old(stream).total_amount
            &&& s.fee_amount == layered_fee(
                s.streamed_amount as int,
                fees.cancellation_fee_rate as int,
                fees.platform_fee_rate as int,
            )
            &&& s.recipient_amount + s.fee_amount == s.streamed_amount
            &&& s.sender@ == old(stream).sender@
            &&& s.recipient@ == old(stream).recipient@
            &&& s.cancelled_at == current_time
            &&& *final(stream) == (Stream {
                withdrawn_amount: (old(stream).withdrawn_amount + s.streamed_amount) as u64,
                status: StreamStatus::Cancelled,
                cancelled_at: Some(current_time),
                ..*old(stream)
            })
        },
{
    let (streamed_amount, returned_amount) = stream.cancel(actor, current_time)?;
    let (recipient_amount, fee_amount) = fees.charge(streamed_amount, fees.cancellation_fee_rate);
    Ok(StreamCancelled {
        sender: stream.sender,
        recipient: stream.recipient,
        streamed_amount,
        recipient_amount,
        fee_amount,
        returned_amount,
        cancelled_at: current_time,
    })
}

} // verus!
