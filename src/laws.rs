use vstd::prelude::*;

use crate::channel::{
    after_close, after_start_close, after_timeout, after_withdraw, claim_result, close_result,
    start_close_result, timeout_result, ChannelModel, Error, SenderCloseStarted, Settlement,
};

verus! {

/// No call lowers the withdrawn total, and none lets it exceed the deposit:
/// every transition keeps the channel well formed with the same deposit, so
/// over any sequence of calls `withdrawn` only grows and stays within the funds
/// the channel was created with.
pub proof fn lemma_withdrawn_monotone(
    m: ChannelModel,
    caller: Seq<u8>,
    amount: u128,
    authorized: bool,
    now: u64,
)
    requires
        m.wf(),
    ensures
        after_withdraw(m, caller, amount, authorized).wf(),
        after_withdraw(m, caller, amount, authorized).deposit == m.deposit,
        after_withdraw(m, caller, amount, authorized).withdrawn >= m.withdrawn,
        after_close(m, caller, amount, authorized).wf(),
        after_close(m, caller, amount, authorized).deposit == m.deposit,
        after_close(m, caller, amount, authorized).withdrawn >= m.withdrawn,
        after_start_close(m, caller, now).wf(),
        after_start_close(m, caller, now).deposit == m.deposit,
        after_start_close(m, caller, now).withdrawn == m.withdrawn,
        after_timeout(m, now).wf(),
        after_timeout(m, now).deposit == m.deposit,
        after_timeout(m, now).withdrawn == m.withdrawn,
        m.withdrawn <= m.deposit,
{
}

/// One call on a channel, with what the host supplied to it.
pub enum ChannelCall {
    Withdraw { caller: Seq<u8>, amount: u128, authorized: bool },
    Close { caller: Seq<u8>, amount: u128, authorized: bool },
    StartClose { caller: Seq<u8>, now: u64 },
    Timeout { now: u64 },
}

/// The state after one call, whether it succeeds or is refused.
pub open spec fn after_call(m: ChannelModel, call: ChannelCall) -> ChannelModel {
    match call {
        ChannelCall::Withdraw { caller, amount, authorized } => after_withdraw(m, caller, amount, authorized),
        ChannelCall::Close { caller, amount, authorized } => after_close(m, caller, amount, authorized),
        ChannelCall::StartClose { caller, now } => after_start_close(m, caller, now),
        ChannelCall::Timeout { now } => after_timeout(m, now),
    }
}

/// The state after a sequence of calls, in order.
pub open spec fn after_calls(m: ChannelModel, calls: Seq<ChannelCall>) -> ChannelModel
    decreases calls.len(),
{
    if calls.len() == 0 {
        m
    } else {
        after_calls(after_call(m, calls[0]), calls.drop_first())
    }
}

/// Over any sequence of calls the withdrawn total never falls and never
/// exceeds the deposit the channel was created with.
pub proof fn lemma_withdrawn_monotone_over_calls(m: ChannelModel, calls: Seq<ChannelCall>)
    requires
        m.wf(),
    ensures
        after_calls(m, calls).wf(),
        after_calls(m, calls).deposit == m.deposit,
        m.withdrawn <= after_calls(m, calls).withdrawn,
        after_calls(m, calls).withdrawn <= m.deposit,
    decreases calls.len(),
{
    if calls.len() > 0 {
        let next = after_call(m, calls[0]);
        match calls[0] {
            ChannelCall::Withdraw { caller, amount, authorized } => lemma_withdrawn_monotone(m, caller, amount, authorized, 0),
            ChannelCall::Close { caller, amount, authorized } => lemma_withdrawn_monotone(m, caller, amount, authorized, 0),
            ChannelCall::StartClose { caller, now } => lemma_withdrawn_monotone(m, caller, 0, false, now),
            ChannelCall::Timeout { now } => lemma_withdrawn_monotone(m, Seq::empty(), 0, false, now),
        }
        lemma_withdrawn_monotone_over_calls(next, calls.drop_first());
    }
}

/// A claim below what was already withdrawn is refused as stale, whether or
/// not its signature holds, and changes nothing.
pub proof fn lemma_stale_claim_rejected(
    m: ChannelModel,
    caller: Seq<u8>,
    amount: u128,
    authorized: bool,
)
    requires
        !m.terminated,
        caller == m.recipient,
        amount < m.withdrawn,
    ensures
        claim_result(m, caller, amount, authorized) == Err::<u128, Error>(
            Error::AmountIsLessThanWithdrawn,
        ),
        after_withdraw(m, caller, amount, authorized) == m,
        close_result(m, caller, amount, authorized) == Err::<Settlement, Error>(
            Error::AmountIsLessThanWithdrawn,
        ),
        after_close(m, caller, amount, authorized) == m,
{
}

/// Only the recipient may withdraw or close: anyone else is refused and
/// changes nothing.
pub proof fn lemma_only_recipient_claims(
    m: ChannelModel,
    caller: Seq<u8>,
    amount: u128,
    authorized: bool,
)
    requires
        !m.terminated,
        caller != m.recipient,
    ensures
        claim_result(m, caller, amount, authorized) == Err::<u128, Error>(
            Error::CallerIsNotRecipient,
        ),
        after_withdraw(m, caller, amount, authorized) == m,
        close_result(m, caller, amount, authorized) == Err::<Settlement, Error>(
            Error::CallerIsNotRecipient,
        ),
        after_close(m, caller, amount, authorized) == m,
{
}

/// Only the sender may start a unilateral close: anyone else is refused and
/// changes nothing.
pub proof fn lemma_only_sender_starts_close(m: ChannelModel, caller: Seq<u8>, now: u64)
    requires
        !m.terminated,
        caller != m.sender,
    ensures
        start_close_result(m, caller, now) == Err::<SenderCloseStarted, Error>(
            Error::CallerIsNotSender,
        ),
        after_start_close(m, caller, now) == m,
{
}

/// A timeout claim before the expiration, or with no close started, is refused
/// and changes nothing; at or after the expiration it returns all that remains
/// of the deposit to the sender and terminates the channel.
pub proof fn lemma_timeout_gating(m: ChannelModel, now: u64)
    requires
        m.wf(),
        !m.terminated,
    ensures
        m.expiration is None ==> timeout_result(m, now) == Err::<u128, Error>(
            Error::NotYetExpired,
        ) && after_timeout(m, now) == m,
        m.expiration matches Some(e) && now < e ==> timeout_result(m, now) == Err::<u128, Error>(
            Error::NotYetExpired,
        ) && after_timeout(m, now) == m,
        m.expiration matches Some(e) && now >= e ==> timeout_result(m, now) == Ok::<u128, Error>(
            (m.deposit - m.withdrawn) as u128,
        ) && after_timeout(m, now).terminated && after_timeout(m, now).balance == 0,
{
}

/// A successful close or timeout claim terminates the channel, and a
/// terminated channel refuses every call without changing.
pub proof fn lemma_terminality(
    m: ChannelModel,
    caller: Seq<u8>,
    amount: u128,
    authorized: bool,
    now: u64,
)
    ensures
        close_result(m, caller, amount, authorized) is Ok ==> after_close(
            m,
            caller,
            amount,
            authorized,
        ).terminated,
        timeout_result(m, now) is Ok ==> after_timeout(m, now).terminated,
        m.terminated ==> claim_result(m, caller, amount, authorized) == Err::<u128, Error>(
            Error::ChannelTerminated,
        ) && after_withdraw(m, caller, amount, authorized) == m,
        m.terminated ==> close_result(m, caller, amount, authorized) == Err::<
            Settlement,
            Error,
        >(Error::ChannelTerminated) && after_close(m, caller, amount, authorized) == m,
        m.terminated ==> start_close_result(m, caller, now) == Err::<
            SenderCloseStarted,
            Error,
        >(Error::ChannelTerminated) && after_start_close(m, caller, now) == m,
        m.terminated ==> timeout_result(m, now) == Err::<u128, Error>(Error::ChannelTerminated)
            && after_timeout(m, now) == m,
{
}

} // verus!
