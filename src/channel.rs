use vstd::prelude::*;

use crate::account::AccountId;
use crate::crypto::{authorizes, signature_authorizes};

verus! {

/// Why a call on the channel was refused. A refused call changes nothing.
#[derive(Clone, Copy, Debug, PartialEq, Eq, Structural)]
pub enum Error {
    CallerIsNotSender,
    CallerIsNotRecipient,
    AmountIsLessThanWithdrawn,
    TransferFailed,
    NotYetExpired,
    InvalidSignature,
    /// A timestamp sum does not fit.
    ArithmeticOverflow,
    /// The channel was closed or timed out; it serves no further call.
    ChannelTerminated,
    /// The sender has already started a unilateral close.
    CloseAlreadyStarted,
}

/// Notification that the sender has started a unilateral close.
#[derive(Clone, Copy, Debug, PartialEq, Eq, Structural)]
pub struct SenderCloseStarted {
    pub expiration: u64,
    pub close_duration: u64,
}

/// What a cooperative close pays out: the recipient's last increment, and
/// everything left to the sender.
#[derive(Clone, Copy, Debug, PartialEq, Eq, Structural)]
pub struct Settlement {
    pub to_recipient: u128,
    pub to_sender: u128,
}

/// The abstract state of a channel.
pub struct ChannelModel {
    pub sender: Seq<u8>,
    pub recipient: Seq<u8>,
    /// The identity of this channel instance, bound into every signed claim.
    pub channel: Seq<u8>,
    pub expiration: Option<u64>,
    /// The total paid out to the recipient so far.
    pub withdrawn: u128,
    pub close_duration: u64,
    /// The funds the channel still holds.
    pub balance: u128,
    /// The funds the channel was created with.
    pub deposit: u128,
    pub terminated: bool,
}

impl ChannelModel {
    /// Every payout comes out of the deposit; a terminated channel holds nothing.
    pub open spec fn wf(self) -> bool {
        &&& self.withdrawn <= self.deposit
        &&& !self.terminated ==> self.balance + self.withdrawn == self.deposit
        &&& self.terminated ==> self.balance == 0
    }
}

/// The checks that a withdrawal or a cooperative close makes, in order; on
/// success, the increment owed to the recipient.
pub open spec fn claim_result(m: ChannelModel, caller: Seq<u8>, amount: u128, authorized: bool) -> Result<u128, Error> {
    if m.terminated {
        Err(Error::ChannelTerminated)
    } else if caller != m.recipient {
        Err(Error::CallerIsNotRecipient)
    } else if amount < m.withdrawn {
        Err(Error::AmountIsLessThanWithdrawn)
    } else if !authorized {
        Err(Error::InvalidSignature)
    } else if amount - m.withdrawn > m.balance {
        Err(Error::TransferFailed)
    } else {
        Ok((amount - m.withdrawn) as u128)
    }
}

/// The state after a withdrawal.
pub open spec fn after_withdraw(m: ChannelModel, caller: Seq<u8>, amount: u128, authorized: bool) -> ChannelModel {
    match claim_result(m, caller, amount, authorized) {
        Ok(delta) => ChannelModel { withdrawn: amount, balance: (m.balance - delta) as u128, ..m },
        Err(_) => m,
    }
}

/// What a cooperative close pays out, or why it is refused.
pub open spec fn close_result(m: ChannelModel, caller: Seq<u8>, amount: u128, authorized: bool) -> Result<Settlement, Error> {
    match claim_result(m, caller, amount, authorized) {
        Ok(delta) => Ok(Settlement { to_recipient: delta, to_sender: (m.balance - delta) as u128 }),
        Err(e) => Err(e),
    }
}

/// The state after a cooperative close.
pub open spec fn after_close(m: ChannelModel, caller: Seq<u8>, amount: u128, authorized: bool) -> ChannelModel {
    match claim_result(m, caller, amount, authorized) {
        Ok(_) => ChannelModel { withdrawn: amount, balance: 0, terminated: true, ..m },
        Err(_) => m,
    }
}

/// The notification that starting a unilateral close at `now` emits, or why it
/// is refused.
pub open spec fn start_close_result(m: ChannelModel, caller: Seq<u8>, now: u64) -> Result<SenderCloseStarted, Error> {
    if m.terminated {
        Err(Error::ChannelTerminated)
    } else if caller != m.sender {
        Err(Error::CallerIsNotSender)
    } else if m.expiration is Some {
        Err(Error::CloseAlreadyStarted)
    } else if now + m.close_duration > u64::MAX {
        Err(Error::ArithmeticOverflow)
    } else {
        Ok(SenderCloseStarted { expiration: (now + m.close_duration) as u64, close_duration: m.close_duration })
    }
}

/// The state after starting a unilateral close.
pub open spec fn after_start_close(m: ChannelModel, caller: Seq<u8>, now: u64) -> ChannelModel {
    match start_close_result(m, caller, now) {
        Ok(ev) => ChannelModel { expiration: Some(ev.expiration), ..m },
        Err(_) => m,
    }
}

/// What a timeout claim at `now` returns to the sender, or why it is refused.
pub open spec fn timeout_result(m: ChannelModel, now: u64) -> Result<u128, Error> {
    if m.terminated {
        Err(Error::ChannelTerminated)
    } else {
        match m.expiration {
            Some(expiration) => if now < expiration {
                Err(Error::NotYetExpired)
            } else {
                Ok(m.balance)
            },
            None => Err(Error::NotYetExpired),
        }
    }
}

/// The state after a timeout claim.
pub open spec fn after_timeout(m: ChannelModel, now: u64) -> ChannelModel {
    match timeout_result(m, now) {
        Ok(_) => ChannelModel { balance: 0, terminated: true, ..m },
        Err(_) => m,
    }
}

/// A payment channel. The host supplies the caller's identity and the current
/// time to each call, and carries out what a successful call hands back.
#[derive(Clone)]
pub struct PaymentChannel {
    sender: AccountId,
    recipient: AccountId,
    channel: AccountId,
    expiration: Option<u64>,
    withdrawn: u128,
    close_duration: u64,
    balance: u128,
    deposit: u128,
    terminated: bool,
}

impl View for PaymentChannel {
    type V = ChannelModel;

    closed spec fn view(&self) -> ChannelModel {
        ChannelModel {
            sender: self.sender@,
            recipient: self.recipient@,
            channel: self.channel@,
            expiration: self.expiration,
            withdrawn: self.withdrawn,
            close_duration: self.close_duration,
            balance: self.balance,
            deposit: self.deposit,
            terminated: self.terminated,
        }
    }
}

impl PaymentChannel {
    /// Opens a channel created by `sender`, identified as `channel`, paying
    /// `recipient`, with a dispute window of `close_duration` and funded with
    /// `funds`.
    pub fn new(
        sender: AccountId,
        channel: AccountId,
        recipient: AccountId,
        close_duration: u64,
        funds: u128,
    ) -> (r: PaymentChannel)
        ensures
            r@ == (ChannelModel {
                sender: sender@,
                recipient: recipient@,
                channel: channel@,
                expiration: None,
                withdrawn: 0,
                close_duration,
                balance: funds,
                deposit: funds,
                terminated: false,
            }),
            r@.wf(),
    {
        PaymentChannel {
            sender,
            recipient,
            channel,
            expiration: None,
            withdrawn: 0,
            close_duration,
            balance: funds,
            deposit: funds,
            terminated: false,
        }
    }

    /// The checks of a claim by `caller` for the cumulative `amount`, where
    /// `authorized` says whether its signature holds.
    fn check_claim(&self, caller: &AccountId, amount: u128, authorized: bool) -> (r: Result<u128, Error>)
        requires
            self@.wf(),
        ensures
            r == claim_result(self@, caller@, amount, authorized),
    {
        if self.terminated {
            return Err(Error::ChannelTerminated);
        }
        if !caller.same_as(&self.recipient) {
            return Err(Error::CallerIsNotRecipient);
        }
        if amount < self.withdrawn {
            return Err(Error::AmountIsLessThanWithdrawn);
        }
        if !authorized {
            return Err(Error::InvalidSignature);
        }
        let delta = amount - self.withdrawn;
        if delta > self.balance {
            return Err(Error::TransferFailed);
        }
        Ok(delta)
    }

    /// A withdrawal by `caller` of the cumulative `amount`, where `authorized`
    /// says whether its signature holds. On success the increment over what was
    /// already withdrawn is returned: the host transfers it to the recipient.
    pub fn withdraw_authorized(&mut self, caller: AccountId, amount: u128, authorized: bool) -> (r: Result<u128, Error>)
        requires
            old(self)@.wf(),
        ensures
            r == claim_result(old(self)@, caller@, amount, authorized),
            final(self)@ == after_withdraw(old(self)@, caller@, amount, authorized),
            final(self)@.wf(),
    {
        let r = self.check_claim(&caller, amount, authorized);
        if let Ok(delta) = r {
            self.withdrawn = amount;
            self.balance = self.balance - delta;
        }
        r
    }

    /// The recipient redeems the cumulative `amount` that `signature`
    /// authorizes, without closing the channel. On success the increment is
    /// returned: the host transfers it to the recipient.
    pub fn withdrawn(&mut self, caller: AccountId, amount: u128, signature: [u8; 65]) -> (r: Result<u128, Error>)
        requires
            old(self)@.wf(),
        ensures
            r == claim_result(
                old(self)@,
                caller@,
                amount,
                authorizes(old(self)@.channel, amount, signature@, old(self)@.recipient),
            ),
            final(self)@ == after_withdraw(
                old(self)@,
                caller@,
                amount,
                authorizes(old(self)@.channel, amount, signature@, old(self)@.recipient),
            ),
            final(self)@.wf(),
    {
        let authorized = signature_authorizes(&self.channel, amount, &signature, &self.recipient);
        self.withdraw_authorized(caller, amount, authorized)
    }

    /// A cooperative close by `caller` at the cumulative `amount`, where
    /// `authorized` says whether its signature holds. On success the channel is
    /// terminated and the payouts are returned: the host transfers the
    /// recipient's increment and hands the rest to the sender.
    pub fn close_authorized(&mut self, caller: AccountId, amount: u128, authorized: bool) -> (r: Result<Settlement, Error>)
        requires
            old(self)@.wf(),
        ensures
            r == close_result(old(self)@, caller@, amount, authorized),
            final(self)@ == after_close(old(self)@, caller@, amount, authorized),
            final(self)@.wf(),
    {
        match self.check_claim(&caller, amount, authorized) {
            Ok(delta) => {
                let to_sender = self.balance - delta;
                self.withdrawn = amount;
                self.balance = 0;
                self.terminated = true;
                Ok(Settlement { to_recipient: delta, to_sender })
            },
            Err(e) => Err(e),
        }
    }

    /// The recipient closes the channel at the cumulative `amount` that
    /// `signature` authorizes.
    pub fn close(&mut self, caller: AccountId, amount: u128, signature: [u8; 65]) -> (r: Result<Settlement, Error>)
        requires
            old(self)@.wf(),
        ensures
            r == close_result(
                old(self)@,
                caller@,
                amount,
                authorizes(old(self)@.channel, amount, signature@, old(self)@.recipient),
            ),
            final(self)@ == after_close(
                old(self)@,
                caller@,
                amount,
                authorizes(old(self)@.channel, amount, signature@, old(self)@.recipient),
            ),
            final(self)@.wf(),
    {
        let authorized = signature_authorizes(&self.channel, amount, &signature, &self.recipient);
        self.close_authorized(caller, amount, authorized)
    }

    /// The sender starts a unilateral close at time `now`, opening the dispute
    /// window. On success the notification to emit is returned.
    pub fn start_sender_close(&mut self, caller: AccountId, now: u64) -> (r: Result<SenderCloseStarted, Error>)
        requires
            old(self)@.wf(),
        ensures
            r == start_close_result(old(self)@, caller@, now),
            final(self)@ == after_start_close(old(self)@, caller@, now),
            final(self)@.wf(),
    {
        if self.terminated {
            return Err(Error::ChannelTerminated);
        }
        if !caller.same_as(&self.sender) {
            return Err(Error::CallerIsNotSender);
        }
        if self.expiration.is_some() {
            return Err(Error::CloseAlreadyStarted);
        }
        match now.checked_add(self.close_duration) {
            Some(expiration) => {
                self.expiration = Some(expiration);
                Ok(SenderCloseStarted { expiration, close_duration: self.close_duration })
            },
            None => Err(Error::ArithmeticOverflow),
        }
    }

    /// The sender's claim, at time `now`, of everything the channel holds once
    /// the dispute window has passed. On success the channel is terminated and
    /// the amount returned to the sender is handed back.
    pub fn clain_timeout(&mut self, now: u64) -> (r: Result<u128, Error>)
        requires
            old(self)@.wf(),
        ensures
            r == timeout_result(old(self)@, now),
            final(self)@ == after_timeout(old(self)@, now),
            final(self)@.wf(),
    {
        if self.terminated {
            return Err(Error::ChannelTerminated);
        }
        match self.expiration {
            Some(expiration) => {
                if now < expiration {
                    return Err(Error::NotYetExpired);
                }
                let refund = self.balance;
                self.balance = 0;
                self.terminated = true;
                Ok(refund)
            },
            None => Err(Error::NotYetExpired),
        }
    }

    pub fn get_sender(&self) -> (r: AccountId)
        ensures
            r@ == self@.sender,
    {
        self.sender
    }

    pub fn get_recipient(&self) -> (r: AccountId)
        ensures
            r@ == self@.recipient,
    {
        self.recipient
    }

    pub fn get_expiration(&self) -> (r: Option<u64>)
        ensures
            r == self@.expiration,
    {
        self.expiration
    }

    pub fn get_withdrawn(&self) -> (r: u128)
        ensures
            r == self@.withdrawn,
    {
        self.withdrawn
    }

    pub fn get_close_duration(&self) -> (r: u64)
        ensures
            r == self@.close_duration,
    {
        self.close_duration
    }

    /// The funds the channel still holds.
    pub fn get_balance(&self) -> (r: u128)
        ensures
            r == self@.balance,
    {
        self.balance
    }
}

} // verus!
