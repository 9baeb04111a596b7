use vstd::prelude::*;

use crate::account::AccountId;

verus! {

/// Why an operation on the pot was refused.
#[derive(Clone, Copy, PartialEq, Eq, Debug)]
pub enum Error {
    /// `press` was called with an attached value below the minimum stake.
    InsufficientStake,
    /// `payout` was called before the countdown had elapsed since the last press.
    CountdownNotPassed,
    /// The host reported a current time earlier than the last press: a checked
    /// time subtraction would underflow.
    ClockSkew,
    /// The instance was destroyed by an earlier payout; no operation may run.
    AlreadyTerminated,
}

/// The pot game's state machine.
pub struct TheButton {
    /// The account that last pressed the button: the current holder of the pot.
    pub last_press_caller: AccountId,
    /// The instant at which the holder was last set.
    pub last_press_timestamp: u64,
    /// The window that must elapse with no new press before payout is allowed.
    /// Fixed at construction.
    pub countdown_duration: u64,
    /// The least value a caller must attach to become the new holder.
    /// Fixed at construction.
    pub min_stake: u128,
    /// Whether a successful payout destroys the instance (single-shot game)
    /// or leaves it alive and repeatable.
    pub terminate_on_payout: bool,
    /// Whether a payout has destroyed the instance. Only ever set when
    /// `terminate_on_payout` holds, and never cleared.
    pub terminated: bool,
}

/// What the host must carry out after a successful payout: a transfer of the
/// whole pot to the holder, and, in the single-shot configuration, the
/// irreversible destruction of the instance with the residue swept to the
/// account that triggered the payout.
#[derive(Clone, Copy, PartialEq, Eq, Debug)]
pub struct PayoutAction {
    /// The account the pot is transferred to: the current holder.
    pub beneficiary: AccountId,
    /// The amount transferred: the full balance the host reported.
    pub amount: u128,
    /// In the single-shot configuration, the account any residual balance is
    /// swept to when the instance is destroyed; otherwise nothing.
    pub terminate_to: Option<AccountId>,
}

impl TheButton {
    /// A state is well formed when its countdown window is non-empty and it is
    /// only ever terminated in the single-shot configuration.
    pub open spec fn wf(self) -> bool {
        &&& self.countdown_duration > 0
        &&& self.terminated ==> self.terminate_on_payout
    }

    /// The countdown still remaining at instant `now`: the full window right
    /// after a press, shrinking as time passes, and zero once the window has
    /// elapsed. If the host reports a time before the last press (a clock
    /// anomaly), no progress can be read from it, so the full window remains.
    pub open spec fn countdown_remaining(self, now: u64) -> u64 {
        if now < self.last_press_timestamp {
            self.countdown_duration
        } else if now - self.last_press_timestamp >= self.countdown_duration {
            0
        } else {
            (self.countdown_duration - (now - self.last_press_timestamp)) as u64
        }
    }

    /// Payout is authorized at instant `now` when the countdown window has
    /// fully elapsed since the last press.
    pub open spec fn payout_authorized(self, now: u64) -> bool {
        &&& now >= self.last_press_timestamp
        &&& now - self.last_press_timestamp >= self.countdown_duration
    }

    /// Creates the state machine.
    ///
    /// `caller` and `now` seed the first holder and press instant: the host
    /// passes the constructing account and its current time. A countdown
    /// window of zero is a configuration error and is refused up front.
    pub fn new(
        caller: AccountId,
        now: u64,
        countdown_duration: u64,
        min_stake: u128,
        terminate_on_payout: bool,
    ) -> (r: Self)
        requires
            countdown_duration > 0,
        ensures
            r.wf(),
            r.last_press_caller == caller,
            r.last_press_timestamp == now,
            r.countdown_duration == countdown_duration,
            r.min_stake == min_stake,
            r.terminate_on_payout == terminate_on_payout,
            !r.terminated,
    {
        TheButton {
            last_press_caller: caller,
            last_press_timestamp: now,
            countdown_duration,
            min_stake,
            terminate_on_payout,
            terminated: false,
        }
    }

    /// Creates the state machine with a countdown of 24 hours (in
    /// milliseconds), a minimum stake of ten billion units, and single-shot
    /// payout.
    pub fn default(caller: AccountId, now: u64) -> (r: Self)
        ensures
            r.wf(),
            r.last_press_caller == caller,
            r.last_press_timestamp == now,
            r.countdown_duration == 86_400_000,
            r.min_stake == 10_000_000_000,
            r.terminate_on_payout,
            !r.terminated,
    {
        Self::new(caller, now, 86_400_000, 10_000_000_000, true)
    }

    /// Presses the button: `caller` attaches `transferred_value` and, if it
    /// meets the minimum stake, becomes the holder, restarting the countdown
    /// at `now`. On failure nothing changes and the host must not retain the
    /// attached value.
    pub fn press(
        &mut self,
        caller: AccountId,
        now: u64,
        transferred_value: u128,
    ) -> (r: Result<(), Error>)
        requires
            old(self).wf(),
        ensures
            final(self).wf(),
            final(self).countdown_duration == old(self).countdown_duration,
            final(self).min_stake == old(self).min_stake,
            final(self).terminate_on_payout == old(self).terminate_on_payout,
            final(self).terminated == old(self).terminated,
            r is Ok <==> !old(self).terminated && transferred_value >= old(self).min_stake,
            r is Ok ==> final(self).last_press_caller == caller
                && final(self).last_press_timestamp == now,
            r is Err ==> *final(self) == *old(self),
            (r matches Err(Error::AlreadyTerminated)) <==> old(self).terminated,
            (r matches Err(Error::InsufficientStake))
                <==> !old(self).terminated && transferred_value < old(self).min_stake,
    {
        if self.terminated {
            return Err(Error::AlreadyTerminated);
        }
        if transferred_value < self.min_stake {
            return Err(Error::InsufficientStake);
        }
        self.last_press_caller = caller;
        self.last_press_timestamp = now;
        Ok(())
    }

    /// Pays the pot out. Any account may trigger it, but the transfer goes to
    /// the current holder; it succeeds exactly when the countdown has elapsed
    /// on a live instance. `balance` is the full balance the host reports for
    /// the pot; the returned action tells the host what to transfer and, in
    /// the single-shot configuration, to destroy the instance with the residue
    /// swept to `caller`. On failure nothing changes.
    pub fn payout(
        &mut self,
        caller: AccountId,
        now: u64,
        balance: u128,
    ) -> (r: Result<PayoutAction, Error>)
        requires
            old(self).wf(),
        ensures
            final(self).wf(),
            final(self).countdown_duration == old(self).countdown_duration,
            final(self).min_stake == old(self).min_stake,
            final(self).terminate_on_payout == old(self).terminate_on_payout,
            final(self).last_press_caller == old(self).last_press_caller,
            final(self).last_press_timestamp == old(self).last_press_timestamp,
            r is Ok <==> !old(self).terminated && old(self).payout_authorized(now),
            r matches Ok(a) ==> a.beneficiary == old(self).last_press_caller
                && a.amount == balance
                && a.terminate_to == (if old(self).terminate_on_payout {
                    Some(caller)
                } else {
                    None::<AccountId>
                })
                && final(self).terminated == old(self).terminate_on_payout,
            r is Err ==> *final(self) == *old(self),
            (r matches Err(Error::AlreadyTerminated)) <==> old(self).terminated,
            (r matches Err(Error::ClockSkew))
                <==> !old(self).terminated && now < old(self).last_press_timestamp,
            (r matches Err(Error::CountdownNotPassed))
                <==> !old(self).terminated && now >= old(self).last_press_timestamp
                    && now - old(self).last_press_timestamp < old(self).countdown_duration,
    {
        if self.terminated {
            return Err(Error::AlreadyTerminated);
        }
        let time_passed = match now.checked_sub(self.last_press_timestamp) {
            Some(t) => t,
            None => {
                return Err(Error::ClockSkew);
            },
        };
        if time_passed < self.countdown_duration {
            return Err(Error::CountdownNotPassed);
        }
        let terminate_to = if self.terminate_on_payout {
            self.terminated = true;
            Some(caller)
        } else {
            None
        };
        Ok(PayoutAction { beneficiary: self.last_press_caller, amount: balance, terminate_to })
    }

    /// The countdown remaining until payout is allowed, read at `now`; zero
    /// once the window has elapsed, and the full window on a clock anomaly.
    pub fn get_countdown(&self, now: u64) -> (r: u64)
        ensures
            r == self.countdown_remaining(now),
    {
        let time_passed = match now.checked_sub(self.last_press_timestamp) {
            Some(t) => t,
            None => {
                return self.countdown_duration;
            },
        };
        if time_passed >= self.countdown_duration {
            return 0;
        }
        self.countdown_duration - time_passed
    }

    /// The account that last pressed the button: the current holder.
    pub fn get_last_press_caller(&self) -> (r: AccountId)
        ensures
            r == self.last_press_caller,
    {
        self.last_press_caller
    }

    /// The instant of the last press.
    pub fn get_last_press_timestamp(&self) -> (r: u64)
        ensures
            r == self.last_press_timestamp,
    {
        self.last_press_timestamp
    }

    /// Whether an earlier payout has destroyed the instance.
    pub fn is_terminated(&self) -> (r: bool)
        ensures
            r == self.terminated,
    {
        self.terminated
    }
}

/// At the instant a state was created or last pressed — its press timestamp
/// equals `now` — the full countdown window remains. Together with the
/// contracts of `new` and `press` this says that construction and every
/// successful press restart the countdown at its full length, regardless of
/// how much time had elapsed before.
pub proof fn lemma_countdown_full_at_press(b: TheButton, now: u64)
    requires
        b.wf(),
        b.last_press_timestamp == now,
    ensures
        b.countdown_remaining(now) == b.countdown_duration,
{
}

/// The countdown reads zero exactly when payout is authorized: `get_countdown`
/// and the success condition of `payout` agree at every instant on a well
/// formed state.
pub proof fn lemma_countdown_zero_iff_authorized(b: TheButton, now: u64)
    requires
        b.wf(),
    ensures
        b.countdown_remaining(now) == 0 <==> b.payout_authorized(now),
{
}

/// Once payout is authorized, it stays authorized at every later instant as
/// long as no press intervenes. In the repeatable configuration a successful
/// payout leaves the state unchanged, so a second payout succeeds as well —
/// for whatever balance then remains, which is zero once the pot is drained.
pub proof fn lemma_authorization_persists(b: TheButton, now: u64, later: u64)
    requires
        b.wf(),
        b.payout_authorized(now),
        now <= later,
    ensures
        b.payout_authorized(later),
{
}

} // verus!
