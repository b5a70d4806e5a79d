//! Rewards for social activity, behind a pause switch.

use crate::address::Address;
use crate::error_kind::ErrorKind;
use vstd::prelude::*;

verus! {

/// Why an operation on the social rewards was refused.
#[derive(Copy, Clone, Debug, Eq, PartialEq, Structural)]
pub enum SocialRewardsError {
    AlreadyInitialized,
    NotInitialized,
    Paused,
    InvalidAmount,
}

impl SocialRewardsError {
    /// The kind of failure.
    pub open spec fn kind_value(self) -> ErrorKind {
        match self {
            SocialRewardsError::AlreadyInitialized => ErrorKind::State,
            SocialRewardsError::NotInitialized => ErrorKind::State,
            SocialRewardsError::Paused => ErrorKind::State,
            SocialRewardsError::InvalidAmount => ErrorKind::Validation,
        }
    }

    /// The kind of failure.
    pub fn kind(&self) -> (r: ErrorKind)
        ensures
            r == self.kind_value(),
    {
        match self {
            SocialRewardsError::AlreadyInitialized => ErrorKind::State,
            SocialRewardsError::NotInitialized => ErrorKind::State,
            SocialRewardsError::Paused => ErrorKind::State,
            SocialRewardsError::InvalidAmount => ErrorKind::Validation,
        }
    }
}

/// The social rewards as a mathematical value.
pub struct SocialRewardsState {
    pub admin: Option<Address>,
    pub paused: bool,
}

impl SocialRewardsState {
    /// What adding a reward returns. Refused: anything while paused, and an
    /// amount that is not positive.
    pub open spec fn add_reward_outcome(self, amount: i128) -> Result<(), SocialRewardsError> {
        if self.paused {
            Err(SocialRewardsError::Paused)
        } else if amount <= 0 {
            Err(SocialRewardsError::InvalidAmount)
        } else {
            Ok(())
        }
    }
}

/// The social rewards: an admin and a pause switch.
pub struct SocialRewardsContract {
    admin: Option<Address>,
    paused: bool,
}

impl View for SocialRewardsContract {
    type V = SocialRewardsState;

    closed spec fn view(&self) -> SocialRewardsState {
        SocialRewardsState { admin: self.admin, paused: self.paused }
    }
}

impl SocialRewardsContract {
    /// A contract on which nothing has been set up yet.
    pub fn new() -> (r: SocialRewardsContract)
        ensures
            r@ == (SocialRewardsState { admin: None, paused: false }),
    {
        SocialRewardsContract { admin: None, paused: false }
    }

    /// Fixes the admin and lifts the pause. A contract is set up once; a
    /// second attempt is refused and changes nothing.
    pub fn initialize(&mut self, admin: Address) -> (r: Result<(), SocialRewardsError>)
        ensures
            r == if old(self)@.admin is Some {
                Err::<(), SocialRewardsError>(SocialRewardsError::AlreadyInitialized)
            } else {
                Ok(())
            },
            r is Err ==> final(self)@ == old(self)@,
            r is Ok ==> final(self)@ == (SocialRewardsState { admin: Some(admin), paused: false }),
    {
        if self.admin.is_some() {
            return Err(SocialRewardsError::AlreadyInitialized);
        }
        self.admin = Some(admin);
        self.paused = false;
        Ok(())
    }

    /// Accepts a reward of `amount` for `user`: while the contract is not
    /// paused, any positive amount.
    pub fn add_reward(&self, user: Address, amount: i128) -> (r: Result<(), SocialRewardsError>)
        ensures
            r == self@.add_reward_outcome(amount),
    {
        if self.is_paused() {
            return Err(SocialRewardsError::Paused);
        }
        if amount <= 0 {
            return Err(SocialRewardsError::InvalidAmount);
        }
        Ok(())
    }

    /// The admin, once the contract is set up.
    pub fn admin(&self) -> (r: Option<Address>)
        ensures
            r == self@.admin,
    {
        self.admin
    }

    /// Suspends or resumes rewards. Refused, with nothing changed, before the
    /// contract is set up.
    pub fn set_pause(&mut self, paused: bool) -> (r: Result<(), SocialRewardsError>)
        ensures
            r == if old(self)@.admin is Some {
                Ok::<(), SocialRewardsError>(())
            } else {
                Err(SocialRewardsError::NotInitialized)
            },
            r is Err ==> final(self)@ == old(self)@,
            r is Ok ==> final(self)@ == (SocialRewardsState { paused, ..old(self)@ }),
    {
        if self.admin.is_none() {
            return Err(SocialRewardsError::NotInitialized);
        }
        self.paused = paused;
        Ok(())
    }

    /// Whether rewards are suspended.
    pub fn is_paused(&self) -> (r: bool)
        ensures
            r == self@.paused,
    {
        self.paused
    }
}

} // verus!
