//! The vesting ledger: cliff-and-linear grants with single-claim and
//! single-revoke discipline.
//!
//! A grant unlocks nothing before its cliff has passed, then linearly over the
//! window between cliff and full duration. It is paid out at most once, or
//! revoked at most once, and never both. The ledger takes the current time and
//! the balance it may pay from as plain arguments; whoever drives it moves the
//! funds that a successful claim returns. The grants are recorded in a map of
//! the contract host, as the host stores them; the map stays in the host that
//! the ledger was made in.

use crate::address::{Address, AddressKind};
use crate::error_kind::ErrorKind;
use crate::host::{
    records_get, records_held, records_host, records_new, records_set, records_shaped,
    ScheduleRecord,
};
use crate::math::{lemma_prorate_bounded, lemma_prorate_monotone, prorate, prorate_value};
use vstd::prelude::*;

verus! {

/// The shortest delay after a grant's start that a revocation may name.
pub const MIN_REVOKE_DELAY: u64 = 3600;

/// Why an operation on the vesting ledger was refused.
#[derive(Copy, Clone, Debug, Eq, PartialEq, PartialOrd, Ord, Structural)]
pub enum VestingError {
    Unauthorized,
    NotVested,
    AlreadyClaimed,
    InvalidSchedule,
    InsufficientBalance,
    GrantNotFound,
    Revoked,
    InvalidTimelock,
    NotEnoughTimeForRevoke,
}

impl VestingError {
    /// The kind of failure.
    pub open spec fn kind_value(self) -> ErrorKind {
        match self {
            VestingError::Unauthorized => ErrorKind::Authorization,
            VestingError::NotVested => ErrorKind::Temporal,
            VestingError::AlreadyClaimed => ErrorKind::State,
            VestingError::InvalidSchedule => ErrorKind::Validation,
            VestingError::InsufficientBalance => ErrorKind::Resource,
            VestingError::GrantNotFound => ErrorKind::State,
            VestingError::Revoked => ErrorKind::State,
            VestingError::InvalidTimelock => ErrorKind::Validation,
            VestingError::NotEnoughTimeForRevoke => ErrorKind::Temporal,
        }
    }

    /// The kind of failure.
    pub fn kind(&self) -> (r: ErrorKind)
        ensures
            r == self.kind_value(),
    {
        match self {
            VestingError::Unauthorized => ErrorKind::Authorization,
            VestingError::NotVested => ErrorKind::Temporal,
            VestingError::AlreadyClaimed => ErrorKind::State,
            VestingError::InvalidSchedule => ErrorKind::Validation,
            VestingError::InsufficientBalance => ErrorKind::Resource,
            VestingError::GrantNotFound => ErrorKind::State,
            VestingError::Revoked => ErrorKind::State,
            VestingError::InvalidTimelock => ErrorKind::Validation,
            VestingError::NotEnoughTimeForRevoke => ErrorKind::Temporal,
        }
    }

    /// The numeric code under which the error is reported.
    pub open spec fn code_value(self) -> u32 {
        match self {
            VestingError::Unauthorized => 4001,
            VestingError::NotVested => 4002,
            VestingError::AlreadyClaimed => 4003,
            VestingError::InvalidSchedule => 4004,
            VestingError::InsufficientBalance => 4005,
            VestingError::GrantNotFound => 4006,
            VestingError::Revoked => 4007,
            VestingError::InvalidTimelock => 4008,
            VestingError::NotEnoughTimeForRevoke => 4009,
        }
    }

    /// The numeric code under which the error is reported.
    pub fn code(&self) -> (r: u32)
        ensures
            r == self.code_value(),
    {
        match self {
            VestingError::Unauthorized => 4001,
            VestingError::NotVested => 4002,
            VestingError::AlreadyClaimed => 4003,
            VestingError::InvalidSchedule => 4004,
            VestingError::InsufficientBalance => 4005,
            VestingError::GrantNotFound => 4006,
            VestingError::Revoked => 4007,
            VestingError::InvalidTimelock => 4008,
            VestingError::NotEnoughTimeForRevoke => 4009,
        }
    }
}

/// Where a grant stands in its life.
#[derive(Copy, Clone, Debug, Eq, PartialEq, Structural)]
pub enum GrantState {
    /// Neither paid out nor revoked.
    Active,
    /// Paid out; terminal.
    Claimed,
    /// Revoked; terminal.
    Revoked,
}

/// One vesting award.
#[derive(Copy, Clone, Debug, Eq, PartialEq, Structural)]
pub struct VestingSchedule {
    pub beneficiary: Address,
    pub amount: i128,
    pub start_time: u64,
    /// Time after the start before anything unlocks.
    pub cliff: u64,
    /// Time after the start at which everything has unlocked.
    pub duration: u64,
    pub claimed: bool,
    pub revoked: bool,
    /// When the grant was revoked; zero while it is not.
    pub revoke_time: u64,
}

impl VestingSchedule {
    /// The terms that a grant must meet to be recorded: a positive amount and
    /// a cliff within the duration.
    pub open spec fn terms_valid(self) -> bool {
        self.amount > 0 && self.cliff <= self.duration
    }

    /// The two terminal markers exclude each other, and a revocation time is
    /// recorded only with a revocation.
    pub open spec fn markers_valid(self) -> bool {
        &&& !(self.claimed && self.revoked)
        &&& !self.revoked ==> self.revoke_time == 0
    }

    /// What holds of every recorded grant.
    pub open spec fn is_valid(self) -> bool {
        self.terms_valid() && self.markers_valid()
    }

    /// The instant at which the cliff has passed.
    pub open spec fn cliff_end(self) -> int {
        self.start_time + self.cliff
    }

    /// The instant from which the whole amount has unlocked.
    pub open spec fn vesting_end(self) -> int {
        self.start_time + self.duration
    }

    /// The amount unlocked at `now`: nothing before the cliff has passed and
    /// at the cliff's own instant, everything from the end of the duration,
    /// and in between the floor of the linear share of the time since the
    /// cliff in the window that follows it.
    pub open spec fn vested_at(self, now: int) -> int {
        if now < self.cliff_end() {
            0
        } else if now >= self.vesting_end() {
            self.amount as int
        } else {
            (self.amount * (now - self.cliff_end())) / (self.duration - self.cliff)
        }
    }

    /// The unlocked amount for terms that a grant may have; terms that it may
    /// not have are reported.
    pub open spec fn vested_outcome(self, now: int) -> Result<i128, VestingError> {
        if self.terms_valid() {
            Ok(self.vested_at(now) as i128)
        } else {
            Err(VestingError::InvalidSchedule)
        }
    }

    /// The state of the grant; a paid grant counts as claimed.
    pub open spec fn state_value(self) -> GrantState {
        if self.claimed {
            GrantState::Claimed
        } else if self.revoked {
            GrantState::Revoked
        } else {
            GrantState::Active
        }
    }

    /// Whether the schedule is one that a ledger may hold.
    pub fn check_valid(&self) -> (r: bool)
        ensures
            r == self.is_valid(),
    {
        self.amount > 0 && self.cliff <= self.duration && !(self.claimed && self.revoked) && (
        self.revoked || self.revoke_time == 0)
    }

    /// The state of the grant.
    pub fn state(&self) -> (r: GrantState)
        ensures
            r == self.state_value(),
    {
        if self.claimed {
            GrantState::Claimed
        } else if self.revoked {
            GrantState::Revoked
        } else {
            GrantState::Active
        }
    }
}

/// The unlocked amount never decreases with time and stays between nothing
/// and the granted amount.
pub proof fn lemma_vested_monotone_bounded(schedule: VestingSchedule, earlier: int, later: int)
    requires
        schedule.terms_valid(),
        earlier <= later,
    ensures
        0 <= schedule.vested_at(earlier) <= schedule.vested_at(later) <= schedule.amount,
{
    lemma_vested_bounded(schedule, earlier);
    lemma_vested_bounded(schedule, later);
    let window = schedule.duration - schedule.cliff;
    if schedule.cliff_end() <= earlier && later < schedule.vesting_end() {
        lemma_prorate_monotone(
            schedule.amount as nat,
            (earlier - schedule.cliff_end()) as nat,
            (later - schedule.cliff_end()) as nat,
            window as nat,
        );
    }
}

/// The unlocked amount lies between nothing and the granted amount.
pub proof fn lemma_vested_bounded(schedule: VestingSchedule, now: int)
    requires
        schedule.terms_valid(),
    ensures
        0 <= schedule.vested_at(now) <= schedule.amount,
        schedule.cliff_end() <= now < schedule.vesting_end() ==> schedule.vested_at(now)
            == prorate_value(
            schedule.amount as nat,
            (now - schedule.cliff_end()) as nat,
            (schedule.duration - schedule.cliff) as nat,
        ),
{
    if schedule.cliff_end() <= now < schedule.vesting_end() {
        lemma_prorate_bounded(
            schedule.amount as nat,
            (now - schedule.cliff_end()) as nat,
            (schedule.duration - schedule.cliff) as nat,
        );
    }
}

/// The three parties fixed when the ledger is set up.
#[derive(Copy, Clone, Debug, Eq, PartialEq, Structural)]
pub struct VestingRoles {
    pub admin: Address,
    pub reward_token: Address,
    pub governance: Address,
}

/// The ledger as a mathematical value: the roles, once set, and the grants in
/// the order of their ids, the first grant having id 1.
#[verifier::ext_equal]
pub struct VestingLedger {
    pub roles: Option<VestingRoles>,
    pub grants: Seq<VestingSchedule>,
}

impl VestingLedger {
    /// What holds of every ledger: no grant before the roles are set, ids that
    /// fit, and only valid grants.
    pub open spec fn wf(self) -> bool {
        &&& self.roles is None ==> self.grants.len() == 0
        &&& self.grants.len() <= u64::MAX
        &&& forall|i: int| 0 <= i < self.grants.len() ==> (#[trigger] self.grants[i]).is_valid()
    }

    /// Whether a grant with this id was recorded.
    pub open spec fn has_grant(self, grant_id: u64) -> bool {
        1 <= grant_id <= self.grants.len()
    }

    /// The grant with this id.
    pub open spec fn grant(self, grant_id: u64) -> VestingSchedule
        recommends
            self.has_grant(grant_id),
    {
        self.grants[grant_id - 1]
    }

    /// Whether `who` is the ledger's admin.
    pub open spec fn is_admin(self, who: Address) -> bool {
        self.roles is Some && self.roles->Some_0.admin == who
    }

    /// What setting up the ledger returns: it succeeds once.
    pub open spec fn init_outcome(self) -> Result<(), VestingError> {
        if self.roles is Some {
            Err(VestingError::Unauthorized)
        } else {
            Ok(())
        }
    }

    /// The ledger after an attempt to set it up.
    pub open spec fn after_init(self, roles: VestingRoles) -> VestingLedger {
        if self.init_outcome() is Ok {
            VestingLedger { roles: Some(roles), grants: self.grants }
        } else {
            self
        }
    }

    /// What recording a grant returns: the next id in sequence, or the reason
    /// for refusing.
    pub open spec fn grant_outcome(self, admin: Address, amount: i128, cliff: u64, duration: u64)
        -> Result<u64, VestingError> {
        if !self.is_admin(admin) {
            Err(VestingError::Unauthorized)
        } else if amount <= 0 || cliff > duration {
            Err(VestingError::InvalidSchedule)
        } else {
            Ok((self.grants.len() + 1) as u64)
        }
    }

    /// The ledger after an attempt to record a grant.
    pub open spec fn after_grant(
        self,
        admin: Address,
        beneficiary: Address,
        amount: i128,
        start_time: u64,
        cliff: u64,
        duration: u64,
    ) -> VestingLedger {
        if self.grant_outcome(admin, amount, cliff, duration) is Ok {
            VestingLedger {
                roles: self.roles,
                grants: self.grants.push(
                    VestingSchedule {
                        beneficiary,
                        amount,
                        start_time,
                        cliff,
                        duration,
                        claimed: false,
                        revoked: false,
                        revoke_time: 0,
                    },
                ),
            }
        } else {
            self
        }
    }

    /// What a claim returns: the amount to pay out, or the first reason for
    /// refusing, in the order unknown grant, wrong caller, paid before,
    /// revoked, nothing unlocked, balance too small.
    pub open spec fn claim_outcome(self, grant_id: u64, caller: Address, now: u64, balance: i128)
        -> Result<i128, VestingError> {
        if !self.has_grant(grant_id) {
            Err(VestingError::GrantNotFound)
        } else if self.grant(grant_id).beneficiary != caller {
            Err(VestingError::Unauthorized)
        } else if self.grant(grant_id).claimed {
            Err(VestingError::AlreadyClaimed)
        } else if self.grant(grant_id).revoked {
            Err(VestingError::Revoked)
        } else if self.grant(grant_id).vested_at(now as int) == 0 {
            Err(VestingError::NotVested)
        } else if balance < self.grant(grant_id).vested_at(now as int) {
            Err(VestingError::InsufficientBalance)
        } else {
            Ok(self.grant(grant_id).vested_at(now as int) as i128)
        }
    }

    /// The ledger after a claim: the grant marked as paid where the claim
    /// succeeded, and nothing changed where it did not.
    pub open spec fn after_claim(self, grant_id: u64, caller: Address, now: u64, balance: i128)
        -> VestingLedger {
        if self.claim_outcome(grant_id, caller, now, balance) is Ok {
            VestingLedger {
                roles: self.roles,
                grants: self.grants.update(
                    grant_id - 1,
                    VestingSchedule { claimed: true, ..self.grant(grant_id) },
                ),
            }
        } else {
            self
        }
    }

    /// What a revocation returns: the first reason for refusing, in the order
    /// wrong caller, unknown grant, paid before, revoked before, delay below
    /// the floor, delay not yet elapsed since the grant's start.
    pub open spec fn revoke_outcome(self, grant_id: u64, admin: Address, revoke_delay: u64, now: u64)
        -> Result<(), VestingError> {
        if !self.is_admin(admin) {
            Err(VestingError::Unauthorized)
        } else if !self.has_grant(grant_id) {
            Err(VestingError::GrantNotFound)
        } else if self.grant(grant_id).claimed {
            Err(VestingError::AlreadyClaimed)
        } else if self.grant(grant_id).revoked {
            Err(VestingError::Revoked)
        } else if revoke_delay < MIN_REVOKE_DELAY {
            Err(VestingError::InvalidTimelock)
        } else if now < self.grant(grant_id).start_time + revoke_delay {
            Err(VestingError::NotEnoughTimeForRevoke)
        } else {
            Ok(())
        }
    }

    /// The ledger after a revocation: the grant marked as revoked at `now`
    /// where it succeeded, and nothing changed where it did not.
    pub open spec fn after_revoke(self, grant_id: u64, admin: Address, revoke_delay: u64, now: u64)
        -> VestingLedger {
        if self.revoke_outcome(grant_id, admin, revoke_delay, now) is Ok {
            VestingLedger {
                roles: self.roles,
                grants: self.grants.update(
                    grant_id - 1,
                    VestingSchedule { revoked: true, revoke_time: now, ..self.grant(grant_id) },
                ),
            }
        } else {
            self
        }
    }
}

/// Every operation leaves a well-formed ledger well-formed.
pub proof fn lemma_operations_keep_wf(
    ledger: VestingLedger,
    roles: VestingRoles,
    grant_id: u64,
    caller: Address,
    schedule: VestingSchedule,
    revoke_delay: u64,
    now: u64,
    balance: i128,
)
    requires
        ledger.wf(),
        ledger.grants.len() < u64::MAX,
    ensures
        ledger.after_init(roles).wf(),
        ledger.after_grant(
            caller,
            schedule.beneficiary,
            schedule.amount,
            schedule.start_time,
            schedule.cliff,
            schedule.duration,
        ).wf(),
        ledger.after_claim(grant_id, caller, now, balance).wf(),
        ledger.after_revoke(grant_id, caller, revoke_delay, now).wf(),
{
}

/// An operation is all or nothing: one that is refused leaves the ledger
/// exactly as it was.
pub proof fn lemma_refused_changes_nothing(
    ledger: VestingLedger,
    roles: VestingRoles,
    grant_id: u64,
    caller: Address,
    schedule: VestingSchedule,
    revoke_delay: u64,
    now: u64,
    balance: i128,
)
    ensures
        ledger.init_outcome() is Err ==> ledger.after_init(roles) == ledger,
        ledger.grant_outcome(caller, schedule.amount, schedule.cliff, schedule.duration) is Err
            ==> ledger.after_grant(
            caller,
            schedule.beneficiary,
            schedule.amount,
            schedule.start_time,
            schedule.cliff,
            schedule.duration,
        ) == ledger,
        ledger.claim_outcome(grant_id, caller, now, balance) is Err ==> ledger.after_claim(
            grant_id,
            caller,
            now,
            balance,
        ) == ledger,
        ledger.revoke_outcome(grant_id, caller, revoke_delay, now) is Err ==> ledger.after_revoke(
            grant_id,
            caller,
            revoke_delay,
            now,
        ) == ledger,
{
}

/// A grant that is paid out or revoked is final: no operation changes it,
/// whoever calls and whenever.
pub proof fn lemma_terminal_grant_is_final(
    ledger: VestingLedger,
    terminal_id: u64,
    roles: VestingRoles,
    grant_id: u64,
    caller: Address,
    schedule: VestingSchedule,
    revoke_delay: u64,
    now: u64,
    balance: i128,
)
    requires
        ledger.has_grant(terminal_id),
        ledger.grant(terminal_id).state_value() != GrantState::Active,
    ensures
        ledger.after_init(roles).grant(terminal_id) == ledger.grant(terminal_id),
        ledger.after_grant(
            caller,
            schedule.beneficiary,
            schedule.amount,
            schedule.start_time,
            schedule.cliff,
            schedule.duration,
        ).grant(terminal_id) == ledger.grant(terminal_id),
        ledger.after_claim(grant_id, caller, now, balance).grant(terminal_id) == ledger.grant(
            terminal_id,
        ),
        ledger.after_revoke(grant_id, caller, revoke_delay, now).grant(terminal_id)
            == ledger.grant(terminal_id),
        ledger.claim_outcome(terminal_id, caller, now, balance) is Err,
        ledger.revoke_outcome(terminal_id, caller, revoke_delay, now) is Err,
{
}

/// A grant, once recorded, stays recorded under its id, and its beneficiary
/// and terms never change, whatever is done to the ledger.
pub proof fn lemma_recorded_terms_are_fixed(
    ledger: VestingLedger,
    recorded_id: u64,
    roles: VestingRoles,
    grant_id: u64,
    caller: Address,
    schedule: VestingSchedule,
    revoke_delay: u64,
    now: u64,
    balance: i128,
)
    requires
        ledger.has_grant(recorded_id),
    ensures
        same_terms(ledger.after_init(roles), ledger, recorded_id),
        same_terms(
            ledger.after_grant(
                caller,
                schedule.beneficiary,
                schedule.amount,
                schedule.start_time,
                schedule.cliff,
                schedule.duration,
            ),
            ledger,
            recorded_id,
        ),
        same_terms(ledger.after_claim(grant_id, caller, now, balance), ledger, recorded_id),
        same_terms(ledger.after_revoke(grant_id, caller, revoke_delay, now), ledger, recorded_id),
{
}

/// Whether a grant is recorded in both ledgers with the same beneficiary and
/// terms.
pub open spec fn same_terms(after: VestingLedger, before: VestingLedger, grant_id: u64) -> bool {
    &&& after.has_grant(grant_id)
    &&& before.has_grant(grant_id)
    &&& after.grant(grant_id).beneficiary == before.grant(grant_id).beneficiary
    &&& after.grant(grant_id).amount == before.grant(grant_id).amount
    &&& after.grant(grant_id).start_time == before.grant(grant_id).start_time
    &&& after.grant(grant_id).cliff == before.grant(grant_id).cliff
    &&& after.grant(grant_id).duration == before.grant(grant_id).duration
}

/// A claim pays once: after a successful claim, a second claim on the same
/// grant by its beneficiary is refused as already claimed, at any time and
/// with any balance; by anyone else it is refused as unauthorized. Either way
/// the ledger stays as the first claim left it.
pub proof fn lemma_claim_exactly_once(
    ledger: VestingLedger,
    grant_id: u64,
    beneficiary: Address,
    now: u64,
    balance: i128,
    second_caller: Address,
    later: u64,
    later_balance: i128,
)
    requires
        ledger.claim_outcome(grant_id, beneficiary, now, balance) is Ok,
    ensures
        ledger.after_claim(grant_id, beneficiary, now, balance).claim_outcome(
            grant_id,
            beneficiary,
            later,
            later_balance,
        ) == Err::<i128, VestingError>(VestingError::AlreadyClaimed),
        second_caller != beneficiary ==> ledger.after_claim(
            grant_id,
            beneficiary,
            now,
            balance,
        ).claim_outcome(grant_id, second_caller, later, later_balance) == Err::<
            i128,
            VestingError,
        >(VestingError::Unauthorized),
        ledger.after_claim(grant_id, beneficiary, now, balance).after_claim(
            grant_id,
            second_caller,
            later,
            later_balance,
        ) == ledger.after_claim(grant_id, beneficiary, now, balance),
{
}

/// After a successful revocation, a claim on the same grant by its
/// beneficiary is refused as revoked, at any time and with any balance.
pub proof fn lemma_revoke_then_claim(
    ledger: VestingLedger,
    grant_id: u64,
    admin: Address,
    revoke_delay: u64,
    now: u64,
    later: u64,
    balance: i128,
)
    requires
        ledger.revoke_outcome(grant_id, admin, revoke_delay, now) is Ok,
    ensures
        ledger.after_revoke(grant_id, admin, revoke_delay, now).claim_outcome(
            grant_id,
            ledger.grant(grant_id).beneficiary,
            later,
            balance,
        ) == Err::<i128, VestingError>(VestingError::Revoked),
{
}

/// After a successful claim, a revocation of the same grant by the admin is
/// refused as already claimed, at any time and with any delay.
pub proof fn lemma_claim_then_revoke(
    ledger: VestingLedger,
    grant_id: u64,
    beneficiary: Address,
    now: u64,
    balance: i128,
    admin: Address,
    revoke_delay: u64,
    later: u64,
)
    requires
        ledger.claim_outcome(grant_id, beneficiary, now, balance) is Ok,
        ledger.is_admin(admin),
    ensures
        ledger.after_claim(grant_id, beneficiary, now, balance).revoke_outcome(
            grant_id,
            admin,
            revoke_delay,
            later,
        ) == Err::<(), VestingError>(VestingError::AlreadyClaimed),
{
}

/// The timelock of a revocation by the admin of an active grant: a delay
/// below the floor is refused as invalid, and a delay at or above it that has
/// not yet elapsed since the grant's start is refused as too early.
pub proof fn lemma_revoke_timelock(
    ledger: VestingLedger,
    grant_id: u64,
    admin: Address,
    revoke_delay: u64,
    now: u64,
)
    requires
        ledger.is_admin(admin),
        ledger.has_grant(grant_id),
        ledger.grant(grant_id).state_value() == GrantState::Active,
    ensures
        revoke_delay < MIN_REVOKE_DELAY ==> ledger.revoke_outcome(
            grant_id,
            admin,
            revoke_delay,
            now,
        ) == Err::<(), VestingError>(VestingError::InvalidTimelock),
        revoke_delay >= MIN_REVOKE_DELAY && now < ledger.grant(grant_id).start_time + revoke_delay
            ==> ledger.revoke_outcome(grant_id, admin, revoke_delay, now) == Err::<
            (),
            VestingError,
        >(VestingError::NotEnoughTimeForRevoke),
        revoke_delay >= MIN_REVOKE_DELAY && now >= ledger.grant(grant_id).start_time
            + revoke_delay ==> ledger.revoke_outcome(grant_id, admin, revoke_delay, now) == Ok::<
            (),
            VestingError,
        >(()),
{
}

/// One operation on the ledger, with its arguments.
pub enum VestingOp {
    Init { roles: VestingRoles },
    Grant {
        admin: Address,
        beneficiary: Address,
        amount: i128,
        start_time: u64,
        cliff: u64,
        duration: u64,
    },
    Claim { grant_id: u64, caller: Address, now: u64, balance: i128 },
    Revoke { grant_id: u64, admin: Address, revoke_delay: u64, now: u64 },
}

impl VestingLedger {
    /// The ledger after one operation, refused or not.
    pub open spec fn step(self, op: VestingOp) -> VestingLedger {
        match op {
            VestingOp::Init { roles } => self.after_init(roles),
            VestingOp::Grant { admin, beneficiary, amount, start_time, cliff, duration } => {
                self.after_grant(admin, beneficiary, amount, start_time, cliff, duration)
            },
            VestingOp::Claim { grant_id, caller, now, balance } => self.after_claim(
                grant_id,
                caller,
                now,
                balance,
            ),
            VestingOp::Revoke { grant_id, admin, revoke_delay, now } => self.after_revoke(
                grant_id,
                admin,
                revoke_delay,
                now,
            ),
        }
    }

    /// The ledger after a sequence of operations, the first of them first.
    pub open spec fn run(self, ops: Seq<VestingOp>) -> VestingLedger
        decreases ops.len(),
    {
        if ops.len() == 0 {
            self
        } else {
            self.run(ops.drop_last()).step(ops.last())
        }
    }
}

/// Whatever is done to a well-formed ledger, and however often, it stays
/// well-formed, as long as the grant ids are not used up.
pub proof fn lemma_run_keeps_wf(ledger: VestingLedger, ops: Seq<VestingOp>)
    requires
        ledger.wf(),
        ledger.grants.len() + ops.len() <= u64::MAX,
    ensures
        ledger.run(ops).wf(),
        ledger.run(ops).grants.len() <= ledger.grants.len() + ops.len(),
    decreases ops.len(),
{
    if ops.len() > 0 {
        lemma_run_keeps_wf(ledger, ops.drop_last());
    }
}

/// A grant that is paid out or revoked stays as it is for good: whatever is
/// done to the ledger afterwards, and however often, the grant is still
/// recorded and has not changed.
pub proof fn lemma_terminal_forever(ledger: VestingLedger, grant_id: u64, ops: Seq<VestingOp>)
    requires
        ledger.has_grant(grant_id),
        ledger.grant(grant_id).state_value() != GrantState::Active,
    ensures
        ledger.run(ops).has_grant(grant_id),
        ledger.run(ops).grant(grant_id) == ledger.grant(grant_id),
    decreases ops.len(),
{
    if ops.len() > 0 {
        lemma_terminal_forever(ledger, grant_id, ops.drop_last());
    }
}

/// A grant is never paid twice: after a successful claim, and whatever is
/// done to the ledger in between, a claim on the same grant by its
/// beneficiary is refused as already claimed, and a revocation by the admin
/// is refused as already claimed too.
pub proof fn lemma_never_paid_twice(
    ledger: VestingLedger,
    grant_id: u64,
    beneficiary: Address,
    now: u64,
    balance: i128,
    ops: Seq<VestingOp>,
    later: u64,
    later_balance: i128,
    admin: Address,
    revoke_delay: u64,
)
    requires
        ledger.claim_outcome(grant_id, beneficiary, now, balance) is Ok,
    ensures
        ledger.after_claim(grant_id, beneficiary, now, balance).run(ops).claim_outcome(
            grant_id,
            beneficiary,
            later,
            later_balance,
        ) == Err::<i128, VestingError>(VestingError::AlreadyClaimed),
        ledger.after_claim(grant_id, beneficiary, now, balance).run(ops).is_admin(admin)
            ==> ledger.after_claim(grant_id, beneficiary, now, balance).run(ops).revoke_outcome(
            grant_id,
            admin,
            revoke_delay,
            later,
        ) == Err::<(), VestingError>(VestingError::AlreadyClaimed),
{
    lemma_terminal_forever(ledger.after_claim(grant_id, beneficiary, now, balance), grant_id, ops);
}

/// A revoked grant is never paid: after a successful revocation, and
/// whatever is done to the ledger in between, a claim on the same grant by
/// its beneficiary is refused as revoked, and a second revocation by the
/// admin is refused as revoked too.
pub proof fn lemma_revoked_never_paid(
    ledger: VestingLedger,
    grant_id: u64,
    admin: Address,
    revoke_delay: u64,
    now: u64,
    ops: Seq<VestingOp>,
    later: u64,
    balance: i128,
    later_admin: Address,
    later_delay: u64,
)
    requires
        ledger.revoke_outcome(grant_id, admin, revoke_delay, now) is Ok,
    ensures
        ledger.after_revoke(grant_id, admin, revoke_delay, now).run(ops).claim_outcome(
            grant_id,
            ledger.grant(grant_id).beneficiary,
            later,
            balance,
        ) == Err::<i128, VestingError>(VestingError::Revoked),
        ledger.after_revoke(grant_id, admin, revoke_delay, now).run(ops).is_admin(later_admin)
            ==> ledger.after_revoke(grant_id, admin, revoke_delay, now).run(ops).revoke_outcome(
            grant_id,
            later_admin,
            later_delay,
            later,
        ) == Err::<(), VestingError>(VestingError::Revoked),
{
    lemma_terminal_forever(
        ledger.after_revoke(grant_id, admin, revoke_delay, now),
        grant_id,
        ops,
    );
}

/// The record that the host map holds for a schedule.
pub open spec fn record_of(schedule: VestingSchedule) -> ScheduleRecord {
    (
        match schedule.beneficiary.kind {
            AddressKind::Account => 0u32,
            AddressKind::Contract => 1u32,
        },
        schedule.beneficiary.high,
        schedule.beneficiary.low,
        schedule.amount,
        schedule.start_time,
        schedule.cliff,
        schedule.duration,
        schedule.claimed,
        schedule.revoked,
        schedule.revoke_time,
    )
}

/// The schedule that a record stands for; none where the record's first
/// field names no kind of address.
pub open spec fn schedule_of(record: ScheduleRecord) -> Option<VestingSchedule> {
    if record.0 > 1 {
        None
    } else {
        Some(
            VestingSchedule {
                beneficiary: Address {
                    kind: if record.0 == 0 {
                        AddressKind::Account
                    } else {
                        AddressKind::Contract
                    },
                    high: record.1,
                    low: record.2,
                },
                amount: record.3,
                start_time: record.4,
                cliff: record.5,
                duration: record.6,
                claimed: record.7,
                revoked: record.8,
                revoke_time: record.9,
            },
        )
    }
}

/// The record of a schedule stands for that schedule.
pub proof fn lemma_record_round_trip(schedule: VestingSchedule)
    ensures
        schedule_of(record_of(schedule)) == Some(schedule),
{
}

/// The grants that records make: the schedules that the records under the
/// ids from 1 to `count` stand for, in the order of the ids.
pub open spec fn grants_of(held: Map<u64, ScheduleRecord>, count: u64) -> Seq<VestingSchedule> {
    Seq::new(count as nat, |i: int| schedule_of(held[(i + 1) as u64])->Some_0)
}

/// Whether records hold a schedule under each id from 1 to `count`.
pub open spec fn records_complete(held: Map<u64, ScheduleRecord>, count: u64) -> bool {
    forall|id: u64|
        1 <= id <= count ==> #[trigger] held.contains_key(id) && schedule_of(held[id]) is Some
}

/// Whether records hold, under the id of each grant of a ledger, the record
/// of the grant's schedule.
pub open spec fn records_match(held: Map<u64, ScheduleRecord>, ledger: VestingLedger) -> bool {
    forall|id: u64|
        ledger.has_grant(id) ==> #[trigger] held.contains_key(id) && schedule_of(held[id]) == Some(
            ledger.grant(id),
        )
}

/// Whether roles, a count and records make a ledger: a schedule under each
/// id up to the count, every one of them valid, and none before the roles
/// are set.
pub open spec fn restorable(
    roles: Option<VestingRoles>,
    count: u64,
    held: Map<u64, ScheduleRecord>,
) -> bool {
    &&& records_complete(held, count)
    &&& (VestingLedger { roles, grants: grants_of(held, count) }).wf()
}

/// Putting a schedule's record under the id after the last adds the
/// schedule to the grants that the records make.
pub proof fn lemma_records_after_push(
    held: Map<u64, ScheduleRecord>,
    count: u64,
    schedule: VestingSchedule,
)
    requires
        records_complete(held, count),
        count < u64::MAX,
    ensures
        records_complete(held.insert((count + 1) as u64, record_of(schedule)), (count + 1) as u64),
        grants_of(held.insert((count + 1) as u64, record_of(schedule)), (count + 1) as u64)
            == grants_of(held, count).push(schedule),
{
    let next = (count + 1) as u64;
    let after = held.insert(next, record_of(schedule));
    assert forall|id: u64| 1 <= id <= next implies #[trigger] after.contains_key(id) && schedule_of(
        after[id],
    ) is Some by {
        if id != next {
            assert(held.contains_key(id));
        }
    }
    assert(grants_of(after, next) =~= grants_of(held, count).push(schedule));
}

/// Putting a schedule's record under the id of a grant puts the schedule in
/// the grant's place among the grants that the records make.
pub proof fn lemma_records_after_put(
    held: Map<u64, ScheduleRecord>,
    count: u64,
    grant_id: u64,
    schedule: VestingSchedule,
)
    requires
        records_complete(held, count),
        1 <= grant_id <= count,
    ensures
        records_complete(held.insert(grant_id, record_of(schedule)), count),
        grants_of(held.insert(grant_id, record_of(schedule)), count) == grants_of(
            held,
            count,
        ).update(grant_id - 1, schedule),
{
    let after = held.insert(grant_id, record_of(schedule));
    assert forall|id: u64| 1 <= id <= count implies #[trigger] after.contains_key(id)
        && schedule_of(after[id]) is Some by {
        if id != grant_id {
            assert(held.contains_key(id));
        }
    }
    assert(grants_of(after, count) =~= grants_of(held, count).update(grant_id - 1, schedule));
}

impl VestingSchedule {
    /// The record that the host map holds for the schedule.
    pub fn to_record(&self) -> (r: ScheduleRecord)
        ensures
            r == record_of(*self),
    {
        (
            match self.beneficiary.kind {
                AddressKind::Account => 0u32,
                AddressKind::Contract => 1u32,
            },
            self.beneficiary.high,
            self.beneficiary.low,
            self.amount,
            self.start_time,
            self.cliff,
            self.duration,
            self.claimed,
            self.revoked,
            self.revoke_time,
        )
    }

    /// The schedule that a record stands for, if it stands for one.
    pub fn from_record(record: &ScheduleRecord) -> (r: Option<VestingSchedule>)
        ensures
            r == schedule_of(*record),
    {
        if record.0 > 1 {
            return None;
        }
        Some(
            VestingSchedule {
                beneficiary: Address {
                    kind: if record.0 == 0 {
                        AddressKind::Account
                    } else {
                        AddressKind::Contract
                    },
                    high: record.1,
                    low: record.2,
                },
                amount: record.3,
                start_time: record.4,
                cliff: record.5,
                duration: record.6,
                claimed: record.7,
                revoked: record.8,
                revoke_time: record.9,
            },
        )
    }
}

/// The vesting ledger: the roles, the number of grants, and the record of
/// every grant ever made, in a map of the host.
pub struct AcademyVestingContract {
    roles: Option<VestingRoles>,
    count: u64,
    schedules: soroban_sdk::Map<u64, ScheduleRecord>,
}

impl View for AcademyVestingContract {
    type V = VestingLedger;

    closed spec fn view(&self) -> VestingLedger {
        VestingLedger {
            roles: self.roles,
            grants: grants_of(records_held(self.schedules), self.count),
        }
    }
}

impl AcademyVestingContract {
    /// What holds of every ledger: its records hold a schedule under each id
    /// up to the number of grants, and the ledger that they make is
    /// well-formed.
    pub closed spec fn wf(&self) -> bool {
        &&& records_shaped(self.schedules)
        &&& restorable(self.roles, self.count, records_held(self.schedules))
    }

    /// The host in which the ledger keeps its records: the one that its map
    /// of records was made in. No operation moves the records to another.
    pub closed spec fn host(&self) -> soroban_sdk::Env {
        records_host(self.schedules)
    }

    /// A well-formed ledger is well-formed as a mathematical value.
    pub proof fn lemma_wf_view(&self)
        requires
            self.wf(),
        ensures
            self@.wf(),
    {
    }

    /// A ledger on which nothing has been set up yet, its records in a new
    /// map made in the host of `env`.
    pub fn new(env: &soroban_sdk::Env) -> (r: AcademyVestingContract)
        ensures
            r.wf(),
            r@.wf(),
            r@ == (VestingLedger { roles: None, grants: Seq::empty() }),
            r.host() == *env,
    {
        let r = AcademyVestingContract { roles: None, count: 0, schedules: records_new(env) };
        assert(r@.grants =~= Seq::empty());
        r
    }

    /// A ledger with the given roles and grants, the grants in the order of
    /// their ids, its records in a new map made in the host of `env`. `None`
    /// where these do not make a ledger: a grant without roles, or a grant
    /// that is not valid.
    pub fn restore(
        env: &soroban_sdk::Env,
        roles: Option<VestingRoles>,
        schedules: Vec<VestingSchedule>,
    ) -> (r: Option<AcademyVestingContract>)
        ensures
            r is Some <==> (VestingLedger { roles, grants: schedules@ }).wf(),
            r is Some ==> r->Some_0.wf() && r->Some_0@ == (VestingLedger {
                roles,
                grants: schedules@,
            }),
            r is Some ==> r->Some_0.host() == *env,
    {
        if roles.is_none() && schedules.len() > 0 {
            return None;
        }
        let mut records = records_new(env);
        let mut count: u64 = 0;
        let mut i: usize = 0;
        while i < schedules.len()
            invariant
                i <= schedules.len(),
                count == i,
                records_shaped(records),
                records_host(records) == *env,
                records_complete(records_held(records), count),
                grants_of(records_held(records), count) == schedules@.take(i as int),
                forall|k: int| 0 <= k < i ==> (#[trigger] schedules@[k]).is_valid(),
            decreases schedules.len() - i,
        {
            let schedule = schedules[i];
            if !schedule.check_valid() {
                return None;
            }
            proof {
                lemma_records_after_push(records_held(records), count, schedule);
                assert(schedules@.take(i as int).push(schedule) == schedules@.take(i + 1));
            }
            count = count + 1;
            records_set(&mut records, count, schedule.to_record());
            i += 1;
        }
        assert(schedules@.take(i as int) == schedules@);
        Some(AcademyVestingContract { roles, count, schedules: records })
    }

    /// The records of the grants, handed back to be stored: under each
    /// grant's id the record of its schedule.
    pub fn into_records(self) -> (r: soroban_sdk::Map<u64, ScheduleRecord>)
        requires
            self.wf(),
        ensures
            records_match(records_held(r), self@),
            records_shaped(r),
            records_host(r) == self.host(),
    {
        proof {
            let held = records_held(self.schedules);
            assert forall|id: u64| self@.has_grant(id) implies #[trigger] held.contains_key(id)
                && schedule_of(held[id]) == Some(self@.grant(id)) by {
                assert(records_complete(held, self.count));
                assert(held.contains_key(id));
                assert(self@.grants[id - 1] == schedule_of(held[id])->Some_0);
            }
        }
        self.schedules
    }

    /// Fixes the admin, the reward token and the governance address. A ledger
    /// is set up once; a second attempt is refused and changes nothing.
    pub fn init(&mut self, admin: Address, reward_token: Address, governance: Address) -> (r: Result<
        (),
        VestingError,
    >)
        requires
            old(self).wf(),
        ensures
            final(self).wf(),
            final(self)@.wf(),
            final(self).host() == old(self).host(),
            r == old(self)@.init_outcome(),
            final(self)@ == old(self)@.after_init(
                VestingRoles { admin, reward_token, governance },
            ),
    {
        if self.roles.is_some() {
            return Err(VestingError::Unauthorized);
        }
        self.roles = Some(VestingRoles { admin, reward_token, governance });
        Ok(())
    }

    /// The number of grants recorded, which is also the id of the latest.
    pub fn grant_count(&self) -> (r: u64)
        ensures
            r == self@.grants.len(),
    {
        self.count
    }

    /// Records a grant and returns its id, the next in sequence. Only the
    /// admin may grant; the amount must be positive and the cliff within the
    /// duration. A refused grant changes nothing.
    pub fn grant_vesting(
        &mut self,
        admin: Address,
        beneficiary: Address,
        amount: i128,
        start_time: u64,
        cliff: u64,
        duration: u64,
    ) -> (r: Result<u64, VestingError>)
        requires
            old(self).wf(),
            old(self)@.grants.len() < u64::MAX,
        ensures
            final(self).wf(),
            final(self)@.wf(),
            final(self).host() == old(self).host(),
            r == old(self)@.grant_outcome(admin, amount, cliff, duration),
            final(self)@ == old(self)@.after_grant(
                admin,
                beneficiary,
                amount,
                start_time,
                cliff,
                duration,
            ),
    {
        match self.roles {
            None => {
                return Err(VestingError::Unauthorized);
            },
            Some(roles) => {
                if roles.admin != admin {
                    return Err(VestingError::Unauthorized);
                }
            },
        }
        if amount <= 0 {
            return Err(VestingError::InvalidSchedule);
        }
        if cliff > duration {
            return Err(VestingError::InvalidSchedule);
        }
        let next_id: u64 = self.count + 1;
        let schedule = VestingSchedule {
            beneficiary,
            amount,
            start_time,
            cliff,
            duration,
            claimed: false,
            revoked: false,
            revoke_time: 0,
        };
        proof {
            lemma_records_after_push(records_held(self.schedules), self.count, schedule);
            lemma_operations_keep_wf(
                self@,
                VestingRoles { admin, reward_token: admin, governance: admin },
                0,
                admin,
                schedule,
                0,
                0,
                0,
            );
        }
        records_set(&mut self.schedules, next_id, schedule.to_record());
        self.count = next_id;
        Ok(next_id)
    }

    /// The amount of a schedule that has unlocked at `current_time`.
    pub fn calculate_vested_amount(schedule: &VestingSchedule, current_time: u64) -> (r: Result<
        i128,
        VestingError,
    >)
        ensures
            r == schedule.vested_outcome(current_time as int),
            r is Ok ==> 0 <= r->Ok_0 <= schedule.amount && r->Ok_0 == schedule.vested_at(
                current_time as int,
            ),
    {
        if schedule.amount <= 0 || schedule.cliff > schedule.duration {
            return Err(VestingError::InvalidSchedule);
        }
        proof {
            lemma_vested_bounded(*schedule, current_time as int);
        }
        let now: u128 = current_time as u128;
        let cliff_end: u128 = schedule.start_time as u128 + schedule.cliff as u128;
        if now < cliff_end {
            return Ok(0);
        }
        let vesting_end: u128 = schedule.start_time as u128 + schedule.duration as u128;
        if now >= vesting_end {
            return Ok(schedule.amount);
        }
        let elapsed: u64 = (now - cliff_end) as u64;
        let window: u64 = schedule.duration - schedule.cliff;
        let share = prorate(schedule.amount as u128, elapsed, window);
        Ok(share.unwrap() as i128)
    }

    /// The schedule recorded under an id.
    pub fn get_vesting(&self, grant_id: u64) -> (r: Result<VestingSchedule, VestingError>)
        requires
            self.wf(),
        ensures
            r == if self@.has_grant(grant_id) {
                Ok::<VestingSchedule, VestingError>(self@.grant(grant_id))
            } else {
                Err(VestingError::GrantNotFound)
            },
    {
        if grant_id == 0 || grant_id > self.count {
            return Err(VestingError::GrantNotFound);
        }
        match records_get(&self.schedules, grant_id) {
            None => Err(VestingError::GrantNotFound),
            Some(record) => match VestingSchedule::from_record(&record) {
                None => Err(VestingError::GrantNotFound),
                Some(schedule) => Ok(schedule),
            },
        }
    }

    /// Puts a schedule in place of the one recorded under an id.
    fn put_vesting(&mut self, grant_id: u64, schedule: VestingSchedule)
        requires
            old(self).wf(),
            old(self)@.has_grant(grant_id),
            schedule.is_valid(),
        ensures
            final(self).wf(),
            final(self).host() == old(self).host(),
            final(self)@ == (VestingLedger {
                roles: old(self)@.roles,
                grants: old(self)@.grants.update(grant_id - 1, schedule),
            }),
    {
        proof {
            lemma_records_after_put(
                records_held(self.schedules),
                self.count,
                grant_id,
                schedule,
            );
            let grants = self@.grants.update(grant_id - 1, schedule);
            assert forall|i: int| 0 <= i < grants.len() implies (#[trigger] grants[i]).is_valid() by {
                if i != grant_id - 1 {
                    assert(self@.grants[i].is_valid());
                }
            }
        }
        records_set(&mut self.schedules, grant_id, schedule.to_record());
    }

    /// The amount of a grant that has unlocked at `current_time`.
    pub fn get_vested_amount(&self, grant_id: u64, current_time: u64) -> (r: Result<
        i128,
        VestingError,
    >)
        requires
            self.wf(),
        ensures
            r == if self@.has_grant(grant_id) {
                self@.grant(grant_id).vested_outcome(current_time as int)
            } else {
                Err(VestingError::GrantNotFound)
            },
    {
        match self.get_vesting(grant_id) {
            Err(e) => Err(e),
            Ok(schedule) => Self::calculate_vested_amount(&schedule, current_time),
        }
    }

    /// The admin, the reward token and the governance address, once set.
    pub fn get_info(&self) -> (r: Result<(Address, Address, Address), VestingError>)
        ensures
            r == match self@.roles {
                Some(roles) => Ok::<(Address, Address, Address), VestingError>(
                    (roles.admin, roles.reward_token, roles.governance),
                ),
                None => Err(VestingError::Unauthorized),
            },
    {
        match self.roles {
            Some(roles) => Ok((roles.admin, roles.reward_token, roles.governance)),
            None => Err(VestingError::Unauthorized),
        }
    }

    /// Pays out a grant to its beneficiary: returns the amount unlocked at
    /// `current_time` and marks the grant as paid, both or neither. `balance`
    /// is what the ledger holds of the reward token; a claim that it cannot
    /// cover is refused and leaves the grant as it was.
    pub fn claim(&mut self, grant_id: u64, beneficiary: Address, current_time: u64, balance: i128)
        -> (r: Result<i128, VestingError>)
        requires
            old(self).wf(),
        ensures
            final(self).wf(),
            final(self)@.wf(),
            final(self).host() == old(self).host(),
            r == old(self)@.claim_outcome(grant_id, beneficiary, current_time, balance),
            final(self)@ == old(self)@.after_claim(grant_id, beneficiary, current_time, balance),
    {
        let mut schedule = match self.get_vesting(grant_id) {
            Err(e) => {
                return Err(e);
            },
            Ok(schedule) => schedule,
        };
        if schedule.beneficiary != beneficiary {
            return Err(VestingError::Unauthorized);
        }
        if schedule.claimed {
            return Err(VestingError::AlreadyClaimed);
        }
        if schedule.revoked {
            return Err(VestingError::Revoked);
        }
        let vested_amount = match Self::calculate_vested_amount(&schedule, current_time) {
            Err(e) => {
                return Err(e);
            },
            Ok(amount) => amount,
        };
        if vested_amount == 0 {
            return Err(VestingError::NotVested);
        }
        if balance < vested_amount {
            return Err(VestingError::InsufficientBalance);
        }
        schedule.claimed = true;
        self.put_vesting(grant_id, schedule);
        Ok(vested_amount)
    }

    /// Revokes a grant that is neither paid nor revoked. Only the admin may
    /// revoke, with a delay of at least [`MIN_REVOKE_DELAY`] that has elapsed
    /// since the grant's start. A refused revocation changes nothing.
    pub fn revoke(&mut self, grant_id: u64, admin: Address, revoke_delay: u64, current_time: u64)
        -> (r: Result<(), VestingError>)
        requires
            old(self).wf(),
        ensures
            final(self).wf(),
            final(self)@.wf(),
            final(self).host() == old(self).host(),
            r == old(self)@.revoke_outcome(grant_id, admin, revoke_delay, current_time),
            final(self)@ == old(self)@.after_revoke(grant_id, admin, revoke_delay, current_time),
    {
        match self.roles {
            None => {
                return Err(VestingError::Unauthorized);
            },
            Some(roles) => {
                if roles.admin != admin {
                    return Err(VestingError::Unauthorized);
                }
            },
        }
        let mut schedule = match self.get_vesting(grant_id) {
            Err(e) => {
                return Err(e);
            },
            Ok(schedule) => schedule,
        };
        if schedule.claimed {
            return Err(VestingError::AlreadyClaimed);
        }
        if schedule.revoked {
            return Err(VestingError::Revoked);
        }
        if revoke_delay < MIN_REVOKE_DELAY {
            return Err(VestingError::InvalidTimelock);
        }
        if (current_time as u128) < schedule.start_time as u128 + revoke_delay as u128 {
            return Err(VestingError::NotEnoughTimeForRevoke);
        }
        schedule.revoked = true;
        schedule.revoke_time = current_time;
        self.put_vesting(grant_id, schedule);
        Ok(())
    }
}

} // verus!
