//! Badges that earn their holders a fee discount, redeemable once per
//! transaction.
//!
//! A redemption consumes the hash of the transaction it is made for. A hash
//! is consumed at most once, whoever presents it: a second redemption for the
//! same transaction is refused and changes nothing.

use crate::address::Address;
use crate::store::Store;
use crate::error_kind::ErrorKind;
use vstd::prelude::*;

verus! {

/// The largest discount, in basis points: the whole fee.
pub const MAX_DISCOUNT_BPS: u32 = 10000;

/// Why an operation on the badges was refused.
#[derive(Copy, Clone, Debug, Eq, PartialEq, PartialOrd, Ord, Structural)]
pub enum ContractError {
    AlreadyInitialized,
    NotInitialized,
    Unauthorized,
    ContractPaused,
    InvalidDiscount,
    BadgeTypeNotFound,
    BadgeTypeDisabled,
    UserAlreadyHasBadge,
    UserHasNoBadge,
    BadgeNotActive,
    BadgeExpired,
    RedemptionLimitReached,
    TransactionAlreadyRedeemed,
}

impl ContractError {
    /// The kind of failure.
    pub open spec fn kind_value(self) -> ErrorKind {
        match self {
            ContractError::AlreadyInitialized => ErrorKind::State,
            ContractError::NotInitialized => ErrorKind::State,
            ContractError::Unauthorized => ErrorKind::Authorization,
            ContractError::ContractPaused => ErrorKind::State,
            ContractError::InvalidDiscount => ErrorKind::Validation,
            ContractError::BadgeTypeNotFound => ErrorKind::State,
            ContractError::BadgeTypeDisabled => ErrorKind::State,
            ContractError::UserAlreadyHasBadge => ErrorKind::State,
            ContractError::UserHasNoBadge => ErrorKind::State,
            ContractError::BadgeNotActive => ErrorKind::State,
            ContractError::BadgeExpired => ErrorKind::Temporal,
            ContractError::RedemptionLimitReached => ErrorKind::Resource,
            ContractError::TransactionAlreadyRedeemed => ErrorKind::State,
        }
    }

    /// The kind of failure.
    pub fn kind(&self) -> (r: ErrorKind)
        ensures
            r == self.kind_value(),
    {
        match self {
            ContractError::AlreadyInitialized => ErrorKind::State,
            ContractError::NotInitialized => ErrorKind::State,
            ContractError::Unauthorized => ErrorKind::Authorization,
            ContractError::ContractPaused => ErrorKind::State,
            ContractError::InvalidDiscount => ErrorKind::Validation,
            ContractError::BadgeTypeNotFound => ErrorKind::State,
            ContractError::BadgeTypeDisabled => ErrorKind::State,
            ContractError::UserAlreadyHasBadge => ErrorKind::State,
            ContractError::UserHasNoBadge => ErrorKind::State,
            ContractError::BadgeNotActive => ErrorKind::State,
            ContractError::BadgeExpired => ErrorKind::Temporal,
            ContractError::RedemptionLimitReached => ErrorKind::Resource,
            ContractError::TransactionAlreadyRedeemed => ErrorKind::State,
        }
    }

    /// The numeric code under which the error is reported.
    pub open spec fn code_value(self) -> u32 {
        match self {
            ContractError::AlreadyInitialized => 1,
            ContractError::NotInitialized => 2,
            ContractError::Unauthorized => 3,
            ContractError::ContractPaused => 4,
            ContractError::InvalidDiscount => 5,
            ContractError::BadgeTypeNotFound => 6,
            ContractError::BadgeTypeDisabled => 7,
            ContractError::UserAlreadyHasBadge => 8,
            ContractError::UserHasNoBadge => 9,
            ContractError::BadgeNotActive => 10,
            ContractError::BadgeExpired => 11,
            ContractError::RedemptionLimitReached => 12,
            ContractError::TransactionAlreadyRedeemed => 13,
        }
    }

    /// The numeric code under which the error is reported.
    pub fn code(&self) -> (r: u32)
        ensures
            r == self.code_value(),
    {
        match self {
            ContractError::AlreadyInitialized => 1,
            ContractError::NotInitialized => 2,
            ContractError::Unauthorized => 3,
            ContractError::ContractPaused => 4,
            ContractError::InvalidDiscount => 5,
            ContractError::BadgeTypeNotFound => 6,
            ContractError::BadgeTypeDisabled => 7,
            ContractError::UserAlreadyHasBadge => 8,
            ContractError::UserHasNoBadge => 9,
            ContractError::BadgeNotActive => 10,
            ContractError::BadgeExpired => 11,
            ContractError::RedemptionLimitReached => 12,
            ContractError::TransactionAlreadyRedeemed => 13,
        }
    }
}

/// A badge held by a user.
#[derive(Copy, Clone, Debug, Eq, PartialEq, Structural)]
pub struct Badge {
    pub badge_type: u32,
    /// The discount in basis points.
    pub discount_bps: u32,
    pub earned_at: u64,
    pub redeemed_count: u32,
    /// How often the badge can be redeemed; zero for no limit.
    pub max_redemptions: u32,
    /// The last instant at which the badge can be redeemed; zero for never
    /// expiring.
    pub expiry: u64,
    pub active: bool,
}

impl Badge {
    /// Whether the badge has run out at `now`.
    pub open spec fn expired_at(self, now: u64) -> bool {
        self.expiry > 0 && now > self.expiry
    }

    /// Whether the badge has been redeemed as often as it can be.
    pub open spec fn exhausted(self) -> bool {
        self.max_redemptions > 0 && self.redeemed_count >= self.max_redemptions
    }

    /// Why the badge cannot be redeemed at `now`, if it cannot: it is not
    /// active, it has run out, or it has been redeemed as often as it can be,
    /// in this order.
    pub open spec fn refusal(self, now: u64) -> Option<ContractError> {
        if !self.active {
            Some(ContractError::BadgeNotActive)
        } else if self.expired_at(now) {
            Some(ContractError::BadgeExpired)
        } else if self.exhausted() {
            Some(ContractError::RedemptionLimitReached)
        } else {
            None
        }
    }

    /// Why the badge cannot be redeemed at `now`, if it cannot.
    pub fn check_redeemable(&self, now: u64) -> (r: Option<ContractError>)
        ensures
            r == self.refusal(now),
    {
        if !self.active {
            Some(ContractError::BadgeNotActive)
        } else if self.expiry > 0 && now > self.expiry {
            Some(ContractError::BadgeExpired)
        } else if self.max_redemptions > 0 && self.redeemed_count >= self.max_redemptions {
            Some(ContractError::RedemptionLimitReached)
        } else {
            None
        }
    }
}

/// A kind of badge.
#[derive(Clone, Debug, Eq, PartialEq)]
pub struct BadgeMetadata {
    pub name: String,
    pub discount_bps: u32,
    pub max_redemptions: u32,
    /// For how long a badge of this kind can be redeemed; zero for ever.
    pub validity_duration: u64,
    pub enabled: bool,
}

impl BadgeMetadata {
    /// A copy of the metadata.
    pub fn duplicate(&self) -> (r: BadgeMetadata)
        ensures
            r == *self,
    {
        BadgeMetadata {
            name: self.name.clone(),
            discount_bps: self.discount_bps,
            max_redemptions: self.max_redemptions,
            validity_duration: self.validity_duration,
            enabled: self.enabled,
        }
    }
}

/// The record of one redemption.
#[derive(Clone, Debug, Eq, PartialEq)]
pub struct RedemptionRecord {
    pub badge_type: u32,
    pub timestamp: u64,
    pub discount_applied: u32,
    pub transaction_hash: String,
}

impl RedemptionRecord {
    /// A copy of the record.
    pub fn duplicate(&self) -> (r: RedemptionRecord)
        ensures
            r == *self,
    {
        RedemptionRecord {
            badge_type: self.badge_type,
            timestamp: self.timestamp,
            discount_applied: self.discount_applied,
            transaction_hash: self.transaction_hash.clone(),
        }
    }
}

/// The badges as a mathematical value.
#[verifier::ext_equal]
pub struct RewardsState {
    pub admin: Option<Address>,
    pub paused: bool,
    /// The badge of each user that holds one.
    pub badges: Map<Address, Badge>,
    /// The kinds of badge, by their number.
    pub badge_types: Map<u32, BadgeMetadata>,
    /// Each user's redemptions, numbered from zero.
    pub redemptions: Map<(Address, u32), RedemptionRecord>,
    /// How many badges of each kind were awarded.
    pub minted: Map<u32, u32>,
    /// The transaction hashes that were consumed.
    pub used: Map<Seq<char>, bool>,
}

impl RewardsState {
    /// What an operation of the admin returns before anything else is looked
    /// at: it needs an admin on record, and the caller to be that admin.
    pub open spec fn admin_gate(self, caller: Address) -> Result<(), ContractError> {
        match self.admin {
            None => Err(ContractError::NotInitialized),
            Some(admin) => if admin != caller {
                Err(ContractError::Unauthorized)
            } else {
                Ok(())
            },
        }
    }

    /// How many badges of a kind were awarded.
    pub open spec fn total_minted(self, badge_type: u32) -> u32 {
        if self.minted.contains_key(badge_type) {
            self.minted[badge_type]
        } else {
            0
        }
    }

    /// The discount that the badge of `user` gives at `now`: nothing without
    /// a badge that can be redeemed.
    pub open spec fn discount_of(self, user: Address, now: u64) -> u32 {
        if self.badges.contains_key(user) && self.badges[user].refusal(now) is None {
            self.badges[user].discount_bps
        } else {
            0
        }
    }

    /// What awarding a badge returns. Refused, in this order: a caller who is
    /// not the admin, a paused contract, an unknown kind, a disabled kind, a
    /// recipient who holds an active badge of the kind.
    pub open spec fn mint_outcome(self, admin: Address, recipient: Address, badge_type: u32)
        -> Result<(), ContractError> {
        if self.admin_gate(admin) is Err {
            self.admin_gate(admin)
        } else if self.paused {
            Err(ContractError::ContractPaused)
        } else if !self.badge_types.contains_key(badge_type) {
            Err(ContractError::BadgeTypeNotFound)
        } else if !self.badge_types[badge_type].enabled {
            Err(ContractError::BadgeTypeDisabled)
        } else if self.badges.contains_key(recipient) && self.badges[recipient].badge_type
            == badge_type && self.badges[recipient].active {
            Err(ContractError::UserAlreadyHasBadge)
        } else {
            Ok(())
        }
    }

    /// The badge that is awarded at `now`: fresh, active, with the kind's
    /// discount and limit, and running out after the kind's validity.
    pub open spec fn minted_badge(self, badge_type: u32, now: u64) -> Badge {
        let metadata = self.badge_types[badge_type];
        Badge {
            badge_type,
            discount_bps: metadata.discount_bps,
            earned_at: now,
            redeemed_count: 0,
            max_redemptions: metadata.max_redemptions,
            expiry: if metadata.validity_duration > 0 {
                (now + metadata.validity_duration) as u64
            } else {
                0
            },
            active: true,
        }
    }

    /// The badges after an attempt to award one.
    pub open spec fn after_mint(self, admin: Address, recipient: Address, badge_type: u32, now: u64)
        -> RewardsState {
        if self.mint_outcome(admin, recipient, badge_type) is Ok {
            RewardsState {
                badges: self.badges.insert(recipient, self.minted_badge(badge_type, now)),
                minted: self.minted.insert(
                    badge_type,
                    (self.total_minted(badge_type) + 1) as u32,
                ),
                ..self
            }
        } else {
            self
        }
    }

    /// What a redemption returns: the discount in basis points, or the first
    /// reason for refusing, in the order paused contract, transaction
    /// redeemed before, no badge, badge not active, badge run out, limit
    /// reached.
    pub open spec fn redeem_outcome(self, user: Address, transaction_hash: Seq<char>, now: u64)
        -> Result<u32, ContractError> {
        if self.paused {
            Err(ContractError::ContractPaused)
        } else if self.used.contains_key(transaction_hash) {
            Err(ContractError::TransactionAlreadyRedeemed)
        } else if !self.badges.contains_key(user) {
            Err(ContractError::UserHasNoBadge)
        } else if self.badges[user].refusal(now) is Some {
            Err(self.badges[user].refusal(now)->Some_0)
        } else {
            Ok(self.badges[user].discount_bps)
        }
    }

    /// The badges after a redemption: where it succeeded, the transaction
    /// consumed, the redemption recorded under the badge's count, and the
    /// count raised by one; where it did not, nothing changed.
    pub open spec fn after_redeem(self, user: Address, transaction_hash: String, now: u64)
        -> RewardsState {
        if self.redeem_outcome(user, transaction_hash@, now) is Ok {
            let badge = self.badges[user];
            RewardsState {
                badges: self.badges.insert(
                    user,
                    Badge { redeemed_count: (badge.redeemed_count + 1) as u32, ..badge },
                ),
                redemptions: self.redemptions.insert(
                    (user, badge.redeemed_count),
                    RedemptionRecord {
                        badge_type: badge.badge_type,
                        timestamp: now,
                        discount_applied: badge.discount_bps,
                        transaction_hash,
                    },
                ),
                used: self.used.insert(transaction_hash@, true),
                ..self
            }
        } else {
            self
        }
    }
}

/// A transaction is redeemed at most once: after a successful redemption, any
/// redemption for the same transaction is refused as already redeemed,
/// whoever makes it and whenever, and changes nothing, as long as the
/// contract is not paused.
pub proof fn lemma_redeemed_once(
    state: RewardsState,
    user: Address,
    transaction_hash: String,
    now: u64,
    second_user: Address,
    same_hash: String,
    later: u64,
)
    requires
        state.redeem_outcome(user, transaction_hash@, now) is Ok,
        same_hash@ == transaction_hash@,
    ensures
        state.after_redeem(user, transaction_hash, now).redeem_outcome(
            second_user,
            same_hash@,
            later,
        ) == Err::<u32, ContractError>(ContractError::TransactionAlreadyRedeemed),
        state.after_redeem(user, transaction_hash, now).after_redeem(second_user, same_hash, later)
            == state.after_redeem(user, transaction_hash, now),
{
}

/// A consumed transaction stays consumed: no redemption takes a hash out of
/// the consumed ones.
pub proof fn lemma_used_stays_used(
    state: RewardsState,
    hash: Seq<char>,
    user: Address,
    transaction_hash: String,
    now: u64,
)
    requires
        state.used.contains_key(hash),
    ensures
        state.after_redeem(user, transaction_hash, now).used.contains_key(hash),
{
}

/// The badges, their kinds, and the record of their redemptions.
pub struct AcademyRewardsContract {
    admin: Option<Address>,
    paused: bool,
    badges: Store<Address, Badge>,
    badge_types: Store<u32, BadgeMetadata>,
    redemptions: Store<(Address, u32), RedemptionRecord>,
    minted: Store<u32, u32>,
    used: Store<String, bool>,
}

impl View for AcademyRewardsContract {
    type V = RewardsState;

    closed spec fn view(&self) -> RewardsState {
        RewardsState {
            admin: self.admin,
            paused: self.paused,
            badges: self.badges@,
            badge_types: self.badge_types@,
            redemptions: self.redemptions@,
            minted: self.minted@,
            used: self.used@,
        }
    }
}

impl AcademyRewardsContract {
    /// A contract on which nothing has been set up yet.
    pub fn new() -> (r: AcademyRewardsContract)
        ensures
            r@ == (RewardsState {
                admin: None,
                paused: false,
                badges: Map::empty(),
                badge_types: Map::empty(),
                redemptions: Map::empty(),
                minted: Map::empty(),
                used: Map::empty(),
            }),
    {
        AcademyRewardsContract {
            admin: None,
            paused: false,
            badges: Store::new(),
            badge_types: Store::new(),
            redemptions: Store::new(),
            minted: Store::new(),
            used: Store::new(),
        }
    }

    /// The contract over the given records.
    pub fn from_records(
        admin: Option<Address>,
        paused: bool,
        badges: Store<Address, Badge>,
        badge_types: Store<u32, BadgeMetadata>,
        redemptions: Store<(Address, u32), RedemptionRecord>,
        minted: Store<u32, u32>,
        used: Store<String, bool>,
    ) -> (r: AcademyRewardsContract)
        ensures
            r@ == (RewardsState {
                admin,
                paused,
                badges: badges@,
                badge_types: badge_types@,
                redemptions: redemptions@,
                minted: minted@,
                used: used@,
            }),
    {
        AcademyRewardsContract { admin, paused, badges, badge_types, redemptions, minted, used }
    }

    /// Fixes the admin. A contract is set up once; a second attempt is
    /// refused and changes nothing.
    pub fn initialize(&mut self, admin: Address) -> (r: Result<(), ContractError>)
        ensures
            r == if old(self)@.admin is Some {
                Err::<(), ContractError>(ContractError::AlreadyInitialized)
            } else {
                Ok(())
            },
            r is Err ==> final(self)@ == old(self)@,
            r is Ok ==> final(self)@ == (RewardsState {
                admin: Some(admin),
                paused: false,
                ..old(self)@
            }),
    {
        if self.admin.is_some() {
            return Err(ContractError::AlreadyInitialized);
        }
        self.admin = Some(admin);
        self.paused = false;
        Ok(())
    }

    /// Defines a kind of badge, or defines it anew, and starts its count of
    /// awards at zero. Only the admin may; the discount is at most the whole
    /// fee. A refused call changes nothing.
    pub fn create_badge_type(
        &mut self,
        admin: Address,
        badge_type: u32,
        name: String,
        discount_bps: u32,
        max_redemptions: u32,
        validity_duration: u64,
    ) -> (r: Result<(), ContractError>)
        ensures
            r == if old(self)@.admin_gate(admin) is Err {
                old(self)@.admin_gate(admin)
            } else if discount_bps > MAX_DISCOUNT_BPS {
                Err(ContractError::InvalidDiscount)
            } else {
                Ok(())
            },
            r is Err ==> final(self)@ == old(self)@,
            r is Ok ==> final(self)@ == (RewardsState {
                badge_types: old(self)@.badge_types.insert(
                    badge_type,
                    BadgeMetadata {
                        name,
                        discount_bps,
                        max_redemptions,
                        validity_duration,
                        enabled: true,
                    },
                ),
                minted: old(self)@.minted.insert(badge_type, 0),
                ..old(self)@
            }),
    {
        match self.require_admin(&admin) {
            Err(e) => {
                return Err(e);
            },
            Ok(()) => {},
        }
        if discount_bps > MAX_DISCOUNT_BPS {
            return Err(ContractError::InvalidDiscount);
        }
        let metadata = BadgeMetadata {
            name,
            discount_bps,
            max_redemptions,
            validity_duration,
            enabled: true,
        };
        self.badge_types.set(badge_type, metadata);
        self.minted.set(badge_type, 0u32);
        Ok(())
    }

    /// Awards a badge of a kind to `recipient` at `now`, in place of any badge
    /// held before, and counts the award. Only the admin may. A refused call
    /// changes nothing.
    pub fn mint_badge(&mut self, admin: Address, recipient: Address, badge_type: u32, now: u64)
        -> (r: Result<(), ContractError>)
        requires
            old(self)@.total_minted(badge_type) < u32::MAX,
            old(self)@.badge_types.contains_key(badge_type) ==> now + old(
                self,
            )@.badge_types[badge_type].validity_duration <= u64::MAX,
        ensures
            r == old(self)@.mint_outcome(admin, recipient, badge_type),
            final(self)@ == old(self)@.after_mint(admin, recipient, badge_type, now),
    {
        match self.require_admin(&admin) {
            Err(e) => {
                return Err(e);
            },
            Ok(()) => {},
        }
        match self.require_not_paused() {
            Err(e) => {
                return Err(e);
            },
            Ok(()) => {},
        }
        let (discount_bps, max_redemptions, validity_duration) = match self.badge_types.get(
            &badge_type,
        ) {
            None => {
                return Err(ContractError::BadgeTypeNotFound);
            },
            Some(metadata) => {
                if !metadata.enabled {
                    return Err(ContractError::BadgeTypeDisabled);
                }
                (metadata.discount_bps, metadata.max_redemptions, metadata.validity_duration)
            },
        };
        match self.badges.get(&recipient) {
            Some(existing) => {
                if existing.badge_type == badge_type && existing.active {
                    return Err(ContractError::UserAlreadyHasBadge);
                }
            },
            None => {},
        }
        let expiry: u64 = if validity_duration > 0 {
            now + validity_duration
        } else {
            0
        };
        let badge = Badge {
            badge_type,
            discount_bps,
            earned_at: now,
            redeemed_count: 0,
            max_redemptions,
            expiry,
            active: true,
        };
        self.badges.set(recipient, badge);
        let count: u32 = self.get_total_minted(badge_type);
        self.minted.set(badge_type, count + 1);
        Ok(())
    }

    /// Takes the badge of `user` out of use. Only the admin may. A refused
    /// call changes nothing.
    pub fn revoke_badge(&mut self, admin: Address, user: Address) -> (r: Result<(), ContractError>)
        ensures
            r == if old(self)@.admin_gate(admin) is Err {
                old(self)@.admin_gate(admin)
            } else if !old(self)@.badges.contains_key(user) {
                Err(ContractError::UserHasNoBadge)
            } else {
                Ok(())
            },
            r is Err ==> final(self)@ == old(self)@,
            r is Ok ==> final(self)@ == (RewardsState {
                badges: old(self)@.badges.insert(
                    user,
                    Badge { active: false, ..old(self)@.badges[user] },
                ),
                ..old(self)@
            }),
    {
        match self.require_admin(&admin) {
            Err(e) => {
                return Err(e);
            },
            Ok(()) => {},
        }
        let found = match self.badges.get(&user) {
            Some(badge) => Some(*badge),
            None => None,
        };
        match found {
            Some(badge) => {
                let mut badge = badge;
                badge.active = false;
                self.badges.set(user, badge);
                Ok(())
            },
            None => Err(ContractError::UserHasNoBadge),
        }
    }

    /// Suspends or resumes awards and redemptions. Only the admin may.
    pub fn set_paused(&mut self, admin: Address, paused: bool) -> (r: Result<(), ContractError>)
        ensures
            r == old(self)@.admin_gate(admin),
            r is Err ==> final(self)@ == old(self)@,
            r is Ok ==> final(self)@ == (RewardsState { paused, ..old(self)@ }),
    {
        match self.require_admin(&admin) {
            Err(e) => {
                return Err(e);
            },
            Ok(()) => {},
        }
        self.paused = paused;
        Ok(())
    }

    /// Redeems the badge of `user` at `now` for the transaction with the
    /// given hash, and returns the discount in basis points. The hash is
    /// consumed: no later redemption can be made for it. A refused redemption
    /// changes nothing.
    pub fn redeem_badge(&mut self, user: Address, transaction_hash: String, now: u64) -> (r: Result<
        u32,
        ContractError,
    >)
        requires
            old(self)@.badges.contains_key(user) ==> old(self)@.badges[user].redeemed_count
                < u32::MAX,
        ensures
            r == old(self)@.redeem_outcome(user, transaction_hash@, now),
            final(self)@ == old(self)@.after_redeem(user, transaction_hash, now),
    {
        match self.require_not_paused() {
            Err(e) => {
                return Err(e);
            },
            Ok(()) => {},
        }
        if self.used.has(&transaction_hash) {
            return Err(ContractError::TransactionAlreadyRedeemed);
        }
        let mut badge = match self.badges.get(&user) {
            Some(badge) => *badge,
            None => {
                return Err(ContractError::UserHasNoBadge);
            },
        };
        match badge.check_redeemable(now) {
            Some(e) => {
                return Err(e);
            },
            None => {},
        }
        let redemption_record = RedemptionRecord {
            badge_type: badge.badge_type,
            timestamp: now,
            discount_applied: badge.discount_bps,
            transaction_hash: transaction_hash.clone(),
        };
        self.redemptions.set((user, badge.redeemed_count), redemption_record);
        self.used.set(transaction_hash, true);
        badge.redeemed_count += 1;
        self.badges.set(user, badge);
        Ok(badge.discount_bps)
    }

    /// The discount that the badge of `user` gives at `now`, in basis points:
    /// nothing without a badge that is active, has not run out and can still
    /// be redeemed.
    pub fn get_user_discount(&self, user: Address, now: u64) -> (r: u32)
        ensures
            r == self@.discount_of(user, now),
    {
        match self.badges.get(&user) {
            Some(badge) => {
                if badge.check_redeemable(now).is_some() {
                    0
                } else {
                    badge.discount_bps
                }
            },
            None => 0,
        }
    }

    /// The badge of `user`, if they hold one.
    pub fn get_user_badge(&self, user: Address) -> (r: Option<Badge>)
        ensures
            r == if self@.badges.contains_key(user) {
                Some(self@.badges[user])
            } else {
                None
            },
    {
        match self.badges.get(&user) {
            Some(badge) => Some(*badge),
            None => None,
        }
    }

    /// The kind of badge with the given number, if it is defined.
    pub fn get_badge_metadata(&self, badge_type: u32) -> (r: Option<BadgeMetadata>)
        ensures
            r == if self@.badge_types.contains_key(badge_type) {
                Some(self@.badge_types[badge_type])
            } else {
                None
            },
    {
        match self.badge_types.get(&badge_type) {
            Some(metadata) => Some(metadata.duplicate()),
            None => None,
        }
    }

    /// How many badges of a kind were awarded.
    pub fn get_total_minted(&self, badge_type: u32) -> (r: u32)
        ensures
            r == self@.total_minted(badge_type),
    {
        match self.minted.get(&badge_type) {
            Some(count) => *count,
            None => 0,
        }
    }

    /// The redemption of `user` with the given number, counted from zero.
    pub fn get_redemption_history(&self, user: Address, index: u32) -> (r: Option<
        RedemptionRecord,
    >)
        ensures
            r == if self@.redemptions.contains_key((user, index)) {
                Some(self@.redemptions[(user, index)])
            } else {
                None
            },
    {
        match self.redemptions.get(&(user, index)) {
            Some(record) => Some(record.duplicate()),
            None => None,
        }
    }

    /// The admin, once the contract is set up.
    pub fn admin(&self) -> (r: Option<Address>)
        ensures
            r == self@.admin,
    {
        self.admin
    }

    /// Whether the transaction with the given hash was redeemed.
    pub fn is_redeemed(&self, transaction_hash: &String) -> (r: bool)
        ensures
            r == self@.used.contains_key(transaction_hash@),
    {
        self.used.has(transaction_hash)
    }

    /// Whether awards and redemptions are suspended.
    pub fn is_paused(&self) -> (r: bool)
        ensures
            r == self@.paused,
    {
        self.paused
    }

    /// Lets only the admin through.
    fn require_admin(&self, admin: &Address) -> (r: Result<(), ContractError>)
        ensures
            r == self@.admin_gate(*admin),
    {
        match self.admin {
            None => Err(ContractError::NotInitialized),
            Some(stored_admin) => {
                if *admin != stored_admin {
                    return Err(ContractError::Unauthorized);
                }
                Ok(())
            },
        }
    }

    /// Lets nothing through while the contract is paused.
    fn require_not_paused(&self) -> (r: Result<(), ContractError>)
        ensures
            r == if self@.paused {
                Err::<(), ContractError>(ContractError::ContractPaused)
            } else {
                Ok(())
            },
    {
        if self.paused {
            return Err(ContractError::ContractPaused);
        }
        Ok(())
    }
}

} // verus!
