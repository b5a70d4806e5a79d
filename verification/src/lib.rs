//! Ledger-state accounting for a set of on-chain contracts.
//!
//! The two engines at its centre are the vesting ledger ([`vesting`]), which
//! unlocks grants after a cliff and then linearly, pays each at most once and
//! lets each be revoked at most once, and the staking pool
//! ([`liquidity_pool`]), which shares a fixed stream of rewards among
//! depositors by a reward-per-share accumulator. Both rest on the checked
//! fixed-point arithmetic of [`math`].
//!
//! Around them stand the simpler books: a fungible token ([`token`]), badges
//! that are redeemed once per transaction ([`academy_rewards`]), and rewards
//! behind a pause switch ([`social_rewards`]), all over the keyed records of
//! [`store`].
//!
//! Nothing here reads a clock, checks a signature or moves funds. Every
//! operation takes the time, the caller and the balances it depends on as
//! arguments, and returns what is to be paid; it either makes all of its
//! changes or none.

pub mod academy_rewards;
pub mod address;
pub mod error_kind;
pub mod host;
pub mod liquidity_pool;
pub mod math;
pub mod social_rewards;
pub mod store;
pub mod token;
pub mod vesting;
