//! A fungible token: balances, allowances, and an admin who mints, claws back
//! and authorizes.
//!
//! Whether a party has authorized a call is for the caller to establish; the
//! token decides everything else. Every operation is all-or-nothing: one that
//! is refused changes no record.

pub mod admin;
pub mod error;
pub mod storage;

use crate::address::Address;
use crate::token::error::TokenError;
use crate::token::storage::{AllowanceData, TokenMetadata, TokenState, TokenStorage};
use vstd::prelude::*;

verus! {

impl TokenState {
    /// What moving `amount` from `from` to `to` returns. Refused, in this
    /// order: a negative amount, a party that is not authorized, a balance
    /// smaller than the amount, a credit that overflows.
    pub open spec fn transfer_outcome(self, from: Address, to: Address, amount: i128) -> Result<
        (),
        TokenError,
    > {
        if amount < 0 {
            Err(TokenError::InvalidAmount)
        } else if !self.is_authorized(from) || !self.is_authorized(to) {
            Err(TokenError::NotAuthorized)
        } else if self.balance_of(from) < amount {
            Err(TokenError::InsufficientBalance)
        } else if self.balance_of(to) + amount > i128::MAX {
            Err(TokenError::ArithmeticOverflow)
        } else {
            Ok(())
        }
    }

    /// The records after moving `amount` from `from` to `to`. Both balances
    /// are read before either is written, and the credit is written last.
    pub open spec fn after_transfer(self, from: Address, to: Address, amount: i128) -> TokenState {
        if self.transfer_outcome(from, to, amount) is Ok {
            self.with_balance(from, (self.balance_of(from) - amount) as i128).with_balance(
                to,
                (self.balance_of(to) + amount) as i128,
            )
        } else {
            self
        }
    }

    /// What destroying `amount` of what `from` holds returns. Refused, in
    /// this order: a negative amount, a holder that is not authorized, a
    /// balance smaller than the amount.
    pub open spec fn burn_outcome(self, from: Address, amount: i128) -> Result<(), TokenError> {
        if amount < 0 {
            Err(TokenError::InvalidAmount)
        } else if !self.is_authorized(from) {
            Err(TokenError::NotAuthorized)
        } else if self.balance_of(from) < amount {
            Err(TokenError::InsufficientBalance)
        } else {
            Ok(())
        }
    }

    /// The records after destroying `amount` of what `from` holds.
    pub open spec fn after_burn(self, from: Address, amount: i128) -> TokenState {
        if self.burn_outcome(from, amount) is Ok {
            self.with_balance(from, (self.balance_of(from) - amount) as i128)
        } else {
            self
        }
    }

    /// What creating `amount` for `to` returns. Refused, in this order: a
    /// negative amount, a recipient that is not authorized, a balance that
    /// overflows.
    pub open spec fn mint_outcome(self, to: Address, amount: i128) -> Result<(), TokenError> {
        if amount < 0 {
            Err(TokenError::InvalidAmount)
        } else if !self.is_authorized(to) {
            Err(TokenError::NotAuthorized)
        } else if self.balance_of(to) + amount > i128::MAX {
            Err(TokenError::ArithmeticOverflow)
        } else {
            Ok(())
        }
    }

    /// The records after creating `amount` for `to`.
    pub open spec fn after_mint(self, to: Address, amount: i128) -> TokenState {
        if self.mint_outcome(to, amount) is Ok {
            self.with_balance(to, (self.balance_of(to) + amount) as i128)
        } else {
            self
        }
    }

    /// What granting an allowance returns. Refused: a negative amount, and a
    /// positive amount whose last ledger has passed.
    pub open spec fn approve_outcome(amount: i128, expiration_ledger: u32, current_ledger: u32)
        -> Result<(), TokenError> {
        if amount < 0 {
            Err(TokenError::InvalidAmount)
        } else if amount > 0 && expiration_ledger < current_ledger {
            Err(TokenError::ExpirationInPast)
        } else {
            Ok(())
        }
    }

    /// What drawing `amount` on the allowance from `from` to `spender`
    /// returns. Refused: a negative amount, and an amount above what can be
    /// drawn at `current_ledger`.
    pub open spec fn draw_outcome(
        self,
        spender: Address,
        from: Address,
        amount: i128,
        current_ledger: u32,
    ) -> Result<(), TokenError> {
        if amount < 0 {
            Err(TokenError::InvalidAmount)
        } else if self.allowance_amount(from, spender, current_ledger) < amount {
            Err(TokenError::InsufficientAllowance)
        } else {
            Ok(())
        }
    }

    /// The records with `amount` drawn on the allowance from `from` to
    /// `spender`: what is left keeps its last ledger, and nothing left is no
    /// record.
    pub open spec fn with_drawn(
        self,
        spender: Address,
        from: Address,
        amount: i128,
        current_ledger: u32,
    ) -> TokenState {
        self.with_allowance(
            from,
            spender,
            AllowanceData {
                amount: (self.allowance_amount(from, spender, current_ledger) - amount) as i128,
                expiration_ledger: self.allowance_expiration(from, spender, current_ledger),
            },
        )
    }

    /// What a transfer by a spender returns: the allowance is checked first,
    /// then the transfer itself.
    pub open spec fn transfer_from_outcome(
        self,
        spender: Address,
        from: Address,
        to: Address,
        amount: i128,
        current_ledger: u32,
    ) -> Result<(), TokenError> {
        if self.draw_outcome(spender, from, amount, current_ledger) is Err {
            self.draw_outcome(spender, from, amount, current_ledger)
        } else {
            self.transfer_outcome(from, to, amount)
        }
    }

    /// The records after a transfer by a spender.
    pub open spec fn after_transfer_from(
        self,
        spender: Address,
        from: Address,
        to: Address,
        amount: i128,
        current_ledger: u32,
    ) -> TokenState {
        if self.transfer_from_outcome(spender, from, to, amount, current_ledger) is Ok {
            self.with_drawn(spender, from, amount, current_ledger).after_transfer(from, to, amount)
        } else {
            self
        }
    }

    /// What a burn by a spender returns: the allowance is checked first, then
    /// the burn itself.
    pub open spec fn burn_from_outcome(
        self,
        spender: Address,
        from: Address,
        amount: i128,
        current_ledger: u32,
    ) -> Result<(), TokenError> {
        if self.draw_outcome(spender, from, amount, current_ledger) is Err {
            self.draw_outcome(spender, from, amount, current_ledger)
        } else {
            self.burn_outcome(from, amount)
        }
    }

    /// The records after a burn by a spender.
    pub open spec fn after_burn_from(
        self,
        spender: Address,
        from: Address,
        amount: i128,
        current_ledger: u32,
    ) -> TokenState {
        if self.burn_from_outcome(spender, from, amount, current_ledger) is Ok {
            self.with_drawn(spender, from, amount, current_ledger).after_burn(from, amount)
        } else {
            self
        }
    }

    /// What an operation of the admin returns before anything else is
    /// looked at: it needs a recorded admin.
    pub open spec fn admin_gate(self) -> Result<(), TokenError> {
        if self.admin is Some {
            Ok(())
        } else {
            Err(TokenError::Unauthorized)
        }
    }
}

/// The token.
pub struct TokenContract {
    storage: TokenStorage,
}

impl View for TokenContract {
    type V = TokenState;

    closed spec fn view(&self) -> TokenState {
        self.storage@
    }
}

impl TokenContract {
    /// A token on which nothing has been set up yet.
    pub fn new() -> (r: TokenContract)
        ensures
            r@ == (TokenState {
                admin: None,
                metadata: None,
                balances: Map::empty(),
                allowances: Map::empty(),
                authorized: Map::empty(),
            }),
    {
        TokenContract { storage: TokenStorage::new() }
    }

    /// The token over the given records.
    pub fn from_storage(storage: TokenStorage) -> (r: TokenContract)
        ensures
            r@ == storage@,
    {
        TokenContract { storage }
    }

    /// The token's records.
    pub fn into_storage(self) -> (r: TokenStorage)
        ensures
            r@ == self@,
    {
        self.storage
    }

    /// Fixes the admin and the metadata. A token is set up once; a second
    /// attempt is refused and changes nothing.
    pub fn initialize(&mut self, admin: Address, name: String, symbol: String, decimals: u32) -> (r:
        Result<(), TokenError>)
        ensures
            r == if old(self)@.admin is Some {
                Err::<(), TokenError>(TokenError::AlreadyInitialized)
            } else {
                Ok(())
            },
            r is Err ==> final(self)@ == old(self)@,
            r is Ok ==> final(self)@ == (TokenState {
                admin: Some(admin),
                metadata: Some(
                    crate::token::storage::MetadataView { name: name@, symbol: symbol@, decimals },
                ),
                ..old(self)@
            }),
    {
        if crate::token::storage::has_admin(&self.storage) {
            return Err(TokenError::AlreadyInitialized);
        }
        crate::token::storage::set_admin(&mut self.storage, &admin);
        crate::token::storage::set_metadata(
            &mut self.storage,
            &TokenMetadata { name, symbol, decimals },
        );
        Ok(())
    }

    /// What `spender` may draw from `from` at `current_ledger`. An allowance
    /// found expired is taken out of the records.
    pub fn allowance(&mut self, from: Address, spender: Address, current_ledger: u32) -> (r: i128)
        ensures
            r == old(self)@.allowance_amount(from, spender, current_ledger),
            final(self)@ == old(self)@.without_expired(from, spender, current_ledger),
    {
        crate::token::storage::allowance_amount(&mut self.storage, &from, &spender, current_ledger)
    }

    /// Lets `spender` draw up to `amount` from `from` until
    /// `expiration_ledger`, in place of any earlier allowance. An amount of
    /// zero withdraws the allowance. A refused call changes nothing.
    pub fn approve(
        &mut self,
        from: Address,
        spender: Address,
        amount: i128,
        expiration_ledger: u32,
        current_ledger: u32,
    ) -> (r: Result<(), TokenError>)
        ensures
            r == TokenState::approve_outcome(amount, expiration_ledger, current_ledger),
            r is Err ==> final(self)@ == old(self)@,
            r is Ok ==> final(self)@ == old(self)@.with_allowance(
                from,
                spender,
                AllowanceData { amount, expiration_ledger },
            ),
    {
        if amount < 0 {
            return Err(TokenError::InvalidAmount);
        }
        if amount > 0 && expiration_ledger < current_ledger {
            return Err(TokenError::ExpirationInPast);
        }
        let data = AllowanceData { amount, expiration_ledger };
        crate::token::storage::set_allowance(&mut self.storage, &from, &spender, &data);
        Ok(())
    }

    /// What `id` holds.
    pub fn balance(&self, id: Address) -> (r: i128)
        ensures
            r == self@.balance_of(id),
    {
        crate::token::storage::balance_of(&self.storage, &id)
    }

    /// Moves `amount` from `from` to `to`. A refused transfer changes
    /// nothing.
    pub fn transfer(&mut self, from: Address, to: Address, amount: i128) -> (r: Result<
        (),
        TokenError,
    >)
        ensures
            r == old(self)@.transfer_outcome(from, to, amount),
            final(self)@ == old(self)@.after_transfer(from, to, amount),
    {
        self.transfer_balance(&from, &to, amount)
    }

    /// Moves `amount` from `from` to `to` on the allowance that `from` gave
    /// to `spender`, and takes the amount off the allowance. A refused
    /// transfer changes nothing, the allowance included.
    pub fn transfer_from(
        &mut self,
        spender: Address,
        from: Address,
        to: Address,
        amount: i128,
        current_ledger: u32,
    ) -> (r: Result<(), TokenError>)
        ensures
            r == old(self)@.transfer_from_outcome(spender, from, to, amount, current_ledger),
            final(self)@ == old(self)@.after_transfer_from(
                spender,
                from,
                to,
                amount,
                current_ledger,
            ),
    {
        if amount < 0 {
            return Err(TokenError::InvalidAmount);
        }
        let allowance = crate::token::storage::live_allowance(
            &self.storage,
            &from,
            &spender,
            current_ledger,
        );
        if allowance.amount < amount {
            return Err(TokenError::InsufficientAllowance);
        }
        match self.transfer_balance(&from, &to, amount) {
            Err(e) => Err(e),
            Ok(()) => {
                crate::token::storage::set_allowance(
                    &mut self.storage,
                    &from,
                    &spender,
                    &AllowanceData {
                        amount: allowance.amount - amount,
                        expiration_ledger: allowance.expiration_ledger,
                    },
                );
                Ok(())
            },
        }
    }

    /// Destroys `amount` of what `from` holds. A refused burn changes
    /// nothing.
    pub fn burn(&mut self, from: Address, amount: i128) -> (r: Result<(), TokenError>)
        ensures
            r == old(self)@.burn_outcome(from, amount),
            final(self)@ == old(self)@.after_burn(from, amount),
    {
        self.burn_balance(&from, amount)
    }

    /// Destroys `amount` of what `from` holds on the allowance that `from`
    /// gave to `spender`, and takes the amount off the allowance. A refused
    /// burn changes nothing, the allowance included.
    pub fn burn_from(&mut self, spender: Address, from: Address, amount: i128, current_ledger: u32)
        -> (r: Result<(), TokenError>)
        ensures
            r == old(self)@.burn_from_outcome(spender, from, amount, current_ledger),
            final(self)@ == old(self)@.after_burn_from(spender, from, amount, current_ledger),
    {
        if amount < 0 {
            return Err(TokenError::InvalidAmount);
        }
        let allowance = crate::token::storage::live_allowance(
            &self.storage,
            &from,
            &spender,
            current_ledger,
        );
        if allowance.amount < amount {
            return Err(TokenError::InsufficientAllowance);
        }
        match self.burn_balance(&from, amount) {
            Err(e) => Err(e),
            Ok(()) => {
                crate::token::storage::set_allowance(
                    &mut self.storage,
                    &from,
                    &spender,
                    &AllowanceData {
                        amount: allowance.amount - amount,
                        expiration_ledger: allowance.expiration_ledger,
                    },
                );
                Ok(())
            },
        }
    }

    /// The number of decimals, once the token is set up.
    pub fn decimals(&self) -> (r: Option<u32>)
        ensures
            r == match self@.metadata {
                Some(metadata) => Some(metadata.decimals),
                None => None,
            },
    {
        match crate::token::storage::metadata(&self.storage) {
            Some(metadata) => Some(metadata.decimals),
            None => None,
        }
    }

    /// The name, once the token is set up.
    pub fn name(&self) -> (r: Option<String>)
        ensures
            r is Some <==> self@.metadata is Some,
            r is Some ==> r->Some_0@ == self@.metadata->Some_0.name,
    {
        match crate::token::storage::metadata(&self.storage) {
            Some(metadata) => Some(metadata.name),
            None => None,
        }
    }

    /// The symbol, once the token is set up.
    pub fn symbol(&self) -> (r: Option<String>)
        ensures
            r is Some <==> self@.metadata is Some,
            r is Some ==> r->Some_0@ == self@.metadata->Some_0.symbol,
    {
        match crate::token::storage::metadata(&self.storage) {
            Some(metadata) => Some(metadata.symbol),
            None => None,
        }
    }

    /// The metadata, once the token is set up.
    pub fn metadata(&self) -> (r: Option<TokenMetadata>)
        ensures
            r is Some <==> self@.metadata is Some,
            r is Some ==> r->Some_0@ == self@.metadata->Some_0,
    {
        crate::token::storage::metadata(&self.storage)
    }

    /// Hands the admin role to `new_admin`. Refused, with nothing changed,
    /// where no admin is recorded.
    pub fn set_admin(&mut self, new_admin: Address) -> (r: Result<(), TokenError>)
        ensures
            r == old(self)@.admin_gate(),
            r is Err ==> final(self)@ == old(self)@,
            r is Ok ==> final(self)@ == (TokenState { admin: Some(new_admin), ..old(self)@ }),
    {
        match crate::token::admin::require_admin(&self.storage) {
            Err(e) => Err(e),
            Ok(_) => {
                crate::token::storage::set_admin(&mut self.storage, &new_admin);
                Ok(())
            },
        }
    }

    /// The admin, once the token is set up.
    pub fn admin(&self) -> (r: Option<Address>)
        ensures
            r == self@.admin,
    {
        crate::token::storage::admin(&self.storage)
    }

    /// Sets whether `id` may hold and move the token. Refused, with nothing
    /// changed, where no admin is recorded.
    pub fn set_authorized(&mut self, id: Address, authorize: bool) -> (r: Result<(), TokenError>)
        ensures
            r == old(self)@.admin_gate(),
            r is Err ==> final(self)@ == old(self)@,
            r is Ok ==> final(self)@ == (TokenState {
                authorized: old(self)@.authorized.insert(id, authorize),
                ..old(self)@
            }),
    {
        match crate::token::admin::require_admin(&self.storage) {
            Err(e) => Err(e),
            Ok(_) => {
                crate::token::storage::set_authorized(&mut self.storage, &id, authorize);
                Ok(())
            },
        }
    }

    /// Whether `id` may hold and move the token.
    pub fn authorized(&self, id: Address) -> (r: bool)
        ensures
            r == self@.is_authorized(id),
    {
        crate::token::storage::authorized(&self.storage, &id)
    }

    /// Creates `amount` for `to`. Refused, with nothing changed, where no
    /// admin is recorded or the credit cannot be made.
    pub fn mint(&mut self, to: Address, amount: i128) -> (r: Result<(), TokenError>)
        ensures
            r == if old(self)@.admin_gate() is Err {
                old(self)@.admin_gate()
            } else {
                old(self)@.mint_outcome(to, amount)
            },
            final(self)@ == if old(self)@.admin_gate() is Err {
                old(self)@
            } else {
                old(self)@.after_mint(to, amount)
            },
    {
        match crate::token::admin::require_admin(&self.storage) {
            Err(e) => Err(e),
            Ok(_) => self.mint_balance(&to, amount),
        }
    }

    /// Destroys `amount` of what `from` holds, by the admin's decision.
    /// Refused, with nothing changed, where no admin is recorded or the burn
    /// cannot be made.
    pub fn clawback(&mut self, from: Address, amount: i128) -> (r: Result<(), TokenError>)
        ensures
            r == if old(self)@.admin_gate() is Err {
                old(self)@.admin_gate()
            } else {
                old(self)@.burn_outcome(from, amount)
            },
            final(self)@ == if old(self)@.admin_gate() is Err {
                old(self)@
            } else {
                old(self)@.after_burn(from, amount)
            },
    {
        match crate::token::admin::require_admin(&self.storage) {
            Err(e) => Err(e),
            Ok(_) => self.burn_balance(&from, amount),
        }
    }

    /// Moves `amount` between two balances.
    fn transfer_balance(&mut self, from: &Address, to: &Address, amount: i128) -> (r: Result<
        (),
        TokenError,
    >)
        ensures
            r == old(self)@.transfer_outcome(*from, *to, amount),
            final(self)@ == old(self)@.after_transfer(*from, *to, amount),
    {
        if amount < 0 {
            return Err(TokenError::InvalidAmount);
        }
        if !crate::token::storage::authorized(&self.storage, from)
            || !crate::token::storage::authorized(&self.storage, to) {
            return Err(TokenError::NotAuthorized);
        }
        let from_balance = crate::token::storage::balance_of(&self.storage, from);
        if from_balance < amount {
            return Err(TokenError::InsufficientBalance);
        }
        let new_from = match from_balance.checked_sub(amount) {
            None => {
                return Err(TokenError::ArithmeticOverflow);
            },
            Some(new_from) => new_from,
        };
        let to_balance = crate::token::storage::balance_of(&self.storage, to);
        let new_to = match to_balance.checked_add(amount) {
            None => {
                return Err(TokenError::ArithmeticOverflow);
            },
            Some(new_to) => new_to,
        };
        crate::token::storage::set_balance(&mut self.storage, from, new_from);
        crate::token::storage::set_balance(&mut self.storage, to, new_to);
        Ok(())
    }

    /// Takes `amount` off a balance.
    fn burn_balance(&mut self, from: &Address, amount: i128) -> (r: Result<(), TokenError>)
        ensures
            r == old(self)@.burn_outcome(*from, amount),
            final(self)@ == old(self)@.after_burn(*from, amount),
    {
        if amount < 0 {
            return Err(TokenError::InvalidAmount);
        }
        if !crate::token::storage::authorized(&self.storage, from) {
            return Err(TokenError::NotAuthorized);
        }
        let balance = crate::token::storage::balance_of(&self.storage, from);
        if balance < amount {
            return Err(TokenError::InsufficientBalance);
        }
        let new_balance = match balance.checked_sub(amount) {
            None => {
                return Err(TokenError::ArithmeticOverflow);
            },
            Some(new_balance) => new_balance,
        };
        crate::token::storage::set_balance(&mut self.storage, from, new_balance);
        Ok(())
    }

    /// Adds `amount` to a balance.
    fn mint_balance(&mut self, to: &Address, amount: i128) -> (r: Result<(), TokenError>)
        ensures
            r == old(self)@.mint_outcome(*to, amount),
            final(self)@ == old(self)@.after_mint(*to, amount),
    {
        if amount < 0 {
            return Err(TokenError::InvalidAmount);
        }
        if !crate::token::storage::authorized(&self.storage, to) {
            return Err(TokenError::NotAuthorized);
        }
        let balance = crate::token::storage::balance_of(&self.storage, to);
        let new_balance = match balance.checked_add(amount) {
            None => {
                return Err(TokenError::ArithmeticOverflow);
            },
            Some(new_balance) => new_balance,
        };
        crate::token::storage::set_balance(&mut self.storage, to, new_balance);
        Ok(())
    }
}

} // verus!
