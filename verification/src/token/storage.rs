//! The token's records: its admin, its metadata, and per party a balance, an
//! authorization flag and the allowances granted to spenders.

use crate::address::Address;
use crate::store::Store;
use vstd::prelude::*;

verus! {

/// What a holder lets a spender draw, and until which ledger.
#[derive(Copy, Clone, Debug, Eq, PartialEq, Structural)]
pub struct AllowanceData {
    pub amount: i128,
    /// The last ledger at which the allowance can be drawn on.
    pub expiration_ledger: u32,
}

/// How the token presents itself.
#[derive(Clone, Debug, Eq, PartialEq)]
pub struct TokenMetadata {
    pub name: String,
    pub symbol: String,
    pub decimals: u32,
}

/// The metadata as a mathematical value.
pub struct MetadataView {
    pub name: Seq<char>,
    pub symbol: Seq<char>,
    pub decimals: u32,
}

impl View for TokenMetadata {
    type V = MetadataView;

    open spec fn view(&self) -> MetadataView {
        MetadataView { name: self.name@, symbol: self.symbol@, decimals: self.decimals }
    }
}

impl TokenMetadata {
    /// A copy of the metadata.
    pub fn duplicate(&self) -> (r: TokenMetadata)
        ensures
            r@ == self@,
    {
        TokenMetadata {
            name: self.name.clone(),
            symbol: self.symbol.clone(),
            decimals: self.decimals,
        }
    }
}

/// The records as a mathematical value. A party without a balance record
/// holds nothing, one without a flag is authorized, and a pair without an
/// allowance record has none.
#[verifier::ext_equal]
pub struct TokenState {
    pub admin: Option<Address>,
    pub metadata: Option<MetadataView>,
    pub balances: Map<Address, i128>,
    pub allowances: Map<(Address, Address), AllowanceData>,
    pub authorized: Map<Address, bool>,
}

impl TokenState {
    /// What `id` holds.
    pub open spec fn balance_of(self, id: Address) -> i128 {
        if self.balances.contains_key(id) {
            self.balances[id]
        } else {
            0
        }
    }

    /// Whether `id` may hold and move the token.
    pub open spec fn is_authorized(self, id: Address) -> bool {
        if self.authorized.contains_key(id) {
            self.authorized[id]
        } else {
            true
        }
    }

    /// Whether there is an allowance from `from` to `spender` that can be
    /// drawn on at `current_ledger`.
    pub open spec fn has_live_allowance(self, from: Address, spender: Address, current_ledger: u32)
        -> bool {
        self.allowances.contains_key((from, spender)) && !allowance_expired(
            self.allowances[(from, spender)],
            current_ledger,
        )
    }

    /// What `spender` may draw from `from` at `current_ledger`.
    pub open spec fn allowance_amount(self, from: Address, spender: Address, current_ledger: u32)
        -> i128 {
        if self.has_live_allowance(from, spender, current_ledger) {
            self.allowances[(from, spender)].amount
        } else {
            0
        }
    }

    /// Until which ledger `spender` may draw from `from`, as of
    /// `current_ledger`; zero where there is nothing to draw on.
    pub open spec fn allowance_expiration(self, from: Address, spender: Address, current_ledger: u32)
        -> u32 {
        if self.has_live_allowance(from, spender, current_ledger) {
            self.allowances[(from, spender)].expiration_ledger
        } else {
            0
        }
    }

    /// The records with the balance of `id` set: a zero balance is no record.
    pub open spec fn with_balance(self, id: Address, amount: i128) -> TokenState {
        TokenState {
            balances: if amount == 0 {
                self.balances.remove(id)
            } else {
                self.balances.insert(id, amount)
            },
            ..self
        }
    }

    /// The records with the allowance from `from` to `spender` set: an
    /// allowance of zero is no record.
    pub open spec fn with_allowance(self, from: Address, spender: Address, data: AllowanceData)
        -> TokenState {
        TokenState {
            allowances: if data.amount == 0 {
                self.allowances.remove((from, spender))
            } else {
                self.allowances.insert((from, spender), data)
            },
            ..self
        }
    }

    /// The records without an allowance from `from` to `spender` that can no
    /// longer be drawn on at `current_ledger`.
    pub open spec fn without_expired(self, from: Address, spender: Address, current_ledger: u32)
        -> TokenState {
        if self.allowances.contains_key((from, spender)) && allowance_expired(
            self.allowances[(from, spender)],
            current_ledger,
        ) {
            TokenState { allowances: self.allowances.remove((from, spender)), ..self }
        } else {
            self
        }
    }
}

/// Whether an allowance can no longer be drawn on at `current_ledger`: its
/// last ledger has passed.
pub open spec fn allowance_expired(allowance: AllowanceData, current_ledger: u32) -> bool {
    allowance.expiration_ledger < current_ledger
}

/// The token's records.
pub struct TokenStorage {
    admin: Option<Address>,
    metadata: Option<TokenMetadata>,
    balances: Store<Address, i128>,
    allowances: Store<(Address, Address), AllowanceData>,
    authorized: Store<Address, bool>,
}

impl View for TokenStorage {
    type V = TokenState;

    closed spec fn view(&self) -> TokenState {
        TokenState {
            admin: self.admin,
            metadata: match self.metadata {
                Some(metadata) => Some(metadata@),
                None => None,
            },
            balances: self.balances@,
            allowances: self.allowances@,
            authorized: self.authorized@,
        }
    }
}

impl TokenStorage {
    /// Records with nothing in them.
    pub fn new() -> (r: TokenStorage)
        ensures
            r@ == (TokenState {
                admin: None,
                metadata: None,
                balances: Map::empty(),
                allowances: Map::empty(),
                authorized: Map::empty(),
            }),
    {
        TokenStorage {
            admin: None,
            metadata: None,
            balances: Store::new(),
            allowances: Store::new(),
            authorized: Store::new(),
        }
    }
}

/// Whether an admin is recorded.
pub fn has_admin(storage: &TokenStorage) -> (r: bool)
    ensures
        r == storage@.admin is Some,
{
    storage.admin.is_some()
}

/// Records the admin.
pub fn set_admin(storage: &mut TokenStorage, admin: &Address)
    ensures
        final(storage)@ == (TokenState { admin: Some(*admin), ..old(storage)@ }),
{
    storage.admin = Some(*admin);
}

/// The admin, once recorded.
pub fn admin(storage: &TokenStorage) -> (r: Option<Address>)
    ensures
        r == storage@.admin,
{
    storage.admin
}

/// Records the metadata.
pub fn set_metadata(storage: &mut TokenStorage, metadata: &TokenMetadata)
    ensures
        final(storage)@ == (TokenState { metadata: Some(metadata@), ..old(storage)@ }),
{
    storage.metadata = Some(metadata.duplicate());
}

/// The metadata, once recorded.
pub fn metadata(storage: &TokenStorage) -> (r: Option<TokenMetadata>)
    ensures
        r is Some <==> storage@.metadata is Some,
        r is Some ==> r->Some_0@ == storage@.metadata->Some_0,
{
    match &storage.metadata {
        Some(metadata) => Some(metadata.duplicate()),
        None => None,
    }
}

/// What `id` holds.
pub fn balance_of(storage: &TokenStorage, id: &Address) -> (r: i128)
    ensures
        r == storage@.balance_of(*id),
{
    match storage.balances.get(id) {
        Some(amount) => *amount,
        None => 0,
    }
}

/// Sets what `id` holds; a balance of zero takes the record away.
pub fn set_balance(storage: &mut TokenStorage, id: &Address, amount: i128)
    ensures
        final(storage)@ == old(storage)@.with_balance(*id, amount),
{
    if amount == 0 {
        storage.balances.remove(id);
    } else {
        storage.balances.set(*id, amount);
    }
}

/// What `spender` may draw from `from` at `current_ledger`. An allowance
/// found expired is taken out of the records.
pub fn allowance_amount(
    storage: &mut TokenStorage,
    from: &Address,
    spender: &Address,
    current_ledger: u32,
) -> (r: i128)
    ensures
        r == old(storage)@.allowance_amount(*from, *spender, current_ledger),
        final(storage)@ == old(storage)@.without_expired(*from, *spender, current_ledger),
{
    let key = (*from, *spender);
    let found = match storage.allowances.get(&key) {
        Some(allowance) => Some(*allowance),
        None => None,
    };
    match found {
        Some(allowance) => {
            if is_allowance_expired(&allowance, current_ledger) {
                storage.allowances.remove(&key);
                0
            } else {
                allowance.amount
            }
        },
        None => 0,
    }
}

/// Until which ledger `spender` may draw from `from`, as of
/// `current_ledger`. An allowance found expired is taken out of the records.
pub fn allowance_expiration(
    storage: &mut TokenStorage,
    from: &Address,
    spender: &Address,
    current_ledger: u32,
) -> (r: u32)
    ensures
        r == old(storage)@.allowance_expiration(*from, *spender, current_ledger),
        final(storage)@ == old(storage)@.without_expired(*from, *spender, current_ledger),
{
    let key = (*from, *spender);
    let found = match storage.allowances.get(&key) {
        Some(allowance) => Some(*allowance),
        None => None,
    };
    match found {
        Some(allowance) => {
            if is_allowance_expired(&allowance, current_ledger) {
                storage.allowances.remove(&key);
                0
            } else {
                allowance.expiration_ledger
            }
        },
        None => 0,
    }
}

/// What `spender` may draw from `from` at `current_ledger`, and until when,
/// the records left as they are; zero and zero where there is nothing to
/// draw on.
pub fn live_allowance(
    storage: &TokenStorage,
    from: &Address,
    spender: &Address,
    current_ledger: u32,
) -> (r: AllowanceData)
    ensures
        r.amount == storage@.allowance_amount(*from, *spender, current_ledger),
        r.expiration_ledger == storage@.allowance_expiration(*from, *spender, current_ledger),
{
    let key = (*from, *spender);
    match storage.allowances.get(&key) {
        Some(allowance) => {
            if is_allowance_expired(allowance, current_ledger) {
                AllowanceData { amount: 0, expiration_ledger: 0 }
            } else {
                *allowance
            }
        },
        None => AllowanceData { amount: 0, expiration_ledger: 0 },
    }
}

/// Sets what `spender` may draw from `from`; an allowance of zero takes the
/// record away.
pub fn set_allowance(
    storage: &mut TokenStorage,
    from: &Address,
    spender: &Address,
    data: &AllowanceData,
)
    ensures
        final(storage)@ == old(storage)@.with_allowance(*from, *spender, *data),
{
    let key = (*from, *spender);
    if data.amount == 0 {
        storage.allowances.remove(&key);
    } else {
        storage.allowances.set(key, *data);
    }
}

/// Sets whether `id` may hold and move the token.
pub fn set_authorized(storage: &mut TokenStorage, id: &Address, authorize: bool)
    ensures
        final(storage)@ == (TokenState {
            authorized: old(storage)@.authorized.insert(*id, authorize),
            ..old(storage)@
        }),
{
    storage.authorized.set(*id, authorize);
}

/// Whether `id` may hold and move the token; a party is authorized until it
/// is recorded otherwise.
pub fn authorized(storage: &TokenStorage, id: &Address) -> (r: bool)
    ensures
        r == storage@.is_authorized(*id),
{
    match storage.authorized.get(id) {
        Some(flag) => *flag,
        None => true,
    }
}

/// Whether an allowance can no longer be drawn on at `current_ledger`.
pub fn is_allowance_expired(allowance: &AllowanceData, current_ledger: u32) -> (r: bool)
    ensures
        r == allowance_expired(*allowance, current_ledger),
{
    allowance.expiration_ledger < current_ledger
}

} // verus!
