//! The host's map of grant records.
//!
//! The contract host keeps maps as objects of its own and hands out handles to
//! them. The grant records live in such a map, from the grant's id to the
//! fields of its schedule. What is stated here of the host's operations is
//! taken on trust from the host's documentation and source; everything above
//! it is proved from these statements.
//!
//! The host meters the work of a call and aborts the call as a whole when its
//! budget is spent. That is outside what is stated here, as running out of
//! memory is.

use vstd::prelude::*;

verus! {

/// The host environment, through which host objects are made.
#[verifier::external_type_specification]
#[verifier::external_body]
pub struct ExEnv(soroban_sdk::Env);

/// A handle to a map object of the host.
#[verifier::external_type_specification]
#[verifier::external_body]
#[verifier::reject_recursive_types(K)]
#[verifier::reject_recursive_types(V)]
pub struct ExHostMap<K, V>(soroban_sdk::Map<K, V>);

/// The fields of a schedule as the host map holds them, in this order: the
/// kind of the beneficiary (0 for an account, 1 for a contract), the high and
/// the low half of the beneficiary's key, the amount, the start time, the
/// cliff, the duration, whether claimed, whether revoked, the time of
/// revocation.
pub type ScheduleRecord = (u32, u128, u128, i128, u64, u64, u64, bool, bool, u64);

/// What a host map of grant records holds: under each key whose value is a
/// record, that record.
pub uninterp spec fn records_held(
    records: soroban_sdk::Map<u64, (u32, u128, u128, i128, u64, u64, u64, bool, bool, u64)>,
) -> Map<u64, (u32, u128, u128, i128, u64, u64, u64, bool, bool, u64)>;

/// Whether a host map of grant records is shaped as one: no value under a key
/// is a host vector of a length other than a record's ten fields. The host
/// refuses to unpack such a vector into a record, and aborts the call.
pub uninterp spec fn records_shaped(
    records: soroban_sdk::Map<u64, (u32, u128, u128, i128, u64, u64, u64, bool, bool, u64)>,
) -> bool;

/// The host in which a map of grant records lives: the environment that the
/// map's handle carries, which is the one that the map was made in.
pub uninterp spec fn records_host(
    records: soroban_sdk::Map<u64, (u32, u128, u128, i128, u64, u64, u64, bool, bool, u64)>,
) -> soroban_sdk::Env;

/// `soroban_sdk::Map::new`: a new map object, made in the host of the given
/// environment, which holds nothing.
#[verifier::external_body]
pub(crate) fn records_new(env: &soroban_sdk::Env) -> (records: soroban_sdk::Map<
    u64,
    ScheduleRecord,
>)
    ensures
        records_held(records) == (Map::<u64, ScheduleRecord>::empty()),
        records_shaped(records),
        records_host(records) == *env,
{
    soroban_sdk::Map::new(env)
}

/// `soroban_sdk::Map::try_get`: the value under a key, where the map has the
/// key and the value is a record; nothing otherwise. The map must be shaped
/// as one of records: the conversion of a value to a record unpacks a host
/// vector into ten fields, and the host aborts the call where the vector has
/// another length.
#[verifier::external_body]
pub(crate) fn records_get(records: &soroban_sdk::Map<u64, ScheduleRecord>, id: u64) -> (found:
    Option<ScheduleRecord>)
    requires
        records_shaped(*records),
    ensures
        found == (if records_held(*records).contains_key(id) {
            Some(records_held(*records)[id])
        } else {
            None
        }),
{
    match records.try_get(id) {
        Ok(found) => found,
        Err(_) => None,
    }
}

/// `soroban_sdk::Map::set`: afterwards the map holds the value under the key,
/// in place of what it held there, and everything else as before; it lives in
/// the host that it lived in, and a map shaped as one of records stays so,
/// the value put being a record.
#[verifier::external_body]
pub(crate) fn records_set(
    records: &mut soroban_sdk::Map<u64, ScheduleRecord>,
    id: u64,
    record: ScheduleRecord,
)
    ensures
        records_held(*final(records)) == records_held(*old(records)).insert(id, record),
        records_host(*final(records)) == records_host(*old(records)),
        records_shaped(*old(records)) ==> records_shaped(*final(records)),
{
    records.set(id, record)
}

} // verus!
