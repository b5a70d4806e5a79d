//! Identities of the parties that the ledger deals with.

use vstd::prelude::*;

verus! {

/// What stands behind an address.
#[derive(Copy, Clone, Debug, PartialEq, Eq, Hash, Structural)]
pub enum AddressKind {
    /// An account, named by its public key.
    Account,
    /// A contract, named by the hash that identifies it.
    Contract,
}

/// An identity on the ledger: an account or a contract, with the 256-bit key
/// that names it, held as two halves. Two addresses are the same party
/// exactly when kind and key agree.
#[derive(Copy, Clone, Debug, PartialEq, Eq, Hash, Structural)]
pub struct Address {
    pub kind: AddressKind,
    pub high: u128,
    pub low: u128,
}

impl Address {
    /// The account with the given key.
    pub fn account(high: u128, low: u128) -> (r: Address)
        ensures
            r == (Address { kind: AddressKind::Account, high, low }),
    {
        Address { kind: AddressKind::Account, high, low }
    }

    /// The contract with the given key.
    pub fn contract(high: u128, low: u128) -> (r: Address)
        ensures
            r == (Address { kind: AddressKind::Contract, high, low }),
    {
        Address { kind: AddressKind::Contract, high, low }
    }
}

/// The number that sixteen bytes spell, the first of them the most
/// significant.
pub open spec fn be_u128(s: Seq<u8>) -> int
    recommends
        s.len() == 16,
{
    s[0] * 0x100_0000_0000_0000_0000_0000_0000_0000
        + s[1] * 0x1_0000_0000_0000_0000_0000_0000_0000
        + s[2] * 0x100_0000_0000_0000_0000_0000_0000
        + s[3] * 0x1_0000_0000_0000_0000_0000_0000
        + s[4] * 0x100_0000_0000_0000_0000_0000
        + s[5] * 0x1_0000_0000_0000_0000_0000
        + s[6] * 0x100_0000_0000_0000_0000
        + s[7] * 0x1_0000_0000_0000_0000
        + s[8] * 0x100_0000_0000_0000
        + s[9] * 0x1_0000_0000_0000
        + s[10] * 0x100_0000_0000
        + s[11] * 0x1_0000_0000
        + s[12] * 0x100_0000
        + s[13] * 0x1_0000
        + s[14] * 0x100
        + s[15]
}

/// The form in which an address value is passed around as bytes: four bytes
/// that say an address follows (the number 18), four bytes for its kind
/// (0 for an account, 1 for a contract), for an account four more bytes for
/// the kind of its key (0, the only one), and then the 32 bytes of the key.
/// Bytes in any other form stand for no address.
pub open spec fn party_of_bytes(bytes: Seq<u8>) -> Option<Address> {
    if bytes.len() == 44 && address_follows(bytes) && bytes[7] == 0 && bytes[8] == 0 && bytes[9]
        == 0 && bytes[10] == 0 && bytes[11] == 0 {
        Some(
            Address {
                kind: AddressKind::Account,
                high: be_u128(bytes.subrange(12, 28)) as u128,
                low: be_u128(bytes.subrange(28, 44)) as u128,
            },
        )
    } else if bytes.len() == 40 && address_follows(bytes) && bytes[7] == 1 {
        Some(
            Address {
                kind: AddressKind::Contract,
                high: be_u128(bytes.subrange(8, 24)) as u128,
                low: be_u128(bytes.subrange(24, 40)) as u128,
            },
        )
    } else {
        None
    }
}

/// Whether bytes begin as an address value does: with the number 18 in four
/// bytes, and three zero bytes before the byte of the kind.
pub open spec fn address_follows(bytes: Seq<u8>) -> bool {
    &&& bytes.len() >= 8
    &&& bytes[0] == 0
    &&& bytes[1] == 0
    &&& bytes[2] == 0
    &&& bytes[3] == 18
    &&& bytes[4] == 0
    &&& bytes[5] == 0
    &&& bytes[6] == 0
}

/// The number that the sixteen bytes from `start` on spell.
fn read_be_u128(bytes: &[u8], start: usize) -> (r: u128)
    requires
        start + 16 <= bytes@.len(),
    ensures
        r == be_u128(bytes@.subrange(start as int, start + 16)),
{
    let acc: u128 = bytes[start] as u128;
    let acc: u128 = acc * 256 + bytes[start + 1] as u128;
    let acc: u128 = acc * 256 + bytes[start + 2] as u128;
    let acc: u128 = acc * 256 + bytes[start + 3] as u128;
    let acc: u128 = acc * 256 + bytes[start + 4] as u128;
    let acc: u128 = acc * 256 + bytes[start + 5] as u128;
    let acc: u128 = acc * 256 + bytes[start + 6] as u128;
    let acc: u128 = acc * 256 + bytes[start + 7] as u128;
    let acc: u128 = acc * 256 + bytes[start + 8] as u128;
    let acc: u128 = acc * 256 + bytes[start + 9] as u128;
    let acc: u128 = acc * 256 + bytes[start + 10] as u128;
    let acc: u128 = acc * 256 + bytes[start + 11] as u128;
    let acc: u128 = acc * 256 + bytes[start + 12] as u128;
    let acc: u128 = acc * 256 + bytes[start + 13] as u128;
    let acc: u128 = acc * 256 + bytes[start + 14] as u128;
    let acc: u128 = acc * 256 + bytes[start + 15] as u128;
    acc
}

/// Appends the sixteen bytes that spell a number.
fn write_be_u128(out: &mut Vec<u8>, value: u128)
    ensures
        final(out)@.len() == old(out)@.len() + 16,
        final(out)@.subrange(0, old(out)@.len() as int) == old(out)@,
        be_u128(final(out)@.subrange(old(out)@.len() as int, old(out)@.len() as int + 16)) == value,
{
    let q1: u128 = value / 256;
    let q2: u128 = q1 / 256;
    let q3: u128 = q2 / 256;
    let q4: u128 = q3 / 256;
    let q5: u128 = q4 / 256;
    let q6: u128 = q5 / 256;
    let q7: u128 = q6 / 256;
    let q8: u128 = q7 / 256;
    let q9: u128 = q8 / 256;
    let q10: u128 = q9 / 256;
    let q11: u128 = q10 / 256;
    let q12: u128 = q11 / 256;
    let q13: u128 = q12 / 256;
    let q14: u128 = q13 / 256;
    let q15: u128 = q14 / 256;
    out.push((q15 % 256) as u8);
    out.push((q14 % 256) as u8);
    out.push((q13 % 256) as u8);
    out.push((q12 % 256) as u8);
    out.push((q11 % 256) as u8);
    out.push((q10 % 256) as u8);
    out.push((q9 % 256) as u8);
    out.push((q8 % 256) as u8);
    out.push((q7 % 256) as u8);
    out.push((q6 % 256) as u8);
    out.push((q5 % 256) as u8);
    out.push((q4 % 256) as u8);
    out.push((q3 % 256) as u8);
    out.push((q2 % 256) as u8);
    out.push((q1 % 256) as u8);
    out.push((value % 256) as u8);
    assert(out@.subrange(0, old(out)@.len() as int) =~= old(out)@);
}

/// The address that bytes stand for, if they stand for one.
pub fn party_from_bytes(bytes: &[u8]) -> (r: Option<Address>)
    ensures
        r == party_of_bytes(bytes@),
{
    let len = bytes.len();
    if len != 44 && len != 40 {
        return None;
    }
    if bytes[0] != 0 || bytes[1] != 0 || bytes[2] != 0 || bytes[3] != 18 || bytes[4] != 0
        || bytes[5] != 0 || bytes[6] != 0 {
        return None;
    }
    if len == 44 {
        if bytes[7] != 0 || bytes[8] != 0 || bytes[9] != 0 || bytes[10] != 0 || bytes[11] != 0 {
            return None;
        }
        Some(
            Address {
                kind: AddressKind::Account,
                high: read_be_u128(bytes, 12),
                low: read_be_u128(bytes, 28),
            },
        )
    } else {
        if bytes[7] != 1 {
            return None;
        }
        Some(
            Address {
                kind: AddressKind::Contract,
                high: read_be_u128(bytes, 8),
                low: read_be_u128(bytes, 24),
            },
        )
    }
}

/// The bytes that stand for an address.
pub fn party_to_bytes(party: &Address) -> (r: Vec<u8>)
    ensures
        party_of_bytes(r@) == Some(*party),
{
    let mut out: Vec<u8> = Vec::new();
    out.push(0);
    out.push(0);
    out.push(0);
    out.push(18);
    out.push(0);
    out.push(0);
    out.push(0);
    match party.kind {
        AddressKind::Account => {
            out.push(0);
            out.push(0);
            out.push(0);
            out.push(0);
            out.push(0);
        },
        AddressKind::Contract => {
            out.push(1);
        },
    }
    let ghost header = out@;
    write_be_u128(&mut out, party.high);
    let ghost with_high = out@;
    write_be_u128(&mut out, party.low);
    proof {
        let n = header.len() as int;
        assert(header =~= match party.kind {
            AddressKind::Account => seq![0u8, 0, 0, 18, 0, 0, 0, 0, 0, 0, 0, 0],
            AddressKind::Contract => seq![0u8, 0, 0, 18, 0, 0, 0, 1],
        });
        assert(out@.len() == n + 32);
        assert forall|i: int| 0 <= i < n + 16 implies out@[i] == with_high[i] by {
            assert(out@.subrange(0, n + 16)[i] == with_high[i]);
        }
        assert forall|i: int| 0 <= i < n implies out@[i] == header[i] by {
            assert(with_high.subrange(0, n)[i] == header[i]);
        }
        assert(out@.subrange(n, n + 16) =~= with_high.subrange(n, n + 16));
        assert(be_u128(out@.subrange(n, n + 16)) == party.high);
        assert(be_u128(out@.subrange(n + 16, n + 32)) == party.low);
    }
    out
}

} // verus!
