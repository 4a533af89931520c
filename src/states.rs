use vstd::prelude::*;

verus! {

broadcast use vstd::array::group_array_axioms;

/// A 32-byte account key.
#[derive(Clone, Copy, Debug, PartialEq, Eq, Hash)]
pub struct Pubkey {
    pub bytes: [u8; 32],
}

impl Pubkey {
    pub fn new_from_array(bytes: [u8; 32]) -> (r: Pubkey)
        ensures
            r.bytes == bytes,
    {
        Pubkey { bytes }
    }

    /// Whether two keys are the same key.
    pub fn same_as(&self, other: &Pubkey) -> (r: bool)
        ensures
            r == (*self == *other),
    {
        let mut i: usize = 0;
        while i < 32
            invariant
                i <= 32,
                forall|j: int| 0 <= j < i ==> self.bytes@[j] == other.bytes@[j],
            decreases 32 - i,
        {
            if self.bytes[i] != other.bytes[i] {
                return false;
            }
            i = i + 1;
        }
        assert(self.bytes =~= other.bytes);
        true
    }
}

/// The label that a derived address is derived under.
#[derive(Clone, Copy, Debug, PartialEq, Eq, Hash, Structural)]
pub enum Seed {
    Vault,
    VaultAuthority,
    ParticipantVault,
    ParticipantVaultAuthority,
}

/// An address of the ledger: a key held by someone, or an address derived
/// from a label, a key and a payment id. Distinct seed tuples give distinct
/// addresses, and no derived address is a key.
#[derive(Clone, Copy, Debug, PartialEq, Eq, Hash)]
pub enum Address {
    Key(Pubkey),
    Derived(Seed, Pubkey, u32),
}

impl Address {
    /// Whether two addresses are the same address.
    pub fn same_as(&self, other: &Address) -> (r: bool)
        ensures
            r == (*self == *other),
    {
        match (self, other) {
            (Address::Key(a), Address::Key(b)) => a.same_as(b),
            (Address::Derived(s, a, p), Address::Derived(t, b, q)) => *s == *t && *p == *q
                && a.same_as(b),
            _ => false,
        }
    }
}

/// The address derived from `seed`, `key` and `payment_id`.
pub fn derive_address(seed: Seed, key: Pubkey, payment_id: u32) -> (r: Address)
    ensures
        r == Address::Derived(seed, key, payment_id),
{
    Address::Derived(seed, key, payment_id)
}

/// The escrow record of one payment request.
#[derive(Clone, Copy, Debug, PartialEq, Eq)]
pub struct PaymentVault {
    pub issuer: Pubkey,
    pub total_amount: u64,
    pub is_finalized: bool,
    pub is_cancelled: bool,
    pub bump: u8,
    pub payment_id: u32,
    pub authority: Address,
}

/// The record of one participant's dedicated contribution.
#[derive(Clone, Copy, Debug, PartialEq, Eq)]
pub struct ParticipantVault {
    pub issuer: Pubkey,
    pub payment_id: u32,
    pub participant: Pubkey,
    pub amount: u64,
    pub bump: u8,
}

} // verus!
