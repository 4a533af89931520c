use vstd::prelude::*;

verus! {

/// Seed label of a payment vault record.
pub const VAULT: &'static str = "divi-vault";

/// Seed label of the custody address that holds a vault's pooled funds.
pub const VAULT_AUTHORITY: &'static str = "divi-vault-authority";

/// Seed label of a participant vault record.
pub const PARTICIPANT_VAULT: &'static str = "participant_vault";

/// Seed label of the custody address that holds one participant's contribution.
pub const PARTICIPANT_VAULT_AUTHORITY: &'static str = "participant_vault_authority";

/// Length of the type tag that precedes every stored record.
pub const ANCHOR_DISCRIMINATOR: usize = 8;

/// Lamports in one SOL.
pub const LAMPORTS_PER_SOL: u64 = 1_000_000_000;

/// `amount` SOL in lamports, where that fits in a `u64`.
pub fn sol_to_lamports(amount: u64) -> (r: Option<u64>)
    ensures
        r == (if amount * LAMPORTS_PER_SOL <= u64::MAX {
            Some((amount * LAMPORTS_PER_SOL) as u64)
        } else {
            None::<u64>
        }),
{
    amount.checked_mul(LAMPORTS_PER_SOL)
}

} // verus!
