use vstd::prelude::*;
use crate::errors::{DiviError, TransactionError};
use crate::states::{PaymentVault, Pubkey};

verus! {

/// What a withdrawal reads and writes: the issuer's wallet, the vault record,
/// the balance of its custody address, and the least balance that a custody
/// address with no data must keep.
pub struct CloseVault {
    pub issuer: Pubkey,
    pub issuer_lamports: u64,
    pub vault: PaymentVault,
    pub vault_authority_lamports: u64,
    pub minimum_reserve: u64,
}

/// What a withdrawal moves to the issuer: the pooled balance above the
/// reserve, or nothing where the balance does not exceed the reserve.
pub open spec fn withdrawable(ctx: CloseVault) -> nat {
    if ctx.vault_authority_lamports > ctx.minimum_reserve {
        (ctx.vault_authority_lamports - ctx.minimum_reserve) as nat
    } else {
        0
    }
}

/// The failure of a withdrawal, if it fails.
pub open spec fn close_vault_error(ctx: CloseVault) -> Option<TransactionError> {
    if ctx.vault.issuer != ctx.issuer {
        Some(TransactionError::Program(DiviError::InvalidVaultAuthority))
    } else if !ctx.vault.is_finalized {
        Some(TransactionError::Program(DiviError::VaultIsNotFinalized))
    } else if ctx.issuer_lamports + withdrawable(ctx) > u64::MAX {
        Some(TransactionError::ArithmeticOverflow)
    } else {
        None
    }
}

/// Moves the pooled balance above the reserve from the custody address to the
/// issuer, and returns the amount moved. Only the issuer of a finalized vault
/// may withdraw; on failure nothing changes.
pub fn handler(ctx: &mut CloseVault, payment_id: u32) -> (r: Result<u64, TransactionError>)
    ensures
        match close_vault_error(*old(ctx)) {
            Some(e) => r == Err::<u64, TransactionError>(e) && *final(ctx) == *old(ctx),
            None => r == Ok::<u64, TransactionError>(withdrawable(*old(ctx)) as u64) && *final(ctx) == (
            CloseVault {
                issuer_lamports: (old(ctx).issuer_lamports + withdrawable(*old(ctx))) as u64,
                vault_authority_lamports: (old(ctx).vault_authority_lamports - withdrawable(
                    *old(ctx),
                )) as u64,
                ..*old(ctx)
            }),
        },
{
    if !ctx.vault.issuer.same_as(&ctx.issuer) {
        return Err(TransactionError::Program(DiviError::InvalidVaultAuthority));
    }
    if !ctx.vault.is_finalized {
        return Err(TransactionError::Program(DiviError::VaultIsNotFinalized));
    }
    let transfer_amount = ctx.vault_authority_lamports.saturating_sub(ctx.minimum_reserve);
    if transfer_amount > 0 {
        if ctx.issuer_lamports > u64::MAX - transfer_amount {
            return Err(TransactionError::ArithmeticOverflow);
        }
        ctx.vault_authority_lamports = ctx.vault_authority_lamports - transfer_amount;
        ctx.issuer_lamports = ctx.issuer_lamports + transfer_amount;
    }
    Ok(transfer_amount)
}

} // verus!
