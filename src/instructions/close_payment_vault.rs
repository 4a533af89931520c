use vstd::prelude::*;
use crate::errors::{DiviError, TransactionError};
use crate::events::{Event, VaultCompleted};
use crate::states::{PaymentVault, Pubkey};

verus! {

/// What a manual finalization reads and writes: the caller and the vault record.
pub struct ClosePaymentVault {
    pub issuer: Pubkey,
    pub vault: PaymentVault,
}

/// The failure of a manual finalization, if it fails.
pub open spec fn close_payment_vault_error(ctx: ClosePaymentVault) -> Option<TransactionError> {
    if ctx.vault.issuer != ctx.issuer {
        Some(TransactionError::Program(DiviError::InvalidVaultAuthority))
    } else if ctx.vault.is_finalized {
        Some(TransactionError::Program(DiviError::PaymentAlreadyFinalized))
    } else {
        None
    }
}

/// Finalizes the vault whatever its balance. Only its issuer may, and only once.
pub fn handler(ctx: &mut ClosePaymentVault, payment_id: u32) -> (r: Result<Vec<Event>, TransactionError>)
    ensures
        match close_payment_vault_error(*old(ctx)) {
            Some(e) => r == Err::<Vec<Event>, TransactionError>(e) && *final(ctx) == *old(ctx),
            None => r is Ok && *final(ctx) == (ClosePaymentVault {
                vault: PaymentVault { is_finalized: true, ..old(ctx).vault },
                ..*old(ctx)
            }) && r->Ok_0@ == seq![
                Event::VaultCompleted(
                    VaultCompleted { issuer: old(ctx).issuer, payment_id, bump: old(ctx).vault.bump },
                ),
            ],
        },
{
    if !ctx.vault.issuer.same_as(&ctx.issuer) {
        return Err(TransactionError::Program(DiviError::InvalidVaultAuthority));
    }
    if ctx.vault.is_finalized {
        return Err(TransactionError::Program(DiviError::PaymentAlreadyFinalized));
    }
    ctx.vault.is_finalized = true;
    let mut events: Vec<Event> = Vec::new();
    events.push(Event::VaultCompleted(VaultCompleted { issuer: ctx.issuer, payment_id, bump: ctx.vault.bump }));
    proof {
        assert(events@ =~= seq![
            Event::VaultCompleted(VaultCompleted { issuer: old(ctx).issuer, payment_id, bump: old(ctx).vault.bump }),
        ]);
    }
    Ok(events)
}

} // verus!
