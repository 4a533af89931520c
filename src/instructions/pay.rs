use vstd::prelude::*;
use crate::errors::{DiviError, TransactionError};
use crate::events::{Event, ParticipantPaid, VaultCompleted};
use crate::states::{PaymentVault, Pubkey};

verus! {

/// What a pooled contribution reads and writes: the payer's wallet, the vault
/// record and the balance of the vault's custody address.
pub struct Pay {
    pub payer: Pubkey,
    pub payer_lamports: u64,
    pub issuer: Pubkey,
    pub vault: PaymentVault,
    pub vault_authority_lamports: u64,
}

/// The failure of a pooled contribution of `amount`, if it fails.
pub open spec fn pay_error(ctx: Pay, amount: u64) -> Option<TransactionError> {
    if ctx.vault.is_finalized {
        Some(TransactionError::Program(DiviError::VaultIsAlreadyFinalized))
    } else if amount > ctx.vault.total_amount {
        Some(TransactionError::Program(DiviError::AmountIsGreaterThanVaultTotalAmount))
    } else if amount > ctx.vault.total_amount - ctx.vault_authority_lamports {
        Some(TransactionError::Program(DiviError::AmountIsGreaterThanRemainingVaultAmount))
    } else if amount > ctx.payer_lamports {
        Some(TransactionError::InsufficientFunds)
    } else {
        None
    }
}

/// Whether a contribution of `amount` brings the pooled balance up to the total.
pub open spec fn pay_completes(ctx: Pay, amount: u64) -> bool {
    ctx.vault_authority_lamports + amount >= ctx.vault.total_amount
}

/// The accounts after a successful contribution of `amount`.
pub open spec fn pay_effect(ctx: Pay, amount: u64) -> Pay {
    Pay {
        payer_lamports: (ctx.payer_lamports - amount) as u64,
        vault: PaymentVault { is_finalized: pay_completes(ctx, amount), ..ctx.vault },
        vault_authority_lamports: (ctx.vault_authority_lamports + amount) as u64,
        ..ctx
    }
}

/// The events of a successful contribution of `amount`.
pub open spec fn pay_events(ctx: Pay, payment_id: u32, amount: u64) -> Seq<Event> {
    let paid = Event::ParticipantPaid(
        ParticipantPaid {
            issuer: ctx.issuer,
            payer: ctx.payer,
            payment_id,
            bump: ctx.vault.bump,
        },
    );
    let completed = Event::VaultCompleted(
        VaultCompleted { issuer: ctx.issuer, payment_id, bump: ctx.vault.bump },
    );
    if pay_completes(ctx, amount) {
        seq![paid, completed]
    } else {
        seq![paid]
    }
}

/// Moves `amount` lamports from the payer to the vault's custody address, and
/// finalizes the vault when that brings the pooled balance up to its total.
/// Fails, changing nothing, on a finalized vault, on an amount above the total
/// or above what is still missing, and when the payer holds too little.
pub fn handler(ctx: &mut Pay, payment_id: u32, amount: u64) -> (r: Result<Vec<Event>, TransactionError>)
    ensures
        match pay_error(*old(ctx), amount) {
            Some(e) => r == Err::<Vec<Event>, TransactionError>(e) && *final(ctx) == *old(ctx),
            None => r is Ok && *final(ctx) == pay_effect(*old(ctx), amount) && r->Ok_0@ == pay_events(
                *old(ctx),
                payment_id,
                amount,
            ),
        },
{
    if ctx.vault.is_finalized {
        return Err(TransactionError::Program(DiviError::VaultIsAlreadyFinalized));
    }
    let total = ctx.vault.total_amount;
    let balance = ctx.vault_authority_lamports;
    if amount > total {
        return Err(TransactionError::Program(DiviError::AmountIsGreaterThanVaultTotalAmount));
    }
    if balance > total || amount > total - balance {
        return Err(TransactionError::Program(DiviError::AmountIsGreaterThanRemainingVaultAmount));
    }
    if amount > ctx.payer_lamports {
        return Err(TransactionError::InsufficientFunds);
    }
    ctx.payer_lamports = ctx.payer_lamports - amount;
    ctx.vault_authority_lamports = balance + amount;
    let mut events: Vec<Event> = Vec::new();
    events.push(
        Event::ParticipantPaid(
            ParticipantPaid {
                issuer: ctx.issuer,
                payer: ctx.payer,
                payment_id,
                bump: ctx.vault.bump,
            },
        ),
    );
    if balance + amount >= total {
        ctx.vault.is_finalized = true;
        events.push(
            Event::VaultCompleted(VaultCompleted { issuer: ctx.issuer, payment_id, bump: ctx.vault.bump }),
        );
    }
    proof {
        assert(events@ =~= pay_events(*old(ctx), payment_id, amount));
    }
    Ok(events)
}

} // verus!
