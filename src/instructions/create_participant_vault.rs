use vstd::prelude::*;
use crate::errors::TransactionError;
use crate::states::{ParticipantVault, PaymentVault, Pubkey};

verus! {

/// What a dedicated contribution reads and writes: the participant's wallet,
/// the parent vault record, the derivation proof of the new record's address
/// and the balance of the participant's custody address.
pub struct CreateParticipantVault {
    pub participant: Pubkey,
    pub participant_lamports: u64,
    pub vault: PaymentVault,
    pub participant_vault_bump: u8,
    pub participant_vault_authority_lamports: u64,
}

/// The record that a dedicated contribution of `amount` writes.
pub open spec fn new_participant_vault(ctx: CreateParticipantVault, payment_id: u32, amount: u64) -> ParticipantVault {
    ParticipantVault {
        issuer: ctx.vault.issuer,
        payment_id,
        participant: ctx.participant,
        amount,
        bump: ctx.participant_vault_bump,
    }
}

/// The failure of a dedicated contribution of `amount`, if it fails.
pub open spec fn create_participant_vault_error(ctx: CreateParticipantVault, amount: u64) -> Option<TransactionError> {
    if amount > ctx.participant_lamports {
        Some(TransactionError::InsufficientFunds)
    } else if ctx.participant_vault_authority_lamports + amount > u64::MAX {
        Some(TransactionError::ArithmeticOverflow)
    } else {
        None
    }
}

/// Records a dedicated contribution of `amount` and moves it from the
/// participant to the participant's custody address. The amount is not held
/// against what the pooled vault still misses: the two ways of contributing
/// are kept apart.
pub fn handler(ctx: &mut CreateParticipantVault, payment_id: u32, amount: u64) -> (r: Result<ParticipantVault, TransactionError>)
    ensures
        match create_participant_vault_error(*old(ctx), amount) {
            Some(e) => r == Err::<ParticipantVault, TransactionError>(e) && *final(ctx) == *old(ctx),
            None => r == Ok::<ParticipantVault, TransactionError>(new_participant_vault(*old(ctx), payment_id, amount))
                && *final(ctx) == (CreateParticipantVault {
                participant_lamports: (old(ctx).participant_lamports - amount) as u64,
                participant_vault_authority_lamports: (old(ctx).participant_vault_authority_lamports
                    + amount) as u64,
                ..*old(ctx)
            }),
        },
{
    if amount > ctx.participant_lamports {
        return Err(TransactionError::InsufficientFunds);
    }
    if ctx.participant_vault_authority_lamports > u64::MAX - amount {
        return Err(TransactionError::ArithmeticOverflow);
    }
    let record = ParticipantVault {
        issuer: ctx.vault.issuer,
        payment_id,
        participant: ctx.participant,
        amount,
        bump: ctx.participant_vault_bump,
    };
    ctx.participant_lamports = ctx.participant_lamports - amount;
    ctx.participant_vault_authority_lamports = ctx.participant_vault_authority_lamports + amount;
    Ok(record)
}

} // verus!
