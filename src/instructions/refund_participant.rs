use vstd::prelude::*;
use crate::errors::{DiviError, TransactionError};
use crate::events::{Event, ParticipantRefunded};
use crate::states::{ParticipantVault, PaymentVault, Pubkey};

verus! {

/// What a refund reads and writes: the caller, the participant's wallet, the
/// parent vault record, the participant vault record and the balance of the
/// participant's custody address.
pub struct RefundParticipant {
    pub issuer: Pubkey,
    pub participant: Pubkey,
    pub participant_lamports: u64,
    pub vault: PaymentVault,
    pub participant_vault: ParticipantVault,
    pub participant_vault_authority_lamports: u64,
}

/// The failure of a refund, if it fails.
pub open spec fn refund_participant_error(ctx: RefundParticipant, payment_id: u32) -> Option<TransactionError> {
    if ctx.issuer != ctx.vault.issuer {
        Some(TransactionError::Program(DiviError::InvalidVaultAuthority))
    } else if ctx.vault.is_finalized {
        Some(TransactionError::Program(DiviError::PaymentAlreadyFinalized))
    } else if ctx.participant_vault.participant != ctx.participant {
        Some(TransactionError::Program(DiviError::InvalidParticipant))
    } else if ctx.participant_vault.payment_id != payment_id {
        Some(TransactionError::Program(DiviError::InvalidPaymentId))
    } else if ctx.participant_lamports + ctx.participant_vault_authority_lamports > u64::MAX {
        Some(TransactionError::ArithmeticOverflow)
    } else {
        None
    }
}

/// Gives the participant the whole balance of their custody address back.
/// Only the vault's issuer may, and only before the vault is finalized; on
/// failure nothing changes. Removing the participant vault record is left to
/// the caller, which gets the event to log.
pub fn handler(ctx: &mut RefundParticipant, payment_id: u32) -> (r: Result<Vec<Event>, TransactionError>)
    ensures
        match refund_participant_error(*old(ctx), payment_id) {
            Some(e) => r == Err::<Vec<Event>, TransactionError>(e) && *final(ctx) == *old(ctx),
            None => r is Ok && *final(ctx) == (RefundParticipant {
                participant_lamports: (old(ctx).participant_lamports
                    + old(ctx).participant_vault_authority_lamports) as u64,
                participant_vault_authority_lamports: 0,
                ..*old(ctx)
            }) && r->Ok_0@ == seq![
                Event::ParticipantRefunded(
                    ParticipantRefunded {
                        issuer: old(ctx).issuer,
                        payment_id,
                        bump: old(ctx).vault.bump,
                        participant: old(ctx).participant,
                    },
                ),
            ],
        },
{
    if !ctx.issuer.same_as(&ctx.vault.issuer) {
        return Err(TransactionError::Program(DiviError::InvalidVaultAuthority));
    }
    if ctx.vault.is_finalized {
        return Err(TransactionError::Program(DiviError::PaymentAlreadyFinalized));
    }
    if !ctx.participant_vault.participant.same_as(&ctx.participant) {
        return Err(TransactionError::Program(DiviError::InvalidParticipant));
    }
    if ctx.participant_vault.payment_id != payment_id {
        return Err(TransactionError::Program(DiviError::InvalidPaymentId));
    }
    let vault_balance = ctx.participant_vault_authority_lamports;
    if vault_balance > 0 {
        if ctx.participant_lamports > u64::MAX - vault_balance {
            return Err(TransactionError::ArithmeticOverflow);
        }
        ctx.participant_vault_authority_lamports = 0;
        ctx.participant_lamports = ctx.participant_lamports + vault_balance;
    }
    let mut events: Vec<Event> = Vec::new();
    events.push(
        Event::ParticipantRefunded(
            ParticipantRefunded {
                issuer: ctx.issuer,
                payment_id,
                bump: ctx.vault.bump,
                participant: ctx.participant,
            },
        ),
    );
    proof {
        assert(events@ =~= seq![
            Event::ParticipantRefunded(
                ParticipantRefunded {
                    issuer: old(ctx).issuer,
                    payment_id,
                    bump: old(ctx).vault.bump,
                    participant: old(ctx).participant,
                },
            ),
        ]);
    }
    Ok(events)
}

} // verus!
