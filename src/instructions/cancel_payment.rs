use vstd::prelude::*;
use crate::errors::{DiviError, TransactionError};
use crate::events::{Event, VaultCancelled};
use crate::states::{PaymentVault, Pubkey};
use crate::utils::{holds_participant_vault_of, is_valid_participant_vault, AccountData};

verus! {

/// What a cancellation reads and writes: the caller, the vault record, the
/// program's own key, and the accounts that the caller offers as evidence
/// that no dedicated contribution is outstanding.
pub struct CancelPayment {
    pub issuer: Pubkey,
    pub vault: PaymentVault,
    pub program_id: Pubkey,
    pub remaining_accounts: Vec<AccountData>,
}

/// Whether one of the offered accounts holds a participant vault record of
/// `payment_id`. Only the offered accounts are looked at.
pub open spec fn offers_outstanding_participant(ctx: CancelPayment, payment_id: u32) -> bool {
    exists|i: int|
        0 <= i < ctx.remaining_accounts@.len() && holds_participant_vault_of(
            #[trigger] ctx.remaining_accounts@[i].owner,
            ctx.remaining_accounts@[i].data@,
            payment_id,
            ctx.program_id,
        )
}

/// The failure of a cancellation, if it fails.
pub open spec fn cancel_payment_error(ctx: CancelPayment, payment_id: u32) -> Option<TransactionError> {
    if ctx.vault.issuer != ctx.issuer {
        Some(TransactionError::Program(DiviError::InvalidVaultAuthority))
    } else if offers_outstanding_participant(ctx, payment_id) {
        Some(TransactionError::Program(DiviError::NotAllParticipantsRefunded))
    } else {
        None
    }
}

/// Marks the vault cancelled. Only its issuer may, and not while one of the
/// offered accounts is a participant vault record of this payment.
pub fn handler(ctx: &mut CancelPayment, payment_id: u32) -> (r: Result<Vec<Event>, TransactionError>)
    ensures
        final(ctx).issuer == old(ctx).issuer,
        final(ctx).program_id == old(ctx).program_id,
        final(ctx).remaining_accounts@ == old(ctx).remaining_accounts@,
        match cancel_payment_error(*old(ctx), payment_id) {
            Some(e) => r == Err::<Vec<Event>, TransactionError>(e) && final(ctx).vault == old(ctx).vault,
            None => r is Ok && final(ctx).vault == (PaymentVault { is_cancelled: true, ..old(ctx).vault })
                && r->Ok_0@ == seq![
                Event::VaultCancelled(
                    VaultCancelled { issuer: old(ctx).issuer, payment_id, bump: old(ctx).vault.bump },
                ),
            ],
        },
{
    if !ctx.vault.issuer.same_as(&ctx.issuer) {
        return Err(TransactionError::Program(DiviError::InvalidVaultAuthority));
    }
    let mut i: usize = 0;
    while i < ctx.remaining_accounts.len()
        invariant
            *ctx == *old(ctx),
            ctx.vault.issuer == ctx.issuer,
            i <= ctx.remaining_accounts@.len(),
            forall|j: int|
                0 <= j < i ==> !holds_participant_vault_of(
                    #[trigger] ctx.remaining_accounts@[j].owner,
                    ctx.remaining_accounts@[j].data@,
                    payment_id,
                    ctx.program_id,
                ),
        decreases ctx.remaining_accounts@.len() - i,
    {
        if is_valid_participant_vault(&ctx.remaining_accounts[i], payment_id, &ctx.program_id) {
            assert(holds_participant_vault_of(
                ctx.remaining_accounts@[i as int].owner,
                ctx.remaining_accounts@[i as int].data@,
                payment_id,
                ctx.program_id,
            ));
            return Err(TransactionError::Program(DiviError::NotAllParticipantsRefunded));
        }
        i = i + 1;
    }
    ctx.vault.is_cancelled = true;
    let mut events: Vec<Event> = Vec::new();
    events.push(Event::VaultCancelled(VaultCancelled { issuer: ctx.issuer, payment_id, bump: ctx.vault.bump }));
    proof {
        assert(events@ =~= seq![
            Event::VaultCancelled(VaultCancelled { issuer: old(ctx).issuer, payment_id, bump: old(ctx).vault.bump }),
        ]);
    }
    Ok(events)
}

} // verus!
