use vstd::prelude::*;
use crate::events::{Event, VaultCreated};
use crate::states::{Address, PaymentVault, Pubkey};

verus! {

/// What opening a payment request reads: the issuer, the derivation proof of
/// the new record's address and the vault's custody address.
pub struct InitializeVault {
    pub issuer: Pubkey,
    pub vault_bump: u8,
    pub vault_authority: Address,
}

/// The record that opening a request for `total_amount` writes.
pub open spec fn initial_vault(ctx: InitializeVault, payment_id: u32, total_amount: u64) -> PaymentVault {
    PaymentVault {
        issuer: ctx.issuer,
        total_amount,
        is_finalized: false,
        is_cancelled: false,
        bump: ctx.vault_bump,
        payment_id,
        authority: ctx.vault_authority,
    }
}

/// The new vault record, and its creation event.
pub fn handler(ctx: &InitializeVault, payment_id: u32, total_amount: u64) -> (r: (PaymentVault, Vec<Event>))
    ensures
        r.0 == initial_vault(*ctx, payment_id, total_amount),
        r.1@ == seq![Event::VaultCreated(VaultCreated { issuer: ctx.issuer, payment_id, bump: ctx.vault_bump })],
{
    let vault = PaymentVault {
        issuer: ctx.issuer,
        total_amount,
        is_finalized: false,
        is_cancelled: false,
        bump: ctx.vault_bump,
        payment_id,
        authority: ctx.vault_authority,
    };
    let mut events: Vec<Event> = Vec::new();
    events.push(Event::VaultCreated(VaultCreated { issuer: ctx.issuer, payment_id, bump: ctx.vault_bump }));
    proof {
        assert(events@ =~= seq![Event::VaultCreated(VaultCreated { issuer: ctx.issuer, payment_id, bump: ctx.vault_bump })]);
    }
    (vault, events)
}

} // verus!
