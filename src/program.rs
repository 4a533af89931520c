use vstd::prelude::*;
use crate::errors::TransactionError;
use crate::events::{Event, VaultCreated};
use crate::instructions::cancel_payment::{self, cancel_payment_error, CancelPayment};
use crate::instructions::close_payment_vault::{self, close_payment_vault_error, ClosePaymentVault};
use crate::instructions::close_vault::{self, close_vault_error, withdrawable, CloseVault};
use crate::instructions::create_participant_vault::{
    self,
    create_participant_vault_error,
    new_participant_vault,
    CreateParticipantVault,
};
use crate::instructions::initialize_vault::{self, initial_vault, InitializeVault};
use crate::instructions::pay::{self, pay_effect, pay_error, pay_events, Pay};
use crate::instructions::refund_participant::{self, refund_participant_error, RefundParticipant};
use crate::ledger::{
    participant_vault_address,
    participant_vault_authority_address,
    vault_address,
    vault_authority_address,
    Ledger,
    LedgerView,
    CANONICAL_BUMP,
};
use crate::states::{derive_address, Address, PaymentVault, Pubkey, Seed};
use crate::utils::AccountData;

verus! {

/// The ledger after opening `issuer`'s payment `payment_id` for `total_amount`,
/// or why that fails.
pub open spec fn initialize_vault_outcome(l: LedgerView, issuer: Pubkey, payment_id: u32, total_amount: u64) -> Result<
    LedgerView,
    TransactionError,
> {
    if l.vaults.contains_key(vault_address(issuer, payment_id)) {
        Err(TransactionError::AccountAlreadyInUse)
    } else {
        let ctx = InitializeVault {
            issuer,
            vault_bump: CANONICAL_BUMP,
            vault_authority: vault_authority_address(issuer, payment_id),
        };
        Ok(
            LedgerView {
                vaults: l.vaults.insert(vault_address(issuer, payment_id), initial_vault(ctx, payment_id, total_amount)),
                events: l.events + seq![
                    Event::VaultCreated(VaultCreated { issuer, payment_id, bump: CANONICAL_BUMP }),
                ],
                ..l
            },
        )
    }
}

/// The accounts that a pooled contribution to an existing vault works on.
pub open spec fn pay_accounts(l: LedgerView, payer: Pubkey, issuer: Pubkey, payment_id: u32) -> Pay {
    Pay {
        payer,
        payer_lamports: l.balance(Address::Key(payer)),
        issuer,
        vault: l.vaults[vault_address(issuer, payment_id)],
        vault_authority_lamports: l.balance(vault_authority_address(issuer, payment_id)),
    }
}

/// The ledger after `payer` contributes `amount` to `issuer`'s payment
/// `payment_id`, or why that fails.
pub open spec fn pay_outcome(l: LedgerView, payer: Pubkey, issuer: Pubkey, payment_id: u32, amount: u64) -> Result<
    LedgerView,
    TransactionError,
> {
    if !l.vaults.contains_key(vault_address(issuer, payment_id)) {
        Err(TransactionError::AccountNotInitialized)
    } else {
        let ctx = pay_accounts(l, payer, issuer, payment_id);
        match pay_error(ctx, amount) {
            Some(e) => Err(e),
            None => {
                let after = pay_effect(ctx, amount);
                Ok(
                    LedgerView {
                        balances: l.balances.insert(Address::Key(payer), after.payer_lamports).insert(
                            vault_authority_address(issuer, payment_id),
                            after.vault_authority_lamports,
                        ),
                        vaults: l.vaults.insert(vault_address(issuer, payment_id), after.vault),
                        events: l.events + pay_events(ctx, payment_id, amount),
                        ..l
                    },
                )
            },
        }
    }
}

/// The accounts that a withdrawal from an existing vault works on.
pub open spec fn close_vault_accounts(l: LedgerView, issuer: Pubkey, payment_id: u32) -> CloseVault {
    CloseVault {
        issuer,
        issuer_lamports: l.balance(Address::Key(issuer)),
        vault: l.vaults[vault_address(issuer, payment_id)],
        vault_authority_lamports: l.balance(vault_authority_address(issuer, payment_id)),
        minimum_reserve: l.minimum_reserve,
    }
}

/// The ledger after `issuer` withdraws payment `payment_id` and closes its
/// record, or why that fails.
pub open spec fn close_vault_outcome(l: LedgerView, issuer: Pubkey, payment_id: u32) -> Result<LedgerView, TransactionError> {
    if !l.vaults.contains_key(vault_address(issuer, payment_id)) {
        Err(TransactionError::AccountNotInitialized)
    } else {
        let ctx = close_vault_accounts(l, issuer, payment_id);
        match close_vault_error(ctx) {
            Some(e) => Err(e),
            None => Ok(
                LedgerView {
                    balances: l.balances.insert(
                        Address::Key(issuer),
                        (ctx.issuer_lamports + withdrawable(ctx)) as u64,
                    ).insert(
                        vault_authority_address(issuer, payment_id),
                        (ctx.vault_authority_lamports - withdrawable(ctx)) as u64,
                    ),
                    vaults: l.vaults.remove(vault_address(issuer, payment_id)),
                    ..l
                },
            ),
        }
    }
}

/// The accounts that a dedicated contribution works on.
pub open spec fn participate_accounts(l: LedgerView, participant: Pubkey, issuer: Pubkey, payment_id: u32) -> CreateParticipantVault {
    CreateParticipantVault {
        participant,
        participant_lamports: l.balance(Address::Key(participant)),
        vault: l.vaults[vault_address(issuer, payment_id)],
        participant_vault_bump: CANONICAL_BUMP,
        participant_vault_authority_lamports: l.balance(
            participant_vault_authority_address(participant, payment_id),
        ),
    }
}

/// The ledger after `participant` commits `amount` to `issuer`'s payment
/// `payment_id` through a participant vault of their own, or why that fails.
pub open spec fn participate_outcome(
    l: LedgerView,
    participant: Pubkey,
    issuer: Pubkey,
    payment_id: u32,
    amount: u64,
) -> Result<LedgerView, TransactionError> {
    if !l.vaults.contains_key(vault_address(issuer, payment_id)) {
        Err(TransactionError::AccountNotInitialized)
    } else if l.participant_vaults.contains_key(participant_vault_address(participant, payment_id)) {
        Err(TransactionError::AccountAlreadyInUse)
    } else {
        let ctx = participate_accounts(l, participant, issuer, payment_id);
        match create_participant_vault_error(ctx, amount) {
            Some(e) => Err(e),
            None => Ok(
                LedgerView {
                    balances: l.balances.insert(
                        Address::Key(participant),
                        (ctx.participant_lamports - amount) as u64,
                    ).insert(
                        participant_vault_authority_address(participant, payment_id),
                        (ctx.participant_vault_authority_lamports + amount) as u64,
                    ),
                    participant_vaults: l.participant_vaults.insert(
                        participant_vault_address(participant, payment_id),
                        new_participant_vault(ctx, payment_id, amount),
                    ),
                    ..l
                },
            ),
        }
    }
}

/// The ledger after `issuer` cancels payment `payment_id`, offering
/// `candidates`, or why that fails.
pub open spec fn cancel_payment_outcome(l: LedgerView, issuer: Pubkey, payment_id: u32, candidates: Vec<AccountData>) -> Result<
    LedgerView,
    TransactionError,
> {
    if !l.vaults.contains_key(vault_address(issuer, payment_id)) {
        Err(TransactionError::AccountNotInitialized)
    } else {
        let vault = l.vaults[vault_address(issuer, payment_id)];
        let ctx = CancelPayment { issuer, vault, program_id: l.program_id, remaining_accounts: candidates };
        match cancel_payment_error(ctx, payment_id) {
            Some(e) => Err(e),
            None => Ok(
                LedgerView {
                    vaults: l.vaults.insert(
                        vault_address(issuer, payment_id),
                        PaymentVault { is_cancelled: true, ..vault },
                    ),
                    events: l.events + seq![
                        Event::VaultCancelled(
                            crate::events::VaultCancelled { issuer, payment_id, bump: vault.bump },
                        ),
                    ],
                    ..l
                },
            ),
        }
    }
}

/// The ledger after `issuer` finalizes payment `payment_id` by hand, or why
/// that fails.
pub open spec fn close_payment_vault_outcome(l: LedgerView, issuer: Pubkey, payment_id: u32) -> Result<
    LedgerView,
    TransactionError,
> {
    if !l.vaults.contains_key(vault_address(issuer, payment_id)) {
        Err(TransactionError::AccountNotInitialized)
    } else {
        let vault = l.vaults[vault_address(issuer, payment_id)];
        match close_payment_vault_error(ClosePaymentVault { issuer, vault }) {
            Some(e) => Err(e),
            None => Ok(
                LedgerView {
                    vaults: l.vaults.insert(
                        vault_address(issuer, payment_id),
                        PaymentVault { is_finalized: true, ..vault },
                    ),
                    events: l.events + seq![
                        Event::VaultCompleted(
                            crate::events::VaultCompleted { issuer, payment_id, bump: vault.bump },
                        ),
                    ],
                    ..l
                },
            ),
        }
    }
}

/// The accounts that a refund works on.
pub open spec fn refund_accounts(l: LedgerView, issuer: Pubkey, participant: Pubkey, payment_id: u32) -> RefundParticipant {
    RefundParticipant {
        issuer,
        participant,
        participant_lamports: l.balance(Address::Key(participant)),
        vault: l.vaults[vault_address(issuer, payment_id)],
        participant_vault: l.participant_vaults[participant_vault_address(participant, payment_id)],
        participant_vault_authority_lamports: l.balance(
            participant_vault_authority_address(participant, payment_id),
        ),
    }
}

/// The ledger after `issuer` refunds `participant`'s dedicated contribution
/// to payment `payment_id` and closes the participant vault record, or why
/// that fails.
pub open spec fn refund_participant_outcome(l: LedgerView, issuer: Pubkey, participant: Pubkey, payment_id: u32) -> Result<
    LedgerView,
    TransactionError,
> {
    if !l.vaults.contains_key(vault_address(issuer, payment_id)) {
        Err(TransactionError::AccountNotInitialized)
    } else if !l.participant_vaults.contains_key(participant_vault_address(participant, payment_id)) {
        Err(TransactionError::AccountNotInitialized)
    } else {
        let ctx = refund_accounts(l, issuer, participant, payment_id);
        match refund_participant_error(ctx, payment_id) {
            Some(e) => Err(e),
            None => Ok(
                LedgerView {
                    balances: l.balances.insert(
                        Address::Key(participant),
                        (ctx.participant_lamports + ctx.participant_vault_authority_lamports) as u64,
                    ).insert(participant_vault_authority_address(participant, payment_id), 0),
                    participant_vaults: l.participant_vaults.remove(
                        participant_vault_address(participant, payment_id),
                    ),
                    events: l.events + seq![
                        Event::ParticipantRefunded(
                            crate::events::ParticipantRefunded {
                                issuer,
                                payment_id,
                                bump: ctx.vault.bump,
                                participant,
                            },
                        ),
                    ],
                    ..l
                },
            ),
        }
    }
}

/// Whether a ledger went from `before` to `after` as `outcome` says: to its
/// new state on success, and nowhere on failure.
pub open spec fn applied(before: LedgerView, after: LedgerView, r: Result<(), TransactionError>, outcome: Result<LedgerView, TransactionError>) -> bool {
    match outcome {
        Ok(next) => r is Ok && after == next,
        Err(e) => r == Err::<(), TransactionError>(e) && after == before,
    }
}

/// Opens `issuer`'s payment request `payment_id` for `total_amount`.
pub fn initialize_vault(ledger: &mut Ledger, issuer: Pubkey, payment_id: u32, total_amount: u64) -> (r: Result<(), TransactionError>)
    requires
        old(ledger).wf(),
    ensures
        final(ledger).wf(),
        applied(old(ledger)@, final(ledger)@, r, initialize_vault_outcome(old(ledger)@, issuer, payment_id, total_amount)),
{
    if ledger.vault(issuer, payment_id).is_some() {
        return Err(TransactionError::AccountAlreadyInUse);
    }
    let ctx = InitializeVault {
        issuer,
        vault_bump: CANONICAL_BUMP,
        vault_authority: derive_address(Seed::VaultAuthority, issuer, payment_id),
    };
    let (vault, events) = initialize_vault::handler(&ctx, payment_id, total_amount);
    ledger.vaults.insert(derive_address(Seed::Vault, issuer, payment_id), vault);
    ledger.log(events);
    Ok(())
}

/// `payer` contributes `amount` lamports to the pooled balance of `issuer`'s
/// payment `payment_id`.
pub fn pay(ledger: &mut Ledger, payer: Pubkey, issuer: Pubkey, payment_id: u32, amount: u64) -> (r: Result<(), TransactionError>)
    requires
        old(ledger).wf(),
    ensures
        final(ledger).wf(),
        applied(old(ledger)@, final(ledger)@, r, pay_outcome(old(ledger)@, payer, issuer, payment_id, amount)),
{
    let vault = match ledger.vault(issuer, payment_id) {
        Some(v) => v,
        None => return Err(TransactionError::AccountNotInitialized),
    };
    let payer_address = Address::Key(payer);
    let authority = derive_address(Seed::VaultAuthority, issuer, payment_id);
    let mut ctx = Pay {
        payer,
        payer_lamports: ledger.balance(&payer_address),
        issuer,
        vault,
        vault_authority_lamports: ledger.balance(&authority),
    };
    let events = pay::handler(&mut ctx, payment_id, amount)?;
    ledger.balances.insert(payer_address, ctx.payer_lamports);
    ledger.balances.insert(authority, ctx.vault_authority_lamports);
    ledger.vaults.insert(derive_address(Seed::Vault, issuer, payment_id), ctx.vault);
    ledger.log(events);
    Ok(())
}

/// `issuer` withdraws the pooled balance of finalized payment `payment_id`,
/// above the reserve, and closes its record.
pub fn close_vault(ledger: &mut Ledger, issuer: Pubkey, payment_id: u32) -> (r: Result<(), TransactionError>)
    requires
        old(ledger).wf(),
    ensures
        final(ledger).wf(),
        applied(old(ledger)@, final(ledger)@, r, close_vault_outcome(old(ledger)@, issuer, payment_id)),
{
    let vault = match ledger.vault(issuer, payment_id) {
        Some(v) => v,
        None => return Err(TransactionError::AccountNotInitialized),
    };
    let issuer_address = Address::Key(issuer);
    let authority = derive_address(Seed::VaultAuthority, issuer, payment_id);
    let mut ctx = CloseVault {
        issuer,
        issuer_lamports: ledger.balance(&issuer_address),
        vault,
        vault_authority_lamports: ledger.balance(&authority),
        minimum_reserve: ledger.minimum_reserve,
    };
    close_vault::handler(&mut ctx, payment_id)?;
    ledger.balances.insert(issuer_address, ctx.issuer_lamports);
    ledger.balances.insert(authority, ctx.vault_authority_lamports);
    ledger.vaults.remove(&derive_address(Seed::Vault, issuer, payment_id));
    Ok(())
}

/// `participant` commits `amount` lamports to `issuer`'s payment `payment_id`
/// through a participant vault of their own.
pub fn participate(ledger: &mut Ledger, participant: Pubkey, issuer: Pubkey, payment_id: u32, amount: u64) -> (r: Result<
    (),
    TransactionError,
>)
    requires
        old(ledger).wf(),
    ensures
        final(ledger).wf(),
        applied(old(ledger)@, final(ledger)@, r, participate_outcome(old(ledger)@, participant, issuer, payment_id, amount)),
{
    let vault = match ledger.vault(issuer, payment_id) {
        Some(v) => v,
        None => return Err(TransactionError::AccountNotInitialized),
    };
    if ledger.participant_vault(participant, payment_id).is_some() {
        return Err(TransactionError::AccountAlreadyInUse);
    }
    let participant_address = Address::Key(participant);
    let authority = derive_address(Seed::ParticipantVaultAuthority, participant, payment_id);
    let mut ctx = CreateParticipantVault {
        participant,
        participant_lamports: ledger.balance(&participant_address),
        vault,
        participant_vault_bump: CANONICAL_BUMP,
        participant_vault_authority_lamports: ledger.balance(&authority),
    };
    let record = create_participant_vault::handler(&mut ctx, payment_id, amount)?;
    ledger.balances.insert(participant_address, ctx.participant_lamports);
    ledger.balances.insert(authority, ctx.participant_vault_authority_lamports);
    ledger.participant_vaults.insert(derive_address(Seed::ParticipantVault, participant, payment_id), record);
    Ok(())
}

/// `issuer` cancels payment `payment_id`, offering `candidates` as the
/// accounts to be checked for outstanding dedicated contributions.
pub fn cancel_payment(ledger: &mut Ledger, issuer: Pubkey, payment_id: u32, candidates: Vec<AccountData>) -> (r: Result<
    (),
    TransactionError,
>)
    requires
        old(ledger).wf(),
    ensures
        final(ledger).wf(),
        applied(old(ledger)@, final(ledger)@, r, cancel_payment_outcome(old(ledger)@, issuer, payment_id, candidates)),
{
    let vault = match ledger.vault(issuer, payment_id) {
        Some(v) => v,
        None => return Err(TransactionError::AccountNotInitialized),
    };
    let mut ctx = CancelPayment { issuer, vault, program_id: ledger.program_id, remaining_accounts: candidates };
    let events = cancel_payment::handler(&mut ctx, payment_id)?;
    ledger.vaults.insert(derive_address(Seed::Vault, issuer, payment_id), ctx.vault);
    ledger.log(events);
    Ok(())
}

/// `issuer` finalizes payment `payment_id` whatever its pooled balance.
pub fn close_payment_vault(ledger: &mut Ledger, issuer: Pubkey, payment_id: u32) -> (r: Result<(), TransactionError>)
    requires
        old(ledger).wf(),
    ensures
        final(ledger).wf(),
        applied(old(ledger)@, final(ledger)@, r, close_payment_vault_outcome(old(ledger)@, issuer, payment_id)),
{
    let vault = match ledger.vault(issuer, payment_id) {
        Some(v) => v,
        None => return Err(TransactionError::AccountNotInitialized),
    };
    let mut ctx = ClosePaymentVault { issuer, vault };
    let events = close_payment_vault::handler(&mut ctx, payment_id)?;
    ledger.vaults.insert(derive_address(Seed::Vault, issuer, payment_id), ctx.vault);
    ledger.log(events);
    Ok(())
}

/// `issuer` hands `participant` their dedicated contribution to payment
/// `payment_id` back and closes the participant vault record.
pub fn refund_participant(ledger: &mut Ledger, issuer: Pubkey, participant: Pubkey, payment_id: u32) -> (r: Result<
    (),
    TransactionError,
>)
    requires
        old(ledger).wf(),
    ensures
        final(ledger).wf(),
        applied(old(ledger)@, final(ledger)@, r, refund_participant_outcome(old(ledger)@, issuer, participant, payment_id)),
{
    let vault = match ledger.vault(issuer, payment_id) {
        Some(v) => v,
        None => return Err(TransactionError::AccountNotInitialized),
    };
    let participant_vault = match ledger.participant_vault(participant, payment_id) {
        Some(v) => v,
        None => return Err(TransactionError::AccountNotInitialized),
    };
    let participant_address = Address::Key(participant);
    let authority = derive_address(Seed::ParticipantVaultAuthority, participant, payment_id);
    let mut ctx = RefundParticipant {
        issuer,
        participant,
        participant_lamports: ledger.balance(&participant_address),
        vault,
        participant_vault,
        participant_vault_authority_lamports: ledger.balance(&authority),
    };
    let events = refund_participant::handler(&mut ctx, payment_id)?;
    ledger.balances.insert(participant_address, ctx.participant_lamports);
    ledger.balances.insert(authority, ctx.participant_vault_authority_lamports);
    ledger.participant_vaults.remove(&derive_address(Seed::ParticipantVault, participant, payment_id));
    ledger.log(events);
    Ok(())
}

} // verus!

verus! {

/// One operation of the program, with its signer and arguments.
pub enum Instruction {
    InitializeVault { issuer: Pubkey, payment_id: u32, total_amount: u64 },
    Pay { payer: Pubkey, issuer: Pubkey, payment_id: u32, amount: u64 },
    CloseVault { issuer: Pubkey, payment_id: u32 },
    Participate { participant: Pubkey, issuer: Pubkey, payment_id: u32, amount: u64 },
    CancelPayment { issuer: Pubkey, payment_id: u32, candidates: Vec<AccountData> },
    ClosePaymentVault { issuer: Pubkey, payment_id: u32 },
    RefundParticipant { issuer: Pubkey, participant: Pubkey, payment_id: u32 },
}

/// The ledger after `ins`, or why it fails.
pub open spec fn outcome(l: LedgerView, ins: Instruction) -> Result<LedgerView, TransactionError> {
    match ins {
        Instruction::InitializeVault { issuer, payment_id, total_amount } => initialize_vault_outcome(
            l,
            issuer,
            payment_id,
            total_amount,
        ),
        Instruction::Pay { payer, issuer, payment_id, amount } => pay_outcome(l, payer, issuer, payment_id, amount),
        Instruction::CloseVault { issuer, payment_id } => close_vault_outcome(l, issuer, payment_id),
        Instruction::Participate { participant, issuer, payment_id, amount } => participate_outcome(
            l,
            participant,
            issuer,
            payment_id,
            amount,
        ),
        Instruction::CancelPayment { issuer, payment_id, candidates } => cancel_payment_outcome(
            l,
            issuer,
            payment_id,
            candidates,
        ),
        Instruction::ClosePaymentVault { issuer, payment_id } => close_payment_vault_outcome(l, issuer, payment_id),
        Instruction::RefundParticipant { issuer, participant, payment_id } => refund_participant_outcome(
            l,
            issuer,
            participant,
            payment_id,
        ),
    }
}

/// Applies `ins` to the ledger as one atomic transaction.
pub fn execute(ledger: &mut Ledger, ins: Instruction) -> (r: Result<(), TransactionError>)
    requires
        old(ledger).wf(),
    ensures
        final(ledger).wf(),
        applied(old(ledger)@, final(ledger)@, r, outcome(old(ledger)@, ins)),
{
    match ins {
        Instruction::InitializeVault { issuer, payment_id, total_amount } => initialize_vault(
            ledger,
            issuer,
            payment_id,
            total_amount,
        ),
        Instruction::Pay { payer, issuer, payment_id, amount } => pay(ledger, payer, issuer, payment_id, amount),
        Instruction::CloseVault { issuer, payment_id } => close_vault(ledger, issuer, payment_id),
        Instruction::Participate { participant, issuer, payment_id, amount } => participate(
            ledger,
            participant,
            issuer,
            payment_id,
            amount,
        ),
        Instruction::CancelPayment { issuer, payment_id, candidates } => cancel_payment(
            ledger,
            issuer,
            payment_id,
            candidates,
        ),
        Instruction::ClosePaymentVault { issuer, payment_id } => close_payment_vault(ledger, issuer, payment_id),
        Instruction::RefundParticipant { issuer, participant, payment_id } => refund_participant(
            ledger,
            issuer,
            participant,
            payment_id,
        ),
    }
}

} // verus!
