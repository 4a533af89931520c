use vstd::prelude::*;
use crate::errors::{DiviError, TransactionError};
use crate::instructions::cancel_payment::offers_outstanding_participant;
use crate::instructions::cancel_payment::CancelPayment;
use crate::ledger::{
    is_system_program,
    participant_vault_address,
    participant_vault_authority_address,
    vault_address,
    vault_authority_address,
    LedgerView,
};
use crate::program::{
    cancel_payment_outcome,
    close_vault_outcome,
    outcome,
    pay_outcome,
    refund_participant_outcome,
    Instruction,
};
use crate::states::{Address, ParticipantVault, Pubkey};
use crate::utils::{holds_participant_vault_of, lemma_image_holds_its_payment_id, participant_vault_image, AccountData};

verus! {

/// Every record sits at the address derived from its own issuer (or
/// participant) and payment id, and a vault's custody address is the one
/// derived for it.
pub open spec fn records_at_their_addresses(l: LedgerView) -> bool {
    &&& forall|k: Address| #[trigger]
        l.vaults.contains_key(k) ==> k == vault_address(l.vaults[k].issuer, l.vaults[k].payment_id)
            && l.vaults[k].authority == vault_authority_address(l.vaults[k].issuer, l.vaults[k].payment_id)
    &&& forall|k: Address| #[trigger]
        l.participant_vaults.contains_key(k) ==> k == participant_vault_address(
            l.participant_vaults[k].participant,
            l.participant_vaults[k].payment_id,
        )
}

/// Every operation keeps each record at the address derived from its own
/// fields.
pub proof fn lemma_records_stay_at_their_addresses(l: LedgerView, ins: Instruction)
    requires
        records_at_their_addresses(l),
        outcome(l, ins) is Ok,
    ensures
        records_at_their_addresses(outcome(l, ins)->Ok_0),
{
}

/// The ledger after the pooled contributions `payments` (payer, amount) to
/// `issuer`'s payment `payment_id`, one after another; a failed one leaves
/// the ledger as it was.
pub open spec fn after_payments(l: LedgerView, issuer: Pubkey, payment_id: u32, payments: Seq<(Pubkey, u64)>) -> LedgerView
    decreases payments.len(),
{
    if payments.len() == 0 {
        l
    } else {
        let before = after_payments(l, issuer, payment_id, payments.drop_last());
        match pay_outcome(before, payments.last().0, issuer, payment_id, payments.last().1) {
            Ok(next) => next,
            Err(_) => before,
        }
    }
}

/// Over any sequence of pooled contributions to one vault, the balance of its
/// custody address never exceeds the vault's total, which stays as it was.
pub proof fn lemma_pooled_balance_never_exceeds_total(
    l: LedgerView,
    issuer: Pubkey,
    payment_id: u32,
    payments: Seq<(Pubkey, u64)>,
)
    requires
        l.vaults.contains_key(vault_address(issuer, payment_id)),
        l.balance(vault_authority_address(issuer, payment_id)) <= l.vaults[vault_address(
            issuer,
            payment_id,
        )].total_amount,
    ensures
        ({
            let after = after_payments(l, issuer, payment_id, payments);
            &&& after.vaults.contains_key(vault_address(issuer, payment_id))
            &&& after.vaults[vault_address(issuer, payment_id)].total_amount == l.vaults[vault_address(
                issuer,
                payment_id,
            )].total_amount
            &&& after.balance(vault_authority_address(issuer, payment_id)) <= after.vaults[vault_address(
                issuer,
                payment_id,
            )].total_amount
        }),
    decreases payments.len(),
{
    if payments.len() > 0 {
        lemma_pooled_balance_never_exceeds_total(l, issuer, payment_id, payments.drop_last());
    }
}

/// A pooled contribution to an open vault that is within the vault's total
/// but above what is still missing fails with the remaining-amount error.
pub proof fn lemma_pay_rejects_more_than_remaining(
    l: LedgerView,
    payer: Pubkey,
    issuer: Pubkey,
    payment_id: u32,
    amount: u64,
)
    requires
        l.vaults.contains_key(vault_address(issuer, payment_id)),
        !l.vaults[vault_address(issuer, payment_id)].is_finalized,
        amount <= l.vaults[vault_address(issuer, payment_id)].total_amount,
        amount > l.vaults[vault_address(issuer, payment_id)].total_amount - l.balance(
            vault_authority_address(issuer, payment_id),
        ),
    ensures
        pay_outcome(l, payer, issuer, payment_id, amount) == Err::<LedgerView, TransactionError>(
            TransactionError::Program(DiviError::AmountIsGreaterThanRemainingVaultAmount),
        ),
{
}

/// No operation takes a vault back from finalized, or changes its total; a
/// vault is created open; and an open vault becomes finalized only through a
/// pooled contribution that brings its balance up to exactly its total, or
/// through its issuer's manual finalization.
pub proof fn lemma_finalization_moves_forward_only(l: LedgerView, ins: Instruction, k: Address)
    requires
        outcome(l, ins) is Ok,
        outcome(l, ins)->Ok_0.vaults.contains_key(k),
    ensures
        ({
            let next = outcome(l, ins)->Ok_0;
            &&& !l.vaults.contains_key(k) ==> !next.vaults[k].is_finalized
            &&& l.vaults.contains_key(k) ==> next.vaults[k].total_amount == l.vaults[k].total_amount
            &&& l.vaults.contains_key(k) && l.vaults[k].is_finalized ==> next.vaults[k].is_finalized
            &&& l.vaults.contains_key(k) && !l.vaults[k].is_finalized && next.vaults[k].is_finalized ==> match ins {
                Instruction::Pay { issuer, payment_id, .. } => k == vault_address(issuer, payment_id)
                    && next.balance(vault_authority_address(issuer, payment_id)) == next.vaults[k].total_amount,
                Instruction::ClosePaymentVault { issuer, payment_id } => k == vault_address(issuer, payment_id)
                    && l.vaults[k].issuer == issuer,
                _ => false,
            }
        }),
{
}

/// Where the vault exists, its caller is its issuer and the credit fits, a
/// withdrawal succeeds exactly when the vault is finalized; it then moves the
/// pooled balance above the reserve (nothing where the balance does not
/// exceed it) to the issuer, and the vault record is gone.
pub proof fn lemma_close_vault_exactly_when_finalized(l: LedgerView, issuer: Pubkey, payment_id: u32)
    requires
        records_at_their_addresses(l),
        l.vaults.contains_key(vault_address(issuer, payment_id)),
        l.balance(Address::Key(issuer)) + l.balance(vault_authority_address(issuer, payment_id)) <= u64::MAX,
    ensures
        ({
            let balance = l.balance(vault_authority_address(issuer, payment_id));
            let moved = if balance > l.minimum_reserve {
                balance - l.minimum_reserve
            } else {
                0
            };
            let r = close_vault_outcome(l, issuer, payment_id);
            &&& r is Ok <==> l.vaults[vault_address(issuer, payment_id)].is_finalized
            &&& r is Ok ==> {
                let next = r->Ok_0;
                &&& next.balance(Address::Key(issuer)) == l.balance(Address::Key(issuer)) + moved
                &&& next.balance(vault_authority_address(issuer, payment_id)) == balance - moved
                &&& !next.vaults.contains_key(vault_address(issuer, payment_id))
            }
        }),
{
    assert(l.vaults[vault_address(issuer, payment_id)].issuer == issuer);
}

/// Where both records exist and the credit fits, the vault's issuer refunds
/// a participant exactly when the vault is not finalized; the participant's
/// custody address then holds nothing, its whole former balance is the
/// participant's, and the participant vault record is gone.
pub proof fn lemma_refund_exactly_when_open(l: LedgerView, issuer: Pubkey, participant: Pubkey, payment_id: u32)
    requires
        records_at_their_addresses(l),
        l.vaults.contains_key(vault_address(issuer, payment_id)),
        l.participant_vaults.contains_key(participant_vault_address(participant, payment_id)),
        l.balance(Address::Key(participant)) + l.balance(
            participant_vault_authority_address(participant, payment_id),
        ) <= u64::MAX,
    ensures
        ({
            let r = refund_participant_outcome(l, issuer, participant, payment_id);
            &&& r is Ok <==> !l.vaults[vault_address(issuer, payment_id)].is_finalized
            &&& r is Ok ==> {
                let next = r->Ok_0;
                &&& next.balance(participant_vault_authority_address(participant, payment_id)) == 0
                &&& next.balance(Address::Key(participant)) == l.balance(Address::Key(participant))
                    + l.balance(participant_vault_authority_address(participant, payment_id))
                &&& !next.participant_vaults.contains_key(participant_vault_address(participant, payment_id))
            }
        }),
{
    assert(l.vaults[vault_address(issuer, payment_id)].issuer == issuer);
    assert(l.participant_vaults[participant_vault_address(participant, payment_id)].participant == participant);
}

/// Where the vault exists and its issuer asks, a cancellation fails exactly
/// when one of the offered accounts holds a participant vault record of the
/// payment, and on success the vault is marked cancelled.
pub proof fn lemma_cancel_blocked_by_outstanding_participant(
    l: LedgerView,
    issuer: Pubkey,
    payment_id: u32,
    candidates: Vec<AccountData>,
)
    requires
        records_at_their_addresses(l),
        l.vaults.contains_key(vault_address(issuer, payment_id)),
    ensures
        ({
            let r = cancel_payment_outcome(l, issuer, payment_id, candidates);
            &&& r is Err <==> exists|i: int|
                0 <= i < candidates@.len() && holds_participant_vault_of(
                    #[trigger] candidates@[i].owner,
                    candidates@[i].data@,
                    payment_id,
                    l.program_id,
                )
            &&& r is Ok ==> r->Ok_0.vaults[vault_address(issuer, payment_id)].is_cancelled
        }),
{
    let vault = l.vaults[vault_address(issuer, payment_id)];
    assert(vault.issuer == issuer);
    let ctx = CancelPayment { issuer, vault, program_id: l.program_id, remaining_accounts: candidates };
    assert(ctx.remaining_accounts@ == candidates@);
    if offers_outstanding_participant(ctx, payment_id) {
        let i = choose|i: int|
            0 <= i < ctx.remaining_accounts@.len() && holds_participant_vault_of(
                #[trigger] ctx.remaining_accounts@[i].owner,
                ctx.remaining_accounts@[i].data@,
                payment_id,
                ctx.program_id,
            );
        assert(holds_participant_vault_of(candidates@[i].owner, candidates@[i].data@, payment_id, l.program_id));
    }
    if exists|i: int|
        0 <= i < candidates@.len() && holds_participant_vault_of(
            #[trigger] candidates@[i].owner,
            candidates@[i].data@,
            payment_id,
            l.program_id,
        ) {
        let i = choose|i: int|
            0 <= i < candidates@.len() && holds_participant_vault_of(
                #[trigger] candidates@[i].owner,
                candidates@[i].data@,
                payment_id,
                l.program_id,
            );
        assert(holds_participant_vault_of(
            ctx.remaining_accounts@[i].owner,
            ctx.remaining_accounts@[i].data@,
            payment_id,
            ctx.program_id,
        ));
    }
}

/// The account at a participant vault address, as the ledger hands it out,
/// holds a participant vault record of `payment_id` exactly when the record
/// exists: a live record counts, a refunded one does not.
pub proof fn lemma_participant_account_is_evidence(l: LedgerView, participant: Pubkey, payment_id: u32, account: AccountData)
    requires
        records_at_their_addresses(l),
        if l.participant_vaults.contains_key(participant_vault_address(participant, payment_id)) {
            account.owner == l.program_id && account.data@ == participant_vault_image(
                l.participant_vaults[participant_vault_address(participant, payment_id)],
            )
        } else {
            is_system_program(account.owner) && account.data@.len() == 0
        },
    ensures
        holds_participant_vault_of(account.owner, account.data@, payment_id, l.program_id)
            <==> l.participant_vaults.contains_key(participant_vault_address(participant, payment_id)),
{
    let k = participant_vault_address(participant, payment_id);
    if l.participant_vaults.contains_key(k) {
        let record: ParticipantVault = l.participant_vaults[k];
        assert(record.payment_id == payment_id);
        lemma_image_holds_its_payment_id(record, payment_id, l.program_id);
    }
}

} // verus!
