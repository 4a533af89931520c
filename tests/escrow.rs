use divi::errors::{DiviError, TransactionError};
use divi::events::{Event, ParticipantPaid, ParticipantRefunded, VaultCancelled, VaultCompleted, VaultCreated};
use divi::ledger::{Ledger, CANONICAL_BUMP};
use divi::program::{execute, Instruction};
use divi::states::{derive_address, Address, Pubkey, Seed};
use divi::{
    cancel_payment, close_payment_vault, close_vault, initialize_vault, participate, pay,
    refund_participant,
};

fn key(n: u8) -> Pubkey {
    Pubkey::new_from_array([n; 32])
}

fn program() -> Pubkey {
    key(7)
}

fn issuer() -> Pubkey {
    key(1)
}

fn payer() -> Pubkey {
    key(2)
}

fn participant() -> Pubkey {
    key(3)
}

fn authority() -> Address {
    derive_address(Seed::VaultAuthority, issuer(), 1)
}

fn opened(reserve: u64) -> Ledger {
    let mut ledger = Ledger::new(program(), reserve);
    ledger.airdrop(payer(), 5_000).unwrap();
    ledger.airdrop(participant(), 5_000).unwrap();
    initialize_vault(&mut ledger, issuer(), 1, 1000).unwrap();
    ledger
}

fn funded(reserve: u64) -> Ledger {
    let mut ledger = opened(reserve);
    pay(&mut ledger, payer(), issuer(), 1, 400).unwrap();
    pay(&mut ledger, payer(), issuer(), 1, 600).unwrap();
    ledger
}

#[test]
fn initialize_creates_open_vault() {
    let ledger = opened(0);
    let vault = ledger.vault(issuer(), 1).unwrap();
    assert_eq!(vault.total_amount, 1000);
    assert!(!vault.is_finalized);
    assert!(!vault.is_cancelled);
    assert_eq!(vault.issuer, issuer());
    assert_eq!(vault.payment_id, 1);
    assert_eq!(vault.authority, authority());
    assert_eq!(ledger.balance(&authority()), 0);
    assert_eq!(
        ledger.events().clone(),
        vec![Event::VaultCreated(VaultCreated { issuer: issuer(), payment_id: 1, bump: CANONICAL_BUMP })]
    );
}

#[test]
fn initialize_twice_is_refused() {
    let mut ledger = opened(0);
    assert_eq!(
        initialize_vault(&mut ledger, issuer(), 1, 50),
        Err(TransactionError::AccountAlreadyInUse)
    );
    assert_eq!(ledger.vault(issuer(), 1).unwrap().total_amount, 1000);
}

#[test]
fn first_payment_stays_open() {
    let mut ledger = opened(0);
    pay(&mut ledger, payer(), issuer(), 1, 400).unwrap();
    assert_eq!(ledger.balance(&authority()), 400);
    assert_eq!(ledger.balance(&Address::Key(payer())), 4_600);
    assert!(!ledger.vault(issuer(), 1).unwrap().is_finalized);
    let events = ledger.events().clone();
    assert_eq!(events.len(), 2);
    assert_eq!(
        events[1],
        Event::ParticipantPaid(ParticipantPaid {
            issuer: issuer(),
            payer: payer(),
            payment_id: 1,
            bump: CANONICAL_BUMP,
        })
    );
    assert!(!events.iter().any(|e| matches!(e, Event::VaultCompleted(_))));
}

#[test]
fn payment_reaching_total_finalizes() {
    let ledger = funded(0);
    assert_eq!(ledger.balance(&authority()), 1000);
    assert!(ledger.vault(issuer(), 1).unwrap().is_finalized);
    let events = ledger.events().clone();
    assert_eq!(events.len(), 4);
    assert_eq!(
        events[2],
        Event::ParticipantPaid(ParticipantPaid {
            issuer: issuer(),
            payer: payer(),
            payment_id: 1,
            bump: CANONICAL_BUMP,
        })
    );
    assert_eq!(
        events[3],
        Event::VaultCompleted(VaultCompleted { issuer: issuer(), payment_id: 1, bump: CANONICAL_BUMP })
    );
}

#[test]
fn payment_after_finalization_fails() {
    let mut ledger = funded(0);
    assert_eq!(
        pay(&mut ledger, payer(), issuer(), 1, 1),
        Err(TransactionError::Program(DiviError::VaultIsAlreadyFinalized))
    );
    assert_eq!(ledger.balance(&authority()), 1000);
    assert_eq!(ledger.events().len(), 4);
}

#[test]
fn payment_above_total_fails() {
    let mut ledger = opened(0);
    assert_eq!(
        pay(&mut ledger, payer(), issuer(), 1, 1001),
        Err(TransactionError::Program(DiviError::AmountIsGreaterThanVaultTotalAmount))
    );
    assert_eq!(ledger.balance(&authority()), 0);
}

#[test]
fn payment_above_remaining_fails() {
    let mut ledger = opened(0);
    pay(&mut ledger, payer(), issuer(), 1, 700).unwrap();
    assert_eq!(
        pay(&mut ledger, payer(), issuer(), 1, 301),
        Err(TransactionError::Program(DiviError::AmountIsGreaterThanRemainingVaultAmount))
    );
    assert_eq!(ledger.balance(&authority()), 700);
    pay(&mut ledger, payer(), issuer(), 1, 300).unwrap();
    assert_eq!(ledger.balance(&authority()), 1000);
}

#[test]
fn payments_never_overfill_the_vault() {
    let mut ledger = opened(0);
    for amount in [300u64, 500, 400, 250, 200, 1, 0] {
        let _ = pay(&mut ledger, payer(), issuer(), 1, amount);
        assert!(ledger.balance(&authority()) <= 1000);
    }
    assert_eq!(ledger.balance(&authority()), 1000);
    assert!(ledger.vault(issuer(), 1).unwrap().is_finalized);
}

#[test]
fn payment_beyond_wallet_fails() {
    let mut ledger = Ledger::new(program(), 0);
    ledger.airdrop(payer(), 10).unwrap();
    initialize_vault(&mut ledger, issuer(), 1, 1000).unwrap();
    assert_eq!(pay(&mut ledger, payer(), issuer(), 1, 11), Err(TransactionError::InsufficientFunds));
    assert_eq!(ledger.balance(&Address::Key(payer())), 10);
}

#[test]
fn payment_to_missing_vault_fails() {
    let mut ledger = opened(0);
    assert_eq!(pay(&mut ledger, payer(), issuer(), 2, 1), Err(TransactionError::AccountNotInitialized));
}

#[test]
fn close_vault_pays_issuer_above_reserve() {
    let mut ledger = funded(100);
    close_vault(&mut ledger, issuer(), 1).unwrap();
    assert_eq!(ledger.balance(&Address::Key(issuer())), 900);
    assert_eq!(ledger.balance(&authority()), 100);
    assert!(ledger.vault(issuer(), 1).is_none());
}

#[test]
fn close_vault_below_reserve_moves_nothing() {
    let mut ledger = opened(500);
    pay(&mut ledger, payer(), issuer(), 1, 300).unwrap();
    close_payment_vault(&mut ledger, issuer(), 1).unwrap();
    close_vault(&mut ledger, issuer(), 1).unwrap();
    assert_eq!(ledger.balance(&Address::Key(issuer())), 0);
    assert_eq!(ledger.balance(&authority()), 300);
    assert!(ledger.vault(issuer(), 1).is_none());
}

#[test]
fn close_vault_before_finalization_fails() {
    let mut ledger = opened(0);
    pay(&mut ledger, payer(), issuer(), 1, 400).unwrap();
    assert_eq!(
        close_vault(&mut ledger, issuer(), 1),
        Err(TransactionError::Program(DiviError::VaultIsNotFinalized))
    );
    assert!(ledger.vault(issuer(), 1).is_some());
    assert_eq!(ledger.balance(&authority()), 400);
}

#[test]
fn manual_finalization_once() {
    let mut ledger = opened(0);
    pay(&mut ledger, payer(), issuer(), 1, 400).unwrap();
    close_payment_vault(&mut ledger, issuer(), 1).unwrap();
    let vault = ledger.vault(issuer(), 1).unwrap();
    assert!(vault.is_finalized);
    assert_eq!(
        *ledger.events().last().unwrap(),
        Event::VaultCompleted(VaultCompleted { issuer: issuer(), payment_id: 1, bump: CANONICAL_BUMP })
    );
    assert_eq!(
        close_payment_vault(&mut ledger, issuer(), 1),
        Err(TransactionError::Program(DiviError::PaymentAlreadyFinalized))
    );
    assert_eq!(
        pay(&mut ledger, payer(), issuer(), 1, 1),
        Err(TransactionError::Program(DiviError::VaultIsAlreadyFinalized))
    );
}

#[test]
fn cancel_waits_for_refunds() {
    let mut ledger = opened(0);
    participate(&mut ledger, participant(), issuer(), 1, 200).unwrap();
    let record = ledger.participant_vault(participant(), 1).unwrap();
    assert_eq!(record.amount, 200);
    assert_eq!(record.issuer, issuer());
    let pv_authority = derive_address(Seed::ParticipantVaultAuthority, participant(), 1);
    assert_eq!(ledger.balance(&pv_authority), 200);
    assert_eq!(ledger.balance(&authority()), 0);

    let candidate = ledger.participant_vault_account(participant(), 1);
    assert_eq!(
        cancel_payment(&mut ledger, issuer(), 1, vec![candidate]),
        Err(TransactionError::Program(DiviError::NotAllParticipantsRefunded))
    );
    assert!(!ledger.vault(issuer(), 1).unwrap().is_cancelled);

    refund_participant(&mut ledger, issuer(), participant(), 1).unwrap();
    assert_eq!(ledger.balance(&pv_authority), 0);
    assert_eq!(ledger.balance(&Address::Key(participant())), 5_000);
    assert!(ledger.participant_vault(participant(), 1).is_none());
    assert_eq!(
        *ledger.events().last().unwrap(),
        Event::ParticipantRefunded(ParticipantRefunded {
            issuer: issuer(),
            payment_id: 1,
            bump: CANONICAL_BUMP,
            participant: participant(),
        })
    );

    let candidate = ledger.participant_vault_account(participant(), 1);
    cancel_payment(&mut ledger, issuer(), 1, vec![candidate]).unwrap();
    assert!(ledger.vault(issuer(), 1).unwrap().is_cancelled);
    assert_eq!(
        *ledger.events().last().unwrap(),
        Event::VaultCancelled(VaultCancelled { issuer: issuer(), payment_id: 1, bump: CANONICAL_BUMP })
    );
}

#[test]
fn cancel_with_no_candidates_succeeds() {
    let mut ledger = opened(0);
    participate(&mut ledger, participant(), issuer(), 1, 200).unwrap();
    cancel_payment(&mut ledger, issuer(), 1, vec![]).unwrap();
    assert!(ledger.vault(issuer(), 1).unwrap().is_cancelled);
}

#[test]
fn participant_of_other_payment_does_not_block_cancel() {
    let mut ledger = opened(0);
    initialize_vault(&mut ledger, issuer(), 2, 1000).unwrap();
    participate(&mut ledger, participant(), issuer(), 2, 200).unwrap();
    let candidate = ledger.participant_vault_account(participant(), 2);
    cancel_payment(&mut ledger, issuer(), 1, vec![candidate]).unwrap();
}

#[test]
fn participate_twice_is_refused() {
    let mut ledger = opened(0);
    participate(&mut ledger, participant(), issuer(), 1, 200).unwrap();
    assert_eq!(
        participate(&mut ledger, participant(), issuer(), 1, 100),
        Err(TransactionError::AccountAlreadyInUse)
    );
    assert_eq!(ledger.balance(&Address::Key(participant())), 4_800);
}

#[test]
fn participate_does_not_count_toward_pooled_total() {
    let mut ledger = opened(0);
    participate(&mut ledger, participant(), issuer(), 1, 2_000).unwrap();
    assert_eq!(ledger.balance(&authority()), 0);
    assert!(!ledger.vault(issuer(), 1).unwrap().is_finalized);
}

#[test]
fn refund_after_finalization_fails() {
    let mut ledger = opened(0);
    participate(&mut ledger, participant(), issuer(), 1, 200).unwrap();
    pay(&mut ledger, payer(), issuer(), 1, 1000).unwrap();
    assert_eq!(
        refund_participant(&mut ledger, issuer(), participant(), 1),
        Err(TransactionError::Program(DiviError::PaymentAlreadyFinalized))
    );
    assert!(ledger.participant_vault(participant(), 1).is_some());
}

#[test]
fn refund_without_record_fails() {
    let mut ledger = opened(0);
    assert_eq!(
        refund_participant(&mut ledger, issuer(), participant(), 1),
        Err(TransactionError::AccountNotInitialized)
    );
}

#[test]
fn airdrop_overflow_is_refused() {
    let mut ledger = Ledger::new(program(), 0);
    ledger.airdrop(payer(), u64::MAX).unwrap();
    assert_eq!(ledger.airdrop(payer(), 1), Err(TransactionError::ArithmeticOverflow));
    assert_eq!(ledger.balance(&Address::Key(payer())), u64::MAX);
}

#[test]
fn execute_dispatches_instructions() {
    let mut ledger = Ledger::new(program(), 0);
    ledger.airdrop(payer(), 1_000).unwrap();
    execute(&mut ledger, Instruction::InitializeVault { issuer: issuer(), payment_id: 9, total_amount: 100 })
        .unwrap();
    execute(&mut ledger, Instruction::Pay { payer: payer(), issuer: issuer(), payment_id: 9, amount: 100 })
        .unwrap();
    assert!(ledger.vault(issuer(), 9).unwrap().is_finalized);
    execute(&mut ledger, Instruction::CloseVault { issuer: issuer(), payment_id: 9 }).unwrap();
    assert_eq!(ledger.balance(&Address::Key(issuer())), 100);
    assert!(ledger.vault(issuer(), 9).is_none());
}
