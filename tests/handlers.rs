use divi::constants::sol_to_lamports;
use divi::errors::{DiviError, TransactionError};
use divi::instructions::cancel_payment::{self, CancelPayment};
use divi::instructions::close_payment_vault::{self, ClosePaymentVault};
use divi::instructions::close_vault::{self, CloseVault};
use divi::instructions::create_participant_vault::{self, CreateParticipantVault};
use divi::instructions::initialize_vault::{self, InitializeVault};
use divi::instructions::pay::{self, Pay};
use divi::instructions::refund_participant::{self, RefundParticipant};
use divi::states::{derive_address, Address, ParticipantVault, PaymentVault, Pubkey, Seed};
use divi::utils::{encode_participant_vault, is_valid_participant_vault, AccountData};

fn key(n: u8) -> Pubkey {
    Pubkey::new_from_array([n; 32])
}

fn vault(finalized: bool) -> PaymentVault {
    PaymentVault {
        issuer: key(1),
        total_amount: 1000,
        is_finalized: finalized,
        is_cancelled: false,
        bump: 254,
        payment_id: 1,
        authority: derive_address(Seed::VaultAuthority, key(1), 1),
    }
}

fn record(payment_id: u32) -> ParticipantVault {
    ParticipantVault { issuer: key(1), payment_id, participant: key(3), amount: 200, bump: 253 }
}

#[test]
fn initialize_handler_fills_record() {
    let ctx = InitializeVault { issuer: key(1), vault_bump: 254, vault_authority: Address::Key(key(9)) };
    let (v, events) = initialize_vault::handler(&ctx, 4, 77);
    assert_eq!(v.total_amount, 77);
    assert_eq!(v.payment_id, 4);
    assert_eq!(v.bump, 254);
    assert_eq!(v.authority, Address::Key(key(9)));
    assert!(!v.is_finalized);
    assert_eq!(events.len(), 1);
}

#[test]
fn pay_handler_moves_funds() {
    let mut ctx = Pay { payer: key(2), payer_lamports: 500, issuer: key(1), vault: vault(false), vault_authority_lamports: 100 };
    let events = pay::handler(&mut ctx, 1, 300).unwrap();
    assert_eq!(ctx.payer_lamports, 200);
    assert_eq!(ctx.vault_authority_lamports, 400);
    assert!(!ctx.vault.is_finalized);
    assert_eq!(events.len(), 1);
}

#[test]
fn pay_handler_rejects_when_balance_exceeds_total() {
    let mut ctx = Pay { payer: key(2), payer_lamports: 500, issuer: key(1), vault: vault(false), vault_authority_lamports: 1200 };
    assert_eq!(
        pay::handler(&mut ctx, 1, 0),
        Err(TransactionError::Program(DiviError::AmountIsGreaterThanRemainingVaultAmount))
    );
    assert_eq!(ctx.vault_authority_lamports, 1200);
}

#[test]
fn close_vault_handler_checks_issuer() {
    let mut ctx = CloseVault { issuer: key(5), issuer_lamports: 0, vault: vault(true), vault_authority_lamports: 10, minimum_reserve: 0 };
    assert_eq!(
        close_vault::handler(&mut ctx, 1),
        Err(TransactionError::Program(DiviError::InvalidVaultAuthority))
    );
}

#[test]
fn close_vault_handler_overflow() {
    let mut ctx = CloseVault { issuer: key(1), issuer_lamports: u64::MAX, vault: vault(true), vault_authority_lamports: 10, minimum_reserve: 0 };
    assert_eq!(close_vault::handler(&mut ctx, 1), Err(TransactionError::ArithmeticOverflow));
    assert_eq!(ctx.vault_authority_lamports, 10);
}

#[test]
fn close_vault_handler_returns_moved_amount() {
    let mut ctx = CloseVault { issuer: key(1), issuer_lamports: 5, vault: vault(true), vault_authority_lamports: 1000, minimum_reserve: 890 };
    assert_eq!(close_vault::handler(&mut ctx, 1), Ok(110));
    assert_eq!(ctx.issuer_lamports, 115);
    assert_eq!(ctx.vault_authority_lamports, 890);
}

#[test]
fn close_payment_vault_handler_checks_issuer() {
    let mut ctx = ClosePaymentVault { issuer: key(5), vault: vault(false) };
    assert_eq!(
        close_payment_vault::handler(&mut ctx, 1),
        Err(TransactionError::Program(DiviError::InvalidVaultAuthority))
    );
    assert!(!ctx.vault.is_finalized);
}

#[test]
fn create_participant_vault_handler_records_contribution() {
    let mut ctx = CreateParticipantVault {
        participant: key(3),
        participant_lamports: 300,
        vault: vault(false),
        participant_vault_bump: 253,
        participant_vault_authority_lamports: 0,
    };
    let r = create_participant_vault::handler(&mut ctx, 1, 200).unwrap();
    assert_eq!(r, record(1));
    assert_eq!(ctx.participant_lamports, 100);
    assert_eq!(ctx.participant_vault_authority_lamports, 200);
    assert_eq!(create_participant_vault::handler(&mut ctx, 1, 101), Err(TransactionError::InsufficientFunds));
}

fn refund_ctx(participant_vault: ParticipantVault, participant: Pubkey, issuer: Pubkey) -> RefundParticipant {
    RefundParticipant {
        issuer,
        participant,
        participant_lamports: 0,
        vault: vault(false),
        participant_vault,
        participant_vault_authority_lamports: 200,
    }
}

#[test]
fn refund_handler_errors() {
    let mut ctx = refund_ctx(record(1), key(3), key(5));
    assert_eq!(
        refund_participant::handler(&mut ctx, 1),
        Err(TransactionError::Program(DiviError::InvalidVaultAuthority))
    );
    let mut ctx = refund_ctx(record(1), key(4), key(1));
    assert_eq!(
        refund_participant::handler(&mut ctx, 1),
        Err(TransactionError::Program(DiviError::InvalidParticipant))
    );
    let mut ctx = refund_ctx(record(2), key(3), key(1));
    assert_eq!(
        refund_participant::handler(&mut ctx, 1),
        Err(TransactionError::Program(DiviError::InvalidPaymentId))
    );
    assert_eq!(ctx.participant_vault_authority_lamports, 200);
    let mut ctx = refund_ctx(record(1), key(3), key(1));
    refund_participant::handler(&mut ctx, 1).unwrap();
    assert_eq!(ctx.participant_vault_authority_lamports, 0);
    assert_eq!(ctx.participant_lamports, 200);
}

#[test]
fn cancel_handler_checks_issuer() {
    let mut ctx = CancelPayment { issuer: key(5), vault: vault(false), program_id: key(7), remaining_accounts: vec![] };
    assert_eq!(
        cancel_payment::handler(&mut ctx, 1),
        Err(TransactionError::Program(DiviError::InvalidVaultAuthority))
    );
}

#[test]
fn encoded_record_layout() {
    let data = encode_participant_vault(&record(0x0403_0201));
    assert_eq!(data.len(), 85);
    assert_eq!(&data[0..8], &[73, 185, 15, 104, 93, 232, 88, 10]);
    assert_eq!(&data[8..40], &[1u8; 32]);
    assert_eq!(&data[40..44], &[1, 2, 3, 4]);
    assert_eq!(&data[44..76], &[3u8; 32]);
    assert_eq!(&data[76..84], &[200, 0, 0, 0, 0, 0, 0, 0]);
    assert_eq!(data[84], 253);
}

#[test]
fn valid_participant_vault_checks() {
    let program = key(7);
    let good = AccountData { owner: program, data: encode_participant_vault(&record(1)) };
    assert!(is_valid_participant_vault(&good, 1, &program));
    assert!(!is_valid_participant_vault(&good, 2, &program));
    let foreign = AccountData { owner: key(8), data: encode_participant_vault(&record(1)) };
    assert!(!is_valid_participant_vault(&foreign, 1, &program));
    let tag_only = AccountData { owner: program, data: vec![0u8; 8] };
    assert!(!is_valid_participant_vault(&tag_only, 0, &program));
    let mut short = encode_participant_vault(&record(1));
    short.pop();
    assert!(!is_valid_participant_vault(&AccountData { owner: program, data: short }, 1, &program));
    let empty = AccountData { owner: program, data: vec![] };
    assert!(!is_valid_participant_vault(&empty, 0, &program));
}

#[test]
fn keys_compare_by_bytes() {
    assert!(key(1).same_as(&key(1)));
    assert!(!key(1).same_as(&key(2)));
    let a = derive_address(Seed::Vault, key(1), 1);
    assert!(a.same_as(&Address::Derived(Seed::Vault, key(1), 1)));
    assert!(!a.same_as(&derive_address(Seed::VaultAuthority, key(1), 1)));
    assert!(!a.same_as(&derive_address(Seed::Vault, key(1), 2)));
}

#[test]
fn sol_amounts_in_lamports() {
    assert_eq!(sol_to_lamports(0), Some(0));
    assert_eq!(sol_to_lamports(3), Some(3_000_000_000));
    assert_eq!(sol_to_lamports(u64::MAX / 1_000_000_000), Some(18_446_744_073_000_000_000));
    assert_eq!(sol_to_lamports(u64::MAX / 1_000_000_000 + 1), None);
}
