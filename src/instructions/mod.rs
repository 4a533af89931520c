pub mod cancel_payment;
pub mod close_payment_vault;
pub mod close_vault;
pub mod create_participant_vault;
pub mod initialize_vault;
pub mod pay;
pub mod refund_participant;
