use vstd::prelude::*;

verus! {

/// The program's own failures.
#[derive(Clone, Copy, Debug, PartialEq, Eq, Structural)]
pub enum DiviError {
    StringTooLong,
    TitleTooLong,
    DescriptionTooLong,
    CoverTooLong,
    DirectorTooLong,
    TooManyActors,
    InvalidPDA,
    UnauthorizedAccess,
    ShareCalculationError,
    ParticipantAlreadyPaid,
    ParticipantNotExist,
    AmountIsGreaterThanVaultTotalAmount,
    AmountIsGreaterThanRemainingVaultAmount,
    InvalidVaultAuthority,
    VaultIsAlreadyFinalized,
    VaultIsNotFinalized,
    ParticipantAccountNotProvided,
    NotAllParticipantsRefunded,
    PaymentAlreadyFinalized,
    InvalidParticipant,
    InvalidPaymentId,
}

/// Why a whole transaction was rejected: a failure of the program, or one
/// raised by the ledger while loading accounts or moving funds.
#[derive(Clone, Copy, Debug, PartialEq, Eq, Structural)]
pub enum TransactionError {
    Program(DiviError),
    /// A record that the operation creates already exists.
    AccountAlreadyInUse,
    /// A record that the operation reads does not exist.
    AccountNotInitialized,
    /// The sender of a transfer holds less than the amount.
    InsufficientFunds,
    /// A credit would take a balance past the largest representable amount.
    ArithmeticOverflow,
}

} // verus!
