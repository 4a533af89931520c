use vstd::prelude::*;
use crate::states::Pubkey;

verus! {

#[derive(Clone, Copy, Debug, PartialEq, Eq)]
pub struct VaultCreated {
    pub issuer: Pubkey,
    pub payment_id: u32,
    pub bump: u8,
}

#[derive(Clone, Copy, Debug, PartialEq, Eq)]
pub struct ParticipantPaid {
    pub issuer: Pubkey,
    pub payer: Pubkey,
    pub payment_id: u32,
    pub bump: u8,
}

#[derive(Clone, Copy, Debug, PartialEq, Eq)]
pub struct VaultCompleted {
    pub issuer: Pubkey,
    pub payment_id: u32,
    pub bump: u8,
}

#[derive(Clone, Copy, Debug, PartialEq, Eq)]
pub struct VaultCancelled {
    pub issuer: Pubkey,
    pub payment_id: u32,
    pub bump: u8,
}

#[derive(Clone, Copy, Debug, PartialEq, Eq)]
pub struct ParticipantRefunded {
    pub issuer: Pubkey,
    pub payment_id: u32,
    pub bump: u8,
    pub participant: Pubkey,
}

/// One entry of the append-only event log.
#[derive(Clone, Copy, Debug, PartialEq, Eq)]
pub enum Event {
    VaultCreated(VaultCreated),
    ParticipantPaid(ParticipantPaid),
    VaultCompleted(VaultCompleted),
    VaultCancelled(VaultCancelled),
    ParticipantRefunded(ParticipantRefunded),
}

} // verus!
