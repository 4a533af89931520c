use vstd::prelude::*;

pub mod constants;
pub mod errors;
pub mod events;
pub mod instructions;
pub mod invariants;
pub mod ledger;
pub mod program;
pub mod states;
pub mod table;
pub mod utils;

pub use program::{
    cancel_payment, close_payment_vault, close_vault, initialize_vault, participate, pay,
    refund_participant,
};

verus! {

} // verus!
