//! Token-vesting escrow: the schedule model, the vesting record, the
//! authorization guard and the state machine that drives funding, claims,
//! beneficiary changes and cancellation.
//!
//! The engine never moves funds itself: each operation checks its caller and
//! accounts, updates the record and returns the transfer that the token
//! service must perform, together with the event to emit.

pub mod engine;
pub mod guard;
pub mod laws;
pub mod schedule;
pub mod state;

pub use engine::{cancel_vesting, claim_tokens, create_vesting, update_beneficiary};
pub use guard::{CancelVesting, ClaimTokens, CreateVesting, UpdateBeneficiary};
pub use schedule::calculate_vested_amount;
pub use state::{
    Address, Authority, BeneficiaryUpdated, TokenAccount, TokensClaimed, Transfer,
    VestingCancelled, VestingContract, VestingCreated, VestingError, VestingType,
};
