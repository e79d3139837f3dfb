use vstd::prelude::*;

use crate::schedule::{calculate_vested_amount, vested};

verus! {

/// A 32-byte account key, held as four little-endian 64-bit words.
#[derive(Clone, Copy, Debug, PartialEq, Eq, Structural, Hash)]
pub struct Address {
    pub w0: u64,
    pub w1: u64,
    pub w2: u64,
    pub w3: u64,
}

/// How the deposit vests inside the window `[start_time, end_time)`.
#[derive(Clone, Copy, Debug, PartialEq, Eq, Structural)]
pub enum VestingType {
    /// Proportional release over the window.
    Linear,
    /// Nothing before the given instant, everything from it on.
    Cliff(i64),
}

/// A token balance as the engine sees it: where it lives, which asset it
/// holds, who owns it and how much it holds.
#[derive(Clone, Copy, Debug, PartialEq, Eq, Structural)]
pub struct TokenAccount {
    pub address: Address,
    pub mint: Address,
    pub owner: Address,
    pub amount: u64,
}

/// The persistent record of one vesting schedule.
///
/// `returned_amount` is what cancellation sent back to the creator; it is
/// zero while the schedule is active. The custody account holds
/// `total_amount - released_amount - returned_amount` at all times.
#[derive(Clone, Copy, Debug, PartialEq, Eq)]
pub struct VestingContract {
    pub creator: Address,
    pub beneficiary: Address,
    pub mint: Address,
    pub total_amount: u64,
    pub released_amount: u64,
    pub returned_amount: u64,
    pub start_time: i64,
    pub end_time: i64,
    pub contract_id: u64,
    pub vesting_type: VestingType,
    pub bump: u8,
    pub is_cancelled: bool,
    pub is_token_2022: bool,
}

impl VestingContract {
    /// The window is non-empty, nothing is released or returned beyond the
    /// deposit, and only a cancelled schedule has returned anything.
    pub open spec fn wf(self) -> bool {
        &&& self.start_time < self.end_time
        &&& self.released_amount + self.returned_amount <= self.total_amount
        &&& !self.is_cancelled ==> self.returned_amount == 0
    }

    /// What the schedule has vested at `now`.
    pub open spec fn vested_at(self, now: int) -> int {
        vested(
            now,
            self.start_time as int,
            self.end_time as int,
            self.total_amount as int,
            self.vesting_type,
        )
    }

    /// What the beneficiary is owed in all at `now`: the schedule while
    /// active, the entitlement frozen at cancellation afterwards.
    pub open spec fn entitled_at(self, now: int) -> int {
        if self.is_cancelled {
            self.total_amount - self.returned_amount
        } else {
            self.vested_at(now)
        }
    }

    /// What the custody account must hold.
    pub open spec fn custody_due(self) -> int {
        self.total_amount - self.released_amount - self.returned_amount
    }

    /// What the beneficiary is owed in all at `now` (see `entitled_at`).
    pub fn entitled_amount(&self, now: i64) -> (r: u64)
        requires
            self.wf(),
        ensures
            r == self.entitled_at(now as int),
            r <= self.total_amount,
    {
        if self.is_cancelled {
            self.total_amount - self.returned_amount
        } else {
            calculate_vested_amount(
                now,
                self.start_time,
                self.end_time,
                self.total_amount,
                &self.vesting_type,
            )
        }
    }

    /// Tells whether the record is well formed.
    pub fn is_well_formed(&self) -> (r: bool)
        ensures
            r == self.wf(),
    {
        self.start_time < self.end_time && self.released_amount <= self.total_amount
            && self.returned_amount <= self.total_amount - self.released_amount && (
        self.is_cancelled || self.returned_amount == 0)
    }
}

/// Why an operation was refused. A refused operation changes nothing.
#[derive(Clone, Copy, Debug, PartialEq, Eq, Structural)]
pub enum VestingError {
    NothingToRelease,
    Unauthorized,
    InvalidTimeRange,
    InvalidAmount,
    MathOverflow,
    ContractCancelled,
    AlreadyClaimed,
    InvalidTokenAccount,
}

/// Emitted when a schedule is created and funded.
#[derive(Clone, Copy, Debug, PartialEq, Eq)]
pub struct VestingCreated {
    pub contract_id: u64,
    pub creator: Address,
    pub beneficiary: Address,
    pub mint: Address,
    pub total_amount: u64,
    pub start_time: i64,
    pub end_time: i64,
}

/// Emitted when the beneficiary draws vested tokens.
#[derive(Clone, Copy, Debug, PartialEq, Eq)]
pub struct TokensClaimed {
    pub contract_id: u64,
    pub beneficiary: Address,
    pub amount: u64,
    pub timestamp: i64,
}

/// Emitted when the creator hands the withdrawal rights to someone else.
#[derive(Clone, Copy, Debug, PartialEq, Eq)]
pub struct BeneficiaryUpdated {
    pub contract_id: u64,
    pub old_beneficiary: Address,
    pub new_beneficiary: Address,
}

/// Emitted when the creator cancels a schedule; `remaining_amount` is what
/// went back to the creator.
#[derive(Clone, Copy, Debug, PartialEq, Eq)]
pub struct VestingCancelled {
    pub contract_id: u64,
    pub creator: Address,
    pub remaining_amount: u64,
    pub timestamp: i64,
}

/// Whose signature a transfer moves funds under.
#[derive(Clone, Copy, Debug, PartialEq, Eq, Structural)]
pub enum Authority {
    /// The creator, who signs the funding transfer.
    Creator,
    /// The record's own derived signing capability, the only authority over
    /// the custody account.
    Contract,
}

/// A transfer that the token service is asked to perform.
#[derive(Clone, Copy, Debug, PartialEq, Eq, Structural)]
pub struct Transfer {
    pub from: Address,
    pub to: Address,
    pub authority: Authority,
    pub amount: u64,
}

} // verus!
