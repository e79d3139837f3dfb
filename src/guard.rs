use vstd::prelude::*;

use crate::state::{Address, TokenAccount, VestingContract, VestingError};

verus! {

/// The accounts that funding a new schedule names.
#[derive(Clone, Copy, Debug, PartialEq, Eq)]
pub struct CreateVesting {
    pub creator: Address,
    pub beneficiary: Address,
    pub mint: Address,
    pub escrow_wallet: Address,
    pub sender_token_account: TokenAccount,
    /// The bump of the record's derived address, kept for its signing capability.
    pub bump: u8,
    /// Whether the asset is held by the extended token program.
    pub is_token_2022: bool,
}

/// The accounts that a claim names; `beneficiary` is the caller.
#[derive(Clone, Copy, Debug, PartialEq, Eq)]
pub struct ClaimTokens {
    pub vesting_contract: Address,
    pub beneficiary: Address,
    pub escrow_wallet: TokenAccount,
    pub beneficiary_token_account: TokenAccount,
    pub mint: Address,
}

/// The accounts that a change of beneficiary names; `creator` is the caller.
#[derive(Clone, Copy, Debug, PartialEq, Eq)]
pub struct UpdateBeneficiary {
    pub creator: Address,
    pub new_beneficiary: Address,
}

/// The accounts that a cancellation names; `creator` is the caller.
#[derive(Clone, Copy, Debug, PartialEq, Eq)]
pub struct CancelVesting {
    pub vesting_contract: Address,
    pub creator: Address,
    pub escrow_wallet: TokenAccount,
    pub creator_token_account: TokenAccount,
    pub mint: Address,
}

/// Tells whether `caller` created the schedule.
pub fn is_creator(caller: &Address, contract: &VestingContract) -> (r: bool)
    ensures
        r == (*caller == contract.creator),
{
    *caller == contract.creator
}

/// Tells whether `caller` holds the schedule's withdrawal rights.
pub fn is_beneficiary(caller: &Address, contract: &VestingContract) -> (r: bool)
    ensures
        r == (*caller == contract.beneficiary),
{
    *caller == contract.beneficiary
}

/// Funding: the source balance holds the asset and belongs to the creator.
pub open spec fn create_check(ctx: CreateVesting) -> Result<(), VestingError> {
    if ctx.sender_token_account.mint != ctx.mint {
        Err(VestingError::InvalidAmount)
    } else if ctx.sender_token_account.owner != ctx.creator {
        Err(VestingError::Unauthorized)
    } else {
        Ok(())
    }
}

/// Custody: the escrow belongs to the record and holds its asset.
pub open spec fn escrow_check(c: VestingContract, record: Address, escrow: TokenAccount) -> Result<
    (),
    VestingError,
> {
    if escrow.owner != record {
        Err(VestingError::Unauthorized)
    } else if escrow.mint != c.mint {
        Err(VestingError::InvalidAmount)
    } else {
        Ok(())
    }
}

/// Payout: the destination holds the record's asset and belongs to `owner`,
/// and the asset named is the record's.
pub open spec fn payout_check(
    c: VestingContract,
    dest: TokenAccount,
    owner: Address,
    mint: Address,
) -> Result<(), VestingError> {
    if dest.mint != c.mint {
        Err(VestingError::InvalidAmount)
    } else if dest.owner != owner {
        Err(VestingError::Unauthorized)
    } else if mint != c.mint {
        Err(VestingError::InvalidAmount)
    } else {
        Ok(())
    }
}

/// Claim: only the beneficiary, from the record's escrow, to a balance of
/// the beneficiary's own.
pub open spec fn claim_check(c: VestingContract, ctx: ClaimTokens) -> Result<(), VestingError> {
    if ctx.beneficiary != c.beneficiary {
        Err(VestingError::Unauthorized)
    } else if escrow_check(c, ctx.vesting_contract, ctx.escrow_wallet) is Err {
        escrow_check(c, ctx.vesting_contract, ctx.escrow_wallet)
    } else {
        payout_check(c, ctx.beneficiary_token_account, ctx.beneficiary, ctx.mint)
    }
}

/// Change of beneficiary: only the creator, only while active.
pub open spec fn update_check(c: VestingContract, ctx: UpdateBeneficiary) -> Result<(), VestingError> {
    if ctx.creator != c.creator {
        Err(VestingError::Unauthorized)
    } else if c.is_cancelled {
        Err(VestingError::ContractCancelled)
    } else {
        Ok(())
    }
}

/// Cancellation: only the creator, only while active, from the record's
/// escrow to a balance of the creator's own.
pub open spec fn cancel_check(c: VestingContract, ctx: CancelVesting) -> Result<(), VestingError> {
    if ctx.creator != c.creator {
        Err(VestingError::Unauthorized)
    } else if c.is_cancelled {
        Err(VestingError::ContractCancelled)
    } else if escrow_check(c, ctx.vesting_contract, ctx.escrow_wallet) is Err {
        escrow_check(c, ctx.vesting_contract, ctx.escrow_wallet)
    } else {
        payout_check(c, ctx.creator_token_account, ctx.creator, ctx.mint)
    }
}

fn check_escrow(c: &VestingContract, record: &Address, escrow: &TokenAccount) -> (r: Result<
    (),
    VestingError,
>)
    ensures
        r == escrow_check(*c, *record, *escrow),
{
    if escrow.owner != *record {
        Err(VestingError::Unauthorized)
    } else if escrow.mint != c.mint {
        Err(VestingError::InvalidAmount)
    } else {
        Ok(())
    }
}

fn check_payout(c: &VestingContract, dest: &TokenAccount, owner: &Address, mint: &Address) -> (r:
    Result<(), VestingError>)
    ensures
        r == payout_check(*c, *dest, *owner, *mint),
{
    if dest.mint != c.mint {
        Err(VestingError::InvalidAmount)
    } else if dest.owner != *owner {
        Err(VestingError::Unauthorized)
    } else if *mint != c.mint {
        Err(VestingError::InvalidAmount)
    } else {
        Ok(())
    }
}

/// Checks the accounts of a funding request.
pub fn check_create(ctx: &CreateVesting) -> (r: Result<(), VestingError>)
    ensures
        r == create_check(*ctx),
{
    if ctx.sender_token_account.mint != ctx.mint {
        Err(VestingError::InvalidAmount)
    } else if ctx.sender_token_account.owner != ctx.creator {
        Err(VestingError::Unauthorized)
    } else {
        Ok(())
    }
}

/// Checks the caller and accounts of a claim.
pub fn check_claim(c: &VestingContract, ctx: &ClaimTokens) -> (r: Result<(), VestingError>)
    ensures
        r == claim_check(*c, *ctx),
{
    if !is_beneficiary(&ctx.beneficiary, c) {
        return Err(VestingError::Unauthorized);
    }
    let escrow = check_escrow(c, &ctx.vesting_contract, &ctx.escrow_wallet);
    if escrow.is_err() {
        return escrow;
    }
    check_payout(c, &ctx.beneficiary_token_account, &ctx.beneficiary, &ctx.mint)
}

/// Checks the caller of a change of beneficiary and the record's status.
pub fn check_update(c: &VestingContract, ctx: &UpdateBeneficiary) -> (r: Result<(), VestingError>)
    ensures
        r == update_check(*c, *ctx),
{
    if !is_creator(&ctx.creator, c) {
        Err(VestingError::Unauthorized)
    } else if c.is_cancelled {
        Err(VestingError::ContractCancelled)
    } else {
        Ok(())
    }
}

/// Checks the caller and accounts of a cancellation and the record's status.
pub fn check_cancel(c: &VestingContract, ctx: &CancelVesting) -> (r: Result<(), VestingError>)
    ensures
        r == cancel_check(*c, *ctx),
{
    if !is_creator(&ctx.creator, c) {
        return Err(VestingError::Unauthorized);
    }
    if c.is_cancelled {
        return Err(VestingError::ContractCancelled);
    }
    let escrow = check_escrow(c, &ctx.vesting_contract, &ctx.escrow_wallet);
    if escrow.is_err() {
        return escrow;
    }
    check_payout(c, &ctx.creator_token_account, &ctx.creator, &ctx.mint)
}

} // verus!
