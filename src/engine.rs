use vstd::prelude::*;

use crate::guard::{
    cancel_check, check_cancel, check_claim, check_create, check_update, claim_check, create_check,
    update_check, CancelVesting, ClaimTokens, CreateVesting, UpdateBeneficiary,
};
use crate::state::{
    Authority, BeneficiaryUpdated, TokensClaimed, Transfer, VestingCancelled, VestingContract,
    VestingCreated, VestingError, VestingType,
};

verus! {

/// The record that funding creates, before the deposit is measured, or why
/// funding is refused.
pub open spec fn create_outcome(
    ctx: CreateVesting,
    contract_id: u64,
    total_amount: u64,
    start_time: i64,
    end_time: i64,
    vesting_type: VestingType,
) -> Result<VestingContract, VestingError> {
    if create_check(ctx) is Err {
        Err(create_check(ctx)->Err_0)
    } else if end_time <= start_time {
        Err(VestingError::InvalidTimeRange)
    } else if total_amount == 0 || ctx.sender_token_account.amount < total_amount {
        Err(VestingError::InvalidAmount)
    } else {
        Ok(
            VestingContract {
                creator: ctx.creator,
                beneficiary: ctx.beneficiary,
                mint: ctx.mint,
                total_amount,
                released_amount: 0,
                returned_amount: 0,
                start_time,
                end_time,
                contract_id,
                vesting_type,
                bump: ctx.bump,
                is_cancelled: false,
                is_token_2022: ctx.is_token_2022,
            },
        )
    }
}

/// The record after a claim at `now` and the amount released, or why the
/// claim is refused.
pub open spec fn claim_outcome(c: VestingContract, ctx: ClaimTokens, now: int) -> Result<
    (VestingContract, nat),
    VestingError,
> {
    if claim_check(c, ctx) is Err {
        Err(claim_check(c, ctx)->Err_0)
    } else if c.entitled_at(now) < c.released_amount {
        Err(VestingError::MathOverflow)
    } else if c.entitled_at(now) == c.released_amount {
        Err(VestingError::NothingToRelease)
    } else {
        Ok(
            (
                VestingContract { released_amount: c.entitled_at(now) as u64, ..c },
                (c.entitled_at(now) - c.released_amount) as nat,
            ),
        )
    }
}

/// The record after a change of beneficiary, or why it is refused.
pub open spec fn update_outcome(c: VestingContract, ctx: UpdateBeneficiary) -> Result<
    VestingContract,
    VestingError,
> {
    if update_check(c, ctx) is Err {
        Err(update_check(c, ctx)->Err_0)
    } else if c.released_amount != 0 {
        Err(VestingError::AlreadyClaimed)
    } else {
        Ok(VestingContract { beneficiary: ctx.new_beneficiary, ..c })
    }
}

/// What the beneficiary keeps when the schedule is cancelled at `now`: what
/// has vested, and never less than what was already released.
pub open spec fn kept_on_cancel(c: VestingContract, now: int) -> int {
    if c.vested_at(now) < c.released_amount {
        c.released_amount as int
    } else {
        c.vested_at(now)
    }
}

/// The record after a cancellation at `now` and the amount returned to the
/// creator, or why the cancellation is refused. The beneficiary keeps the
/// right to draw what had vested; the unvested rest goes back.
pub open spec fn cancel_outcome(c: VestingContract, ctx: CancelVesting, now: int) -> Result<
    (VestingContract, nat),
    VestingError,
> {
    if cancel_check(c, ctx) is Err {
        Err(cancel_check(c, ctx)->Err_0)
    } else {
        Ok(
            (
                VestingContract {
                    is_cancelled: true,
                    returned_amount: (c.total_amount - kept_on_cancel(c, now)) as u64,
                    ..c
                },
                (c.total_amount - kept_on_cancel(c, now)) as nat,
            ),
        )
    }
}

/// Starts a schedule: checks the accounts, the window and the amount, and
/// returns the new record with the funding transfer from the creator's
/// balance to the escrow. Once the transfer is done, `record_deposit` sets
/// the total to what the escrow actually received.
pub fn create_vesting(
    ctx: &CreateVesting,
    contract_id: u64,
    total_amount: u64,
    start_time: i64,
    end_time: i64,
    vesting_type: VestingType,
) -> (r: Result<(VestingContract, Transfer), VestingError>)
    ensures
        match create_outcome(*ctx, contract_id, total_amount, start_time, end_time, vesting_type) {
            Ok(c) => r == Ok::<(VestingContract, Transfer), VestingError>(
                (
                    c,
                    Transfer {
                        from: ctx.sender_token_account.address,
                        to: ctx.escrow_wallet,
                        authority: Authority::Creator,
                        amount: total_amount,
                    },
                ),
            ),
            Err(e) => r == Err::<(VestingContract, Transfer), VestingError>(e),
        },
        r is Ok ==> r->Ok_0.0.wf(),
{
    let checked = check_create(ctx);
    if let Err(e) = checked {
        return Err(e);
    }
    if end_time <= start_time {
        return Err(VestingError::InvalidTimeRange);
    }
    if total_amount == 0 || ctx.sender_token_account.amount < total_amount {
        return Err(VestingError::InvalidAmount);
    }
    let contract = VestingContract {
        creator: ctx.creator,
        beneficiary: ctx.beneficiary,
        mint: ctx.mint,
        total_amount,
        released_amount: 0,
        returned_amount: 0,
        start_time,
        end_time,
        contract_id,
        vesting_type,
        bump: ctx.bump,
        is_cancelled: false,
        is_token_2022: ctx.is_token_2022,
    };
    let transfer = Transfer {
        from: ctx.sender_token_account.address,
        to: ctx.escrow_wallet,
        authority: Authority::Creator,
        amount: total_amount,
    };
    Ok((contract, transfer))
}

impl VestingContract {
    /// Sets the total to what the escrow holds after funding, so that the
    /// record matches the custody even when the transfer deducted a fee.
    pub fn record_deposit(&mut self, received: u64) -> (ev: VestingCreated)
        requires
            old(self).wf(),
            old(self).released_amount == 0,
            !old(self).is_cancelled,
        ensures
            *final(self) == (VestingContract { total_amount: received, ..*old(self) }),
            final(self).wf(),
            final(self).custody_due() == received,
            ev == (VestingCreated {
                contract_id: old(self).contract_id,
                creator: old(self).creator,
                beneficiary: old(self).beneficiary,
                mint: old(self).mint,
                total_amount: received,
                start_time: old(self).start_time,
                end_time: old(self).end_time,
            }),
    {
        self.total_amount = received;
        VestingCreated {
            contract_id: self.contract_id,
            creator: self.creator,
            beneficiary: self.beneficiary,
            mint: self.mint,
            total_amount: received,
            start_time: self.start_time,
            end_time: self.end_time,
        }
    }
}

/// Releases to the beneficiary what is owed at `now` beyond what was already
/// released, and returns the transfer out of the escrow, signed by the
/// record's own authority, with the event to emit.
pub fn claim_tokens(contract: &mut VestingContract, ctx: &ClaimTokens, now: i64) -> (r: Result<
    (Transfer, TokensClaimed),
    VestingError,
>)
    requires
        old(contract).wf(),
    ensures
        final(contract).wf(),
        match claim_outcome(*old(contract), *ctx, now as int) {
            Ok((next, amount)) => {
                &&& *final(contract) == next
                &&& r == Ok::<(Transfer, TokensClaimed), VestingError>(
                    (
                        Transfer {
                            from: ctx.escrow_wallet.address,
                            to: ctx.beneficiary_token_account.address,
                            authority: Authority::Contract,
                            amount: amount as u64,
                        },
                        TokensClaimed {
                            contract_id: old(contract).contract_id,
                            beneficiary: ctx.beneficiary,
                            amount: amount as u64,
                            timestamp: now,
                        },
                    ),
                )
            },
            Err(e) => {
                &&& *final(contract) == *old(contract)
                &&& r == Err::<(Transfer, TokensClaimed), VestingError>(e)
            },
        },
{
    let checked = check_claim(contract, ctx);
    if let Err(e) = checked {
        return Err(e);
    }
    let entitled = contract.entitled_amount(now);
    let releasable = match entitled.checked_sub(contract.released_amount) {
        Some(v) => v,
        None => return Err(VestingError::MathOverflow),
    };
    if releasable == 0 {
        return Err(VestingError::NothingToRelease);
    }
    let released = match contract.released_amount.checked_add(releasable) {
        Some(v) => v,
        None => return Err(VestingError::MathOverflow),
    };
    contract.released_amount = released;
    let transfer = Transfer {
        from: ctx.escrow_wallet.address,
        to: ctx.beneficiary_token_account.address,
        authority: Authority::Contract,
        amount: releasable,
    };
    let event = TokensClaimed {
        contract_id: contract.contract_id,
        beneficiary: ctx.beneficiary,
        amount: releasable,
        timestamp: now,
    };
    Ok((transfer, event))
}

/// Hands the withdrawal rights to `ctx.new_beneficiary`; only the creator
/// may, only while the schedule is active and before anything was released.
pub fn update_beneficiary(contract: &mut VestingContract, ctx: &UpdateBeneficiary) -> (r: Result<
    BeneficiaryUpdated,
    VestingError,
>)
    requires
        old(contract).wf(),
    ensures
        final(contract).wf(),
        match update_outcome(*old(contract), *ctx) {
            Ok(next) => {
                &&& *final(contract) == next
                &&& r == Ok::<BeneficiaryUpdated, VestingError>(
                    BeneficiaryUpdated {
                        contract_id: old(contract).contract_id,
                        old_beneficiary: old(contract).beneficiary,
                        new_beneficiary: ctx.new_beneficiary,
                    },
                )
            },
            Err(e) => {
                &&& *final(contract) == *old(contract)
                &&& r == Err::<BeneficiaryUpdated, VestingError>(e)
            },
        },
{
    let checked = check_update(contract, ctx);
    if let Err(e) = checked {
        return Err(e);
    }
    if contract.released_amount != 0 {
        return Err(VestingError::AlreadyClaimed);
    }
    let old_beneficiary = contract.beneficiary;
    contract.beneficiary = ctx.new_beneficiary;
    Ok(
        BeneficiaryUpdated {
            contract_id: contract.contract_id,
            old_beneficiary,
            new_beneficiary: ctx.new_beneficiary,
        },
    )
}

/// Cancels the schedule at `now`. The beneficiary keeps the right to draw
/// what had vested (never less than what was already released); the unvested
/// rest goes back to the creator, by a transfer out of the escrow signed by
/// the record's own authority, made only when the rest is not zero.
pub fn cancel_vesting(contract: &mut VestingContract, ctx: &CancelVesting, now: i64) -> (r: Result<
    (Option<Transfer>, VestingCancelled),
    VestingError,
>)
    requires
        old(contract).wf(),
    ensures
        final(contract).wf(),
        match cancel_outcome(*old(contract), *ctx, now as int) {
            Ok((next, remainder)) => {
                &&& *final(contract) == next
                &&& r == Ok::<(Option<Transfer>, VestingCancelled), VestingError>(
                    (
                        if remainder > 0 {
                            Some(
                                Transfer {
                                    from: ctx.escrow_wallet.address,
                                    to: ctx.creator_token_account.address,
                                    authority: Authority::Contract,
                                    amount: remainder as u64,
                                },
                            )
                        } else {
                            None
                        },
                        VestingCancelled {
                            contract_id: old(contract).contract_id,
                            creator: ctx.creator,
                            remaining_amount: remainder as u64,
                            timestamp: now,
                        },
                    ),
                )
            },
            Err(e) => {
                &&& *final(contract) == *old(contract)
                &&& r == Err::<(Option<Transfer>, VestingCancelled), VestingError>(e)
            },
        },
{
    let checked = check_cancel(contract, ctx);
    if let Err(e) = checked {
        return Err(e);
    }
    let vested_now = contract.entitled_amount(now);
    let kept = if vested_now < contract.released_amount {
        contract.released_amount
    } else {
        vested_now
    };
    let remainder = contract.total_amount - kept;
    contract.is_cancelled = true;
    contract.returned_amount = remainder;
    let transfer = if remainder > 0 {
        Some(
            Transfer {
                from: ctx.escrow_wallet.address,
                to: ctx.creator_token_account.address,
                authority: Authority::Contract,
                amount: remainder,
            },
        )
    } else {
        None
    };
    let event = VestingCancelled {
        contract_id: contract.contract_id,
        creator: ctx.creator,
        remaining_amount: remainder,
        timestamp: now,
    };
    Ok((transfer, event))
}

} // verus!
