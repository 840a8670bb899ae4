use vstd::prelude::*;
use crate::account::{
    claimed, compounded, cooldown_elapsed, fresh, owned_by, refreshed, same_key, staked,
    ErrorCode, StakingAccount, Vault, Wallet, COOLDOWN_SECS,
};
use crate::fee::{fee_of, split_fee};

verus! {

/// Accounts for creating a record.
#[derive(Clone, Copy, Debug, PartialEq, Eq)]
pub struct Initialize {
    pub vault: Vault,
    pub user: [u8; 32],
}

/// Accounts for a deposit.
#[derive(Clone, Copy, Debug, PartialEq, Eq)]
pub struct Stake {
    pub vault: Vault,
    pub user: Wallet,
}

/// Accounts for compounding.
#[derive(Clone, Copy, Debug, PartialEq, Eq)]
pub struct Compound {
    pub vault: Vault,
    pub user: [u8; 32],
}

/// Accounts for claiming: the owner receives the payout, `developer` the fee.
#[derive(Clone, Copy, Debug, PartialEq, Eq)]
pub struct Claim {
    pub vault: Vault,
    pub user: Wallet,
    pub developer: Wallet,
}

/// Accounts for refreshing the cached reward estimate.
#[derive(Clone, Copy, Debug, PartialEq, Eq)]
pub struct GetUnclaimedRewards {
    pub vault: Vault,
    pub user: [u8; 32],
}

/// Accounts for closing a record.
#[derive(Clone, Copy, Debug, PartialEq, Eq)]
pub struct CloseAccount {
    pub vault: Vault,
    pub user: Wallet,
}

/// Tells whether `key` owns the record in `vault`, or why it may not act on it.
fn check_owner(vault: &Vault, key: &[u8; 32]) -> (r: Result<StakingAccount, ErrorCode>)
    ensures
        vault.record is None ==> r == Err::<StakingAccount, ErrorCode>(ErrorCode::NotFound),
        vault.record is Some && !owned_by(*vault, *key) ==> r == Err::<StakingAccount, ErrorCode>(
            ErrorCode::Unauthorized,
        ),
        owned_by(*vault, *key) ==> r == Ok::<StakingAccount, ErrorCode>(vault.record->Some_0),
{
    match vault.record {
        None => Err(ErrorCode::NotFound),
        Some(rec) => {
            if same_key(&rec.user, key) {
                Ok(rec)
            } else {
                Err(ErrorCode::Unauthorized)
            }
        },
    }
}

/// Tells whether a full cooldown has passed since the record's last action.
pub fn cooldown_passed(a: &StakingAccount, now: i64) -> (r: bool)
    ensures
        r == cooldown_elapsed(*a, now),
{
    (now as i128) - (a.last_action_time as i128) >= COOLDOWN_SECS as i128
}

/// The deposit of `amount` fits: no balance or record field would exceed `u64`.
pub open spec fn stake_fits(ctx: Stake, amount: u64) -> bool {
    &&& ctx.vault.lamports + amount <= u64::MAX
    &&& ctx.vault.record->Some_0.stake_amount + amount <= u64::MAX
    &&& ctx.vault.record->Some_0.tvl + amount <= u64::MAX
}

/// Folding in `reward` fits: neither principal nor decay input would exceed `u64`.
pub open spec fn compound_fits(a: StakingAccount, reward: u64) -> bool {
    &&& a.stake_amount + reward <= u64::MAX
    &&& a.tvl + reward <= u64::MAX
}

/// Paying out `reward` fits: the decay input covers it and neither receiving
/// balance would exceed `u64`.
pub open spec fn claim_fits(ctx: Claim, reward: u64) -> bool {
    &&& reward <= ctx.vault.record->Some_0.tvl
    &&& ctx.user.lamports + (reward - fee_of(reward)) <= u64::MAX
    &&& ctx.developer.lamports + fee_of(reward) <= u64::MAX
}

/// Deposits `amount` from the owner's balance into the record at time `now`.
pub fn stake(ctx: &mut Stake, amount: u64, now: i64) -> (r: Result<(), ErrorCode>)
    ensures
        old(ctx).vault.record is None ==> r == Err::<(), ErrorCode>(ErrorCode::NotFound),
        old(ctx).vault.record is Some && !owned_by(old(ctx).vault, old(ctx).user.key) ==> r == Err::<
            (),
            ErrorCode,
        >(ErrorCode::Unauthorized),
        owned_by(old(ctx).vault, old(ctx).user.key) && amount == 0 ==> r == Err::<(), ErrorCode>(
            ErrorCode::InvalidAmount,
        ),
        owned_by(old(ctx).vault, old(ctx).user.key) && amount > 0 && old(ctx).user.lamports
            < amount ==> r == Err::<(), ErrorCode>(ErrorCode::InsufficientFunds),
        owned_by(old(ctx).vault, old(ctx).user.key) && amount > 0 && old(ctx).user.lamports
            >= amount && !stake_fits(*old(ctx), amount) ==> r == Err::<(), ErrorCode>(
            ErrorCode::Overflow,
        ),
        owned_by(old(ctx).vault, old(ctx).user.key) && amount > 0 && old(ctx).user.lamports
            >= amount && stake_fits(*old(ctx), amount) ==> r is Ok,
        r is Err ==> *final(ctx) == *old(ctx),
        r is Ok ==> {
            &&& final(ctx).vault.record == Some(
                staked(old(ctx).vault.record->Some_0, amount, now),
            )
            &&& final(ctx).vault.lamports == old(ctx).vault.lamports + amount
            &&& final(ctx).user.key == old(ctx).user.key
            &&& final(ctx).user.lamports == old(ctx).user.lamports - amount
        },
{
    let rec = match check_owner(&ctx.vault, &ctx.user.key) {
        Ok(rec) => rec,
        Err(e) => return Err(e),
    };
    if amount == 0 {
        return Err(ErrorCode::InvalidAmount);
    }
    if ctx.user.lamports < amount {
        return Err(ErrorCode::InsufficientFunds);
    }
    if ctx.vault.lamports > u64::MAX - amount || rec.stake_amount > u64::MAX - amount || rec.tvl
        > u64::MAX - amount {
        return Err(ErrorCode::Overflow);
    }
    ctx.user.lamports = ctx.user.lamports - amount;
    ctx.vault.lamports = ctx.vault.lamports + amount;
    ctx.vault.record = Some(
        StakingAccount {
            user: rec.user,
            stake_amount: rec.stake_amount + amount,
            last_action_time: now,
            tvl: rec.tvl + amount,
            unclaimed_rewards: rec.unclaimed_rewards,
        },
    );
    Ok(())
}

/// Pays the reward accrued by the record out to its owner, net of the
/// protocol fee, which goes to `developer`. `reward` is the record's accrued
/// reward as of `now`, computed before this call.
pub fn claim(ctx: &mut Claim, now: i64, reward: u64) -> (r: Result<(), ErrorCode>)
    ensures
        old(ctx).vault.record is None ==> r == Err::<(), ErrorCode>(ErrorCode::NotFound),
        old(ctx).vault.record is Some && !owned_by(old(ctx).vault, old(ctx).user.key) ==> r == Err::<
            (),
            ErrorCode,
        >(ErrorCode::Unauthorized),
        owned_by(old(ctx).vault, old(ctx).user.key) && !cooldown_elapsed(
            old(ctx).vault.record->Some_0,
            now,
        ) ==> r == Err::<(), ErrorCode>(ErrorCode::ActionTooSoon),
        owned_by(old(ctx).vault, old(ctx).user.key) && cooldown_elapsed(
            old(ctx).vault.record->Some_0,
            now,
        ) && old(ctx).vault.lamports < reward ==> r == Err::<(), ErrorCode>(
            ErrorCode::InsufficientFunds,
        ),
        owned_by(old(ctx).vault, old(ctx).user.key) && cooldown_elapsed(
            old(ctx).vault.record->Some_0,
            now,
        ) && old(ctx).vault.lamports >= reward && !claim_fits(*old(ctx), reward) ==> r == Err::<
            (),
            ErrorCode,
        >(ErrorCode::Overflow),
        owned_by(old(ctx).vault, old(ctx).user.key) && cooldown_elapsed(
            old(ctx).vault.record->Some_0,
            now,
        ) && old(ctx).vault.lamports >= reward && claim_fits(*old(ctx), reward) ==> r is Ok,
        r is Err ==> *final(ctx) == *old(ctx),
        r is Ok ==> {
            &&& final(ctx).vault.record == Some(
                claimed(old(ctx).vault.record->Some_0, reward, now),
            )
            &&& final(ctx).vault.lamports == old(ctx).vault.lamports - reward
            &&& final(ctx).user.key == old(ctx).user.key
            &&& final(ctx).user.lamports == old(ctx).user.lamports + (reward - fee_of(reward))
            &&& final(ctx).developer.key == old(ctx).developer.key
            &&& final(ctx).developer.lamports == old(ctx).developer.lamports + fee_of(reward)
        },
{
    let rec = match check_owner(&ctx.vault, &ctx.user.key) {
        Ok(rec) => rec,
        Err(e) => return Err(e),
    };
    if !cooldown_passed(&rec, now) {
        return Err(ErrorCode::ActionTooSoon);
    }
    if ctx.vault.lamports < reward {
        return Err(ErrorCode::InsufficientFunds);
    }
    let (payout, fee) = split_fee(reward);
    if rec.tvl < reward || ctx.user.lamports > u64::MAX - payout || ctx.developer.lamports
        > u64::MAX - fee {
        return Err(ErrorCode::Overflow);
    }
    ctx.user.lamports = ctx.user.lamports + payout;
    ctx.developer.lamports = ctx.developer.lamports + fee;
    ctx.vault.lamports = ctx.vault.lamports - reward;
    ctx.vault.record = Some(
        StakingAccount {
            user: rec.user,
            stake_amount: rec.stake_amount,
            last_action_time: now,
            tvl: rec.tvl - reward,
            unclaimed_rewards: 0,
        },
    );
    Ok(())
}

/// Folds the reward accrued by the record into its principal. `reward` is
/// the record's accrued reward as of `now`, computed before this call; it is
/// already backed by the vault's held balance, so no balance moves.
pub fn compound(ctx: &mut Compound, now: i64, reward: u64) -> (r: Result<(), ErrorCode>)
    ensures
        old(ctx).vault.record is None ==> r == Err::<(), ErrorCode>(ErrorCode::NotFound),
        old(ctx).vault.record is Some && !owned_by(old(ctx).vault, old(ctx).user) ==> r == Err::<
            (),
            ErrorCode,
        >(ErrorCode::Unauthorized),
        owned_by(old(ctx).vault, old(ctx).user) && !cooldown_elapsed(
            old(ctx).vault.record->Some_0,
            now,
        ) ==> r == Err::<(), ErrorCode>(ErrorCode::ActionTooSoon),
        owned_by(old(ctx).vault, old(ctx).user) && cooldown_elapsed(
            old(ctx).vault.record->Some_0,
            now,
        ) && !compound_fits(old(ctx).vault.record->Some_0, reward) ==> r == Err::<(), ErrorCode>(
            ErrorCode::Overflow,
        ),
        owned_by(old(ctx).vault, old(ctx).user) && cooldown_elapsed(
            old(ctx).vault.record->Some_0,
            now,
        ) && compound_fits(old(ctx).vault.record->Some_0, reward) ==> r is Ok,
        r is Err ==> *final(ctx) == *old(ctx),
        r is Ok ==> *final(ctx) == (Compound {
            vault: Vault {
                record: Some(compounded(old(ctx).vault.record->Some_0, reward, now)),
                lamports: old(ctx).vault.lamports,
            },
            user: old(ctx).user,
        }),
{
    let rec = match check_owner(&ctx.vault, &ctx.user) {
        Ok(rec) => rec,
        Err(e) => return Err(e),
    };
    if !cooldown_passed(&rec, now) {
        return Err(ErrorCode::ActionTooSoon);
    }
    if rec.stake_amount > u64::MAX - reward || rec.tvl > u64::MAX - reward {
        return Err(ErrorCode::Overflow);
    }
    ctx.vault.record = Some(
        StakingAccount {
            user: rec.user,
            stake_amount: rec.stake_amount + reward,
            last_action_time: now,
            tvl: rec.tvl + reward,
            unclaimed_rewards: 0,
        },
    );
    Ok(())
}

/// Creates the record for `user` in an empty slot, every other field zero.
pub fn initialize(ctx: &mut Initialize) -> (r: Result<(), ErrorCode>)
    ensures
        old(ctx).vault.record is Some ==> r == Err::<(), ErrorCode>(
            ErrorCode::AlreadyInitialized,
        ),
        old(ctx).vault.record is None ==> r is Ok,
        r is Err ==> *final(ctx) == *old(ctx),
        r is Ok ==> *final(ctx) == (Initialize {
            vault: Vault { record: Some(fresh(old(ctx).user)), lamports: old(ctx).vault.lamports },
            user: old(ctx).user,
        }),
{
    if ctx.vault.record.is_some() {
        return Err(ErrorCode::AlreadyInitialized);
    }
    ctx.vault.record = Some(
        StakingAccount {
            user: ctx.user,
            stake_amount: 0,
            last_action_time: 0,
            tvl: 0,
            unclaimed_rewards: 0,
        },
    );
    Ok(())
}

/// Returns the vault's entire held balance to the owner and removes the
/// record. No reward is settled.
pub fn close_account(ctx: &mut CloseAccount) -> (r: Result<(), ErrorCode>)
    ensures
        old(ctx).vault.record is None ==> r == Err::<(), ErrorCode>(ErrorCode::NotFound),
        old(ctx).vault.record is Some && !owned_by(old(ctx).vault, old(ctx).user.key) ==> r == Err::<
            (),
            ErrorCode,
        >(ErrorCode::Unauthorized),
        owned_by(old(ctx).vault, old(ctx).user.key) && old(ctx).user.lamports
            + old(ctx).vault.lamports > u64::MAX ==> r == Err::<(), ErrorCode>(ErrorCode::Overflow),
        owned_by(old(ctx).vault, old(ctx).user.key) && old(ctx).user.lamports
            + old(ctx).vault.lamports <= u64::MAX ==> r is Ok,
        r is Err ==> *final(ctx) == *old(ctx),
        r is Ok ==> *final(ctx) == (CloseAccount {
            vault: Vault { record: None, lamports: 0 },
            user: Wallet {
                key: old(ctx).user.key,
                lamports: (old(ctx).user.lamports + old(ctx).vault.lamports) as u64,
            },
        }),
{
    match check_owner(&ctx.vault, &ctx.user.key) {
        Ok(_) => {},
        Err(e) => return Err(e),
    }
    if ctx.user.lamports > u64::MAX - ctx.vault.lamports {
        return Err(ErrorCode::Overflow);
    }
    ctx.user.lamports = ctx.user.lamports + ctx.vault.lamports;
    ctx.vault.lamports = 0;
    ctx.vault.record = None;
    Ok(())
}

/// Stores `reward`, the record's accrued reward as of now, as its cached
/// estimate. Nothing else changes, and no cooldown applies.
pub fn get_unclaimed_rewards(ctx: &mut GetUnclaimedRewards, reward: u64) -> (r: Result<
    (),
    ErrorCode,
>)
    ensures
        old(ctx).vault.record is None ==> r == Err::<(), ErrorCode>(ErrorCode::NotFound),
        old(ctx).vault.record is Some && !owned_by(old(ctx).vault, old(ctx).user) ==> r == Err::<
            (),
            ErrorCode,
        >(ErrorCode::Unauthorized),
        owned_by(old(ctx).vault, old(ctx).user) ==> r is Ok,
        r is Err ==> *final(ctx) == *old(ctx),
        r is Ok ==> *final(ctx) == (GetUnclaimedRewards {
            vault: Vault {
                record: Some(refreshed(old(ctx).vault.record->Some_0, reward)),
                lamports: old(ctx).vault.lamports,
            },
            user: old(ctx).user,
        }),
{
    let rec = match check_owner(&ctx.vault, &ctx.user) {
        Ok(rec) => rec,
        Err(e) => return Err(e),
    };
    ctx.vault.record = Some(
        StakingAccount {
            user: rec.user,
            stake_amount: rec.stake_amount,
            last_action_time: rec.last_action_time,
            tvl: rec.tvl,
            unclaimed_rewards: reward,
        },
    );
    Ok(())
}

} // verus!
