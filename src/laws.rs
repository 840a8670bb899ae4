use vstd::prelude::*;
use crate::account::{
    claimed, compounded, cooldown_elapsed, mirrored, refreshed, staked, StakingAccount,
    COOLDOWN_SECS,
};

verus! {

/// A deposit raises principal and decay input by exactly the amount.
pub proof fn lemma_stake_adds_amount(a: StakingAccount, amount: u64, now: i64)
    requires
        a.stake_amount + amount <= u64::MAX,
        a.tvl + amount <= u64::MAX,
    ensures
        staked(a, amount, now).stake_amount == a.stake_amount + amount,
        staked(a, amount, now).tvl == a.tvl + amount,
{
}

/// Principal and decay input stay equal across deposit, compounding and
/// refreshing the cached estimate, and across a claim of a zero reward.
/// A claim of a positive reward shrinks only the decay input, so there the
/// two part.
pub proof fn lemma_mirror_kept(a: StakingAccount, amount: u64, reward: u64, now: i64)
    requires
        mirrored(a),
        a.stake_amount + amount <= u64::MAX,
        a.stake_amount + reward <= u64::MAX,
    ensures
        mirrored(staked(a, amount, now)),
        mirrored(compounded(a, reward, now)),
        mirrored(refreshed(a, reward)),
        mirrored(claimed(a, 0, now)),
        0 < reward <= a.tvl ==> !mirrored(claimed(a, reward, now)),
{
}

/// Compounding and claiming open exactly one full cooldown after the last
/// action, and not a second earlier.
pub proof fn lemma_cooldown_boundary(a: StakingAccount, now: i64)
    ensures
        cooldown_elapsed(a, now) <==> now - a.last_action_time >= 86400,
        now - a.last_action_time == 86400 ==> cooldown_elapsed(a, now),
        now - a.last_action_time == 86399 ==> !cooldown_elapsed(a, now),
{
    assert(COOLDOWN_SECS == 86400);
}

/// Refreshing the cached estimate twice with the same reward leaves the
/// record as one refresh does, and touches no field but the estimate.
pub proof fn lemma_refresh_idempotent(a: StakingAccount, reward: u64)
    ensures
        refreshed(refreshed(a, reward), reward) == refreshed(a, reward),
        refreshed(a, reward).unclaimed_rewards == reward,
        refreshed(a, reward).user == a.user,
        refreshed(a, reward).stake_amount == a.stake_amount,
        refreshed(a, reward).tvl == a.tvl,
        refreshed(a, reward).last_action_time == a.last_action_time,
{
}

} // verus!
