use vstd::prelude::*;

verus! {

/// Length in bytes of an owner's identity key.
pub const KEY_LEN: usize = 32;

/// Tells whether two identity keys are byte-for-byte equal.
pub fn same_key(a: &[u8; 32], b: &[u8; 32]) -> (r: bool)
    ensures
        r == (a@ == b@),
{
    let mut i: usize = 0;
    while i < KEY_LEN
        invariant
            0 <= i <= KEY_LEN,
            a@.len() == KEY_LEN,
            b@.len() == KEY_LEN,
            forall|j: int| 0 <= j < i ==> a@[j] == b@[j],
        decreases KEY_LEN - i,
    {
        if a[i] != b[i] {
            return false;
        }
        i = i + 1;
    }
    proof {
        assert(a@ =~= b@);
    }
    true
}


/// Seconds that must pass after the last state-changing operation before
/// rewards can be compounded or claimed again.
pub const COOLDOWN_SECS: i64 = 86400;

/// A participant's staking record.
#[derive(Clone, Copy, Debug, PartialEq, Eq)]
pub struct StakingAccount {
    /// Identity of the controlling participant; fixed at creation.
    pub user: [u8; 32],
    /// Principal currently staked.
    pub stake_amount: u64,
    /// Timestamp (seconds) of the most recent stake, compound or claim.
    pub last_action_time: i64,
    /// Effective deposit fed to the reward-rate decay.
    pub tvl: u64,
    /// Cached estimate of pending reward, refreshed only on query.
    pub unclaimed_rewards: u64,
}

/// An account of the balance ledger: its identity and its native balance.
#[derive(Clone, Copy, Debug, PartialEq, Eq)]
pub struct Wallet {
    pub key: [u8; 32],
    pub lamports: u64,
}

/// The owner-derived slot that holds a staking record and its held balance.
/// `record` is `None` before initialization and after closing.
#[derive(Clone, Copy, Debug, PartialEq, Eq)]
pub struct Vault {
    pub record: Option<StakingAccount>,
    pub lamports: u64,
}

/// Why an operation was rejected. A rejected operation changes nothing.
#[derive(Clone, Copy, Debug, PartialEq, Eq)]
pub enum ErrorCode {
    /// A balance cannot cover a transfer.
    InsufficientFunds,
    /// A stake of zero.
    InvalidAmount,
    /// Compound or claim before the cooldown has passed.
    ActionTooSoon,
    /// The caller does not own the record.
    Unauthorized,
    /// The slot holds no record (never initialized, or closed).
    NotFound,
    /// The slot already holds a record.
    AlreadyInitialized,
    /// A balance or record field would leave the range of `u64`.
    Overflow,
}

/// The record as created for `user`: every other field zero.
pub open spec fn fresh(user: [u8; 32]) -> StakingAccount {
    StakingAccount { user, stake_amount: 0, last_action_time: 0, tvl: 0, unclaimed_rewards: 0 }
}

/// `key` may act on the record held in `vault`.
pub open spec fn owned_by(vault: Vault, key: [u8; 32]) -> bool {
    vault.record is Some && vault.record->Some_0.user@ == key@
}

/// At least a full cooldown has passed since the record's last action.
pub open spec fn cooldown_elapsed(a: StakingAccount, now: i64) -> bool {
    now - a.last_action_time >= COOLDOWN_SECS
}

/// The record after a deposit of `amount` at `now`.
pub open spec fn staked(a: StakingAccount, amount: u64, now: i64) -> StakingAccount {
    StakingAccount {
        user: a.user,
        stake_amount: (a.stake_amount + amount) as u64,
        last_action_time: now,
        tvl: (a.tvl + amount) as u64,
        unclaimed_rewards: a.unclaimed_rewards,
    }
}

/// The record after `reward` is folded into the principal at `now`.
pub open spec fn compounded(a: StakingAccount, reward: u64, now: i64) -> StakingAccount {
    StakingAccount {
        user: a.user,
        stake_amount: (a.stake_amount + reward) as u64,
        last_action_time: now,
        tvl: (a.tvl + reward) as u64,
        unclaimed_rewards: 0,
    }
}

/// The record after `reward` is paid out at `now`: only the decay input shrinks.
pub open spec fn claimed(a: StakingAccount, reward: u64, now: i64) -> StakingAccount {
    StakingAccount {
        user: a.user,
        stake_amount: a.stake_amount,
        last_action_time: now,
        tvl: (a.tvl - reward) as u64,
        unclaimed_rewards: 0,
    }
}

/// The record after its cached reward estimate is set to `reward`.
pub open spec fn refreshed(a: StakingAccount, reward: u64) -> StakingAccount {
    StakingAccount {
        user: a.user,
        stake_amount: a.stake_amount,
        last_action_time: a.last_action_time,
        tvl: a.tvl,
        unclaimed_rewards: reward,
    }
}

/// Principal and decay input agree.
pub open spec fn mirrored(a: StakingAccount) -> bool {
    a.stake_amount == a.tvl
}

} // verus!
