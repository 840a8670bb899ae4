use vstd::prelude::*;

verus! {

/// The protocol fee on `reward`: three percent, rounded down.
pub open spec fn fee_of(reward: u64) -> u64 {
    (reward * 3 / 100) as u64
}

/// Splits a claimed reward into the owner's payout and the protocol fee.
/// The fee is three percent rounded down, and the two parts add up to the
/// reward for every reward value.
pub fn split_fee(reward: u64) -> (r: (u64, u64))
    ensures
        r.1 == fee_of(reward),
        r.1 == reward * 3 / 100,
        r.0 + r.1 == reward,
{
    let wide: u128 = (reward as u128) * 3;
    let fee_wide: u128 = wide / 100;
    assert(fee_wide <= reward) by (nonlinear_arith)
        requires
            wide == reward * 3,
            fee_wide == wide / 100,
    ;
    let fee = fee_wide as u64;
    (reward - fee, fee)
}

} // verus!
