use vstd::prelude::*;
use crate::response::{total_amount, transfer_triples, Transfer};

verus! {

/// Share of `balance` granted by `percentage`, rounded down: `floor(balance * percentage / 100)`.
pub open spec fn share_of(balance: nat, percentage: nat) -> nat {
    balance * percentage / 100
}

/// The share splits over the hundreds of the balance and the rest.
proof fn lemma_share_split(balance: nat, percentage: nat)
    requires
        percentage <= 255,
    ensures
        share_of(balance, percentage) == (balance / 100) * percentage + (balance % 100)
            * percentage / 100,
        (balance % 100) * percentage <= 99 * 255,
{
    let b = balance as int;
    let q = (balance / 100) as int;
    let m = (balance % 100) as int;
    let p = percentage as int;
    assert(b == 100 * q + m);
    assert(b * p == 100 * (q * p) + m * p) by (nonlinear_arith)
        requires
            b == 100 * q + m,
    ;
    assert((100 * (q * p) + m * p) / 100 == q * p + (m * p) / 100) by (nonlinear_arith)
        requires
            q * p >= 0,
            m * p >= 0,
    ;
    assert(0 <= m * p <= 99 * 255) by (nonlinear_arith)
        requires
            0 <= m < 100,
            0 <= p <= 255,
    ;
}

/// Computes `floor(balance * percentage / 100)` without an intermediate overflow:
/// only the share itself has to fit in a `u128`.
pub fn share(balance: u128, percentage: u8) -> (r: u128)
    requires
        share_of(balance as nat, percentage as nat) <= u128::MAX,
    ensures
        r == share_of(balance as nat, percentage as nat),
{
    proof {
        lemma_share_split(balance as nat, percentage as nat);
    }
    let p = percentage as u128;
    (balance / 100) * p + (balance % 100) * p / 100
}

/// The share when it fits in a `u128`, else `None`.
pub fn checked_share(balance: u128, percentage: u8) -> (r: Option<u128>)
    ensures
        r == (if share_of(balance as nat, percentage as nat) <= u128::MAX {
            Some(share_of(balance as nat, percentage as nat) as u128)
        } else {
            None
        }),
{
    proof {
        lemma_share_split(balance as nat, percentage as nat);
    }
    let p = percentage as u128;
    match (balance / 100).checked_mul(p) {
        Some(whole) => whole.checked_add((balance % 100) * p / 100),
        None => None,
    }
}

} // verus!

verus! {

/// The two payouts of a goal, computed against the pool as it stands.
#[derive(Debug, PartialEq, Eq)]
pub struct Settlement {
    pub reward_amount: u128,
    pub admin_amount: u128,
}

/// Splits off the player's reward and the owner's cut of `pool_balance`.
/// Nothing is deducted here: what is not paid out stays in the pool.
pub fn settle(pool_balance: u128, reward_percentage: u8, admin_percentage: u8) -> (r: Settlement)
    requires
        share_of(pool_balance as nat, reward_percentage as nat) <= u128::MAX,
        share_of(pool_balance as nat, admin_percentage as nat) <= u128::MAX,
    ensures
        r.reward_amount == share_of(pool_balance as nat, reward_percentage as nat),
        r.admin_amount == share_of(pool_balance as nat, admin_percentage as nat),
{
    Settlement {
        reward_amount: share(pool_balance, reward_percentage),
        admin_amount: share(pool_balance, admin_percentage),
    }
}

/// The transfers a goal queues: the owner's cut first, then the player's reward,
/// each left out when it is zero.
pub open spec fn payout_transfers(
    owner: Seq<char>,
    player: Seq<char>,
    denom: Seq<char>,
    reward: nat,
    admin: nat,
) -> Seq<(Seq<char>, Seq<char>, nat)> {
    (if admin > 0 {
        seq![(owner, denom, admin)]
    } else {
        Seq::empty()
    }) + (if reward > 0 {
        seq![(player, denom, reward)]
    } else {
        Seq::empty()
    })
}

/// Builds the transfers of `payout_transfers` for a settlement.
pub fn payout_messages(s: &Settlement, owner: &String, player: &String, denom: &String) -> (r: Vec<Transfer>)
    ensures
        transfer_triples(r@) == payout_transfers(
            owner@,
            player@,
            denom@,
            s.reward_amount as nat,
            s.admin_amount as nat,
        ),
{
    let mut msgs: Vec<Transfer> = Vec::new();
    if s.admin_amount > 0 {
        msgs.push(Transfer { recipient: owner.clone(), denom: denom.clone(), amount: s.admin_amount });
    }
    if s.reward_amount > 0 {
        msgs.push(Transfer { recipient: player.clone(), denom: denom.clone(), amount: s.reward_amount });
    }
    proof {
        assert(transfer_triples(msgs@) =~= payout_transfers(
            owner@,
            player@,
            denom@,
            s.reward_amount as nat,
            s.admin_amount as nat,
        ));
    }
    msgs
}

/// Settlement accounting, for every pool balance and pair of percentages: the
/// transfers a goal queues add up to the reward plus the owner's cut, and when
/// the percentages sum to at most a hundred they never exceed the pool, the
/// remainder `B - floor(B*r/100) - floor(B*a/100)` staying in it.
pub proof fn lemma_settlement_accounting(
    owner: Seq<char>,
    player: Seq<char>,
    denom: Seq<char>,
    pool_balance: nat,
    reward_percentage: nat,
    admin_percentage: nat,
)
    ensures
        total_amount(
            payout_transfers(
                owner,
                player,
                denom,
                share_of(pool_balance, reward_percentage),
                share_of(pool_balance, admin_percentage),
            ),
        ) == share_of(pool_balance, reward_percentage) + share_of(pool_balance, admin_percentage),
        reward_percentage + admin_percentage <= 100 ==> share_of(pool_balance, reward_percentage)
            + share_of(pool_balance, admin_percentage) <= pool_balance,
{
    let reward = share_of(pool_balance, reward_percentage);
    let admin = share_of(pool_balance, admin_percentage);
    let ts = payout_transfers(owner, player, denom, reward, admin);
    let a: Seq<(Seq<char>, Seq<char>, nat)> = if admin > 0 {
        seq![(owner, denom, admin)]
    } else {
        Seq::empty()
    };
    let b: Seq<(Seq<char>, Seq<char>, nat)> = if reward > 0 {
        seq![(player, denom, reward)]
    } else {
        Seq::empty()
    };
    assert(ts == a + b);
    let empty = Seq::<(Seq<char>, Seq<char>, nat)>::empty();
    assert(total_amount(empty) == 0);
    if a.len() == 1 {
        assert(a.drop_last() =~= empty);
    }
    assert(total_amount(a) == admin);
    if b.len() == 1 {
        assert((a + b).drop_last() =~= a);
        assert((a + b).last() == b[0]);
    } else {
        assert(a + b =~= a);
    }
    assert(total_amount(a + b) == admin + reward);
    if reward_percentage + admin_percentage <= 100 {
        let bal = pool_balance as int;
        let r = reward_percentage as int;
        let m = admin_percentage as int;
        assert((bal * r) / 100 + (bal * m) / 100 <= (bal * r + bal * m) / 100) by (nonlinear_arith)
            requires bal >= 0, r >= 0, m >= 0;
        assert(bal * r + bal * m <= bal * 100) by (nonlinear_arith)
            requires bal >= 0, r + m <= 100, r >= 0, m >= 0;
        assert((bal * r + bal * m) / 100 <= bal) by (nonlinear_arith)
            requires bal * r + bal * m <= bal * 100, bal >= 0, r >= 0, m >= 0;
    }
}

} // verus!
