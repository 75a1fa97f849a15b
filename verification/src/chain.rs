//! The amounts of a covenant chain.
//!
//! A locked amount leaves the covenant round by round. Each round sends at
//! most the round cap to the spend address and locks the remainder again,
//! until what would remain is too small to pay for another round.

use vstd::prelude::*;

verus! {

/// `a - b`, or zero where `b` is the larger.
pub open spec fn sub_or_zero(a: nat, b: nat) -> nat {
    if a >= b {
        (a - b) as nat
    } else {
        0
    }
}

/// The split of one round: what it spends and what it locks again.
///
/// Above the cap the round spends the cap and relocks the rest. A rest that
/// does not exceed the fee is not worth a round of its own: the round then
/// spends everything but the fee and relocks nothing, as does a round that
/// starts at or below the cap.
pub open spec fn spec_split(previous: nat, cap: nat, fee: nat) -> (nat, nat) {
    if previous > cap {
        let relock = (previous - cap) as nat;
        if relock <= fee {
            (sub_or_zero(previous, fee), 0nat)
        } else {
            (cap, relock)
        }
    } else {
        (sub_or_zero(previous, fee), 0nat)
    }
}

/// Whether the chain ends with the round that relocks `relock`.
pub open spec fn spec_is_last(relock: nat, fee: nat) -> bool {
    relock < 2 * fee
}

/// The splits of the whole chain that starts from `previous` satoshis, first
/// round first. With a cap or a fee of zero only the first round is taken.
pub open spec fn spec_chain(previous: nat, cap: nat, fee: nat) -> Seq<(nat, nat)>
    decreases previous,
{
    let (spend, relock) = spec_split(previous, cap, fee);
    if cap == 0 || fee == 0 || spec_is_last(relock, fee) {
        seq![(spend, relock)]
    } else {
        seq![(spend, relock)].add(spec_chain(relock, cap, fee))
    }
}

/// Computes the split of one round.
///
/// A round that starts at or below the cap has to pay its fee out of what
/// it starts with.
pub fn split_amount(previous: u64, cap: u64, fee: u64) -> (r: (u64, u64))
    requires
        previous > cap || previous >= fee,
    ensures
        (r.0 as nat, r.1 as nat) == spec_split(previous as nat, cap as nat, fee as nat),
        r.0 <= cap,
        r.1 == 0 || r.1 > fee,
        r.1 > 0 ==> r.1 + cap == previous,
        r.0 + r.1 <= previous,
{
    if previous > cap {
        let relock: u64 = previous - cap;
        if relock <= fee {
            (previous.saturating_sub(fee), 0)
        } else {
            (cap, relock)
        }
    } else {
        (previous - fee, 0)
    }
}

/// Tells whether the chain ends with the round that relocks `relock`: it
/// does when the relocked amount is below twice the fee.
pub fn is_last(relock: u64, fee: u64) -> (r: bool)
    ensures
        r == spec_is_last(relock as nat, fee as nat),
{
    if fee > u64::MAX / 2 {
        true
    } else {
        relock < 2 * fee
    }
}

/// Computes the splits of the whole chain that starts from `funding`
/// satoshis, first round first.
pub fn chain_amounts(funding: u64, cap: u64, fee: u64) -> (r: Vec<(u64, u64)>)
    requires
        cap > 0,
        fee > 0,
        funding > cap || funding >= fee,
    ensures
        r@.len() == spec_chain(funding as nat, cap as nat, fee as nat).len(),
        forall|k: int|
            0 <= k < r@.len() ==> ((#[trigger] r@[k]).0 as nat, r@[k].1 as nat) == spec_chain(
                funding as nat,
                cap as nat,
                fee as nat,
            )[k],
{
    let ghost whole = spec_chain(funding as nat, cap as nat, fee as nat);
    let mut r: Vec<(u64, u64)> = Vec::new();
    let mut amount: u64 = funding;
    loop
        invariant
            cap > 0,
            fee > 0,
            amount > cap || amount >= fee,
            whole == spec_chain(funding as nat, cap as nat, fee as nat),
            whole.len() == r@.len() + spec_chain(amount as nat, cap as nat, fee as nat).len(),
            forall|k: int|
                0 <= k < r@.len() ==> ((#[trigger] r@[k]).0 as nat, r@[k].1 as nat) == whole[k],
            forall|k: int|
                0 <= k < spec_chain(amount as nat, cap as nat, fee as nat).len() ==> whole[r@.len()
                    + k] == #[trigger] spec_chain(amount as nat, cap as nat, fee as nat)[k],
        decreases amount,
    {
        let ghost rest = spec_chain(amount as nat, cap as nat, fee as nat);
        let (spend, relock) = split_amount(amount, cap, fee);
        assert(rest[0] == (spend as nat, relock as nat));
        r.push((spend, relock));
        if is_last(relock, fee) {
            return r;
        }
        proof {
            let next = spec_chain(relock as nat, cap as nat, fee as nat);
            assert forall|k: int| 0 <= k < next.len() implies whole[r@.len() + k]
                == #[trigger] next[k] by {
                assert(rest[k + 1] == next[k]);
            }
        }
        amount = relock;
    }
}

/// No round spends more than the cap.
pub proof fn lemma_split_within_cap(previous: nat, cap: nat, fee: nat)
    ensures
        spec_split(previous, cap, fee).0 <= cap,
{
}

/// Every round of a chain spends at most the cap.
pub proof fn lemma_chain_within_cap(previous: nat, cap: nat, fee: nat)
    ensures
        forall|i: int|
            0 <= i < spec_chain(previous, cap, fee).len() ==> (#[trigger] spec_chain(
                previous,
                cap,
                fee,
            )[i]).0 <= cap,
    decreases previous,
{
    let (spend, relock) = spec_split(previous, cap, fee);
    let chain = spec_chain(previous, cap, fee);
    if !(cap == 0 || fee == 0 || spec_is_last(relock, fee)) {
        lemma_chain_within_cap(relock, cap, fee);
        let rest = spec_chain(relock, cap, fee);
        assert forall|i: int| 0 <= i < chain.len() implies (#[trigger] chain[i]).0 <= cap by {
            if i > 0 {
                assert(chain[i] == rest[i - 1]);
            }
        }
    }
}

/// A chain with a positive cap and a positive fee ends: it has at least one
/// round and at most one more than the cap goes into the funding amount,
/// every round but the last relocks at least twice the fee, and the last
/// relocks nothing or less than twice the fee.
pub proof fn lemma_chain_ends(funding: nat, cap: nat, fee: nat)
    requires
        funding > 0,
        cap > 0,
        fee > 0,
    ensures
        1 <= spec_chain(funding, cap, fee).len() <= funding / cap + 1,
        spec_chain(funding, cap, fee).last().1 < 2 * fee,
        forall|i: int|
            0 <= i < spec_chain(funding, cap, fee).len() - 1 ==> (#[trigger] spec_chain(
                funding,
                cap,
                fee,
            )[i]).1 >= 2 * fee,
    decreases funding,
{
    let (spend, relock) = spec_split(funding, cap, fee);
    if !spec_is_last(relock, fee) {
        lemma_chain_ends(relock, cap, fee);
        assert(relock / cap + 1 == funding / cap) by (nonlinear_arith)
            requires
                relock == funding - cap,
                cap > 0,
        ;
    }
}

} // verus!
