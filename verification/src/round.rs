//! The ledger of rounds: one record for each link of the covenant chain,
//! and the state that each record is in.

use crate::error::Error;
use crate::tx::{
    compute_txid, copy_output, outputs_view, psbts_view, same_txid, total_value, txid_of,
    OutPoint, Psbt, PsbtView, Transaction, TxOut, TxOutView,
};
use vstd::prelude::*;

verus! {

/// One link of the covenant chain.
#[derive(Debug, PartialEq)]
pub struct Round {
    /// The transaction template of this round.
    pub psbt: Psbt,
    /// The transaction that has unlocked this round, once it is seen.
    pub spend: Option<Transaction>,
    /// The transactions that the coins of this round come from.
    pub transactions: Vec<Transaction>,
    /// The outputs that the spend key can spend.
    pub coins: Vec<OutPoint>,
    /// The block height from which this round can be unlocked.
    pub unlock: Option<u64>,
    /// The height of the block that holds the unlocking transaction.
    pub unlocked: Option<u64>,
    /// Number of the round, counted from one.
    pub index: u32,
    /// Snapshot of the round before this one, where one is carried.
    pub previous: Option<Box<Round>>,
    /// Snapshot of the round after this one, set once that round is
    /// unlocked.
    pub next: Option<Box<Round>>,
}

/// The state of a round. It is derived from the record of the round and
/// stored nowhere.
#[derive(Debug, Clone, Copy, PartialEq, Eq, Structural)]
pub enum State {
    /// Not yet unlocked.
    Locked,
    /// Unlocked, and no later round is.
    Active,
    /// Unlocked, and so is a later round.
    Inactive,
}

/// The position of the last transaction of `transactions` whose id is
/// `txid`, if there is one.
pub open spec fn spec_tx_for_coin(transactions: Seq<Transaction>, txid: Seq<u8>) -> Option<int>
    decreases transactions.len(),
{
    if transactions.len() == 0 {
        None
    } else if txid_of(transactions.last()@) == txid {
        Some(transactions.len() - 1)
    } else {
        spec_tx_for_coin(transactions.drop_last(), txid)
    }
}

/// The output that a coin names among `transactions`, if its transaction is
/// there and has that output.
pub open spec fn spec_coin_output(transactions: Seq<Transaction>, coin: OutPoint) -> Option<
    TxOutView,
> {
    match spec_tx_for_coin(transactions, coin.txid@) {
        Some(i) => if coin.vout < transactions[i].output@.len() {
            Some(transactions[i].output@[coin.vout as int]@)
        } else {
            None
        },
        None => None,
    }
}

/// The outputs that some coins name among `transactions`, in the order of
/// the coins; `None` if one of them names nothing.
pub open spec fn spec_coin_outputs(transactions: Seq<Transaction>, coins: Seq<OutPoint>) -> Option<
    Seq<TxOutView>,
>
    decreases coins.len(),
{
    if coins.len() == 0 {
        Some(Seq::empty())
    } else {
        match (
            spec_coin_outputs(transactions, coins.drop_last()),
            spec_coin_output(transactions, coins.last()),
        ) {
            (Some(outputs), Some(output)) => Some(outputs.push(output)),
            _ => None,
        }
    }
}

/// Adds up the values of some outputs, unless the sum leaves `u64`.
pub fn sum_values(outputs: &Vec<TxOut>) -> (r: Option<u64>)
    ensures
        match r {
            Some(total) => total == total_value(outputs_view(outputs@)),
            None => total_value(outputs_view(outputs@)) > u64::MAX,
        },
{
    let mut total: u64 = 0;
    let mut i: usize = 0;
    while i < outputs.len()
        invariant
            i <= outputs.len(),
            total == total_value(outputs_view(outputs@.take(i as int))),
        decreases outputs.len() - i,
    {
        proof {
            let next = outputs_view(outputs@.take(i + 1));
            assert(next.drop_last() =~= outputs_view(outputs@.take(i as int)));
        }
        match total.checked_add(outputs[i].value) {
            Some(sum) => {
                total = sum;
            },
            None => {
                proof {
                    lemma_total_value_grows(outputs_view(outputs@), i + 1);
                    assert(outputs_view(outputs@).take(i + 1) =~= outputs_view(
                        outputs@.take(i + 1),
                    ));
                }
                return None;
            },
        }
        i = i + 1;
    }
    assert(outputs@.take(i as int) =~= outputs@);
    Some(total)
}

/// The values of the first outputs of a sequence add up to no more than the
/// values of all of them.
pub proof fn lemma_total_value_grows(outputs: Seq<TxOutView>, n: int)
    requires
        0 <= n <= outputs.len(),
    ensures
        total_value(outputs.take(n)) <= total_value(outputs),
    decreases outputs.len(),
{
    if n < outputs.len() {
        assert(outputs.drop_last().take(n) =~= outputs.take(n));
        lemma_total_value_grows(outputs.drop_last(), n);
    } else {
        assert(outputs.take(n) =~= outputs);
    }
}

/// Whether `round` is the record of a round that has just been crafted: it
/// carries its template and its number and nothing else.
pub open spec fn spec_fresh(round: Round, psbt: PsbtView, index: int) -> bool {
    &&& round.psbt@ == psbt
    &&& round.index == index
    &&& round.spend is None
    &&& round.transactions@.len() == 0
    &&& round.coins@.len() == 0
    &&& round.unlock is None
    &&& round.unlocked is None
    &&& round.previous is None
    &&& round.next is None
}

/// Whether `rounds` are the records of a chain that has just been crafted:
/// one for each template, numbered from one.
pub open spec fn spec_fresh_rounds(rounds: Seq<Round>, chain: Seq<PsbtView>) -> bool {
    &&& rounds.len() == chain.len()
    &&& forall|k: int| 0 <= k < rounds.len() ==> spec_fresh(#[trigger] rounds[k], chain[k], k + 1)
}

/// Makes the records of a chain that has just been crafted. A chain of
/// more rounds than `u32` counts has no records.
pub fn fresh_rounds(chain: Vec<Psbt>) -> (r: Option<Vec<Round>>)
    ensures
        match r {
            Some(rounds) => spec_fresh_rounds(rounds@, psbts_view(chain@)),
            None => chain@.len() > u32::MAX,
        },
{
    if chain.len() > u32::MAX as usize {
        return None;
    }
    let ghost templates = chain@;
    let mut rounds: Vec<Round> = Vec::new();
    let mut index: u32 = 0;
    for psbt in it: chain
        invariant
            templates.len() <= u32::MAX,
            it.seq() == templates,
            index == it.index(),
            rounds@.len() == it.index(),
            forall|k: int|
                0 <= k < rounds@.len() ==> spec_fresh(#[trigger] rounds@[k], templates[k]@, k + 1),
    {
        index = index + 1;
        rounds.push(Round::new(psbt, index));
    }
    Some(rounds)
}

impl Round {
    /// Whether the covenant output of this round has been seen spent.
    pub open spec fn spec_is_unlocked(&self) -> bool {
        self.spend is Some
    }

    /// The state of this round.
    pub open spec fn spec_state(&self) -> State {
        if self.spend is None {
            State::Locked
        } else if self.next is None {
            State::Active
        } else {
            State::Inactive
        }
    }

    /// Whether this round is the frontier of the chain.
    pub open spec fn spec_is_active(&self) -> bool {
        self.spec_state() == State::Active
    }

    /// The outputs that the coins of this round name, in order; `None` if a
    /// coin names nothing that the round has recorded.
    pub open spec fn spec_spendable_coins(&self) -> Option<Seq<TxOutView>> {
        spec_coin_outputs(self.transactions@, self.coins@)
    }

    /// A round that has not been unlocked and carries nothing but its
    /// template and its number.
    pub fn new(psbt: Psbt, index: u32) -> (r: Round)
        ensures
            r.psbt == psbt,
            r.index == index,
            r.spend is None,
            r.transactions@.len() == 0,
            r.coins@.len() == 0,
            r.unlock is None,
            r.unlocked is None,
            r.previous is None,
            r.next is None,
            r.spec_state() == State::Locked,
    {
        Round {
            psbt,
            spend: None,
            transactions: Vec::new(),
            coins: Vec::new(),
            unlock: None,
            unlocked: None,
            index,
            previous: None,
            next: None,
        }
    }

    /// Derives the state of the round from its record: locked until its
    /// spending transaction is seen, then active until a next round is
    /// linked, inactive from then on.
    pub fn state(&self) -> (r: State)
        ensures
            r == self.spec_state(),
    {
        if !self.is_unlocked() {
            State::Locked
        } else if self.next.is_none() {
            State::Active
        } else {
            State::Inactive
        }
    }

    /// Tells whether the round has been unlocked.
    pub fn is_unlocked(&self) -> (r: bool)
        ensures
            r == self.spec_is_unlocked(),
    {
        self.spend.is_some()
    }

    /// Tells whether the round is unlocked and holds a coin.
    pub fn is_spendable(&self) -> (r: bool)
        ensures
            r == (self.spec_is_unlocked() && self.coins@.len() > 0),
    {
        self.is_unlocked() && self.coins.len() > 0
    }

    /// Finds the transaction that a coin comes from: the last one recorded
    /// under the coin's transaction id.
    fn tx_for_coin(&self, coin: &OutPoint) -> (r: Option<usize>)
        ensures
            match r {
                Some(i) => spec_tx_for_coin(self.transactions@, coin.txid@) == Some(i as int) && i
                    < self.transactions@.len(),
                None => spec_tx_for_coin(self.transactions@, coin.txid@) is None,
            },
    {
        let mut i: usize = self.transactions.len();
        assert(self.transactions@.take(i as int) =~= self.transactions@);
        while i > 0
            invariant
                i <= self.transactions@.len(),
                spec_tx_for_coin(self.transactions@, coin.txid@) == spec_tx_for_coin(
                    self.transactions@.take(i as int),
                    coin.txid@,
                ),
            decreases i,
        {
            proof {
                let head = self.transactions@.take(i as int);
                assert(head.drop_last() =~= self.transactions@.take(i - 1));
            }
            let id = compute_txid(&self.transactions[i - 1]);
            if same_txid(&id, &coin.txid) {
                return Some(i - 1);
            }
            i = i - 1;
        }
        None
    }

    /// Looks up the output that a coin names.
    fn coin_output(&self, coin: &OutPoint) -> (r: Option<TxOut>)
        ensures
            match r {
                Some(output) => spec_coin_output(self.transactions@, *coin) == Some(output@),
                None => spec_coin_output(self.transactions@, *coin) is None,
            },
    {
        match self.tx_for_coin(coin) {
            Some(i) => {
                let tx = &self.transactions[i];
                let vout = coin.vout as usize;
                if vout < tx.output.len() {
                    Some(copy_output(&tx.output[vout]))
                } else {
                    None
                }
            },
            None => None,
        }
    }

    /// Collects the outputs that the coins of the round name, in the order
    /// of the coins. A coin whose transaction the round has not recorded,
    /// or that names an output that its transaction does not have, is an
    /// error.
    pub fn spendable_coins(&self) -> (r: Result<Vec<TxOut>, Error>)
        ensures
            match r {
                Ok(outputs) => self.spec_spendable_coins() == Some(outputs_view(outputs@)),
                Err(e) => e == Error::MissingCoin && self.spec_spendable_coins() is None,
            },
    {
        let mut outputs: Vec<TxOut> = Vec::new();
        let mut i: usize = 0;
        while i < self.coins.len()
            invariant
                i <= self.coins@.len(),
                spec_coin_outputs(self.transactions@, self.coins@.take(i as int)) == Some(
                    outputs_view(outputs@),
                ),
            decreases self.coins.len() - i,
        {
            proof {
                let head = self.coins@.take(i + 1);
                assert(head.drop_last() =~= self.coins@.take(i as int));
            }
            match self.coin_output(&self.coins[i]) {
                Some(output) => {
                    outputs.push(output);
                },
                None => {
                    proof {
                        lemma_coin_outputs_fail(self.transactions@, self.coins@, i + 1);
                    }
                    return Err(Error::MissingCoin);
                },
            }
            i = i + 1;
        }
        assert(self.coins@.take(i as int) =~= self.coins@);
        Ok(outputs)
    }

    /// Adds up the spendable coins of the round, in satoshis. Fails as
    /// `spendable_coins` does, and where the sum leaves `u64`.
    pub fn spendable_amount(&self) -> (r: Result<u64, Error>)
        ensures
            match r {
                Ok(amount) => self.spec_spendable_coins() matches Some(outputs) && amount
                    == total_value(outputs),
                Err(Error::MissingCoin) => self.spec_spendable_coins() is None,
                Err(Error::Overflow) => self.spec_spendable_coins() matches Some(outputs)
                    && total_value(outputs) > u64::MAX,
                Err(_) => false,
            },
    {
        match self.spendable_coins() {
            Ok(outputs) => match sum_values(&outputs) {
                Some(amount) => Ok(amount),
                None => Err(Error::Overflow),
            },
            Err(e) => Err(e),
        }
    }
}

/// Once the first coins of a list name nothing, so does the whole list.
pub proof fn lemma_coin_outputs_fail(transactions: Seq<Transaction>, coins: Seq<OutPoint>, n: int)
    requires
        0 <= n <= coins.len(),
        spec_coin_outputs(transactions, coins.take(n)) is None,
    ensures
        spec_coin_outputs(transactions, coins) is None,
    decreases coins.len(),
{
    if n < coins.len() {
        assert(coins.drop_last().take(n) =~= coins.take(n));
        lemma_coin_outputs_fail(transactions, coins.drop_last(), n);
    } else {
        assert(coins.take(n) =~= coins);
    }
}

/// The ledger of a wallet: its rounds, sound once `init` has accepted them.
#[derive(Debug, PartialEq)]
pub struct Rounds(Vec<Round>);

impl View for Rounds {
    type V = Seq<Round>;

    closed spec fn view(&self) -> Seq<Round> {
        self.0@
    }
}

/// Whether the rounds stand in ascending order of their numbers.
pub open spec fn spec_sorted(rounds: Seq<Round>) -> bool {
    forall|a: int, b: int| 0 <= a < b < rounds.len() ==> rounds[a].index <= rounds[b].index
}

/// Whether `after` holds the rounds of `before` in another order, where
/// `origin` gives for each place of `after` the place in `before` that its
/// round comes from, and `place` for each place of `before` the place in
/// `after` that its round goes to.
pub open spec fn spec_reordering(
    before: Seq<Round>,
    after: Seq<Round>,
    origin: Seq<int>,
    place: Seq<int>,
) -> bool {
    &&& after.len() == before.len()
    &&& origin.len() == before.len()
    &&& place.len() == before.len()
    &&& forall|p: int|
        0 <= p < after.len() ==> 0 <= #[trigger] origin[p] < before.len() && after[p]
            == before[origin[p]] && place[origin[p]] == p
    &&& forall|o: int|
        0 <= o < before.len() ==> 0 <= #[trigger] place[o] < after.len() && origin[place[o]] == o
}

/// Whether rounds with the same number stand in `after` in the order in
/// which they came.
pub open spec fn spec_stable(after: Seq<Round>, origin: Seq<int>) -> bool {
    forall|a: int, b: int|
        0 <= a < b < after.len() && after[a].index == after[b].index ==> origin[a] < origin[b]
}

/// Whether `after` is what sorting `before` by round number gives: the same
/// rounds, in ascending order, those with the same number in the order in
/// which they came.
pub open spec fn spec_sorted_from(before: Seq<Round>, after: Seq<Round>) -> bool {
    exists|origin: Seq<int>, place: Seq<int>|
        spec_reordering(before, after, origin, place) && spec_stable(after, origin) && spec_sorted(
            after,
        )
}

/// Whether a ledger in ascending order is sound: its rounds are numbered
/// `1..=n` without a gap, and at most one of them is active.
pub open spec fn spec_ledger_ok(rounds: Seq<Round>) -> bool {
    &&& forall|p: int| 0 <= p < rounds.len() ==> (#[trigger] rounds[p]).index == p + 1
    &&& forall|a: int, b: int|
        0 <= a < b < rounds.len() ==> !(rounds[a].spec_is_active() && rounds[b].spec_is_active())
}

/// Whether two rounds bear the same number.
pub open spec fn spec_has_duplicate(rounds: Seq<Round>) -> bool {
    exists|a: int, b: int| 0 <= a < b < rounds.len() && rounds[a].index == rounds[b].index
}

/// Whether one of the rounds bears the number `k`.
pub open spec fn spec_bears(rounds: Seq<Round>, k: int) -> bool {
    exists|a: int| 0 <= a < rounds.len() && (#[trigger] rounds[a]).index == k
}

/// Whether one of the numbers `1..=n` is borne by none of the `n` rounds.
pub open spec fn spec_has_gap(rounds: Seq<Round>) -> bool {
    exists|k: int| 1 <= k <= rounds.len() && !#[trigger] spec_bears(rounds, k)
}

/// Whether more than one round is active.
pub open spec fn spec_many_active(rounds: Seq<Round>) -> bool {
    exists|a: int, b: int|
        0 <= a < b < rounds.len() && rounds[a].spec_is_active() && rounds[b].spec_is_active()
}

/// What finding the active round of a ledger in ascending order gives: the
/// place of the one active round of a sound ledger.
pub open spec fn spec_current_round(rounds: Seq<Round>, r: Result<usize, Error>) -> bool {
    match r {
        Ok(i) => spec_ledger_ok(rounds) && i < rounds.len() && rounds[i as int].spec_is_active()
            && forall|q: int|
            0 <= q < rounds.len() && q != i ==> !(#[trigger] rounds[q]).spec_is_active(),
        Err(Error::Ledger) => !spec_ledger_ok(rounds),
        Err(Error::NoActiveRound) => spec_ledger_ok(rounds) && forall|q: int|
            0 <= q < rounds.len() ==> !(#[trigger] rounds[q]).spec_is_active(),
        Err(_) => false,
    }
}

/// The spendable coins of all the rounds, round after round; `None` if a
/// coin of one of them names nothing that its round has recorded.
pub open spec fn spec_all_coins(rounds: Seq<Round>) -> Option<Seq<TxOutView>>
    decreases rounds.len(),
{
    if rounds.len() == 0 {
        Some(Seq::empty())
    } else {
        match (spec_all_coins(rounds.drop_last()), rounds.last().spec_spendable_coins()) {
            (Some(head), Some(tail)) => Some(head + tail),
            _ => None,
        }
    }
}

/// A reordering that never puts a later round before an earlier one puts
/// no round before its place.
proof fn lemma_origin_grows(origin: Seq<int>, p: int)
    requires
        0 <= p < origin.len(),
        forall|a: int| 0 <= a < origin.len() ==> 0 <= #[trigger] origin[a] < origin.len(),
        forall|a: int, b: int| 0 <= a < b < origin.len() ==> origin[a] < origin[b],
    ensures
        p <= origin[p],
    decreases p,
{
    if p > 0 {
        lemma_origin_grows(origin, p - 1);
    }
}

/// A reordering that never puts a later round before an earlier one puts
/// no round behind its place.
proof fn lemma_origin_bounded(origin: Seq<int>, p: int)
    requires
        0 <= p < origin.len(),
        forall|a: int| 0 <= a < origin.len() ==> 0 <= #[trigger] origin[a] < origin.len(),
        forall|a: int, b: int| 0 <= a < b < origin.len() ==> origin[a] < origin[b],
    ensures
        origin[p] <= p,
    decreases origin.len() - p,
{
    if p + 1 < origin.len() {
        lemma_origin_bounded(origin, p + 1);
    }
}

/// Sorting leaves a ledger that is in order as it is.
pub proof fn lemma_sorted_stays(before: Seq<Round>, after: Seq<Round>)
    requires
        spec_sorted_from(before, after),
        spec_sorted(before),
    ensures
        after == before,
{
    let (origin, place) = choose|origin: Seq<int>, place: Seq<int>|
        spec_reordering(before, after, origin, place) && spec_stable(after, origin) && spec_sorted(
            after,
        );
    assert forall|a: int, b: int| 0 <= a < b < origin.len() implies origin[a] < origin[b] by {
        if origin[a] >= origin[b] {
            assert(place[origin[a]] == a && place[origin[b]] == b);
            assert(origin[a] != origin[b]);
            assert(before[origin[b]].index <= before[origin[a]].index);
        }
    }
    assert forall|p: int| 0 <= p < after.len() implies after[p] == before[p] by {
        lemma_origin_grows(origin, p);
        lemma_origin_bounded(origin, p);
    }
    assert(after =~= before);
}

/// A ledger with two rounds of one number, with a number missing, or with
/// more than one active round is not sound, in whatever order it is put.
pub proof fn lemma_ledger_rejects(before: Seq<Round>, after: Seq<Round>)
    requires
        spec_sorted_from(before, after),
        spec_has_duplicate(before) || spec_has_gap(before) || spec_many_active(before),
    ensures
        !spec_ledger_ok(after),
{
    let (origin, place) = choose|origin: Seq<int>, place: Seq<int>|
        spec_reordering(before, after, origin, place) && spec_stable(after, origin) && spec_sorted(
            after,
        );
    if spec_ledger_ok(after) {
        if spec_has_duplicate(before) {
            let (a, b) = choose|a: int, b: int|
                0 <= a < b < before.len() && before[a].index == before[b].index;
            assert(after[place[a]] == before[a]);
            assert(after[place[b]] == before[b]);
            assert(place[a] != place[b]);
        } else if spec_has_gap(before) {
            let k = choose|k: int| 1 <= k <= before.len() && !#[trigger] spec_bears(before, k);
            assert(after[k - 1].index == k);
            assert(after[k - 1] == before[origin[k - 1]]);
            assert(before[origin[k - 1]].index == k);
        } else {
            let (a, b) = choose|a: int, b: int|
                0 <= a < b < before.len() && before[a].spec_is_active()
                    && before[b].spec_is_active();
            assert(after[place[a]] == before[a]);
            assert(after[place[b]] == before[b]);
            assert(place[a] != place[b]);
        }
    }
}

/// A ledger without two rounds of one number, without a missing number and
/// with at most one active round is sound once it is put in order.
pub proof fn lemma_ledger_accepts(before: Seq<Round>, after: Seq<Round>)
    requires
        spec_sorted_from(before, after),
        !spec_has_duplicate(before),
        !spec_has_gap(before),
        !spec_many_active(before),
    ensures
        spec_ledger_ok(after),
{
    let (origin, place) = choose|origin: Seq<int>, place: Seq<int>|
        spec_reordering(before, after, origin, place) && spec_stable(after, origin) && spec_sorted(
            after,
        );
    let n = after.len() as int;
    // Where each number stands in the ledger in order.
    let seat = Seq::new(
        n as nat,
        |j: int| choose|a: int| 0 <= a < n && (#[trigger] after[a]).index == j + 1,
    );
    assert forall|j: int| 0 <= j < n implies 0 <= #[trigger] seat[j] < n && after[seat[j]].index
        == j + 1 by {
        assert(spec_bears(before, j + 1));
        let o = choose|o: int| 0 <= o < before.len() && (#[trigger] before[o]).index == j + 1;
        assert(after[place[o]] == before[o]);
    }
    assert forall|i: int, j: int| 0 <= i < j < n implies seat[i] < seat[j] by {
        if seat[i] > seat[j] {
            assert(after[seat[j]].index <= after[seat[i]].index);
        }
    }
    assert forall|p: int| 0 <= p < n implies (#[trigger] after[p]).index == p + 1 by {
        lemma_origin_grows(seat, p);
        lemma_origin_bounded(seat, p);
    }
    assert forall|a: int, b: int| 0 <= a < b < n implies !(after[a].spec_is_active()
        && after[b].spec_is_active()) by {
        if after[a].spec_is_active() && after[b].spec_is_active() {
            assert(after[a] == before[origin[a]] && after[b] == before[origin[b]]);
            assert(place[origin[a]] == a && place[origin[b]] == b);
            if origin[a] < origin[b] {
                assert(before[origin[a]].spec_is_active() && before[origin[b]].spec_is_active());
            } else {
                assert(before[origin[b]].spec_is_active() && before[origin[a]].spec_is_active());
            }
        }
    }
}

impl Rounds {
    /// An empty ledger.
    pub fn new() -> (r: Rounds)
        ensures
            r@ == Seq::<Round>::empty(),
    {
        Rounds(Vec::new())
    }

    /// Puts the ledger in order and checks it: the rounds must be numbered
    /// `1..=n` without a gap, and at most one of them may be active.
    pub fn init(&mut self) -> (r: Result<(), Error>)
        ensures
            spec_sorted_from(old(self)@, final(self)@),
            spec_sorted(old(self)@) ==> final(self)@ == old(self)@,
            r is Ok <==> spec_ledger_ok(final(self)@),
            r matches Err(e) ==> e == Error::Ledger,
            r is Err <==> spec_has_duplicate(old(self)@) || spec_has_gap(old(self)@)
                || spec_many_active(old(self)@),
    {
        self.sort();
        proof {
            if spec_has_duplicate(old(self)@) || spec_has_gap(old(self)@) || spec_many_active(
                old(self)@,
            ) {
                lemma_ledger_rejects(old(self)@, self@);
            } else {
                lemma_ledger_accepts(old(self)@, self@);
            }
        }
        let ghost before = old(self)@;
        let mut active: Option<usize> = None;
        let mut p: usize = 0;
        while p < self.0.len()
            invariant
                p <= self.0@.len(),
                before == old(self)@,
                spec_sorted_from(before, self.0@),
                spec_sorted(before) ==> self.0@ == before,
                spec_ledger_ok(self.0@) <==> !(spec_has_duplicate(before) || spec_has_gap(before)
                    || spec_many_active(before)),
                forall|q: int| 0 <= q < p ==> (#[trigger] self.0@[q]).index == q + 1,
                match active {
                    Some(a) => a < p && self.0@[a as int].spec_is_active() && forall|q: int|
                        0 <= q < p && q != a ==> !(#[trigger] self.0@[q]).spec_is_active(),
                    None => forall|q: int|
                        0 <= q < p ==> !(#[trigger] self.0@[q]).spec_is_active(),
                },
            decreases self.0.len() - p,
        {
            if self.0[p].index as usize != p + 1 {
                return Err(Error::Ledger);
            }
            match self.0[p].state() {
                State::Active => {
                    if active.is_some() {
                        return Err(Error::Ledger);
                    }
                    active = Some(p);
                },
                _ => {},
            }
            p = p + 1;
        }
        Ok(())
    }

    /// Tells whether the chain has been started: whether the first round of
    /// the ledger has been unlocked.
    pub fn is_unlocked(&self) -> (r: bool)
        ensures
            r == (self@.len() > 0 && self@[0].spec_is_unlocked()),
    {
        if self.0.is_empty() {
            false
        } else {
            self.0[0].is_unlocked()
        }
    }

    /// Tells whether the ledger holds no round.
    pub fn is_empty(&self) -> (r: bool)
        ensures
            r == (self@.len() == 0),
    {
        self.0.is_empty()
    }

    /// The number of rounds.
    pub fn len(&self) -> (r: usize)
        ensures
            r == self@.len(),
    {
        self.0.len()
    }

    /// Sorts the rounds by their numbers, ascending. Rounds with the same
    /// number keep their order.
    pub fn sort(&mut self)
        ensures
            spec_sorted_from(old(self)@, final(self)@),
            spec_sorted(old(self)@) ==> final(self)@ == old(self)@,
    {
        // An insertion sort. `origin` and `place` follow every move, so that
        // they tell at any time where each round came from and where it is.
        let ghost before = self.0@;
        let ghost mut origin: Seq<int> = Seq::new(before.len(), |p: int| p);
        let ghost mut place: Seq<int> = Seq::new(before.len(), |o: int| o);
        let n = self.0.len();
        let mut i: usize = 0;
        while i < n
            invariant
                i <= n,
                n == before.len(),
                self.0@.len() == n,
                spec_reordering(before, self.0@, origin, place),
                forall|a: int, b: int|
                    0 <= a < b < i ==> self.0@[a].index <= self.0@[b].index,
                forall|a: int, b: int|
                    0 <= a < b < i && self.0@[a].index == self.0@[b].index ==> origin[a]
                        < origin[b],
                forall|p: int| 0 <= p < i ==> #[trigger] origin[p] < i,
                forall|p: int| i <= p < n ==> #[trigger] origin[p] == p,
            decreases n - i,
        {
            let key = self.0[i].index;
            let mut j: usize = i;
            while j > 0 && self.0[j - 1].index > key
                invariant
                    j <= i,
                    i < n,
                    self.0@.len() == n,
                    key == self.0@[i as int].index,
                    forall|p: int| j <= p < i ==> (#[trigger] self.0@[p]).index > key,
                decreases j,
            {
                j = j - 1;
            }
            if j < i {
                let ghost current = self.0@;
                let ghost origin0 = origin;
                let ghost place0 = place;
                let round = self.0.remove(i);
                self.0.insert(j, round);
                proof {
                    origin = Seq::new(
                        n as nat,
                        |p: int|
                            if p < j {
                                origin0[p]
                            } else if p == j {
                                origin0[i as int]
                            } else if p <= i {
                                origin0[p - 1]
                            } else {
                                origin0[p]
                            },
                    );
                    place = Seq::new(
                        n as nat,
                        |o: int|
                            if place0[o] == i {
                                j as int
                            } else if j <= place0[o] < i {
                                place0[o] + 1
                            } else {
                                place0[o]
                            },
                    );
                    assert forall|p: int| 0 <= p < n implies self.0@[p] == (if p < j {
                        current[p]
                    } else if p == j {
                        current[i as int]
                    } else if p <= i {
                        current[p - 1]
                    } else {
                        current[p]
                    }) by {}
                }
            }
            i = i + 1;
        }
        proof {
            if spec_sorted(before) {
                lemma_sorted_stays(before, self.0@);
            }
        }
    }

    /// Sorts and checks the ledger as `init` does, and finds the active
    /// round: the frontier of the chain. A ledger without an active round
    /// is an error.
    pub fn current_round_index(&mut self) -> (r: Result<usize, Error>)
        ensures
            spec_sorted_from(old(self)@, final(self)@),
            spec_sorted(old(self)@) ==> final(self)@ == old(self)@,
            spec_current_round(final(self)@, r),
    {
        match self.init() {
            Err(e) => {
                return Err(e);
            },
            Ok(()) => {},
        }
        let ghost before = old(self)@;
        let mut i: usize = 0;
        while i < self.0.len()
            invariant
                i <= self.0@.len(),
                before == old(self)@,
                spec_sorted_from(before, self.0@),
                spec_sorted(before) ==> self.0@ == before,
                spec_ledger_ok(self.0@) <==> !(spec_has_duplicate(before) || spec_has_gap(before)
                    || spec_many_active(before)),
                spec_ledger_ok(self.0@),
                forall|q: int| 0 <= q < i ==> !(#[trigger] self.0@[q]).spec_is_active(),
            decreases self.0.len() - i,
        {
            match self.0[i].state() {
                State::Active => {
                    return Ok(i);
                },
                _ => {},
            }
            i = i + 1;
        }
        Err(Error::NoActiveRound)
    }

    /// The round at a position of the ledger, to be changed in place, if
    /// there is one.
    pub fn at(&mut self, pos: usize) -> (r: Option<&mut Round>)
        ensures
            match r {
                Some(round) => pos < old(self)@.len() && *round == old(self)@[pos as int] && final(
                    self
                )@ == old(self)@.update(pos as int, *final(round)),
                None => pos >= old(self)@.len() && final(self)@ == old(self)@,
            },
    {
        if pos < self.0.len() {
            Some(&mut self.0[pos])
        } else {
            None
        }
    }

    /// The round at a position of the ledger, if there is one.
    pub fn get(&self, pos: usize) -> (r: Option<&Round>)
        ensures
            match r {
                Some(round) => pos < self@.len() && *round == self@[pos as int],
                None => pos >= self@.len(),
            },
    {
        if pos < self.0.len() {
            Some(&self.0[pos])
        } else {
            None
        }
    }

    /// Appends a round.
    pub fn push(&mut self, round: Round)
        ensures
            final(self)@ == old(self)@.push(round),
    {
        self.0.push(round);
    }

    /// Appends rounds, in their order.
    pub fn extend(&mut self, rounds: Vec<Round>)
        ensures
            final(self)@ == old(self)@ + rounds@,
    {
        let mut rounds = rounds;
        self.0.append(&mut rounds);
    }

    /// A ledger of the given rounds, in their order, not yet checked.
    pub fn from_vec(rounds: Vec<Round>) -> (r: Rounds)
        ensures
            r@ == rounds@,
    {
        Rounds(rounds)
    }

    /// The rounds of the ledger, in their order.
    pub fn into_vec(self) -> (r: Vec<Round>)
        ensures
            r@ == self@,
    {
        self.0
    }

    /// Collects the spendable coins of all the rounds, round after round.
    /// Fails where a round's `spendable_coins` fails.
    pub fn spendable_coins(&self) -> (r: Result<Vec<TxOut>, Error>)
        ensures
            match r {
                Ok(outputs) => spec_all_coins(self@) == Some(outputs_view(outputs@)),
                Err(e) => e == Error::MissingCoin && spec_all_coins(self@) is None,
            },
    {
        let mut outputs: Vec<TxOut> = Vec::new();
        let mut i: usize = 0;
        while i < self.0.len()
            invariant
                i <= self.0@.len(),
                spec_all_coins(self.0@.take(i as int)) == Some(outputs_view(outputs@)),
            decreases self.0.len() - i,
        {
            proof {
                let head = self.0@.take(i + 1);
                assert(head.drop_last() =~= self.0@.take(i as int));
            }
            match self.0[i].spendable_coins() {
                Ok(mut coins) => {
                    outputs.append(&mut coins);
                },
                Err(e) => {
                    proof {
                        lemma_all_coins_fail(self.0@, i + 1);
                    }
                    return Err(e);
                },
            }
            i = i + 1;
        }
        assert(self.0@.take(i as int) =~= self.0@);
        Ok(outputs)
    }

    /// Adds up the spendable coins of all the rounds, in satoshis. Fails as
    /// `spendable_coins` does, and where the sum leaves `u64`.
    pub fn spendable_amount(&self) -> (r: Result<u64, Error>)
        ensures
            match r {
                Ok(amount) => spec_all_coins(self@) matches Some(outputs) && amount == total_value(
                    outputs,
                ),
                Err(Error::MissingCoin) => spec_all_coins(self@) is None,
                Err(Error::Overflow) => spec_all_coins(self@) matches Some(outputs) && total_value(
                    outputs,
                ) > u64::MAX,
                Err(_) => false,
            },
    {
        match self.spendable_coins() {
            Ok(outputs) => match sum_values(&outputs) {
                Some(amount) => Ok(amount),
                None => Err(Error::Overflow),
            },
            Err(e) => Err(e),
        }
    }
}

impl Default for Rounds {
    fn default() -> (r: Rounds)
        ensures
            r@ == Seq::<Round>::empty(),
    {
        Rounds::new()
    }
}

/// Once the first rounds of a ledger hold a coin that names nothing, the
/// coins of the whole ledger cannot be collected.
pub proof fn lemma_all_coins_fail(rounds: Seq<Round>, n: int)
    requires
        0 <= n <= rounds.len(),
        spec_all_coins(rounds.take(n)) is None,
    ensures
        spec_all_coins(rounds) is None,
    decreases rounds.len(),
{
    if n < rounds.len() {
        assert(rounds.drop_last().take(n) =~= rounds.take(n));
        lemma_all_coins_fail(rounds.drop_last(), n);
    } else {
        assert(rounds.take(n) =~= rounds);
    }
}

} // verus!
