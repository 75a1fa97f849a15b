use lfc::round::{fresh_rounds, sum_values, Round, Rounds, State};
use lfc::tx::{OutPoint, Psbt, Transaction, TxIn, TxOut};
use lfc::Error;

fn tx(tag: u8, values: &[u64]) -> Transaction {
    Transaction {
        version: 2,
        lock_time: 0,
        input: vec![TxIn {
            previous_output: OutPoint { txid: [tag; 32], vout: 0 },
            script_sig: vec![],
            sequence: 0,
            witness: vec![],
        }],
        output: values
            .iter()
            .map(|v| TxOut { value: *v, script_pubkey: vec![tag, 1, 2] })
            .collect(),
    }
}

fn psbt(tag: u8) -> Psbt {
    Psbt { unsigned_tx: tx(tag, &[1_000]), inputs: vec![], outputs: vec![None] }
}

fn locked(index: u32) -> Round {
    Round::new(psbt(index as u8), index)
}

fn active(index: u32) -> Round {
    let mut round = locked(index);
    round.spend = Some(tx(200, &[5]));
    round
}

fn inactive(index: u32) -> Round {
    let mut round = active(index);
    round.next = Some(Box::new(locked(index + 1)));
    round
}

fn ledger(rounds: Vec<Round>) -> Rounds {
    Rounds::from_vec(rounds)
}

fn indices(rounds: &Rounds) -> Vec<u32> {
    (0..rounds.len()).map(|k| rounds.get(k).unwrap().index).collect()
}

#[test]
fn state_follows_the_record() {
    assert_eq!(locked(1).state(), State::Locked);
    assert_eq!(active(1).state(), State::Active);
    assert_eq!(inactive(1).state(), State::Inactive);
    // A next round alone unlocks nothing.
    let mut round = locked(1);
    round.next = Some(Box::new(locked(2)));
    assert_eq!(round.state(), State::Locked);
    // Nor does a round before.
    let mut round = locked(2);
    round.previous = Some(Box::new(active(1)));
    assert_eq!(round.state(), State::Locked);
}

#[test]
fn unlocked_and_spendable() {
    assert!(!locked(1).is_unlocked());
    assert!(active(1).is_unlocked());
    assert!(inactive(1).is_unlocked());
    assert!(!active(1).is_spendable());
    let mut round = active(1);
    round.coins.push(OutPoint { txid: [0; 32], vout: 0 });
    assert!(round.is_spendable());
    let mut round = locked(1);
    round.coins.push(OutPoint { txid: [0; 32], vout: 0 });
    assert!(!round.is_spendable());
}

#[test]
fn fresh_round() {
    let round = Round::new(psbt(3), 9);
    assert_eq!(round.index, 9);
    assert_eq!(round.psbt, psbt(3));
    assert!(round.spend.is_none() && round.unlock.is_none() && round.unlocked.is_none());
    assert!(round.transactions.is_empty() && round.coins.is_empty());
    assert!(round.previous.is_none() && round.next.is_none());
}

#[test]
fn fresh_rounds_are_numbered_from_one() {
    let rounds = fresh_rounds(vec![psbt(5), psbt(6), psbt(7)]).unwrap();
    assert_eq!(rounds.len(), 3);
    for (k, round) in rounds.iter().enumerate() {
        assert_eq!(round, &Round::new(psbt(5 + k as u8), k as u32 + 1));
    }
    assert!(fresh_rounds(vec![]).unwrap().is_empty());
}

#[test]
fn empty_ledger() {
    let mut rounds = Rounds::new();
    assert!(rounds.is_empty());
    assert_eq!(rounds.len(), 0);
    assert!(!rounds.is_unlocked());
    assert!(rounds.init().is_ok());
    assert!(rounds.get(0).is_none());
    assert!(rounds.at(0).is_none());
    assert_eq!(rounds, Rounds::default());
    assert!(matches!(rounds.current_round_index(), Err(Error::NoActiveRound)));
    assert!(rounds.spendable_coins().unwrap().is_empty());
    assert_eq!(rounds.spendable_amount().unwrap(), 0);
}

#[test]
fn push_and_extend() {
    let mut rounds = Rounds::new();
    rounds.push(locked(1));
    assert!(!rounds.is_empty());
    rounds.extend(vec![locked(2), locked(3)]);
    assert_eq!(indices(&rounds), vec![1, 2, 3]);
    assert_eq!(rounds.into_vec(), vec![locked(1), locked(2), locked(3)]);
}

#[test]
fn ledger_is_unlocked_when_its_first_round_is() {
    assert!(ledger(vec![active(1), locked(2)]).is_unlocked());
    assert!(!ledger(vec![locked(1), active(2)]).is_unlocked());
}

#[test]
fn sort_orders_by_number() {
    let mut rounds = ledger(vec![locked(3), locked(1), locked(4), locked(2)]);
    rounds.sort();
    assert_eq!(indices(&rounds), vec![1, 2, 3, 4]);
    let mut rounds = ledger(vec![locked(4), locked(3), locked(2), locked(1)]);
    rounds.sort();
    assert_eq!(rounds.into_vec(), vec![locked(1), locked(2), locked(3), locked(4)]);
}

#[test]
fn sort_keeps_the_order_of_equal_numbers() {
    let mut a = locked(2);
    a.unlock = Some(10);
    let mut b = locked(2);
    b.unlock = Some(20);
    let mut c = locked(2);
    c.unlock = Some(30);
    let mut rounds = ledger(vec![a, locked(5), b, locked(1), c]);
    rounds.sort();
    assert_eq!(indices(&rounds), vec![1, 2, 2, 2, 5]);
    let unlocks: Vec<Option<u64>> = (1..4).map(|k| rounds.get(k).unwrap().unlock).collect();
    assert_eq!(unlocks, vec![Some(10), Some(20), Some(30)]);
}

#[test]
fn init_accepts_a_sound_ledger_in_any_order() {
    let mut rounds = ledger(vec![locked(3), inactive(1), active(2)]);
    assert!(rounds.init().is_ok());
    assert_eq!(indices(&rounds), vec![1, 2, 3]);
    assert_eq!(rounds.get(1).unwrap().state(), State::Active);
    let mut rounds = ledger(vec![locked(1)]);
    assert!(rounds.init().is_ok());
    let mut rounds = ledger(vec![inactive(1), inactive(2), locked(3)]);
    assert!(rounds.init().is_ok());
}

#[test]
fn init_rejects_duplicate_numbers() {
    let mut rounds = ledger(vec![locked(1), locked(2), locked(2)]);
    assert!(matches!(rounds.init(), Err(Error::Ledger)));
    let mut rounds = ledger(vec![locked(1), locked(1)]);
    assert!(matches!(rounds.init(), Err(Error::Ledger)));
}

#[test]
fn init_rejects_a_gap() {
    let mut rounds = ledger(vec![locked(1), locked(3)]);
    assert!(matches!(rounds.init(), Err(Error::Ledger)));
    // The ledger is left in order all the same.
    let mut rounds = ledger(vec![locked(4), locked(1), locked(2)]);
    assert!(matches!(rounds.init(), Err(Error::Ledger)));
    assert_eq!(indices(&rounds), vec![1, 2, 4]);
}

#[test]
fn init_rejects_a_ledger_that_does_not_start_at_one() {
    let mut rounds = ledger(vec![locked(0), locked(1)]);
    assert!(matches!(rounds.init(), Err(Error::Ledger)));
    let mut rounds = ledger(vec![locked(2), locked(3)]);
    assert!(matches!(rounds.init(), Err(Error::Ledger)));
    let mut rounds = ledger(vec![locked(u32::MAX)]);
    assert!(matches!(rounds.init(), Err(Error::Ledger)));
}

#[test]
fn init_rejects_two_active_rounds() {
    let mut rounds = ledger(vec![active(1), active(2), locked(3)]);
    assert!(matches!(rounds.init(), Err(Error::Ledger)));
    let mut rounds = ledger(vec![active(3), inactive(2), active(1)]);
    assert!(matches!(rounds.init(), Err(Error::Ledger)));
}

#[test]
fn current_round_is_the_active_one() {
    let mut rounds = ledger(vec![locked(3), active(2), inactive(1)]);
    assert_eq!(rounds.current_round_index().unwrap(), 1);
    assert_eq!(indices(&rounds), vec![1, 2, 3]);
    let mut rounds = ledger(vec![active(1)]);
    assert_eq!(rounds.current_round_index().unwrap(), 0);
    let mut rounds = ledger(vec![inactive(1), inactive(2), active(3)]);
    assert_eq!(rounds.current_round_index().unwrap(), 2);
}

#[test]
fn no_current_round() {
    let mut rounds = ledger(vec![locked(1), locked(2)]);
    assert!(matches!(rounds.current_round_index(), Err(Error::NoActiveRound)));
    let mut rounds = ledger(vec![inactive(1), locked(2)]);
    assert!(matches!(rounds.current_round_index(), Err(Error::NoActiveRound)));
    let mut rounds = ledger(vec![active(1), locked(3)]);
    assert!(matches!(rounds.current_round_index(), Err(Error::Ledger)));
}

#[test]
fn round_is_changed_in_place() {
    let mut rounds = ledger(vec![locked(1), locked(2)]);
    {
        let round = rounds.at(1).unwrap();
        round.spend = Some(tx(9, &[1]));
        round.unlocked = Some(800_000);
    }
    assert!(rounds.at(2).is_none());
    assert_eq!(rounds.get(0).unwrap(), &locked(1));
    assert_eq!(rounds.get(1).unwrap().state(), State::Active);
    assert_eq!(rounds.get(1).unwrap().unlocked, Some(800_000));
    assert_eq!(rounds.current_round_index().unwrap(), 1);
}

#[test]
fn sum_of_values() {
    let out = |value| TxOut { value, script_pubkey: vec![] };
    assert_eq!(sum_values(&vec![]), Some(0));
    assert_eq!(sum_values(&vec![out(1), out(2), out(3)]), Some(6));
    assert_eq!(sum_values(&vec![out(u64::MAX - 1), out(1)]), Some(u64::MAX));
    assert_eq!(sum_values(&vec![out(u64::MAX), out(1)]), None);
    assert_eq!(sum_values(&vec![out(u64::MAX), out(0), out(1), out(0)]), None);
}

#[test]
fn coins_of_a_round() {
    let a = tx(1, &[100, 200, 300]);
    let b = tx(2, &[7]);
    let mut round = active(1);
    round.coins = vec![
        OutPoint { txid: a.compute_txid(), vout: 2 },
        OutPoint { txid: b.compute_txid(), vout: 0 },
        OutPoint { txid: a.compute_txid(), vout: 0 },
    ];
    round.transactions = vec![a.clone(), b.clone()];
    assert_eq!(
        round.spendable_coins().unwrap(),
        vec![a.output[2].clone(), b.output[0].clone(), a.output[0].clone()]
    );
    assert_eq!(round.spendable_amount().unwrap(), 407);
    // A locked round counts its coins all the same.
    round.spend = None;
    assert_eq!(round.spendable_amount().unwrap(), 407);
}

#[test]
fn coin_of_a_known_transaction() {
    let genesis = lfc::parse_tx("01000000010000000000000000000000000000000000000000000000000000000000000000ffffffff4d04ffff001d0104455468652054696d65732030332f4a616e2f32303039204368616e63656c6c6f72206f6e206272696e6b206f66207365636f6e64206261696c6f757420666f722062616e6b73ffffffff0100f2052a01000000434104678afdb0fe5548271967f1a67130b7105cd6a828e03909a67962e0ea1f61deb649f6bc3f4cef38c4f35504e51ec112de5c384df7ba0b8d578a4c702b6bf11d5fac00000000").unwrap();
    let mut round = active(1);
    round.transactions = vec![tx(1, &[1]), genesis, tx(2, &[2])];
    round.coins = vec![OutPoint {
        txid: [
            0x3b, 0xa3, 0xed, 0xfd, 0x7a, 0x7b, 0x12, 0xb2, 0x7a, 0xc7, 0x2c, 0x3e, 0x67, 0x76,
            0x8f, 0x61, 0x7f, 0xc8, 0x1b, 0xc3, 0x88, 0x8a, 0x51, 0x32, 0x3a, 0x9f, 0xb8, 0xaa,
            0x4b, 0x1e, 0x5e, 0x4a,
        ],
        vout: 0,
    }];
    assert_eq!(round.spendable_amount().unwrap(), 5_000_000_000);
}

#[test]
fn coin_comes_from_the_last_transaction_of_its_id() {
    // Two transactions that differ in their witness only bear one id.
    let a = tx(1, &[100]);
    let mut b = a.clone();
    b.input[0].witness = vec![vec![1]];
    assert_eq!(a.compute_txid(), b.compute_txid());
    let mut round = active(1);
    round.coins = vec![OutPoint { txid: a.compute_txid(), vout: 0 }];
    round.transactions = vec![a.clone(), b.clone()];
    assert_eq!(round.spendable_coins().unwrap(), vec![b.output[0].clone()]);
}

#[test]
fn coin_without_its_transaction() {
    let a = tx(1, &[100]);
    let mut round = active(1);
    round.coins = vec![OutPoint { txid: a.compute_txid(), vout: 0 }];
    assert!(matches!(round.spendable_coins(), Err(Error::MissingCoin)));
    assert!(matches!(round.spendable_amount(), Err(Error::MissingCoin)));
    round.transactions = vec![tx(2, &[100])];
    assert!(matches!(round.spendable_coins(), Err(Error::MissingCoin)));
}

#[test]
fn coin_without_its_output() {
    let a = tx(1, &[100]);
    let mut round = active(1);
    round.coins = vec![OutPoint { txid: a.compute_txid(), vout: 1 }];
    round.transactions = vec![a];
    assert!(matches!(round.spendable_coins(), Err(Error::MissingCoin)));
}

#[test]
fn coins_that_overflow() {
    let a = tx(1, &[u64::MAX, 1]);
    let mut round = active(1);
    round.coins = vec![
        OutPoint { txid: a.compute_txid(), vout: 0 },
        OutPoint { txid: a.compute_txid(), vout: 1 },
    ];
    round.transactions = vec![a];
    assert_eq!(round.spendable_coins().unwrap().len(), 2);
    assert!(matches!(round.spendable_amount(), Err(Error::Overflow)));
}

#[test]
fn coins_of_a_ledger() {
    let a = tx(1, &[100, 200]);
    let b = tx(2, &[7]);
    let mut first = inactive(1);
    first.transactions = vec![a.clone()];
    first.coins = vec![OutPoint { txid: a.compute_txid(), vout: 1 }];
    let mut second = active(2);
    second.transactions = vec![b.clone(), a.clone()];
    second.coins = vec![
        OutPoint { txid: b.compute_txid(), vout: 0 },
        OutPoint { txid: a.compute_txid(), vout: 0 },
    ];
    let rounds = ledger(vec![first, second, locked(3)]);
    assert_eq!(
        rounds.spendable_coins().unwrap(),
        vec![a.output[1].clone(), b.output[0].clone(), a.output[0].clone()]
    );
    assert_eq!(rounds.spendable_amount().unwrap(), 307);
}

#[test]
fn coins_of_a_ledger_with_a_missing_transaction() {
    let a = tx(1, &[100]);
    let mut first = active(1);
    first.transactions = vec![a.clone()];
    first.coins = vec![OutPoint { txid: a.compute_txid(), vout: 0 }];
    let mut second = locked(2);
    // The transaction of a coin must be recorded in the coin's own round.
    second.coins = vec![OutPoint { txid: a.compute_txid(), vout: 0 }];
    let rounds = ledger(vec![first, second]);
    assert!(matches!(rounds.spendable_coins(), Err(Error::MissingCoin)));
    assert!(matches!(rounds.spendable_amount(), Err(Error::MissingCoin)));
}

#[test]
fn coins_of_a_ledger_that_overflow() {
    let a = tx(1, &[u64::MAX]);
    let b = tx(2, &[1]);
    let mut first = inactive(1);
    first.transactions = vec![a.clone()];
    first.coins = vec![OutPoint { txid: a.compute_txid(), vout: 0 }];
    let mut second = active(2);
    second.transactions = vec![b.clone()];
    second.coins = vec![OutPoint { txid: b.compute_txid(), vout: 0 }];
    let rounds = ledger(vec![first, second]);
    assert_eq!(rounds.spendable_coins().unwrap().len(), 2);
    assert!(matches!(rounds.spendable_amount(), Err(Error::Overflow)));
}
