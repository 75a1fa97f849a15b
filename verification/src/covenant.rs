//! The covenant: the two script templates of a wallet, the addresses they
//! give, and the crafting of the chain of rounds.

use crate::chain::{
    is_last, lemma_chain_ends, lemma_chain_within_cap, spec_chain, spec_is_last, spec_split,
    split_amount,
};
use crate::covenant_state::CovenantState;
use crate::descriptor::{
    address_of, covenant_template, definite_descriptor, definite_of,
    descriptor_address, descriptor_of, descriptor_text, input_of, output_of, psbt_input,
    psbt_output, spec_covenant_template, spec_spend_template, spend_template, Address,
};
use crate::error::Error;
use crate::network::Network;
use crate::round::{fresh_rounds, spec_fresh_rounds};
use crate::tx::{
    compute_txid, decoded_tx, parse_tx, psbts_view, same_bytes, txid_of, OutPoint, Psbt, PsbtView,
    Transaction, TransactionView, TxIn, TxInView, TxOut, TxOutView,
};
use miniscript::bitcoin::psbt;
use vstd::prelude::*;

verus! {

/// Version of every crafted transaction.
pub const TX_VERSION: i32 = 2;

/// Sub-account of the address families of the chain.
pub const SUB_ACCOUNT: u32 = 1;

/// The fee that a round leaves to the miners, in satoshis.
pub const FEE: u64 = 600;

/// An input that spends `outpoint` once it is `sequence` blocks old, with
/// nothing to unlock it yet.
pub fn txin(outpoint: OutPoint, sequence: u16) -> (r: TxIn)
    ensures
        r@ == spec_txin(outpoint.txid@, outpoint.vout, sequence),
        r.previous_output == outpoint,
{
    let r = TxIn {
        previous_output: outpoint,
        script_sig: Vec::new(),
        sequence: sequence as u32,
        witness: Vec::new(),
    };
    assert(r@.witness =~= Seq::<Seq<u8>>::empty());
    r
}

/// The input that `txin` builds.
pub open spec fn spec_txin(txid: Seq<u8>, vout: u32, sequence: u16) -> TxInView {
    TxInView {
        txid,
        vout,
        script_sig: Seq::empty(),
        sequence: sequence as u32,
        witness: Seq::empty(),
    }
}

/// The two script templates of a wallet.
pub struct Covenant {
    cov: String,
    spend: String,
    timelock: u16,
    network: Network,
    cov_descriptor: String,
    spend_descriptor: String,
}

/// Mathematical view of a [`Covenant`].
pub struct CovenantView {
    /// Descriptor key of the covenant hierarchy.
    pub cov: Seq<char>,
    /// Descriptor key of the spend hierarchy.
    pub spend: Seq<char>,
    /// The number of blocks that an input of a round must be old.
    pub timelock: u16,
    /// The network of the addresses.
    pub network: Network,
    /// Descriptor of the covenant template.
    pub cov_descriptor: Seq<char>,
    /// Descriptor of the spend template.
    pub spend_descriptor: Seq<char>,
}

impl View for Covenant {
    type V = CovenantView;

    closed spec fn view(&self) -> CovenantView {
        CovenantView {
            cov: self.cov@,
            spend: self.spend@,
            timelock: self.timelock,
            network: self.network,
            cov_descriptor: self.cov_descriptor@,
            spend_descriptor: self.spend_descriptor@,
        }
    }
}

/// The covenant of two descriptor keys: the covenant template and the
/// spend template, each as `miniscript` reads it. Where it reads one of
/// them as no descriptor there is no covenant.
pub open spec fn spec_covenant(cov: Seq<char>, spend: Seq<char>, timelock: u16, network: Network)
    -> Result<CovenantView, Error> {
    match descriptor_of(spec_covenant_template(cov, spend, timelock)) {
        None => Err(Error::Descriptor),
        Some(cov_descriptor) => match descriptor_of(spec_spend_template(spend)) {
            None => Err(Error::Descriptor),
            Some(spend_descriptor) => Ok(
                CovenantView { cov, spend, timelock, network, cov_descriptor, spend_descriptor },
            ),
        },
    }
}

/// The covenant of a wallet: that of its two descriptor keys at the
/// sub-account of the chain, with its delay as timelock.
pub open spec fn spec_from_state(state: CovenantState) -> Result<CovenantView, Error> {
    match state.spec_cov_xpub(SUB_ACCOUNT) {
        Err(e) => Err(e),
        Ok(cov) => match state.spec_spend_xpub(SUB_ACCOUNT) {
            Err(e) => Err(e),
            Ok(spend) => spec_covenant(cov, spend, state.delay, state.network),
        },
    }
}

/// View of a covenant or an error.
pub open spec fn covenant_result(r: Result<Covenant, Error>) -> Result<CovenantView, Error> {
    match r {
        Ok(c) => Ok(c@),
        Err(e) => Err(e),
    }
}

/// View of an address or an error: the script and the text of the address.
pub open spec fn address_result(r: Result<Address, Error>) -> Result<(Seq<u8>, Seq<char>), Error> {
    match r {
        Ok(a) => Ok((a.script_pubkey@, a.encoded@)),
        Err(e) => Err(e),
    }
}

/// View of a template or an error.
pub open spec fn psbt_result(r: Result<Psbt, Error>) -> Result<PsbtView, Error> {
    match r {
        Ok(p) => Ok(p@),
        Err(e) => Err(e),
    }
}

/// View of a chain of templates or an error.
pub open spec fn chain_result(r: Result<Vec<Psbt>, Error>) -> Result<Seq<PsbtView>, Error> {
    match r {
        Ok(chain) => Ok(psbts_view(chain@)),
        Err(e) => Err(e),
    }
}

/// The address of a template at an index.
pub open spec fn spec_address_at(descriptor: Seq<char>, index: u32, network: Network) -> Result<
    (Seq<u8>, Seq<char>),
    Error,
> {
    match definite_of(descriptor, index) {
        None => Err(Error::Descriptor),
        Some(definite) => match address_of(definite, network) {
            None => Err(Error::Descriptor),
            Some(address) => Ok(address),
        },
    }
}

/// The sequence number of the input of a round: the first round spends the
/// funding output, which no covenant locks, at once; every later round
/// waits for the timelock.
pub open spec fn spec_sequence(index: u32, timelock: u16) -> u16 {
    if index == 1 {
        0
    } else {
        timelock
    }
}

/// The outputs of a round: the relocked amount to the covenant script and
/// the spent amount to the spend script, in that order; the spent amount
/// alone where nothing is relocked.
pub open spec fn spec_round_outputs(
    relock: u64,
    relock_script: Seq<u8>,
    spend: u64,
    spend_script: Seq<u8>,
) -> Seq<TxOutView> {
    let relock_out = TxOutView { value: relock, script_pubkey: relock_script };
    let spend_out = TxOutView { value: spend, script_pubkey: spend_script };
    if relock != 0 {
        seq![relock_out, spend_out]
    } else {
        seq![spend_out]
    }
}

/// The transaction of a round: version 2, no lock time, one input that
/// spends output 0 of the previous transaction, and the round's outputs.
pub open spec fn spec_round_tx(
    previous_txid: Seq<u8>,
    sequence: u16,
    outputs: Seq<TxOutView>,
) -> TransactionView {
    TransactionView {
        version: TX_VERSION,
        lock_time: 0,
        input: seq![spec_txin(previous_txid, 0, sequence)],
        output: outputs,
    }
}

/// Whether `previous` cannot be what round `index` spends: the round has
/// a round before, whose covenant address is known, and output 0 of
/// `previous` is missing or pays something else.
pub open spec fn spec_unbound(covenant: CovenantView, previous: TransactionView, index: u32) -> bool {
    &&& index >= 1
    &&& spec_address_at(covenant.cov_descriptor, (index - 1) as u32, covenant.network) matches Ok(
        bound,
    )
    &&& previous.output.len() == 0 || previous.output[0].script_pubkey != bound.0
}

/// The template of round `index` on top of `previous`.
///
/// A round has a positive number. Output 0 of the previous transaction
/// must pay the covenant address of the round before; then the template
/// holds the round's transaction, for its input the map of the covenant
/// template of the round before with the output being spent, for a
/// relocked output the map of the covenant template of this round, and
/// for the spent output nothing.
pub open spec fn spec_craft_tx(
    covenant: CovenantView,
    previous: TransactionView,
    index: u32,
    spend: u64,
    relock: u64,
) -> Result<PsbtView, Error> {
    if index == 0 {
        Err(Error::RoundIndex)
    } else {
        let before = (index - 1) as u32;
        match definite_of(covenant.cov_descriptor, before) {
            None => Err(Error::Descriptor),
            Some(locked) => match address_of(locked, covenant.network) {
                None => Err(Error::Descriptor),
                Some(locked_address) => if previous.output.len() == 0
                    || previous.output[0].script_pubkey != locked_address.0 {
                    Err(Error::PreviousOutput)
                } else {
                    match (
                        spec_address_at(covenant.cov_descriptor, index, covenant.network),
                        spec_address_at(covenant.spend_descriptor, index, covenant.network),
                        input_of(locked, previous.output[0]),
                        spec_relock_map(covenant.cov_descriptor, index),
                    ) {
                        (Ok(relock_address), Ok(spend_address), Some(input), Ok(relock_map)) => Ok(
                            PsbtView {
                                unsigned_tx: spec_round_tx(
                                    txid_of(previous),
                                    spec_sequence(index, covenant.timelock),
                                    spec_round_outputs(
                                        relock,
                                        relock_address.0,
                                        spend,
                                        spend_address.0,
                                    ),
                                ),
                                inputs: seq![input],
                                outputs: if relock != 0 {
                                    seq![Some(relock_map), None]
                                } else {
                                    seq![None]
                                },
                            },
                        ),
                        _ => Err(Error::Descriptor),
                    }
                },
            },
        }
    }
}

/// The map that describes the relocked output of a round.
pub open spec fn spec_relock_map(descriptor: Seq<char>, index: u32) -> Result<psbt::Output, Error> {
    match definite_of(descriptor, index) {
        None => Err(Error::Descriptor),
        Some(definite) => match output_of(definite) {
            None => Err(Error::Descriptor),
            Some(map) => Ok(map),
        },
    }
}

/// The chain of templates from round `index` on, where `previous` is the
/// transaction that round `index` spends and `amount` what its output 0
/// holds. Each round splits what the round before has relocked; the chain
/// ends with the first round that relocks less than twice the fee.
pub open spec fn spec_chain_from(
    covenant: CovenantView,
    previous: TransactionView,
    amount: u64,
    index: u32,
    cap: u64,
    fee: u64,
) -> Result<Seq<PsbtView>, Error>
    decreases amount,
{
    let split = spec_split(amount as nat, cap as nat, fee as nat);
    let spend = split.0 as u64;
    let relock = split.1 as u64;
    match spec_craft_tx(covenant, previous, index, spend, relock) {
        Err(e) => Err(e),
        Ok(psbt) => if cap == 0 || fee == 0 || spec_is_last(relock as nat, fee as nat) {
            Ok(seq![psbt])
        } else if index == u32::MAX {
            Err(Error::RoundIndex)
        } else {
            match spec_chain_from(
                covenant,
                psbt.unsigned_tx,
                relock,
                (index + 1) as u32,
                cap,
                fee,
            ) {
                Err(e) => Err(e),
                Ok(rest) => Ok(seq![psbt] + rest),
            }
        },
    }
}

/// The chain of templates that locks the funding output of `funding` under
/// a round cap and a fee.
///
/// Output 0 of the funding transaction must pay the covenant address at
/// index 0 and hold something. The cap and the fee must be positive, and
/// an amount that fits in one round must pay the fee of that round.
pub open spec fn spec_craft_chain(
    covenant: CovenantView,
    funding: TransactionView,
    cap: u64,
    fee: u64,
) -> Result<Seq<PsbtView>, Error> {
    match spec_address_at(covenant.cov_descriptor, 0, covenant.network) {
        Err(e) => Err(e),
        Ok(address) => if funding.output.len() == 0 || funding.output[0].script_pubkey
            != address.0 {
            Err(Error::PreviousOutput)
        } else if funding.output[0].value == 0 {
            Err(Error::Funding)
        } else if cap == 0 || fee == 0 {
            Err(Error::Amount)
        } else if funding.output[0].value <= cap && funding.output[0].value < fee {
            Err(Error::Funding)
        } else {
            spec_chain_from(covenant, funding, funding.output[0].value, 1, cap, fee)
        },
    }
}

/// What a template spends and what it relocks: the values of its spent
/// output and of its relocked output, zero for a relocked output that is
/// not there.
pub open spec fn spec_amounts(psbt: PsbtView) -> (nat, nat) {
    if psbt.unsigned_tx.output.len() == 2 {
        (psbt.unsigned_tx.output[1].value as nat, psbt.unsigned_tx.output[0].value as nat)
    } else {
        (psbt.unsigned_tx.output[0].value as nat, 0nat)
    }
}

/// What the templates of a chain spend and relock, round after round.
pub open spec fn spec_chain_amounts(chain: Seq<PsbtView>) -> Seq<(nat, nat)> {
    Seq::new(chain.len(), |k: int| spec_amounts(chain[k]))
}

/// The chain of templates of a wallet on top of a funding transaction:
/// that of its covenant, under its round cap and the fee.
pub open spec fn spec_create(state: CovenantState, funding: TransactionView) -> Result<
    Seq<PsbtView>,
    Error,
> {
    match spec_from_state(state) {
        Err(e) => Err(e),
        Ok(covenant) => spec_craft_chain(covenant, funding, state.amount, FEE),
    }
}

/// A chain of templates spends and relocks what the chain of amounts says,
/// and its rounds can be counted in `u32`.
pub proof fn lemma_chain_shape(
    covenant: CovenantView,
    previous: TransactionView,
    amount: u64,
    index: u32,
    cap: u64,
    fee: u64,
)
    ensures
        spec_chain_from(covenant, previous, amount, index, cap, fee) matches Ok(chain) ==> {
            &&& spec_chain_amounts(chain) == spec_chain(amount as nat, cap as nat, fee as nat)
            &&& chain.len() + index <= u32::MAX + 1
        },
    decreases amount,
{
    let split = spec_split(amount as nat, cap as nat, fee as nat);
    let spend = split.0 as u64;
    let relock = split.1 as u64;
    let whole = spec_chain_from(covenant, previous, amount, index, cap, fee);
    if whole is Ok {
        let chain = whole->Ok_0;
        let psbt = spec_craft_tx(covenant, previous, index, spend, relock)->Ok_0;
        if !(cap == 0 || fee == 0 || spec_is_last(relock as nat, fee as nat)) {
            lemma_chain_shape(covenant, psbt.unsigned_tx, relock, (index + 1) as u32, cap, fee);
            let rest = spec_chain_from(
                covenant,
                psbt.unsigned_tx,
                relock,
                (index + 1) as u32,
                cap,
                fee,
            )->Ok_0;
            assert(spec_chain_amounts(chain) =~= seq![(spend as nat, relock as nat)].add(
                spec_chain_amounts(rest),
            ));
        }
    }
}

impl Covenant {
    /// Compiles the two script templates of a pair of descriptor keys.
    pub fn new(cov: &str, spend: &str, timelock: u16, network: Network) -> (r: Result<
        Covenant,
        Error,
    >)
        ensures
            covenant_result(r) == spec_covenant(cov@, spend@, timelock, network),
    {
        let cov_text = covenant_template(cov, spend, timelock);
        let cov_descriptor = match descriptor_text(cov_text.as_str()) {
            None => {
                return Err(Error::Descriptor);
            },
            Some(descriptor) => descriptor,
        };
        let spend_text = spend_template(spend);
        let spend_descriptor = match descriptor_text(spend_text.as_str()) {
            None => {
                return Err(Error::Descriptor);
            },
            Some(descriptor) => descriptor,
        };
        Ok(
            Covenant {
                cov: String::from_str(cov),
                spend: String::from_str(spend),
                timelock,
                network,
                cov_descriptor,
                spend_descriptor,
            },
        )
    }

    /// Derives the two descriptor keys of a wallet and compiles its script
    /// templates.
    pub fn from_state(state: &CovenantState) -> (r: Result<Covenant, Error>)
        ensures
            covenant_result(r) == spec_from_state(*state),
    {
        let cov = match state.cov_xpub(SUB_ACCOUNT) {
            Err(e) => {
                return Err(e);
            },
            Ok(key) => key,
        };
        let spend = match state.spend_xpub(SUB_ACCOUNT) {
            Err(e) => {
                return Err(e);
            },
            Ok(key) => key,
        };
        Covenant::new(cov.as_str(), spend.as_str(), state.delay(), state.network)
    }

    /// The descriptor key of the covenant hierarchy, as text.
    pub fn cov(&self) -> (r: &str)
        ensures
            r@ == self@.cov,
    {
        self.cov.as_str()
    }

    /// The descriptor key of the spend hierarchy, as text.
    pub fn spend(&self) -> (r: &str)
        ensures
            r@ == self@.spend,
    {
        self.spend.as_str()
    }

    /// The number of blocks that an input of a round must be old.
    pub fn timelock(&self) -> (r: u16)
        ensures
            r == self@.timelock,
    {
        self.timelock
    }

    /// The network of the addresses.
    pub fn network(&self) -> (r: Network)
        ensures
            r == self@.network,
    {
        self.network
    }

    /// The descriptor of the covenant template, as text.
    pub fn cov_descriptor(&self) -> (r: &str)
        ensures
            r@ == self@.cov_descriptor,
    {
        self.cov_descriptor.as_str()
    }

    /// The descriptor of the spend template, as text.
    pub fn spend_descriptor(&self) -> (r: &str)
        ensures
            r@ == self@.spend_descriptor,
    {
        self.spend_descriptor.as_str()
    }

    /// The address of the spend template at an index.
    pub fn spend_addr(&self, index: u32) -> (r: Result<Address, Error>)
        ensures
            address_result(r) == spec_address_at(self@.spend_descriptor, index, self@.network),
    {
        address_at(self.spend_descriptor.as_str(), index, self.network)
    }

    /// The address of the covenant template at an index.
    pub fn cov_addr(&self, index: u32) -> (r: Result<Address, Error>)
        ensures
            address_result(r) == spec_address_at(self@.cov_descriptor, index, self@.network),
    {
        address_at(self.cov_descriptor.as_str(), index, self.network)
    }

    /// Crafts the template of round `index`, which spends output 0 of
    /// `previous_tx`, sends `spend` satoshis to the spend address of the
    /// round and locks `relock` satoshis again.
    ///
    /// The previous transaction must pay, with its output 0, the covenant
    /// address of the round before: anything else is refused.
    pub fn craft_tx(&self, previous_tx: &Transaction, index: u32, spend: u64, relock: u64) -> (r:
        Result<Psbt, Error>)
        ensures
            psbt_result(r) == spec_craft_tx(self@, previous_tx@, index, spend, relock),
            spec_unbound(self@, previous_tx@, index) ==> r matches Err(Error::PreviousOutput),
            r matches Ok(psbt) ==> psbt@.unsigned_tx.input.len() == 1 && (relock != 0
                ==> psbt@.unsigned_tx.output.len() == 2 && psbt@.unsigned_tx.output[0].value
                == relock && psbt@.unsigned_tx.output[1].value == spend) && (relock == 0
                ==> psbt@.unsigned_tx.output.len() == 1 && psbt@.unsigned_tx.output[0].value
                == spend),
    {
        if index == 0 {
            return Err(Error::RoundIndex);
        }
        let locked = match definite_descriptor(self.cov_descriptor.as_str(), index - 1) {
            None => {
                return Err(Error::Descriptor);
            },
            Some(definite) => definite,
        };
        let locked_address = match descriptor_address(locked.as_str(), self.network) {
            None => {
                return Err(Error::Descriptor);
            },
            Some(address) => address,
        };
        if previous_tx.output.len() == 0 || !same_bytes(
            &previous_tx.output[0].script_pubkey,
            &locked_address.script_pubkey,
        ) {
            return Err(Error::PreviousOutput);
        }
        let relock_address = self.cov_addr(index);
        let spend_address = self.spend_addr(index);
        let input = psbt_input(locked.as_str(), &previous_tx.output[0]);
        let relock_map = relock_map(self.cov_descriptor.as_str(), index);
        match (relock_address, spend_address, input, relock_map) {
            (Ok(relock_address), Ok(spend_address), Some(input), Ok(relock_map)) => {
                let outpoint = OutPoint { txid: compute_txid(previous_tx), vout: 0 };
                let sequence = if index == 1 {
                    0
                } else {
                    self.timelock
                };
                let relock_out = TxOut {
                    value: relock,
                    script_pubkey: relock_address.script_pubkey,
                };
                let spend_out = TxOut { value: spend, script_pubkey: spend_address.script_pubkey };
                let mut tx_inputs: Vec<TxIn> = Vec::new();
                tx_inputs.push(txin(outpoint, sequence));
                let mut tx_outputs: Vec<TxOut> = Vec::new();
                let mut inputs: Vec<psbt::Input> = Vec::new();
                inputs.push(input);
                let mut outputs: Vec<Option<psbt::Output>> = Vec::new();
                if relock != 0 {
                    tx_outputs.push(relock_out);
                    outputs.push(Some(relock_map));
                }
                tx_outputs.push(spend_out);
                outputs.push(None);
                let unsigned_tx = Transaction {
                    version: TX_VERSION,
                    lock_time: 0,
                    input: tx_inputs,
                    output: tx_outputs,
                };
                let psbt = Psbt { unsigned_tx, inputs, outputs };
                proof {
                    let wanted = spec_craft_tx(self@, previous_tx@, index, spend, relock)->Ok_0;
                    assert(psbt@.unsigned_tx.input =~= wanted.unsigned_tx.input);
                    assert(psbt@.unsigned_tx.output =~= wanted.unsigned_tx.output);
                    assert(psbt@.outputs =~= wanted.outputs);
                }
                Ok(psbt)
            },
            _ => Err(Error::Descriptor),
        }
    }

    /// Crafts the whole chain of templates on top of a funding
    /// transaction: round after round, each spending at most `cap`
    /// satoshis and relocking the rest, until a round relocks less than
    /// twice the fee.
    pub fn craft_chain(&self, funding_tx: &Transaction, cap: u64, fee: u64) -> (r: Result<
        Vec<Psbt>,
        Error,
    >)
        ensures
            chain_result(r) == spec_craft_chain(self@, funding_tx@, cap, fee),
            r matches Ok(chain) ==> {
                &&& funding_tx@.output.len() > 0
                &&& spec_chain_amounts(psbts_view(chain@)) == spec_chain(
                    funding_tx@.output[0].value as nat,
                    cap as nat,
                    fee as nat,
                )
                &&& 1 <= chain@.len() <= u32::MAX
                &&& forall|k: int|
                    0 <= k < chain@.len() ==> spec_amounts(#[trigger] chain@[k]@).0 <= cap
                &&& spec_amounts(chain@.last()@).1 < 2 * fee
            },
    {
        let funding_address = match self.cov_addr(0) {
            Err(e) => {
                return Err(e);
            },
            Ok(address) => address,
        };
        if funding_tx.output.len() == 0 || !same_bytes(
            &funding_tx.output[0].script_pubkey,
            &funding_address.script_pubkey,
        ) {
            return Err(Error::PreviousOutput);
        }
        let funding = funding_tx.output[0].value;
        if funding == 0 {
            return Err(Error::Funding);
        }
        if cap == 0 || fee == 0 {
            return Err(Error::Amount);
        }
        if funding <= cap && funding < fee {
            return Err(Error::Funding);
        }
        let ghost whole = spec_chain_from(self@, funding_tx@, funding, 1, cap, fee);
        proof {
            lemma_chain_shape(self@, funding_tx@, funding, 1, cap, fee);
            lemma_chain_within_cap(funding as nat, cap as nat, fee as nat);
            lemma_chain_ends(funding as nat, cap as nat, fee as nat);
            if whole is Ok {
                let all = whole->Ok_0;
                let amounts = spec_chain(funding as nat, cap as nat, fee as nat);
                assert forall|k: int| 0 <= k < all.len() implies spec_amounts(#[trigger] all[k]).0
                    <= cap by {
                    assert(spec_chain_amounts(all)[k] == amounts[k]);
                }
            }
        }
        let mut chain: Vec<Psbt> = Vec::new();
        let mut amount: u64 = funding;
        let mut index: u32 = 1;
        loop
            invariant
                cap > 0,
                fee > 0,
                amount > cap || amount >= fee,
                chain@.len() == 0 ==> index == 1 && amount == funding,
                whole == spec_craft_chain(self@, funding_tx@, cap, fee),
                funding_tx@.output.len() > 0,
                funding == funding_tx@.output[0].value,
                whole matches Ok(all) ==> spec_chain_amounts(all) == spec_chain(
                    funding as nat,
                    cap as nat,
                    fee as nat,
                ) && 1 <= all.len() <= u32::MAX && spec_amounts(all.last()).1 < 2 * fee
                    && forall|k: int| 0 <= k < all.len() ==> spec_amounts(#[trigger] all[k]).0 <= cap,
                whole == spec_prepend(
                    psbts_view(chain@),
                    spec_chain_from(
                        self@,
                        if chain@.len() == 0 {
                            funding_tx@
                        } else {
                            chain@.last()@.unsigned_tx
                        },
                        amount,
                        index,
                        cap,
                        fee,
                    ),
                ),
            decreases amount,
        {
            let previous_tx = if chain.len() == 0 {
                funding_tx
            } else {
                &chain[chain.len() - 1].unsigned_tx
            };
            let (spend, relock) = split_amount(amount, cap, fee);
            let psbt = match self.craft_tx(previous_tx, index, spend, relock) {
                Err(e) => {
                    return Err(e);
                },
                Ok(psbt) => psbt,
            };
            let ghost done = psbts_view(chain@);
            let ghost crafted = psbt@;
            chain.push(psbt);
            assert(psbts_view(chain@) =~= done.push(crafted));
            assert(done.push(crafted) =~= done + seq![crafted]);
            if is_last(relock, fee) {
                assert forall|k: int| 0 <= k < chain@.len() implies spec_amounts(
                    #[trigger] chain@[k]@,
                ).0 <= cap by {
                    assert(psbts_view(chain@)[k] == chain@[k]@);
                }
                return Ok(chain);
            }
            if index == u32::MAX {
                return Err(Error::RoundIndex);
            }
            proof {
                let rest = spec_chain_from(
                    self@,
                    crafted.unsigned_tx,
                    relock,
                    (index + 1) as u32,
                    cap,
                    fee,
                );
                if rest is Ok {
                    assert(done + (seq![crafted] + rest->Ok_0) =~= done + seq![crafted]
                        + rest->Ok_0);
                }
            }
            amount = relock;
            index = index + 1;
        }
    }
}

/// What creating the chain of a wallet on top of a funding transaction
/// makes of the wallet: on success its ledger holds, behind the rounds it
/// held, one fresh record for each round of the chain; on failure the
/// ledger is as it was. Nothing else changes.
pub open spec fn spec_created(
    before: CovenantState,
    after: CovenantState,
    funding: TransactionView,
    r: Result<(), Error>,
) -> bool {
    &&& after.cov_mnemonic == before.cov_mnemonic
    &&& after.spend_mnemonic == before.spend_mnemonic
    &&& after.amount == before.amount
    &&& after.delay == before.delay
    &&& after.account == before.account
    &&& after.network == before.network
    &&& match r {
        Ok(()) => {
            &&& spec_create(before, funding) matches Ok(chain)
            &&& after.rounds@.len() == before.rounds@.len() + chain.len()
            &&& after.rounds@.take(before.rounds@.len() as int) == before.rounds@
            &&& spec_fresh_rounds(after.rounds@.skip(before.rounds@.len() as int), chain)
        },
        Err(e) => {
            &&& spec_create(before, funding) == Err::<Seq<PsbtView>, Error>(e)
            &&& after.rounds@ == before.rounds@
        },
    }
}

/// Crafts the chain of a wallet on top of its funding transaction and
/// enters one record for each round into the ledger. Nothing is entered
/// unless the whole chain has been crafted.
pub fn create(state: &mut CovenantState, funding_tx: &Transaction) -> (r: Result<(), Error>)
    ensures
        spec_created(*old(state), *final(state), funding_tx@, r),
{
    let covenant = match Covenant::from_state(state) {
        Err(e) => {
            return Err(e);
        },
        Ok(covenant) => covenant,
    };
    let chain = match covenant.craft_chain(funding_tx, state.amount(), FEE) {
        Err(e) => {
            return Err(e);
        },
        Ok(chain) => chain,
    };
    let ghost before = state.rounds@;
    match fresh_rounds(chain) {
        None => Err(Error::RoundIndex),
        Some(rounds) => {
            state.rounds.extend(rounds);
            assert(state.rounds@.take(before.len() as int) =~= before);
            Ok(())
        },
    }
}

/// What creating the chain of a wallet on top of a funding transaction in
/// hexadecimal text makes of the wallet: a text that does not decode is
/// answered with the decoder's words and changes nothing; a transaction is
/// handled as `create` handles it.
pub open spec fn spec_created_from_hex(
    before: CovenantState,
    after: CovenantState,
    decoded: Result<TransactionView, Seq<char>>,
    r: Result<(), Error>,
) -> bool {
    match decoded {
        Err(words) => {
            &&& after == before
            &&& r matches Err(Error::Transaction(text))
            &&& text@ == words
        },
        Ok(funding) => spec_created(before, after, funding, r),
    }
}

/// Decodes the funding transaction of a wallet from hexadecimal text and
/// crafts the chain on top of it, as `create` does.
pub fn create_from_hex(state: &mut CovenantState, raw_tx: &str) -> (r: Result<(), Error>)
    ensures
        spec_created_from_hex(*old(state), *final(state), decoded_tx(raw_tx@), r),
{
    match parse_tx(raw_tx) {
        Err(text) => Err(Error::Transaction(text)),
        Ok(funding_tx) => create(state, &funding_tx),
    }
}

/// A chain of templates with the templates of earlier rounds in front.
pub open spec fn spec_prepend(done: Seq<PsbtView>, rest: Result<Seq<PsbtView>, Error>) -> Result<
    Seq<PsbtView>,
    Error,
> {
    match rest {
        Err(e) => Err(e),
        Ok(rest) => Ok(done + rest),
    }
}

/// Derives the address of a template at an index.
fn address_at(descriptor: &str, index: u32, network: Network) -> (r: Result<Address, Error>)
    ensures
        address_result(r) == spec_address_at(descriptor@, index, network),
{
    match definite_descriptor(descriptor, index) {
        None => Err(Error::Descriptor),
        Some(definite) => match descriptor_address(definite.as_str(), network) {
            None => Err(Error::Descriptor),
            Some(address) => Ok(address),
        },
    }
}

/// Derives the map that describes an output locked by a template at an
/// index.
fn relock_map(descriptor: &str, index: u32) -> (r: Result<psbt::Output, Error>)
    ensures
        r == spec_relock_map(descriptor@, index),
{
    match definite_descriptor(descriptor, index) {
        None => Err(Error::Descriptor),
        Some(definite) => match psbt_output(definite.as_str()) {
            None => Err(Error::Descriptor),
            Some(map) => Ok(map),
        },
    }
}

/// A template is never crafted on top of a transaction whose output 0 does
/// not pay the covenant address of the round before.
pub proof fn lemma_address_binding(
    covenant: CovenantView,
    previous: TransactionView,
    index: u32,
    spend: u64,
    relock: u64,
)
    requires
        spec_unbound(covenant, previous, index),
    ensures
        spec_craft_tx(covenant, previous, index, spend, relock) == Err::<PsbtView, Error>(
            Error::PreviousOutput,
        ),
{
}

} // verus!
