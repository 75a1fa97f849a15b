//! Plain-data model of Bitcoin transactions.
//!
//! Every type here holds exactly the consensus data of its Bitcoin namesake,
//! so that the crafting and ledger logic can read and build transactions
//! without leaving verified code.

use miniscript::bitcoin;
use miniscript::bitcoin::absolute::LockTime;
use miniscript::bitcoin::consensus::encode::deserialize_hex;
use miniscript::bitcoin::hashes;
use miniscript::bitcoin::psbt;
use miniscript::bitcoin::transaction::Version;
use miniscript::bitcoin::{Amount, ScriptBuf, Sequence, Witness};
use vstd::prelude::*;

verus! {

/// Reference to one output of a transaction.
#[derive(Debug, Clone, Copy, PartialEq, Eq)]
pub struct OutPoint {
    /// Transaction id, in the byte order in which it is hashed.
    pub txid: [u8; 32],
    /// Position of the output in that transaction.
    pub vout: u32,
}

/// One transaction output.
#[derive(Debug, Clone, PartialEq, Eq)]
pub struct TxOut {
    /// Amount in satoshis.
    pub value: u64,
    /// Locking script, as raw bytes.
    pub script_pubkey: Vec<u8>,
}

/// Mathematical view of a [`TxOut`].
pub struct TxOutView {
    /// Amount in satoshis.
    pub value: u64,
    /// Locking script.
    pub script_pubkey: Seq<u8>,
}

impl View for TxOut {
    type V = TxOutView;

    open spec fn view(&self) -> TxOutView {
        TxOutView { value: self.value, script_pubkey: self.script_pubkey@ }
    }
}

/// One transaction input.
#[derive(Debug, Clone, PartialEq, Eq)]
pub struct TxIn {
    /// The output being spent.
    pub previous_output: OutPoint,
    /// Unlocking script, as raw bytes.
    pub script_sig: Vec<u8>,
    /// The nSequence field.
    pub sequence: u32,
    /// Witness stack, bottom first.
    pub witness: Vec<Vec<u8>>,
}

/// Mathematical view of a [`TxIn`].
pub struct TxInView {
    /// Id of the transaction whose output is spent.
    pub txid: Seq<u8>,
    /// Position of that output.
    pub vout: u32,
    /// Unlocking script.
    pub script_sig: Seq<u8>,
    /// The nSequence field.
    pub sequence: u32,
    /// Witness stack, bottom first.
    pub witness: Seq<Seq<u8>>,
}

impl View for TxIn {
    type V = TxInView;

    open spec fn view(&self) -> TxInView {
        TxInView {
            txid: self.previous_output.txid@,
            vout: self.previous_output.vout,
            script_sig: self.script_sig@,
            sequence: self.sequence,
            witness: Seq::new(self.witness@.len(), |i: int| self.witness@[i]@),
        }
    }
}

/// A transaction.
#[derive(Debug, Clone, PartialEq, Eq)]
pub struct Transaction {
    /// Version field.
    pub version: i32,
    /// nLockTime field.
    pub lock_time: u32,
    /// Inputs, in order.
    pub input: Vec<TxIn>,
    /// Outputs, in order.
    pub output: Vec<TxOut>,
}

/// Mathematical view of a [`Transaction`].
pub struct TransactionView {
    /// Version field.
    pub version: i32,
    /// nLockTime field.
    pub lock_time: u32,
    /// Inputs, in order.
    pub input: Seq<TxInView>,
    /// Outputs, in order.
    pub output: Seq<TxOutView>,
}

impl View for Transaction {
    type V = TransactionView;

    open spec fn view(&self) -> TransactionView {
        TransactionView {
            version: self.version,
            lock_time: self.lock_time,
            input: Seq::new(self.input@.len(), |i: int| self.input@[i]@),
            output: Seq::new(self.output@.len(), |i: int| self.output@[i]@),
        }
    }
}

/// The views of a sequence of outputs.
pub open spec fn outputs_view(outputs: Seq<TxOut>) -> Seq<TxOutView> {
    Seq::new(outputs.len(), |i: int| outputs[i]@)
}

/// The sum of the values of a sequence of outputs, in satoshis.
pub open spec fn total_value(outputs: Seq<TxOutView>) -> nat
    decreases outputs.len(),
{
    if outputs.len() == 0 {
        0
    } else {
        total_value(outputs.drop_last()) + outputs.last().value as nat
    }
}

/// An unsigned transaction together with what a signer needs to complete
/// it: one map for each input, and for each output either a map or nothing.
#[derive(Debug, Clone, PartialEq)]
pub struct Psbt {
    /// The transaction to sign.
    pub unsigned_tx: Transaction,
    /// One map for each input of the transaction.
    pub inputs: Vec<psbt::Input>,
    /// One entry for each output of the transaction; `None` for an output
    /// that needs no description.
    pub outputs: Vec<Option<psbt::Output>>,
}

/// Mathematical view of a [`Psbt`].
pub struct PsbtView {
    /// The transaction to sign.
    pub unsigned_tx: TransactionView,
    /// One map for each input.
    pub inputs: Seq<psbt::Input>,
    /// One entry for each output.
    pub outputs: Seq<Option<psbt::Output>>,
}

impl View for Psbt {
    type V = PsbtView;

    open spec fn view(&self) -> PsbtView {
        PsbtView {
            unsigned_tx: self.unsigned_tx@,
            inputs: self.inputs@,
            outputs: self.outputs@,
        }
    }
}

/// The views of a sequence of templates.
pub open spec fn psbts_view(psbts: Seq<Psbt>) -> Seq<PsbtView> {
    Seq::new(psbts.len(), |i: int| psbts[i]@)
}

/// Tells whether two transaction ids are the same.
pub fn same_txid(a: &[u8; 32], b: &[u8; 32]) -> (r: bool)
    ensures
        r == (a@ == b@),
{
    let mut i: usize = 0;
    while i < 32
        invariant
            i <= 32,
            forall|k: int| 0 <= k < i ==> a@[k] == b@[k],
        decreases 32 - i,
    {
        if a[i] != b[i] {
            return false;
        }
        i = i + 1;
    }
    assert(a@ =~= b@);
    true
}

/// Tells whether two byte strings are the same.
pub fn same_bytes(a: &Vec<u8>, b: &Vec<u8>) -> (r: bool)
    ensures
        r == (a@ == b@),
{
    if a.len() != b.len() {
        return false;
    }
    let mut i: usize = 0;
    while i < a.len()
        invariant
            i <= a.len(),
            a.len() == b.len(),
            forall|k: int| 0 <= k < i ==> a@[k] == b@[k],
        decreases a.len() - i,
    {
        if a[i] != b[i] {
            return false;
        }
        i = i + 1;
    }
    assert(a@ =~= b@);
    true
}

impl Transaction {
    /// Computes the id of the transaction.
    pub fn compute_txid(&self) -> (id: [u8; 32])
        ensures
            id@ == txid_of(self@),
    {
        compute_txid(self)
    }
}

/// Copies an output.
pub fn copy_output(out: &TxOut) -> (r: TxOut)
    ensures
        r@ == out@,
{
    let mut script: Vec<u8> = Vec::new();
    let mut i: usize = 0;
    while i < out.script_pubkey.len()
        invariant
            i <= out.script_pubkey.len(),
            script@ == out.script_pubkey@.subrange(0, i as int),
        decreases out.script_pubkey.len() - i,
    {
        script.push(out.script_pubkey[i]);
        i = i + 1;
    }
    assert(script@ == out.script_pubkey@);
    TxOut { value: out.value, script_pubkey: script }
}

/// The transaction id of a transaction: the double SHA-256 of its
/// serialization without witness data.
pub uninterp spec fn txid_of(tx: TransactionView) -> Seq<u8>;

/// Calls `bitcoin::Transaction::compute_txid` on the transaction with the
/// same fields, and hands the 32 bytes of the id back as they are hashed.
/// The contract gives the id its name: it depends on the fields alone.
#[verifier::external_body]
pub(crate) fn compute_txid(tx: &Transaction) -> (id: [u8; 32])
    ensures
        id@ == txid_of(tx@),
{
    let input = tx.input.iter().map(|i| bitcoin::TxIn {
        previous_output: bitcoin::OutPoint::new(hashes::Hash::from_byte_array(i.previous_output.txid), i.previous_output.vout),
        script_sig: ScriptBuf::from_bytes(i.script_sig.clone()),
        sequence: Sequence(i.sequence),
        witness: Witness::from_slice(&i.witness),
    }).collect();
    let output = tx.output.iter().map(|o| bitcoin::TxOut {
        value: Amount::from_sat(o.value),
        script_pubkey: ScriptBuf::from_bytes(o.script_pubkey.clone()),
    }).collect();
    let version = Version(tx.version);
    let lock_time = LockTime::from_consensus(tx.lock_time);
    hashes::Hash::to_byte_array(bitcoin::Transaction { version, lock_time, input, output }.compute_txid())
}

/// What a hexadecimal text decodes to as a transaction in consensus
/// encoding: the transaction, or the words of the decoder's error.
pub uninterp spec fn decoded_tx(hex: Seq<char>) -> Result<TransactionView, Seq<char>>;

/// View of a decoded transaction or of the words of an error.
pub open spec fn decoding_view(r: Result<Transaction, String>) -> Result<
    TransactionView,
    Seq<char>,
> {
    match r {
        Ok(tx) => Ok(tx@),
        Err(e) => Err(e@),
    }
}

/// Decodes a transaction from hexadecimal text.
///
/// Calls `bitcoin::consensus::encode::deserialize_hex` and hands back the
/// transaction with the same fields, or the error as text. The contract
/// names what comes out: it depends on the text alone.
#[verifier::external_body]
pub fn parse_tx(raw_tx: &str) -> (r: Result<Transaction, String>)
    ensures
        decoding_view(r) == decoded_tx(raw_tx@),
{
    let tx: bitcoin::Transaction = deserialize_hex(raw_tx).map_err(|e| e.to_string())?;
    let input = tx.input.iter().map(|i| TxIn {
        previous_output: OutPoint { txid: hashes::Hash::to_byte_array(i.previous_output.txid), vout: i.previous_output.vout },
        script_sig: i.script_sig.to_bytes(),
        sequence: i.sequence.0,
        witness: i.witness.to_vec(),
    }).collect();
    let output = tx.output.iter().map(|o| TxOut {
        value: o.value.to_sat(),
        script_pubkey: o.script_pubkey.to_bytes(),
    }).collect();
    Ok(Transaction { version: tx.version.0, lock_time: tx.lock_time.to_consensus_u32(), input, output })
}

} // verus!
