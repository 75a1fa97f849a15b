//! The failure kinds of the wallet core.

use serde_json::Error as JsonError;
use std::io::Error as IoError;
use vstd::prelude::*;

verus! {

/// Opaque declaration of the I/O error of the standard library.
#[verifier::external_type_specification]
#[verifier::external_body]
pub struct ExIoError(IoError);

/// Opaque declaration of the JSON error of `serde_json`.
#[verifier::external_type_specification]
#[verifier::external_body]
pub struct ExJsonError(JsonError);

/// Everything that can go wrong in the wallet core and around it.
#[derive(Debug)]
pub enum Error {
    /// The path of the wallet file is not a path.
    ParseConfigPath,
    /// The wallet file does not hold a wallet state.
    ParseConfig,
    /// There is no wallet file.
    ConfigNotExists,
    /// The wallet file is not a regular file.
    ConfigNotFile,
    /// The wallet file cannot be opened.
    OpenConfig,
    /// The wallet file cannot be read.
    ReadConfig,
    /// A recovery phrase is malformed.
    Mnemonic,
    /// No master key comes out of the seed.
    Xpriv,
    /// A step of the hierarchical derivation is invalid.
    DeriveXpriv,
    /// The wallet file cannot be written.
    DumpConfig,
    /// A text does not decode as a transaction; the words are the
    /// decoder's.
    Transaction(String),
    /// A script template cannot be compiled, or has no script at an index.
    Descriptor,
    /// A round index is zero or beyond the unhardened range.
    RoundIndex,
    /// Output 0 of the previous transaction is missing or does not pay the
    /// covenant address it has to pay.
    PreviousOutput,
    /// The funding output holds nothing, or less than the fee of its only
    /// round.
    Funding,
    /// The round cap or the fee is zero, so that no chain ends.
    Amount,
    /// The ledger's indices are not exactly `1..=n`, or more than one round
    /// is active.
    Ledger,
    /// No round of the ledger is active.
    NoActiveRound,
    /// A coin names a transaction or an output that its round has not
    /// recorded.
    MissingCoin,
    /// The spendable coins add up to more than `u64::MAX` satoshis.
    Overflow,
    /// An I/O error.
    IO(IoError),
    /// A JSON error.
    SerdeJson(JsonError),
}

impl From<IoError> for Error {
    fn from(value: IoError) -> (r: Self) {
        Self::IO(value)
    }
}

impl vstd::std_specs::convert::FromSpecImpl<IoError> for Error {
    open spec fn obeys_from_spec() -> bool {
        true
    }

    open spec fn from_spec(value: IoError) -> Self {
        Self::IO(value)
    }
}

impl From<JsonError> for Error {
    fn from(value: JsonError) -> (r: Self) {
        Self::SerdeJson(value)
    }
}

impl vstd::std_specs::convert::FromSpecImpl<JsonError> for Error {
    open spec fn obeys_from_spec() -> bool {
        true
    }

    open spec fn from_spec(value: JsonError) -> Self {
        Self::SerdeJson(value)
    }
}

} // verus!
