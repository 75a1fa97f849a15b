//! The state of a wallet: its two recovery phrases, its policy and its
//! ledger; and the derivation of its two descriptor keys.

use crate::error::Error;
use crate::keys::{
    derive_key, derived_of, descriptor_key, descriptor_key_of, fingerprint_of, key_fingerprint,
    master_key, master_of, mnemonic_seed, public_key, public_of, seed_of, ChildNumber, Wildcard,
    HARDENED,
};
use crate::network::Network;
use crate::round::Rounds;
use vstd::prelude::*;

verus! {

/// Purpose step of the origin path.
pub const PURPOSE: u32 = 84;

/// Coin-type step of the origin path.
pub const COIN_TYPE: u32 = 1;

/// Everything that a wallet is made of.
#[derive(Debug, PartialEq)]
pub struct CovenantState {
    /// Recovery phrase of the covenant key.
    pub cov_mnemonic: String,
    /// Recovery phrase of the spend key.
    pub spend_mnemonic: String,
    /// The most that a round may send to the spend address, in satoshis.
    pub amount: u64,
    /// The number of blocks that an input of a round must be old.
    pub delay: u16,
    /// Number of the account that all keys of the wallet derive from.
    pub account: u32,
    /// The network of the wallet.
    pub network: Network,
    /// The ledger of rounds.
    pub rounds: Rounds,
}

/// View of a text or an error.
pub open spec fn text_result(r: Result<String, Error>) -> Result<Seq<char>, Error> {
    match r {
        Ok(text) => Ok(text@),
        Err(e) => Err(e),
    }
}

/// The numbers that stand for the steps of a path.
pub open spec fn spec_raw_path(path: Seq<ChildNumber>) -> Seq<u32> {
    Seq::new(path.len(), |i: int| path[i].spec_raw())
}

/// The path from a master key to the keys of an account: purpose, coin
/// type and account, each hardened.
pub open spec fn spec_origin_path(account: u32) -> Seq<ChildNumber> {
    seq![
        ChildNumber::Hardened { index: PURPOSE },
        ChildNumber::Hardened { index: COIN_TYPE },
        ChildNumber::Hardened { index: account },
    ]
}

/// The master private key of a recovery phrase: that of its seed under the
/// empty passphrase, written for the test networks.
pub open spec fn spec_master_xpriv(mnemonic: Seq<char>) -> Result<Seq<char>, Error> {
    match seed_of(mnemonic, ""@) {
        None => Err(Error::Mnemonic),
        Some(seed) => match master_of(Network::Regtest, seed) {
            None => Err(Error::Xpriv),
            Some(master) => Ok(master),
        },
    }
}

/// The private key reached from `xpriv` along `path`.
pub open spec fn spec_derived_xpriv(xpriv: Seq<char>, path: Seq<ChildNumber>) -> Result<
    Seq<char>,
    Error,
> {
    match derived_of(xpriv, spec_raw_path(path)) {
        None => Err(Error::DeriveXpriv),
        Some(child) => Ok(child),
    }
}

/// The descriptor key of an account under a master key: the public key at
/// the account's origin path, marked with the master's fingerprint and
/// that path, standing for all unhardened children of its child
/// `sub_account`.
pub open spec fn spec_xpub(master: Seq<char>, account: u32, sub_account: u32) -> Result<
    Seq<char>,
    Error,
> {
    if account >= HARDENED {
        Err(Error::DeriveXpriv)
    } else {
        match fingerprint_of(master) {
            None => Err(Error::Xpriv),
            Some(fingerprint) => match spec_derived_xpriv(master, spec_origin_path(account)) {
                Err(e) => Err(e),
                Ok(xpriv) => match public_of(xpriv) {
                    None => Err(Error::DeriveXpriv),
                    Some(xpub) => match descriptor_key_of(
                        fingerprint,
                        spec_raw_path(spec_origin_path(account)),
                        xpub,
                        seq![sub_account],
                        Wildcard::Unhardened,
                    ) {
                        None => Err(Error::DeriveXpriv),
                        Some(key) => Ok(key),
                    },
                },
            },
        }
    }
}

/// The descriptor key that a recovery phrase gives for an account.
pub open spec fn spec_descriptor_key(mnemonic: Seq<char>, account: u32, sub_account: u32) -> Result<
    Seq<char>,
    Error,
> {
    match spec_master_xpriv(mnemonic) {
        Err(e) => Err(e),
        Ok(master) => spec_xpub(master, account, sub_account),
    }
}

/// Writes the steps of a path as numbers.
pub fn raw_path(path: &Vec<ChildNumber>) -> (r: Vec<u32>)
    requires
        forall|i: int| 0 <= i < path@.len() ==> (#[trigger] path@[i]).wf(),
    ensures
        r@ == spec_raw_path(path@),
{
    let mut r: Vec<u32> = Vec::new();
    let mut i: usize = 0;
    while i < path.len()
        invariant
            i <= path@.len(),
            forall|k: int| 0 <= k < path@.len() ==> (#[trigger] path@[k]).wf(),
            r@ == spec_raw_path(path@.take(i as int)),
        decreases path.len() - i,
    {
        r.push(path[i].raw());
        i = i + 1;
    }
    r
}

impl CovenantState {
    /// The descriptor key of the covenant hierarchy.
    pub open spec fn spec_cov_xpub(&self, sub_account: u32) -> Result<Seq<char>, Error> {
        spec_descriptor_key(self.cov_mnemonic@, self.account, sub_account)
    }

    /// The descriptor key of the spend hierarchy.
    pub open spec fn spec_spend_xpub(&self, sub_account: u32) -> Result<Seq<char>, Error> {
        spec_descriptor_key(self.spend_mnemonic@, self.account, sub_account)
    }

    /// The path from a master key to the keys of this wallet.
    pub fn origin_path(&self) -> (r: Vec<ChildNumber>)
        requires
            self.account < HARDENED,
        ensures
            r@ == spec_origin_path(self.account),
            forall|i: int| 0 <= i < r@.len() ==> (#[trigger] r@[i]).wf(),
    {
        let mut r: Vec<ChildNumber> = Vec::new();
        r.push(ChildNumber::Hardened { index: PURPOSE });
        r.push(ChildNumber::Hardened { index: COIN_TYPE });
        r.push(ChildNumber::Hardened { index: self.account });
        r
    }

    /// Derives the master private key of a recovery phrase.
    pub fn master_xpriv(mnemonic: &str) -> (r: Result<String, Error>)
        ensures
            text_result(r) == spec_master_xpriv(mnemonic@),
    {
        match mnemonic_seed(mnemonic, "") {
            None => Err(Error::Mnemonic),
            Some(seed) => match master_key(Network::Regtest, &seed) {
                None => Err(Error::Xpriv),
                Some(master) => Ok(master),
            },
        }
    }

    /// Derives the private key that lies at a path below another.
    pub fn derived_xpriv(xpriv: &str, path: &Vec<ChildNumber>) -> (r: Result<String, Error>)
        requires
            forall|i: int| 0 <= i < path@.len() ==> (#[trigger] path@[i]).wf(),
        ensures
            text_result(r) == spec_derived_xpriv(xpriv@, path@),
    {
        let numbers = raw_path(path);
        match derive_key(xpriv, &numbers) {
            None => Err(Error::DeriveXpriv),
            Some(child) => Ok(child),
        }
    }

    fn cov_master_xpriv(&self) -> (r: Result<String, Error>)
        ensures
            text_result(r) == spec_master_xpriv(self.cov_mnemonic@),
    {
        Self::master_xpriv(self.cov_mnemonic.as_str())
    }

    fn spend_master_xpriv(&self) -> (r: Result<String, Error>)
        ensures
            text_result(r) == spec_master_xpriv(self.spend_mnemonic@),
    {
        Self::master_xpriv(self.spend_mnemonic.as_str())
    }

    /// Derives the descriptor key of this wallet's account under a master
    /// key. An account beyond the hardened range has no key.
    pub fn xpub(&self, master_xpriv: &str, sub_account: u32) -> (r: Result<String, Error>)
        ensures
            text_result(r) == spec_xpub(master_xpriv@, self.account, sub_account),
    {
        if self.account >= HARDENED {
            return Err(Error::DeriveXpriv);
        }
        let fingerprint = match key_fingerprint(master_xpriv) {
            None => {
                return Err(Error::Xpriv);
            },
            Some(fingerprint) => fingerprint,
        };
        let origin = self.origin_path();
        let xpriv = match Self::derived_xpriv(master_xpriv, &origin) {
            Err(e) => {
                return Err(e);
            },
            Ok(xpriv) => xpriv,
        };
        let xpub = match public_key(xpriv.as_str()) {
            None => {
                return Err(Error::DeriveXpriv);
            },
            Some(xpub) => xpub,
        };
        let numbers = raw_path(&origin);
        let mut below: Vec<u32> = Vec::new();
        below.push(sub_account);
        match descriptor_key(fingerprint, &numbers, xpub.as_str(), &below, Wildcard::Unhardened) {
            None => Err(Error::DeriveXpriv),
            Some(key) => Ok(key),
        }
    }

    /// Derives the descriptor key of the covenant hierarchy.
    pub fn cov_xpub(&self, sub_account: u32) -> (r: Result<String, Error>)
        ensures
            text_result(r) == self.spec_cov_xpub(sub_account),
    {
        match self.cov_master_xpriv() {
            Err(e) => Err(e),
            Ok(master) => self.xpub(master.as_str(), sub_account),
        }
    }

    /// Derives the descriptor key of the spend hierarchy.
    pub fn spend_xpub(&self, sub_account: u32) -> (r: Result<String, Error>)
        ensures
            text_result(r) == self.spec_spend_xpub(sub_account),
    {
        match self.spend_master_xpriv() {
            Err(e) => Err(e),
            Ok(master) => self.xpub(master.as_str(), sub_account),
        }
    }

    /// The number of blocks that an input of a round must be old.
    pub fn delay(&self) -> (r: u16)
        ensures
            r == self.delay,
    {
        self.delay
    }

    /// The most that a round may send to the spend address, in satoshis.
    pub fn amount(&self) -> (r: u64)
        ensures
            r == self.amount,
    {
        self.amount
    }
}

/// Derivation is a function of the recovery phrase, the account and the
/// sub-account: two wallets that agree on them derive the same descriptor
/// keys, or fail in the same way.
pub proof fn lemma_derivation_deterministic(a: CovenantState, b: CovenantState, sub_account: u32)
    requires
        a.account == b.account,
    ensures
        a.cov_mnemonic@ == b.cov_mnemonic@ ==> a.spec_cov_xpub(sub_account) == b.spec_cov_xpub(
            sub_account,
        ),
        a.spend_mnemonic@ == b.spend_mnemonic@ ==> a.spec_spend_xpub(sub_account)
            == b.spec_spend_xpub(sub_account),
{
}

} // verus!
