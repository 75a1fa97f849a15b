//! Hierarchical key derivation, from a recovery phrase to a public key
//! descriptor.
//!
//! The cryptography is `bip39`'s and `bitcoin`'s. Keys cross this module as
//! text: an extended key in its base58 form, a descriptor key in the form
//! that descriptors are written in.

use crate::network::Network;
use bip39::Mnemonic;
use miniscript::bitcoin;
use miniscript::bitcoin::bip32;
use miniscript::bitcoin::secp256k1::Secp256k1;
use miniscript::descriptor;
use miniscript::DescriptorPublicKey;
use vstd::prelude::*;

verus! {

/// First hardened child number.
pub const HARDENED: u32 = 0x8000_0000;

/// One step of a derivation path.
#[derive(Debug, Clone, Copy, PartialEq, Eq, Structural)]
pub enum ChildNumber {
    /// Unhardened step.
    Normal {
        /// Index of the child, below `HARDENED`.
        index: u32,
    },
    /// Hardened step.
    Hardened {
        /// Index of the child, below `HARDENED`.
        index: u32,
    },
}

impl ChildNumber {
    /// Whether the index is in range.
    pub open spec fn wf(self) -> bool {
        match self {
            ChildNumber::Normal { index } => index < HARDENED,
            ChildNumber::Hardened { index } => index < HARDENED,
        }
    }

    /// The number that stands for this step in a serialized key: hardened
    /// steps come after all unhardened ones.
    pub open spec fn spec_raw(self) -> u32
        recommends
            self.wf(),
    {
        match self {
            ChildNumber::Normal { index } => index,
            ChildNumber::Hardened { index } => (index + HARDENED) as u32,
        }
    }

    /// The step that a serialized number stands for.
    pub open spec fn spec_from_raw(raw: u32) -> ChildNumber {
        if raw >= HARDENED {
            ChildNumber::Hardened { index: (raw - HARDENED) as u32 }
        } else {
            ChildNumber::Normal { index: raw }
        }
    }

    /// Serializes the step as a number.
    pub fn raw(self) -> (r: u32)
        requires
            self.wf(),
        ensures
            r == self.spec_raw(),
            ChildNumber::spec_from_raw(r) == self,
    {
        match self {
            ChildNumber::Normal { index } => index,
            ChildNumber::Hardened { index } => index + HARDENED,
        }
    }

    /// Reads a step from its number.
    pub fn from_raw(raw: u32) -> (r: ChildNumber)
        ensures
            r == ChildNumber::spec_from_raw(raw),
            r.wf(),
            r.spec_raw() == raw,
    {
        if raw >= HARDENED {
            ChildNumber::Hardened { index: raw - HARDENED }
        } else {
            ChildNumber::Normal { index: raw }
        }
    }
}

/// How a descriptor key ends.
#[derive(Debug, Clone, Copy, PartialEq, Eq, Structural)]
pub enum Wildcard {
    /// The key stands for itself.
    Absent,
    /// The key stands for all its unhardened children.
    Unhardened,
    /// The key stands for all its hardened children.
    Hardened,
}

/// View of an optional byte string.
pub open spec fn bytes_view(bytes: Option<Vec<u8>>) -> Option<Seq<u8>> {
    match bytes {
        Some(b) => Some(b@),
        None => None,
    }
}

/// View of an optional text.
pub open spec fn text_view(text: Option<String>) -> Option<Seq<char>> {
    match text {
        Some(t) => Some(t@),
        None => None,
    }
}

/// The BIP-39 seed of a recovery phrase under a passphrase; `None` for a
/// phrase that is not a valid mnemonic.
pub uninterp spec fn seed_of(phrase: Seq<char>, passphrase: Seq<char>) -> Option<Seq<u8>>;

/// The BIP-32 master private key of a seed, written in base58; `None` where
/// the seed gives no key.
pub uninterp spec fn master_of(network: Network, seed: Seq<u8>) -> Option<Seq<char>>;

/// The fingerprint of an extended private key; `None` for a text that is no
/// such key.
pub uninterp spec fn fingerprint_of(key: Seq<char>) -> Option<Seq<u8>>;

/// The extended private key reached from `key` along `path`, each step
/// given by its number; `None` where `key` is no extended private key or a
/// step gives no key.
pub uninterp spec fn derived_of(key: Seq<char>, path: Seq<u32>) -> Option<Seq<char>>;

/// The extended public key of an extended private key; `None` for a text
/// that is no such key.
pub uninterp spec fn public_of(key: Seq<char>) -> Option<Seq<char>>;

/// The descriptor key, as descriptors write it, made of a master
/// fingerprint, the path from the master to an extended public key, that
/// key, the path below it and the wildcard; `None` for a text that is no
/// extended public key.
pub uninterp spec fn descriptor_key_of(
    fingerprint: Seq<u8>,
    origin: Seq<u32>,
    xpub: Seq<char>,
    path: Seq<u32>,
    wildcard: Wildcard,
) -> Option<Seq<char>>;

/// Parses the phrase with `bip39::Mnemonic::from_str` and stretches it with
/// `Mnemonic::to_seed`. The contract names the 64 bytes that come out.
#[verifier::external_body]
pub(crate) fn mnemonic_seed(phrase: &str, passphrase: &str) -> (seed: Option<Vec<u8>>)
    ensures
        bytes_view(seed) == seed_of(phrase@, passphrase@),
{
    phrase.parse::<Mnemonic>().ok().map(|m| m.to_seed(passphrase).to_vec())
}

/// Calls `bip32::Xpriv::new_master` and writes the key in base58. The
/// contract names that text.
#[verifier::external_body]
pub(crate) fn master_key(network: Network, seed: &Vec<u8>) -> (key: Option<String>)
    ensures
        text_view(key) == master_of(network, seed@),
{
    let network = match network {
        Network::Bitcoin => bitcoin::Network::Bitcoin,
        Network::Testnet => bitcoin::Network::Testnet,
        Network::Testnet4 => bitcoin::Network::Testnet4,
        Network::Signet => bitcoin::Network::Signet,
        Network::Regtest => bitcoin::Network::Regtest,
    };
    bip32::Xpriv::new_master(network, seed).ok().map(|k| k.to_string())
}

/// Calls `bip32::Xpriv::fingerprint` on the key that the text holds. The
/// contract names the four bytes.
#[verifier::external_body]
pub(crate) fn key_fingerprint(key: &str) -> (fingerprint: Option<[u8; 4]>)
    ensures
        fingerprint matches Some(f) ==> fingerprint_of(key@) == Some(f@),
        fingerprint is None ==> fingerprint_of(key@) is None,
{
    let key = key.parse::<bip32::Xpriv>().ok()?;
    Some(key.fingerprint(&Secp256k1::new()).to_bytes())
}

/// Calls `bip32::Xpriv::derive_priv` on the key that the text holds, with
/// each number of `path` read by `bip32::ChildNumber::from`, and writes the
/// key that is reached in base58. The contract names that text.
#[verifier::external_body]
pub(crate) fn derive_key(key: &str, path: &Vec<u32>) -> (child: Option<String>)
    ensures
        text_view(child) == derived_of(key@, path@),
{
    let key = key.parse::<bip32::Xpriv>().ok()?;
    let path: Vec<bip32::ChildNumber> = path.iter().map(|n| bip32::ChildNumber::from(*n)).collect();
    key.derive_priv(&Secp256k1::new(), &path).ok().map(|k| k.to_string())
}

/// Calls `bip32::Xpub::from_priv` on the key that the text holds and writes
/// the public key in base58. The contract names that text.
#[verifier::external_body]
pub(crate) fn public_key(key: &str) -> (xpub: Option<String>)
    ensures
        text_view(xpub) == public_of(key@),
{
    let key = key.parse::<bip32::Xpriv>().ok()?;
    Some(bip32::Xpub::from_priv(&Secp256k1::new(), &key).to_string())
}

/// Fills a `miniscript::descriptor::DescriptorXKey` with the arguments,
/// wraps it in `DescriptorPublicKey::XPub` and writes it as descriptors do.
/// The contract names that text.
#[verifier::external_body]
pub(crate) fn descriptor_key(
    fingerprint: [u8; 4],
    origin: &Vec<u32>,
    xpub: &str,
    path: &Vec<u32>,
    wildcard: Wildcard,
) -> (key: Option<String>)
    ensures
        text_view(key) == descriptor_key_of(fingerprint@, origin@, xpub@, path@, wildcard),
{
    let master = bip32::Fingerprint::from(fingerprint);
    let origin: bip32::DerivationPath = origin.iter().map(|n| bip32::ChildNumber::from(*n)).collect();
    let wildcard = match wildcard {
        Wildcard::Absent => descriptor::Wildcard::None,
        Wildcard::Unhardened => descriptor::Wildcard::Unhardened,
        Wildcard::Hardened => descriptor::Wildcard::Hardened,
    };
    let derivation_path = path.iter().map(|n| bip32::ChildNumber::from(*n)).collect();
    let xkey = xpub.parse::<bip32::Xpub>().ok()?;
    let key = descriptor::DescriptorXKey { origin: Some((master, origin)), xkey, derivation_path, wildcard };
    Some(DescriptorPublicKey::XPub(key).to_string())
}

} // verus!
