//! Script templates: the text of the two descriptors of a covenant, and
//! what `miniscript` makes of a descriptor.

use crate::network::Network;
use crate::tx::{TxOut, TxOutView};
use miniscript::bitcoin;
use miniscript::bitcoin::psbt;
use miniscript::bitcoin::secp256k1::Secp256k1;
use miniscript::bitcoin::{Amount, ScriptBuf};
use miniscript::descriptor::Wildcard;
use miniscript::psbt::{PsbtInputExt, PsbtOutputExt};
use miniscript::{DefiniteDescriptorKey, Descriptor, DescriptorPublicKey, ForEachKey};
use vstd::prelude::*;
use vstd::string::StringExecFns;

verus! {

/// Opaque declaration of the per-input map of a PSBT.
#[verifier::external_type_specification]
#[verifier::external_body]
pub struct ExPsbtInput(psbt::Input);

/// Opaque declaration of the per-output map of a PSBT.
#[verifier::external_type_specification]
#[verifier::external_body]
pub struct ExPsbtOutput(psbt::Output);

/// An address: the script it stands for, and how it is written.
#[derive(Debug, Clone, PartialEq, Eq)]
pub struct Address {
    /// The locking script of an output that pays this address.
    pub script_pubkey: Vec<u8>,
    /// The address as text, in the encoding of its network.
    pub encoded: String,
}

/// View of an optional address: its script and its text.
pub open spec fn address_view(address: Option<Address>) -> Option<(Seq<u8>, Seq<char>)> {
    match address {
        Some(a) => Some((a.script_pubkey@, a.encoded@)),
        None => None,
    }
}

/// The descriptor that a text stands for, written back with its checksum;
/// `None` for a text that is no descriptor.
pub uninterp spec fn descriptor_of(text: Seq<char>) -> Option<Seq<char>>;

/// The descriptor in which every wildcard of `descriptor` is replaced by
/// `index`; `None` for a text that is no descriptor, for a descriptor with
/// a hardened step or a hardened wildcard behind an extended key, and for
/// an index that no unhardened child has.
pub uninterp spec fn definite_of(descriptor: Seq<char>, index: u32) -> Option<Seq<char>>;

/// The address of a descriptor without wildcards on a network: its script
/// and its text; `None` where the text is no such descriptor, one of its
/// keys cannot be derived, or the descriptor has no address.
pub uninterp spec fn address_of(definite: Seq<char>, network: Network) -> Option<
    (Seq<u8>, Seq<char>),
>;

/// The PSBT input map that lets a signer spend `utxo` under a descriptor
/// without wildcards; `None` where the text is no such descriptor or one of
/// its keys cannot be derived.
pub uninterp spec fn input_of(definite: Seq<char>, utxo: TxOutView) -> Option<psbt::Input>;

/// The PSBT output map that describes an output locked by a descriptor
/// without wildcards; `None` where the text is no such descriptor or one of
/// its keys cannot be derived.
pub uninterp spec fn output_of(definite: Seq<char>) -> Option<psbt::Output>;

/// Parses the text with `miniscript::Descriptor::from_str` and writes the
/// descriptor back. The contract names that text.
#[verifier::external_body]
pub(crate) fn descriptor_text(text: &str) -> (descriptor: Option<String>)
    ensures
        crate::keys::text_view(descriptor) == descriptor_of(text@),
{
    text.parse::<Descriptor<DescriptorPublicKey>>().ok().map(|d| d.to_string())
}

/// Calls `miniscript::Descriptor::at_derivation_index` on the descriptor
/// that the text holds and writes the result back. The call does not return
/// for a key with a hardened step or a hardened wildcard behind its
/// extended key, so for such a descriptor it is not made and the result is
/// `None`, as it is for a text that is no descriptor and for an index that
/// the call refuses. The contract names the text that comes out.
#[verifier::external_body]
pub(crate) fn definite_descriptor(descriptor: &str, index: u32) -> (definite: Option<String>)
    ensures
        crate::keys::text_view(definite) == definite_of(descriptor@, index),
{
    let d = descriptor.parse::<Descriptor<DescriptorPublicKey>>().ok()?;
    let hardened = |k: &DescriptorPublicKey| {
        k.has_hardened_step() || matches!(k, DescriptorPublicKey::XPub(x) if x.wildcard == Wildcard::Hardened)
    };
    if d.for_any_key(hardened) {
        return None;
    }
    d.at_derivation_index(index).ok().map(|d| d.to_string())
}

/// Calls `miniscript::Descriptor::address` on the descriptor without
/// wildcards that the text holds, and hands back the address's script and
/// its text. The call does not return for an extended key that is too deep
/// for its path, so each key's `bip32::Xpub::derive_pub` is tried first,
/// and where one fails the result is `None`. The contract names the pair.
#[verifier::external_body]
pub(crate) fn descriptor_address(definite: &str, network: Network) -> (address: Option<Address>)
    ensures
        address_view(address) == address_of(definite@, network),
{
    let network = match network {
        Network::Bitcoin => bitcoin::Network::Bitcoin,
        Network::Testnet => bitcoin::Network::Testnet,
        Network::Testnet4 => bitcoin::Network::Testnet4,
        Network::Signet => bitcoin::Network::Signet,
        Network::Regtest => bitcoin::Network::Regtest,
    };
    let d = definite.parse::<Descriptor<DefiniteDescriptorKey>>().ok()?;
    let secp = Secp256k1::verification_only();
    if d.for_any_key(|k| matches!(k.as_descriptor_public_key(), DescriptorPublicKey::XPub(x) if x.xkey.derive_pub(&secp, &x.derivation_path).is_err())) {
        return None;
    }
    let a = d.address(network).ok()?;
    Some(Address { script_pubkey: a.script_pubkey().into_bytes(), encoded: a.to_string() })
}

/// Starts from an empty `psbt::Input`, calls
/// `miniscript::psbt::PsbtInputExt::update_with_descriptor_unchecked` on it
/// with the descriptor without wildcards that the text holds, and records
/// `utxo` as the output being spent. The call does not return for an
/// extended key that is too deep for its path, so each key's
/// `bip32::Xpub::derive_pub` is tried first, and where one fails the result
/// is `None`. The contract names the map.
#[verifier::external_body]
pub(crate) fn psbt_input(definite: &str, utxo: &TxOut) -> (input: Option<psbt::Input>)
    ensures
        input == input_of(definite@, utxo@),
{
    let d = definite.parse::<Descriptor<DefiniteDescriptorKey>>().ok()?;
    let secp = Secp256k1::verification_only();
    if d.for_any_key(|k| matches!(k.as_descriptor_public_key(), DescriptorPublicKey::XPub(x) if x.xkey.derive_pub(&secp, &x.derivation_path).is_err())) {
        return None;
    }
    let mut input = psbt::Input::default();
    input.update_with_descriptor_unchecked(&d).ok()?;
    input.witness_utxo = Some(bitcoin::TxOut {
        value: Amount::from_sat(utxo.value),
        script_pubkey: ScriptBuf::from_bytes(utxo.script_pubkey.clone()),
    });
    Some(input)
}

/// Starts from an empty `psbt::Output` and calls
/// `miniscript::psbt::PsbtOutputExt::update_with_descriptor_unchecked` on
/// it with the descriptor without wildcards that the text holds. The call
/// does not return for an extended key that is too deep for its path, so
/// each key's `bip32::Xpub::derive_pub` is tried first, and where one fails
/// the result is `None`. The contract names the map.
#[verifier::external_body]
pub(crate) fn psbt_output(definite: &str) -> (output: Option<psbt::Output>)
    ensures
        output == output_of(definite@),
{
    let d = definite.parse::<Descriptor<DefiniteDescriptorKey>>().ok()?;
    let secp = Secp256k1::verification_only();
    if d.for_any_key(|k| matches!(k.as_descriptor_public_key(), DescriptorPublicKey::XPub(x) if x.xkey.derive_pub(&secp, &x.derivation_path).is_err())) {
        return None;
    }
    let mut output = psbt::Output::default();
    output.update_with_descriptor_unchecked(&d).ok()?;
    Some(output)
}

/// The character of a decimal digit.
pub open spec fn spec_digit(d: nat) -> char {
    if d == 0 {
        '0'
    } else if d == 1 {
        '1'
    } else if d == 2 {
        '2'
    } else if d == 3 {
        '3'
    } else if d == 4 {
        '4'
    } else if d == 5 {
        '5'
    } else if d == 6 {
        '6'
    } else if d == 7 {
        '7'
    } else if d == 8 {
        '8'
    } else {
        '9'
    }
}

/// A number in decimal, without leading zeros.
pub open spec fn spec_decimal(n: nat) -> Seq<char>
    decreases n,
{
    if n < 10 {
        seq![spec_digit(n)]
    } else {
        spec_decimal(n / 10).push(spec_digit(n % 10))
    }
}

/// The text of one decimal digit.
fn digit_text(d: u32) -> (r: &'static str)
    requires
        d < 10,
    ensures
        r@ == seq![spec_digit(d as nat)],
{
    proof {
        reveal_strlit("0");
        reveal_strlit("1");
        reveal_strlit("2");
        reveal_strlit("3");
        reveal_strlit("4");
        reveal_strlit("5");
        reveal_strlit("6");
        reveal_strlit("7");
        reveal_strlit("8");
        reveal_strlit("9");
    }
    if d == 0 {
        "0"
    } else if d == 1 {
        "1"
    } else if d == 2 {
        "2"
    } else if d == 3 {
        "3"
    } else if d == 4 {
        "4"
    } else if d == 5 {
        "5"
    } else if d == 6 {
        "6"
    } else if d == 7 {
        "7"
    } else if d == 8 {
        "8"
    } else {
        "9"
    }
}

/// Writes a number in decimal.
pub fn decimal_text(n: u32) -> (r: String)
    ensures
        r@ == spec_decimal(n as nat),
    decreases n,
{
    if n < 10 {
        String::from_str(digit_text(n))
    } else {
        let mut r = decimal_text(n / 10);
        r.append(digit_text(n % 10));
        r
    }
}

/// The point of BIP-341 whose discrete logarithm nobody knows, as an
/// x-only key: the internal key of an output that only its scripts can
/// spend.
pub const UNSPENDABLE_KEY: &'static str =
    "50929b74c1a04954b78b4b6035e97a5e078a5a0f28ec96d547bfee9ace803ac0";

/// The covenant template: a Taproot output that nobody can spend by key,
/// with two script leaves. The first is the backup path, on which the
/// covenant key and the spend key sign together at any time. The second is
/// the round path, on which the spend key signs once the input is at least
/// `timelock` blocks old. Both leaves sit at the same depth.
pub open spec fn spec_covenant_template(cov: Seq<char>, spend: Seq<char>, timelock: u16) -> Seq<
    char,
> {
    "tr("@ + UNSPENDABLE_KEY@ + ",{and_v(v:pk("@ + cov + "),pk("@ + spend + ")),and_v(v:pk("@
        + spend + "),older("@ + spec_decimal(timelock as nat) + "))})"@
}

/// The spend template: an output that the spend key alone unlocks.
pub open spec fn spec_spend_template(spend: Seq<char>) -> Seq<char> {
    "wpkh("@ + spend + ")"@
}

/// Writes the covenant template for two descriptor keys and a timelock.
pub fn covenant_template(cov: &str, spend: &str, timelock: u16) -> (r: String)
    ensures
        r@ == spec_covenant_template(cov@, spend@, timelock),
{
    let mut r = String::from_str("tr(");
    r.append(UNSPENDABLE_KEY);
    r.append(",{and_v(v:pk(");
    r.append(cov);
    r.append("),pk(");
    r.append(spend);
    r.append(")),and_v(v:pk(");
    r.append(spend);
    r.append("),older(");
    let blocks = decimal_text(timelock as u32);
    r.append(blocks.as_str());
    r.append("))})");
    r
}

/// Writes the spend template for a descriptor key.
pub fn spend_template(spend: &str) -> (r: String)
    ensures
        r@ == spec_spend_template(spend@),
{
    let mut r = String::from_str("wpkh(");
    r.append(spend);
    r.append(")");
    r
}

} // verus!
