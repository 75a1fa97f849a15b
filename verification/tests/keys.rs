use lfc::covenant_state::{raw_path, CovenantState};
use lfc::keys::ChildNumber;
use lfc::round::Rounds;
use lfc::{Error, Network, DEFAULT_NETWORK, MAX_DERIV};

const COV_PHRASE: &str =
    "abandon abandon abandon abandon abandon abandon abandon abandon abandon abandon abandon about";
const SPEND_PHRASE: &str =
    "legal winner thank year wave sausage worth useful legal winner thank yellow";

fn state(account: u32) -> CovenantState {
    CovenantState {
        cov_mnemonic: COV_PHRASE.to_string(),
        spend_mnemonic: SPEND_PHRASE.to_string(),
        amount: 10_000_000,
        delay: 4500,
        account,
        network: DEFAULT_NETWORK,
        rounds: Rounds::new(),
    }
}

#[test]
fn constants() {
    assert_eq!(lfc::FEE, 600);
    assert_eq!(MAX_DERIV, 2_147_483_647);
    assert_eq!(DEFAULT_NETWORK, Network::Regtest);
}

#[test]
fn child_numbers_and_their_raw_form() {
    assert_eq!(ChildNumber::Normal { index: 7 }.raw(), 7);
    assert_eq!(ChildNumber::Hardened { index: 84 }.raw(), 0x8000_0054);
    assert_eq!(ChildNumber::from_raw(7), ChildNumber::Normal { index: 7 });
    assert_eq!(ChildNumber::from_raw(0x8000_0000), ChildNumber::Hardened { index: 0 });
    assert_eq!(ChildNumber::from_raw(u32::MAX), ChildNumber::Hardened { index: 0x7fff_ffff });
}

#[test]
fn origin_path_is_purpose_coin_account() {
    assert_eq!(
        state(5).origin_path(),
        vec![
            ChildNumber::Hardened { index: 84 },
            ChildNumber::Hardened { index: 1 },
            ChildNumber::Hardened { index: 5 },
        ]
    );
    assert_eq!(raw_path(&state(5).origin_path()), vec![0x8000_0054, 0x8000_0001, 0x8000_0005]);
}

#[test]
fn master_key_of_a_known_phrase() {
    assert_eq!(
        CovenantState::master_xpriv(COV_PHRASE).unwrap(),
        "tprv8ZgxMBicQKsPe5YMU9gHen4Ez3ApihUfykaqUorj9t6FDqy3nP6eoXiAo2ssvpAjoLroQxHqr3R5nE3a5dU3DHTjTgJDd7zrbniJr6nrCzd"
    );
}

#[test]
fn master_key_of_a_malformed_phrase() {
    assert!(matches!(CovenantState::master_xpriv("abandon abandon"), Err(Error::Mnemonic)));
    assert!(matches!(CovenantState::master_xpriv(""), Err(Error::Mnemonic)));
    // Twelve words of the list with a wrong checksum.
    let phrase = "abandon abandon abandon abandon abandon abandon abandon abandon abandon abandon abandon abandon";
    assert!(matches!(CovenantState::master_xpriv(phrase), Err(Error::Mnemonic)));
}

#[test]
fn derived_key_of_a_known_phrase() {
    let master = CovenantState::master_xpriv(COV_PHRASE).unwrap();
    assert_eq!(
        CovenantState::derived_xpriv(&master, &state(0).origin_path()).unwrap(),
        "tprv8fSjiqEQ8YG7Ro7gw2ScwcvweYuuWi1ZzGUtrPz918HvDtBzL5s2voFTrN4y3yUwj5cYD54pLhxk6NKCzHUjcka3zbKjbTEcsuAnkzbjhkL"
    );
    assert_eq!(CovenantState::derived_xpriv(&master, &vec![]).unwrap(), master);
}

#[test]
fn derived_key_of_no_key() {
    let path = state(0).origin_path();
    assert!(matches!(CovenantState::derived_xpriv("tprv", &path), Err(Error::DeriveXpriv)));
}

#[test]
fn descriptor_keys_of_known_phrases() {
    let s = state(0);
    assert_eq!(
        s.cov_xpub(1).unwrap(),
        "[73c5da0a/84'/1'/0']tpubDC8msFGeGuwnKG9Upg7DM2b4DaRqg3CUZa5g8v2SRQ6K4NSkxUgd7HsL2XVWbVm39yBA4LAxysQAm397zwQSQoQgewGiYZqrA9DsP4zbQ1M/1/*"
    );
    assert_eq!(
        s.spend_xpub(1).unwrap(),
        "[b8688df1/84'/1'/0']tpubDDA3frU31t8hSUKpX7UmhvJuDGG1r7UNzx85fQ49Xa15ax6Yby2sLQYCwCDWgdXQeb4iK8EZGKwRHDdKZTgvpHNi5WeUQn5ZBpEFSnM8FkE/1/*"
    );
}

#[test]
fn descriptor_key_under_a_master_key() {
    let s = state(0);
    let master = CovenantState::master_xpriv(COV_PHRASE).unwrap();
    assert_eq!(s.xpub(&master, 1).unwrap(), s.cov_xpub(1).unwrap());
    assert!(matches!(s.xpub("no key", 1), Err(Error::Xpriv)));
}

#[test]
fn sub_account_shows_in_the_descriptor_key() {
    let s = state(0);
    let zero = s.cov_xpub(0).unwrap();
    assert!(zero.ends_with("/0/*"));
    assert_eq!(zero.replace("/0/*", "/1/*"), s.cov_xpub(1).unwrap());
}

#[test]
fn account_changes_every_key() {
    let a = state(0).cov_xpub(1).unwrap();
    let b = state(1).cov_xpub(1).unwrap();
    assert!(b.starts_with("[73c5da0a/84'/1'/1']tpub"));
    assert_ne!(a, b);
}

#[test]
fn account_beyond_the_hardened_range() {
    assert!(matches!(state(0x8000_0000).cov_xpub(1), Err(Error::DeriveXpriv)));
    assert!(matches!(state(u32::MAX).spend_xpub(1), Err(Error::DeriveXpriv)));
    assert!(state(0x7fff_ffff).cov_xpub(1).is_ok());
}

#[test]
fn malformed_phrase_gives_no_descriptor_key() {
    let mut s = state(0);
    s.cov_mnemonic = "abandon".to_string();
    assert!(matches!(s.cov_xpub(1), Err(Error::Mnemonic)));
    assert!(s.spend_xpub(1).is_ok());
}

#[test]
fn derivation_is_deterministic() {
    let a = state(3);
    let b = state(3);
    assert_eq!(a.cov_xpub(1).unwrap(), a.cov_xpub(1).unwrap());
    assert_eq!(a.cov_xpub(1).unwrap(), b.cov_xpub(1).unwrap());
    assert_eq!(a.spend_xpub(1).unwrap(), b.spend_xpub(1).unwrap());
    assert_ne!(a.cov_xpub(1).unwrap(), a.spend_xpub(1).unwrap());
}

#[test]
fn getters() {
    let s = state(0);
    assert_eq!(s.delay(), 4500);
    assert_eq!(s.amount(), 10_000_000);
}

#[test]
fn errors_wrap_outside_errors() {
    let io = std::io::Error::new(std::io::ErrorKind::NotFound, "gone");
    assert!(matches!(Error::from(io), Error::IO(_)));
    let json = serde_json::from_str::<u32>("x").unwrap_err();
    assert!(matches!(Error::from(json), Error::SerdeJson(_)));
}
