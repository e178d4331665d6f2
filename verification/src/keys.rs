//! Private keys: derived from a mnemonic phrase or given raw, each with its
//! public key derived once.

use crate::error::DaemonError;
use crate::wire::{derive_public_key, public_key_bytes};
use vstd::prelude::*;
use vstd::string::StringExecFns;

verus! {

/// The coin type of keys that sign by the Ethereum-style scheme.
pub const ETHEREUM_COIN_TYPE: u32 = 60;

/// The schemes by which a key derives its address and signs.
#[derive(Clone, Copy, Debug, PartialEq, Eq, Structural)]
pub enum SigningScheme {
    /// The standard scheme: the address is that of the compressed public
    /// key, and the SHA-256 digest of the document is signed.
    Standard,
    /// The Ethereum-style scheme: the address is the last twenty bytes of
    /// the Keccak-256 digest of the uncompressed public key, and the
    /// Keccak-256 digest of the document is signed.
    Ethereum,
}

/// The scheme that a coin type selects.
pub open spec fn scheme_for(coin_type: u32) -> SigningScheme {
    if coin_type == ETHEREUM_COIN_TYPE {
        SigningScheme::Ethereum
    } else {
        SigningScheme::Standard
    }
}

/// Selects the scheme of a coin type.
pub fn scheme_of(coin_type: u32) -> (scheme: SigningScheme)
    ensures
        scheme == scheme_for(coin_type),
{
    if coin_type == ETHEREUM_COIN_TYPE {
        SigningScheme::Ethereum
    } else {
        SigningScheme::Standard
    }
}

/// `bip32::Error`, the error of key derivation; nothing is known of its
/// values.
#[verifier::external_type_specification]
#[verifier::external_body]
pub struct ExBip32Error(bip32::Error);

/// The seed of a BIP-39 mnemonic phrase of English words, without a
/// password, or `None` where the phrase is not valid.
pub uninterp spec fn mnemonic_seed(words: Seq<char>) -> Option<Seq<u8>>;

/// The private key that BIP-32 derives from a seed along a derivation path,
/// or `None` where there is none.
pub uninterp spec fn derived_key(seed: Seq<u8>, path: Seq<char>) -> Option<Seq<u8>>;

/// `bip32::Mnemonic::to_seed` with an empty password, on the phrase that
/// `bip32::Mnemonic::new` reads from the words as English: the result is
/// the seed, as a function of the words alone.
#[verifier::external_body]
pub(crate) fn seed_of_mnemonic(words: &str) -> (seed: Result<Vec<u8>, bip32::Error>)
    ensures
        match seed {
            Ok(s) => mnemonic_seed(words@) == Some(s@),
            Err(_) => mnemonic_seed(words@) is None,
        },
{
    let phrase = bip32::Mnemonic::new(words, bip32::Language::English)?;
    Ok(phrase.to_seed("").as_bytes().to_vec())
}

/// `bip32::XPrv::derive_from_path`, on the path that
/// `bip32::DerivationPath::from_str` reads from the text: the result is the
/// derived private key's bytes, as a function of the seed and the path
/// alone.
#[verifier::external_body]
pub(crate) fn derive_key(seed: &[u8], path: &str) -> (key: Result<Vec<u8>, bip32::Error>)
    ensures
        match key {
            Ok(k) => derived_key(seed@, path@) == Some(k@),
            Err(_) => derived_key(seed@, path@) is None,
        },
{
    let path: bip32::DerivationPath = path.parse()?;
    Ok(bip32::XPrv::derive_from_path(seed, &path)?.to_bytes().to_vec())
}

/// The character of a decimal digit.
pub open spec fn digit_char(d: nat) -> char {
    if d == 0 {
        '0'
    } else if d == 1 {
        '1'
    } else if d == 2 {
        '2'
    } else if d == 3 {
        '3'
    } else if d == 4 {
        '4'
    } else if d == 5 {
        '5'
    } else if d == 6 {
        '6'
    } else if d == 7 {
        '7'
    } else if d == 8 {
        '8'
    } else {
        '9'
    }
}

/// A number written in decimal, without leading zeros.
pub open spec fn decimal_digits(n: nat) -> Seq<char>
    decreases n,
{
    if n < 10 {
        seq![digit_char(n)]
    } else {
        decimal_digits(n / 10).push(digit_char(n % 10))
    }
}

/// The BIP-44 derivation path of a key: purpose 44, then the coin type and
/// the account, all three hardened, then the external chain and the index.
pub open spec fn derivation_path(coin_type: u32, account: u32, index: u32) -> Seq<char> {
    "m/44'/"@ + decimal_digits(coin_type as nat) + "'/"@ + decimal_digits(account as nat)
        + "'/0/"@ + decimal_digits(index as nat)
}

fn digit_text(d: u32) -> (text: &'static str)
    requires
        d < 10,
    ensures
        text@ == seq![digit_char(d as nat)],
{
    proof {
        reveal_strlit("0");
        reveal_strlit("1");
        reveal_strlit("2");
        reveal_strlit("3");
        reveal_strlit("4");
        reveal_strlit("5");
        reveal_strlit("6");
        reveal_strlit("7");
        reveal_strlit("8");
        reveal_strlit("9");
    }
    let text = if d == 0 {
        "0"
    } else if d == 1 {
        "1"
    } else if d == 2 {
        "2"
    } else if d == 3 {
        "3"
    } else if d == 4 {
        "4"
    } else if d == 5 {
        "5"
    } else if d == 6 {
        "6"
    } else if d == 7 {
        "7"
    } else if d == 8 {
        "8"
    } else {
        "9"
    };
    assert(text@ =~= seq![digit_char(d as nat)]);
    text
}

/// Writes a number in decimal.
pub fn decimal_text(n: u32) -> (text: String)
    ensures
        text@ == decimal_digits(n as nat),
    decreases n,
{
    if n < 10 {
        digit_text(n).to_owned()
    } else {
        let head = decimal_text(n / 10);
        let text = head.concat(digit_text(n % 10));
        assert(text@ =~= decimal_digits((n / 10) as nat).push(digit_char((n % 10) as nat)));
        text
    }
}

/// Writes the derivation path of a key.
pub fn derivation_path_text(coin_type: u32, account: u32, index: u32) -> (path: String)
    ensures
        path@ == derivation_path(coin_type, account, index),
{
    let mut path = "m/44'/".to_owned();
    path.append(decimal_text(coin_type).as_str());
    path.append("'/");
    path.append(decimal_text(account).as_str());
    path.append("'/0/");
    path.append(decimal_text(index).as_str());
    path
}

/// A private key with the coin type that it was derived for. The public key
/// is derived when the key is made.
#[derive(Debug, PartialEq, Eq)]
pub struct PrivateKey {
    coin_type: u32,
    raw_key: Vec<u8>,
    public_key: Vec<u8>,
}

/// The mathematical value of a [`PrivateKey`].
pub struct PrivateKeyView {
    pub coin_type: u32,
    pub raw_key: Seq<u8>,
    pub public_key: Seq<u8>,
}

impl View for PrivateKey {
    type V = PrivateKeyView;

    closed spec fn view(&self) -> PrivateKeyView {
        PrivateKeyView {
            coin_type: self.coin_type,
            raw_key: self.raw_key@,
            public_key: self.public_key@,
        }
    }
}

/// The key that a raw private key and a coin type make, or the error.
pub open spec fn key_of_raw(raw_key: Seq<u8>, coin_type: u32) -> Result<
    PrivateKeyView,
    DaemonError,
> {
    match public_key_bytes(raw_key) {
        Some(public_key) => Ok(PrivateKeyView { coin_type, raw_key, public_key }),
        None => Err(DaemonError::InvalidKey),
    }
}

/// The key that a mnemonic phrase makes for a coin type, an account and an
/// index, or the error.
pub open spec fn key_of_words(words: Seq<char>, account: u32, index: u32, coin_type: u32) -> Result<
    PrivateKeyView,
    DaemonError,
> {
    match mnemonic_seed(words) {
        None => Err(DaemonError::InvalidMnemonic),
        Some(seed) => match derived_key(seed, derivation_path(coin_type, account, index)) {
            None => Err(DaemonError::InvalidKey),
            Some(raw_key) => key_of_raw(raw_key, coin_type),
        },
    }
}

/// The result, with the key taken by its value.
pub open spec fn key_result(result: Result<PrivateKey, DaemonError>) -> Result<
    PrivateKeyView,
    DaemonError,
> {
    match result {
        Ok(key) => Ok(key@),
        Err(e) => Err(e),
    }
}

impl Clone for PrivateKey {
    fn clone(&self) -> (copy: PrivateKey)
        ensures
            copy@ == self@,
    {
        proof {
            use_type_invariant(self);
        }
        PrivateKey {
            coin_type: self.coin_type,
            raw_key: self.raw_key.clone(),
            public_key: self.public_key.clone(),
        }
    }
}

impl PrivateKey {
    #[verifier::type_invariant]
    spec fn public_key_matches(&self) -> bool {
        public_key_bytes(self.raw_key@) == Some(self.public_key@)
    }

    /// Takes a raw private key for the given coin type, and derives its
    /// public key.
    pub fn from_raw_key(raw_key: Vec<u8>, coin_type: u32) -> (key: Result<PrivateKey, DaemonError>)
        ensures
            key_result(key) == key_of_raw(raw_key@, coin_type),
    {
        match derive_public_key(raw_key.as_slice()) {
            Ok(public_key) => Ok(PrivateKey { coin_type, raw_key, public_key }),
            Err(_) => Err(DaemonError::InvalidKey),
        }
    }

    /// Derives the key of the given account and index from a mnemonic
    /// phrase.
    pub fn from_words(words: &str, account: u32, index: u32, coin_type: u32) -> (key: Result<
        PrivateKey,
        DaemonError,
    >)
        ensures
            key_result(key) == key_of_words(words@, account, index, coin_type),
    {
        let seed = match seed_of_mnemonic(words) {
            Ok(seed) => seed,
            Err(_) => {
                return Err(DaemonError::InvalidMnemonic);
            },
        };
        let path = derivation_path_text(coin_type, account, index);
        match derive_key(seed.as_slice(), path.as_str()) {
            Ok(raw_key) => PrivateKey::from_raw_key(raw_key, coin_type),
            Err(_) => Err(DaemonError::InvalidKey),
        }
    }

    /// The coin type that the key was derived for.
    pub fn coin_type(&self) -> (coin_type: u32)
        ensures
            coin_type == self@.coin_type,
    {
        self.coin_type
    }

    /// The scheme by which the key signs.
    pub fn scheme(&self) -> (scheme: SigningScheme)
        ensures
            scheme == scheme_for(self@.coin_type),
    {
        scheme_of(self.coin_type)
    }

    /// The raw private key.
    pub fn raw_key(&self) -> (raw_key: &Vec<u8>)
        ensures
            raw_key@ == self@.raw_key,
    {
        &self.raw_key
    }

    /// The public key, as derived when the key was made.
    pub fn public_key(&self) -> (public_key: &Vec<u8>)
        ensures
            public_key@ == self@.public_key,
            public_key_bytes(self@.raw_key) == Some(self@.public_key),
    {
        proof {
            use_type_invariant(self);
        }
        &self.public_key
    }
}

} // verus!
