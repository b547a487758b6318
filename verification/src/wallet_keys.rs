use vstd::prelude::*;
use bip39::{Language, Mnemonic};
use rand::RngCore;
use ripple_address_codec::{encode_seed, Ed25519};
use zeroize::Zeroize;
use crate::import_buffers::XRPImport;
use crate::logic::XRPImportLogic;
use crate::text::concat_text;

verus! {

/// The 64-byte BIP39 seed of an English recovery phrase under a passphrase, or, if the phrase
/// is not a valid English BIP39 mnemonic, the text of bip39's error saying why.
pub uninterp spec fn bip39_english_seed(phrase: Seq<char>, passphrase: Seq<char>) -> Result<Seq<u8>, Seq<char>>;

/// The XRP Ledger seed text (base58, Ed25519 prefix) that encodes 16 bytes of entropy.
pub uninterp spec fn ed25519_seed_text(entropy: Seq<u8>) -> Seq<char>;

/// The English recovery phrase (words separated by single spaces) of some entropy.
pub uninterp spec fn english_mnemonic_phrase(entropy: Seq<u8>) -> Seq<char>;

/// `bip39::Mnemonic::parse_in(Language::English, phrase)` followed by `Mnemonic::to_seed`
/// with the passphrase (PBKDF2 over the normalized words). On a refusal the `Display` text
/// of bip39's error is returned. Seed and error text are only named; what is claimed beyond
/// the name is the seed's length of 64 bytes, which the crate's signature fixes.
#[verifier::external_body]
fn english_mnemonic_seed(phrase: &str, passphrase: &str) -> (r: Result<Vec<u8>, String>)
    ensures
        match r {
            Ok(seed) => bip39_english_seed(phrase@, passphrase@) == Ok::<Seq<u8>, Seq<char>>(seed@) && seed@.len() == 64,
            Err(e) => bip39_english_seed(phrase@, passphrase@) == Err::<Seq<u8>, Seq<char>>(e@),
        },
{
    match Mnemonic::parse_in(Language::English, phrase) {
        Ok(m) => Ok(m.to_seed(passphrase).to_vec()),
        Err(e) => Err(e.to_string()),
    }
}

/// `ripple_address_codec::encode_seed(entropy, &Ed25519)`: the base58check text of the
/// entropy behind the Ed25519 seed prefix. Only named here.
#[verifier::external_body]
fn encode_ed25519_seed(entropy: &Vec<u8>) -> (r: String)
    requires
        entropy@.len() == 16,
    ensures
        r@ == ed25519_seed_text(entropy@),
{
    let bytes: [u8; 16] = entropy.as_slice().try_into().unwrap();
    encode_seed(&bytes, &Ed25519)
}

/// `bip39::Mnemonic::from_entropy_in(Language::English, entropy)` written out with the
/// mnemonic's `Display` impl (the words joined by single spaces). The crate accepts 32
/// bytes of entropy (256 bits, a multiple of 32 bits), so the call cannot fail here.
#[verifier::external_body]
fn english_phrase_from_entropy(entropy: &Vec<u8>) -> (r: String)
    requires
        entropy@.len() == 32,
    ensures
        r@ == english_mnemonic_phrase(entropy@),
{
    Mnemonic::from_entropy_in(Language::English, entropy.as_slice()).unwrap().to_string()
}

/// 32 bytes from `rand::rng()` (the thread-local generator) via `RngCore::fill_bytes`.
/// The bytes are random; only their number is claimed.
#[verifier::external_body]
fn random_entropy() -> (r: Vec<u8>)
    ensures
        r@.len() == 32,
{
    let mut entropy = [0u8; 32];
    rand::rng().fill_bytes(&mut entropy);
    entropy.to_vec()
}

/// Wipes a byte buffer with `<Vec<u8> as zeroize::Zeroize>::zeroize`, which overwrites the
/// bytes with zeros and clears the vector; what is claimed is that it ends up empty.
#[verifier::external_body]
fn wipe_bytes(b: &mut Vec<u8>)
    ensures
        final(b)@ == Seq::<u8>::empty(),
{
    b.zeroize();
}

/// The seed text an imported recovery phrase gives: the first 16 bytes of its BIP39 seed,
/// encoded as an Ed25519 XRP Ledger seed; or, for a phrase that is not a valid mnemonic,
/// "Invalid mnemonic: " and bip39's reason.
pub open spec fn imported_seed_text(phrase: Seq<char>, passphrase: Seq<char>) -> Result<Seq<char>, Seq<char>> {
    match bip39_english_seed(phrase, passphrase) {
        Ok(seed) => Ok(ed25519_seed_text(seed.subrange(0, 16))),
        Err(e) => Err("Invalid mnemonic: "@ + e),
    }
}

impl XRPImportLogic {
    /// Turns an English recovery phrase and its BIP39 passphrase into the XRP Ledger seed
    /// of the wallet: the first 16 bytes of the BIP39 seed, Ed25519-encoded. A phrase that
    /// is not a valid mnemonic is refused with "Invalid mnemonic: " and the reason.
    pub fn derive_seed(mnemonic_phrase: &str, bip39_pass: &str) -> (r: Result<String, String>)
        ensures
            match r {
                Ok(s) => imported_seed_text(mnemonic_phrase@, bip39_pass@) == Ok::<Seq<char>, Seq<char>>(s@),
                Err(e) => imported_seed_text(mnemonic_phrase@, bip39_pass@) == Err::<Seq<char>, Seq<char>>(e@),
            },
    {
        match english_mnemonic_seed(mnemonic_phrase, bip39_pass) {
            Ok(mut seed) => {
                let mut entropy: Vec<u8> = Vec::new();
                let mut i: usize = 0;
                while i < 16
                    invariant
                        seed@.len() == 64,
                        0 <= i <= 16,
                        entropy@ == seed@.subrange(0, i as int),
                    decreases 16 - i,
                {
                    entropy.push(seed[i]);
                    i = i + 1;
                    assert(entropy@ =~= seed@.subrange(0, i as int));
                }
                let text = encode_ed25519_seed(&entropy);
                wipe_bytes(&mut entropy);
                wipe_bytes(&mut seed);
                Ok(text)
            },
            Err(e) => {
                let msg = concat_text("Invalid mnemonic: ", e.as_str());
                Err(msg)
            },
        }
    }

    /// A fresh recovery phrase for a new wallet: 24 English words from 32 random bytes.
    pub fn new_mnemonic() -> (r: String)
        ensures
            exists|entropy: Seq<u8>| entropy.len() == 32 && r@ == english_mnemonic_phrase(entropy),
    {
        let entropy = random_entropy();
        english_phrase_from_entropy(&entropy)
    }
}

impl XRPImport {
    /// The create-wallet dialog at its first step, showing a fresh recovery phrase.
    pub fn new_wallet() -> (r: Self)
        ensures
            r.step == 1 && r.error is None && !r.done && r.buffer_id is None,
            r.seed matches Some(s) && exists|entropy: Seq<u8>| entropy.len() == 32 && s@ == english_mnemonic_phrase(entropy),
    {
        XRPImport { step: 1, seed: Some(XRPImportLogic::new_mnemonic()), error: None, done: false, buffer_id: None }
    }

    /// The import dialog at its first step.
    pub fn new_import() -> (r: Self)
        ensures
            r.step == 1 && r.seed is None && r.error is None && !r.done && r.buffer_id is None,
    {
        XRPImport { step: 1, seed: None, error: None, done: false, buffer_id: None }
    }
}

} // verus!
