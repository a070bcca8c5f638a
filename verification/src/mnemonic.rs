use vstd::prelude::*;
use std::str::FromStr;
use crate::error::{text_option_view, text_result_view, WalletError};

verus! {

/// Number of words in a freshly generated phrase.
pub const GENERATED_WORD_COUNT: usize = 12;

/// Passphrase that every seed is stretched with: none.
pub const PASSPHRASE: &'static str = "";

/// The entropy that a mnemonic phrase encodes; `None` where the phrase has
/// a wrong number of words, a word outside the list or a wrong checksum.
pub uninterp spec fn spec_mnemonic_entropy(phrase: Seq<char>) -> Option<Seq<u8>>;

/// The 64-byte seed of the mnemonic with this entropy under a passphrase;
/// `None` where no mnemonic has an entropy of this length.
pub uninterp spec fn spec_mnemonic_seed(entropy: Seq<u8>, passphrase: Seq<char>) -> Option<
    Seq<u8>,
>;

/// The entropy lengths, in bytes, that a mnemonic can encode.
pub open spec fn spec_valid_entropy_len(n: nat) -> bool {
    n == 16 || n == 20 || n == 24 || n == 28 || n == 32
}

/// The number of words that encode `n` bytes of entropy: three words for
/// every four bytes.
pub open spec fn spec_word_count(n: nat) -> int {
    (n / 4) as int * 3
}

/// A validated mnemonic, held as the entropy it encodes.
#[derive(Debug, Clone, PartialEq, Eq)]
pub struct Mnemonic {
    pub entropy: Vec<u8>,
}

impl View for Mnemonic {
    type V = Seq<u8>;

    open spec fn view(&self) -> Seq<u8> {
        self.entropy@
    }
}

/// What parsing a phrase yields: its entropy, or `InvalidMnemonic`.
pub open spec fn spec_parse_mnemonic(phrase: Seq<char>) -> Result<Seq<u8>, WalletError> {
    match spec_mnemonic_entropy(phrase) {
        Some(entropy) => if spec_valid_entropy_len(entropy.len()) {
            Ok(entropy)
        } else {
            Err(WalletError::InvalidMnemonic)
        },
        None => Err(WalletError::InvalidMnemonic),
    }
}

/// What a generated phrase is accepted as: itself, if it parses to an
/// entropy that `words` words encode.
pub open spec fn spec_accept_generated(phrase: Option<Seq<char>>, words: usize) -> Result<
    Seq<char>,
    WalletError,
> {
    match phrase {
        Some(p) => match spec_parse_mnemonic(p) {
            Ok(entropy) => if spec_word_count(entropy.len()) == words {
                Ok(p)
            } else {
                Err(WalletError::MnemonicGenerationFailed)
            },
            Err(_) => Err(WalletError::MnemonicGenerationFailed),
        },
        None => Err(WalletError::MnemonicGenerationFailed),
    }
}

/// The model of a parse result.
pub open spec fn mnemonic_result_view(r: Result<Mnemonic, WalletError>) -> Result<
    Seq<u8>,
    WalletError,
> {
    match r {
        Ok(m) => Ok(m@),
        Err(e) => Err(e),
    }
}

/// Parses a phrase with `bip39::Mnemonic::from_str` and hands out its
/// entropy with `Mnemonic::to_entropy`.
/// Assumed without proof: the outcome is [`spec_mnemonic_entropy`] of the
/// phrase.
#[verifier::external_body]
fn mnemonic_entropy(phrase: &str) -> (r: Option<Vec<u8>>)
    ensures
        match r {
            Some(entropy) => spec_mnemonic_entropy(phrase@) == Some(entropy@),
            None => spec_mnemonic_entropy(phrase@) is None,
        },
{
    bip39::Mnemonic::from_str(phrase).ok().map(|m| m.to_entropy())
}

/// Rebuilds the mnemonic with `bip39::Mnemonic::from_entropy` and stretches
/// it with `Mnemonic::to_seed`.
/// Assumed without proof: the outcome is [`spec_mnemonic_seed`] of entropy
/// and passphrase.
#[verifier::external_body]
fn seed_from_entropy(entropy: &[u8], passphrase: &str) -> (r: Option<[u8; 64]>)
    ensures
        match r {
            Some(seed) => spec_mnemonic_seed(entropy@, passphrase@) == Some(seed@),
            None => spec_mnemonic_seed(entropy@, passphrase@) is None,
        },
{
    bip39::Mnemonic::from_entropy(entropy).ok().map(|m| m.to_seed(passphrase))
}

/// Draws a phrase of `words` English words with
/// `bip39::Mnemonic::generate_in`, which takes its entropy from the
/// thread's random generator, and writes it out with the `Display` of
/// `Mnemonic`.  Nothing is promised of the outcome.
#[verifier::external_body]
fn random_phrase(words: usize) -> (r: Option<String>) {
    bip39::Mnemonic::generate_in(bip39::Language::English, words).ok().map(|m| m.to_string())
}

/// Whether a mnemonic can encode `n` bytes of entropy.
pub fn valid_entropy_len(n: usize) -> (r: bool)
    ensures
        r == spec_valid_entropy_len(n as nat),
{
    n == 16 || n == 20 || n == 24 || n == 28 || n == 32
}

/// Validates a phrase: word count, word-list membership and checksum.
pub fn parse_mnemonic_internal(phrase: &str) -> (r: Result<Mnemonic, WalletError>)
    ensures
        mnemonic_result_view(r) == spec_parse_mnemonic(phrase@),
{
    match mnemonic_entropy(phrase) {
        Some(entropy) => {
            if valid_entropy_len(entropy.len()) {
                Ok(Mnemonic { entropy })
            } else {
                Err(WalletError::InvalidMnemonic)
            }
        },
        None => Err(WalletError::InvalidMnemonic),
    }
}

impl Mnemonic {
    /// The seed of this mnemonic under the empty passphrase.
    pub fn to_seed(&self) -> (r: Option<[u8; 64]>)
        ensures
            match r {
                Some(seed) => spec_mnemonic_seed(self@, PASSPHRASE@) == Some(seed@),
                None => spec_mnemonic_seed(self@, PASSPHRASE@) is None,
            },
    {
        seed_from_entropy(self.entropy.as_slice(), PASSPHRASE)
    }
}

/// Accepts a generated phrase only if it is a valid mnemonic of `words`
/// words, so that what is handed out can always be parsed again.
pub fn accept_generated(phrase: Option<String>, words: usize) -> (r: Result<String, WalletError>)
    ensures
        text_result_view(r) == spec_accept_generated(text_option_view(phrase), words),
{
    match phrase {
        Some(p) => match parse_mnemonic_internal(p.as_str()) {
            Ok(m) => {
                if m.entropy.len() / 4 * 3 == words {
                    Ok(p)
                } else {
                    Err(WalletError::MnemonicGenerationFailed)
                }
            },
            Err(_) => Err(WalletError::MnemonicGenerationFailed),
        },
        None => Err(WalletError::MnemonicGenerationFailed),
    }
}

/// Produces a fresh 12-word mnemonic phrase from the system's randomness.
///
/// Which phrase comes out is not determined; whatever comes out is a
/// phrase of 12 words that parses to 16 bytes of entropy.
pub fn generate_mnemonic() -> (r: Result<String, WalletError>)
    ensures
        match r {
            Ok(p) => spec_parse_mnemonic(p@) is Ok && spec_parse_mnemonic(p@).unwrap().len() == 16
                && spec_word_count(spec_parse_mnemonic(p@).unwrap().len()) == 12,
            Err(e) => e == WalletError::MnemonicGenerationFailed,
        },
{
    accept_generated(random_phrase(GENERATED_WORD_COUNT), GENERATED_WORD_COUNT)
}

} // verus!
