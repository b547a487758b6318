use vstd::prelude::*;
use crate::wipe::wipe_string;
use crate::text::{
    append_text, byte_len, chars_of, concat_text, lemma_byte_len_trimmed, lemma_encode_concat, same_text, starts_with_char,
    string_from_chars, trim, trimmed,
};

verus! {

/// Why a form entry was refused.
#[derive(PartialEq, Eq, Debug, Structural)]
pub enum FormError {
    RecipientRequired,
    InvalidAddressFormat,
    InvalidSeedFormat,
    SeedEmpty,
    PassphraseTooShort,
    AmountEmpty,
    AmountNotPositive,
    InvalidAmountFormat,
}

impl FormError {
    /// The text shown for the refusal.
    pub open spec fn spec_message(&self) -> Seq<char> {
        match self {
            FormError::RecipientRequired => "ERR: RECIPIENT_REQUIRED"@,
            FormError::InvalidAddressFormat => "ERR: INVALID_XRP_ADDR_FORMAT"@,
            FormError::InvalidSeedFormat => "Invalid seed format. Must start with 's' and be at least 29 characters."@,
            FormError::SeedEmpty => "Seed cannot be empty."@,
            FormError::PassphraseTooShort => "Passphrase must be at least 6 characters."@,
            FormError::AmountEmpty => "Amount cannot be empty."@,
            FormError::AmountNotPositive => "Amount must be greater than zero."@,
            FormError::InvalidAmountFormat => "Invalid amount format."@,
        }
    }

    /// The text shown for the refusal.
    pub fn message(&self) -> (r: String)
        ensures
            r@ == self.spec_message(),
    {
        match self {
            FormError::RecipientRequired => "ERR: RECIPIENT_REQUIRED".to_owned(),
            FormError::InvalidAddressFormat => "ERR: INVALID_XRP_ADDR_FORMAT".to_owned(),
            FormError::InvalidSeedFormat => "Invalid seed format. Must start with 's' and be at least 29 characters.".to_owned(),
            FormError::SeedEmpty => "Seed cannot be empty.".to_owned(),
            FormError::PassphraseTooShort => "Passphrase must be at least 6 characters.".to_owned(),
            FormError::AmountEmpty => "Amount cannot be empty.".to_owned(),
            FormError::AmountNotPositive => "Amount must be greater than zero.".to_owned(),
            FormError::InvalidAmountFormat => "Invalid amount format.".to_owned(),
        }
    }
}

/// A text with every line feed and carriage return taken out.
pub open spec fn without_line_breaks(s: Seq<char>) -> Seq<char>
    decreases s.len(),
{
    if s.len() == 0 {
        s
    } else if s.last() == '\n' || s.last() == '\r' {
        without_line_breaks(s.drop_last())
    } else {
        without_line_breaks(s.drop_last()).push(s.last())
    }
}

proof fn lemma_byte_len_without_line_breaks(s: Seq<char>)
    ensures
        byte_len(without_line_breaks(s)) <= byte_len(s),
    decreases s.len(),
{
    if s.len() > 0 {
        let d = s.drop_last();
        lemma_byte_len_without_line_breaks(d);
        lemma_encode_concat(d, seq![s.last()]);
        assert(d + seq![s.last()] =~= s);
        lemma_encode_concat(without_line_breaks(d), seq![s.last()]);
        assert(without_line_breaks(d) + seq![s.last()] =~= without_line_breaks(d).push(s.last()));
    }
}

/// `s` with every line feed and carriage return taken out.
pub fn strip_line_breaks(s: &str) -> (r: String)
    ensures
        r@ == without_line_breaks(s@),
{
    let cs = chars_of(s);
    let mut kept: Vec<char> = Vec::new();
    let mut i: usize = 0;
    while i < cs.len()
        invariant
            cs@ == s@,
            0 <= i <= cs@.len(),
            kept@ == without_line_breaks(s@.subrange(0, i as int)),
        decreases cs@.len() - i,
    {
        let c = cs[i];
        proof {
            assert(s@.subrange(0, i + 1).drop_last() =~= s@.subrange(0, i as int));
        }
        if c != '\n' && c != '\r' {
            kept.push(c);
        }
        i = i + 1;
    }
    assert(s@.subrange(0, cs@.len() as int) =~= s@);
    string_from_chars(&kept)
}

/// The outcome of checking a recipient entry: the cleaned address, or the refusal.
pub open spec fn recipient_check(input: Seq<char>) -> Result<Seq<char>, FormError> {
    let addr = trimmed(without_line_breaks(input));
    if addr.len() == 0 {
        Err(FormError::RecipientRequired)
    } else if addr[0] != 'r' || byte_len(addr) < 25 || byte_len(addr) > 35 {
        Err(FormError::InvalidAddressFormat)
    } else {
        Ok(addr)
    }
}

/// Checks a recipient entry: line breaks are dropped, surrounding white space is trimmed,
/// and what remains must start with `r` and be 25 to 35 bytes long.
pub fn check_recipient(input: &str) -> (r: Result<String, FormError>)
    requires
        byte_len(input@) <= usize::MAX,
    ensures
        match (r, recipient_check(input@)) {
            (Ok(a), Ok(b)) => a@ == b,
            (Err(e), Err(f)) => e == f,
            _ => false,
        },
{
    let clean = strip_line_breaks(input);
    let addr = trim(clean.as_str());
    proof {
        lemma_byte_len_without_line_breaks(input@);
        lemma_byte_len_trimmed(clean@);
    }
    if addr.as_str().is_empty() {
        Err(FormError::RecipientRequired)
    } else if !starts_with_char(addr.as_str(), 'r') || addr.as_str().len() < 25 || addr.as_str().len() > 35 {
        Err(FormError::InvalidAddressFormat)
    } else {
        Ok(addr)
    }
}

/// Whether an imported seed entry is acceptable: trimmed, it starts with `s` and is at
/// least 29 bytes long.
pub open spec fn seed_format_ok(seed: Seq<char>) -> bool {
    let t = trimmed(seed);
    !(byte_len(t) < 29 || t.len() == 0 || t[0] != 's')
}

/// Checks the seed entered in the first import step.
pub fn check_seed_format(seed: &str) -> (r: Result<(), FormError>)
    requires
        byte_len(seed@) <= usize::MAX,
    ensures
        r is Ok <==> seed_format_ok(seed@),
        r matches Err(e) ==> e == FormError::InvalidSeedFormat,
{
    let t = trim(seed);
    proof {
        lemma_byte_len_trimmed(seed@);
    }
    if t.as_str().len() < 29 || !starts_with_char(t.as_str(), 's') {
        Err(FormError::InvalidSeedFormat)
    } else {
        Ok(())
    }
}

/// Checks the seed at the second import step: it must not be blank. Gives the trimmed seed.
pub fn check_seed_present(seed: &str) -> (r: Result<String, FormError>)
    ensures
        match r {
            Ok(s) => s@ == trimmed(seed@) && s@.len() > 0,
            Err(e) => e == FormError::SeedEmpty && trimmed(seed@).len() == 0,
        },
{
    let t = trim(seed);
    if t.as_str().is_empty() {
        Err(FormError::SeedEmpty)
    } else {
        Ok(t)
    }
}

/// Checks the passphrase chosen when creating a wallet: trimmed, it must be at least 6
/// bytes long. Gives the trimmed passphrase.
pub fn check_new_passphrase(passphrase: &str) -> (r: Result<String, FormError>)
    requires
        byte_len(passphrase@) <= usize::MAX,
    ensures
        match r {
            Ok(p) => p@ == trimmed(passphrase@) && byte_len(p@) >= 6,
            Err(e) => e == FormError::PassphraseTooShort && byte_len(trimmed(passphrase@)) < 6,
        },
{
    let mut t = trim(passphrase);
    proof {
        lemma_byte_len_trimmed(passphrase@);
    }
    if t.as_str().len() < 6 {
        wipe_string(&mut t);
        Err(FormError::PassphraseTooShort)
    } else {
        Ok(t)
    }
}

/// How an amount entry reads as a number (decided by `f64` parsing, outside this library).
#[derive(PartialEq, Eq, Debug, Structural)]
pub enum AmountReading {
    NotANumber,
    NotPositive,
    Positive,
}

/// The outcome of the amount check of a send form.
pub open spec fn amount_check(amount: Seq<char>, reading: AmountReading) -> Result<(), FormError> {
    if trimmed(amount).len() == 0 {
        Err(FormError::AmountEmpty)
    } else {
        match reading {
            AmountReading::NotANumber => Err(FormError::InvalidAmountFormat),
            AmountReading::NotPositive => Err(FormError::AmountNotPositive),
            AmountReading::Positive => Ok(()),
        }
    }
}

/// Checks the amount of a send form: it must not be blank, must read as a number, and the
/// number must be above zero. `reading` is how the trimmed entry parses.
pub fn check_send_amount(amount: &str, reading: AmountReading) -> (r: Result<(), FormError>)
    ensures
        r == amount_check(amount@, reading),
{
    let t = trim(amount);
    if t.as_str().is_empty() {
        Err(FormError::AmountEmpty)
    } else {
        match reading {
            AmountReading::NotANumber => Err(FormError::InvalidAmountFormat),
            AmountReading::NotPositive => Err(FormError::AmountNotPositive),
            AmountReading::Positive => Ok(()),
        }
    }
}

/// The whole XRP kept back when sending an asset: the 1 XRP account reserve when sending
/// XRP itself, nothing when sending a token.
pub open spec fn spec_send_reserve(asset: Seq<char>) -> u8 {
    if asset == "XRP"@ { 1 } else { 0 }
}

/// The whole XRP kept back when sending `asset`.
pub fn send_reserve(asset: &str) -> (r: u8)
    ensures
        r == spec_send_reserve(asset@),
{
    if same_text(asset, "XRP") { 1 } else { 0 }
}

/// The refusal of a positive amount above what can be spent: for XRP it names the reserve;
/// for a token it gives what is available (as the caller formatted it) and the token's label.
pub open spec fn insufficient_funds_text(asset: Seq<char>, available: Seq<char>, asset_label: Seq<char>) -> Seq<char> {
    if asset == "XRP"@ {
        "Insufficient funds: 1 XRP reserve required."@
    } else {
        "Insufficient funds: "@ + available + " "@ + asset_label + " available."@
    }
}

/// Checks that a positive amount can be spent; `exceeds` tells whether it is above the
/// balance less the reserve of `asset`.
pub fn check_spendable(exceeds: bool, asset: &str, available: &str, asset_label: &str) -> (r: Result<(), String>)
    ensures
        match r {
            Ok(()) => !exceeds,
            Err(m) => exceeds && m@ == insufficient_funds_text(asset@, available@, asset_label@),
        },
{
    if !exceeds {
        return Ok(());
    }
    if same_text(asset, "XRP") {
        Err("Insufficient funds: 1 XRP reserve required.".to_owned())
    } else {
        let mut m = concat_text("Insufficient funds: ", available);
        append_text(&mut m, " ");
        append_text(&mut m, asset_label);
        append_text(&mut m, " available.");
        Err(m)
    }
}

/// Whether a PIN change may be sent: old and new PIN given, and the new one confirmed.
pub fn pin_change_ready(old_pin: &str, new_pin: &str, confirm_pin: &str) -> (r: bool)
    ensures
        r == (new_pin@.len() > 0 && old_pin@.len() > 0 && new_pin@ == confirm_pin@),
{
    if new_pin.is_empty() || old_pin.is_empty() {
        return false;
    }
    crate::text::same_text(new_pin, confirm_pin)
}

/// The name to save from the name field: the trimmed entry, unless it is blank.
pub fn name_to_save(input: &str) -> (r: Option<String>)
    ensures
        match r {
            Some(n) => n@ == trimmed(input@) && n@.len() > 0,
            None => trimmed(input@).len() == 0,
        },
{
    let t = trim(input);
    if t.as_str().is_empty() {
        None
    } else {
        Some(t)
    }
}

/// A seed entry is accepted exactly when, trimmed, it starts with `s` and is at least 29
/// bytes long, whatever else it holds (a secp256k1 family seed as much as an Ed25519 one).
pub proof fn law_seed_format_exact(seed: Seq<char>)
    ensures
        seed_format_ok(seed) <==> (trimmed(seed).len() > 0 && trimmed(seed)[0] == 's' && byte_len(trimmed(seed)) >= 29),
{
}

/// Only XRP keeps a reserve back when sent: 1 XRP for XRP, nothing for any other asset.
pub proof fn law_reserve_only_for_xrp(asset: Seq<char>)
    ensures
        asset == "XRP"@ ==> spec_send_reserve(asset) == 1,
        asset != "XRP"@ ==> spec_send_reserve(asset) == 0,
{
}

} // verus!
