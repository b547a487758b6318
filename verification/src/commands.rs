use vstd::prelude::*;
use crate::text::{concat_text, same_text, trim, trimmed};

verus! {

/// A request sent to the wallet backend.
pub struct WSCommand {
    pub command: String,
    pub wallet: Option<String>,
    pub recipient: Option<String>,
    pub amount: Option<String>,
    pub passphrase: Option<String>,
    pub seed: Option<String>,
    pub bip39: Option<String>,
    pub trustline_limit: Option<u64>,
    pub fee: Option<String>,
    pub tx_type: Option<String>,
    pub taker_pays: Option<(String, String)>,
    pub taker_gets: Option<(String, String)>,
    pub flags: Option<Vec<String>>,
    pub wallet_type: Option<String>,
}

/// The credentials sent with a signed request, by the mode the user chose: in passphrase
/// mode the passphrase unless it is empty, in seed mode the mnemonic unless it is blank,
/// in any other mode neither. At most one is ever sent.
pub open spec fn chosen_credentials(mode: Seq<char>, passphrase: Seq<char>, mnemonic: Seq<char>) -> (Option<Seq<char>>, Option<Seq<char>>) {
    if mode == "passphrase"@ {
        (if passphrase.len() == 0 { None } else { Some(passphrase) }, None)
    } else if mode == "seed"@ {
        (None, if trimmed(mnemonic).len() == 0 { None } else { Some(mnemonic) })
    } else {
        (None, None)
    }
}

/// The BIP39 passphrase sent with a request: none if it is blank.
pub open spec fn chosen_bip39(bip39_pass: Seq<char>) -> Option<Seq<char>> {
    if trimmed(bip39_pass).len() == 0 {
        None
    } else {
        Some(bip39_pass)
    }
}

/// Picks the passphrase or the mnemonic to send, by mode.
pub fn select_credentials(mode: &str, passphrase: String, mnemonic: String) -> (r: (Option<String>, Option<String>))
    ensures
        (r.0.deep_view(), r.1.deep_view()) == chosen_credentials(mode@, passphrase@, mnemonic@),
{
    if same_text(mode, "passphrase") {
        let p = if passphrase.as_str().is_empty() { None } else { Some(passphrase) };
        (p, None)
    } else if same_text(mode, "seed") {
        let s = if trim(mnemonic.as_str()).as_str().is_empty() { None } else { Some(mnemonic) };
        (None, s)
    } else {
        (None, None)
    }
}

/// The BIP39 passphrase to send, if it is not blank.
pub fn select_bip39(bip39_pass: String) -> (r: Option<String>)
    ensures
        r.deep_view() == chosen_bip39(bip39_pass@),
{
    if trim(bip39_pass.as_str()).as_str().is_empty() {
        None
    } else {
        Some(bip39_pass)
    }
}

/// Whether `c` names the command `command` and the wallet `wallet`, and nothing else.
pub open spec fn only_command_and_wallet(c: WSCommand, command: Seq<char>, wallet: Seq<char>) -> bool {
    &&& c.command@ == command
    &&& c.wallet.deep_view() == Some(wallet)
    &&& c.recipient is None && c.amount is None && c.passphrase is None && c.seed is None
    &&& c.bip39 is None && c.trustline_limit is None && c.fee is None && c.tx_type is None
    &&& c.taker_pays is None && c.taker_gets is None && c.flags is None && c.wallet_type is None
}

/// A request that names only a command and a wallet.
pub fn wallet_command(command: &str, wallet: String) -> (c: WSCommand)
    ensures
        only_command_and_wallet(c, command@, wallet@),
{
    WSCommand {
        command: command.to_owned(),
        wallet: Some(wallet),
        recipient: None,
        amount: None,
        passphrase: None,
        seed: None,
        bip39: None,
        trustline_limit: None,
        fee: None,
        tx_type: None,
        taker_pays: None,
        taker_gets: None,
        flags: None,
        wallet_type: None,
    }
}

/// The progress message shown when a request could not be handed to the backend.
pub fn dispatch_error_message(error: &str) -> (m: String)
    ensures
        m@ == "Dispatch Error: "@ + error@,
{
    concat_text("Dispatch Error: ", error)
}

/// Two credentials are never sent together.
pub proof fn law_credentials_exclusive(mode: Seq<char>, passphrase: Seq<char>, mnemonic: Seq<char>)
    ensures
        !(chosen_credentials(mode, passphrase, mnemonic).0 is Some && chosen_credentials(mode, passphrase, mnemonic).1 is Some),
        chosen_credentials(mode, passphrase, mnemonic).0 is Some ==> mode == "passphrase"@,
        chosen_credentials(mode, passphrase, mnemonic).1 is Some ==> mode == "seed"@,
{
}

} // verus!
