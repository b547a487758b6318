use vstd::prelude::*;
use crate::commands::{
    chosen_bip39, chosen_credentials, only_command_and_wallet, select_bip39, select_credentials, wallet_command, WSCommand,
};
use crate::text::concat_text;

verus! {

/// Sends payments.
pub struct XRPSendLogic;

/// Places offers on the order book.
pub struct TradeLogic;

/// Imports a wallet from its recovery phrase.
pub struct XRPImportLogic;

/// Deletes wallet keys and wallets.
pub struct WalletOperations;

/// What became of the encrypted key file when a key was deleted.
pub enum KeyFileRemoval {
    /// The storage folder could not be found; nothing was tried.
    Unlocated,
    /// There was no key file.
    Missing,
    /// The key file was removed.
    Removed,
    /// The key file could not be removed, for the given reason.
    Failed(String),
}

/// Changes the PIN from the side bar.
pub struct PinLogic;

/// Saves the display name.
pub struct NameLogic;

impl XRPSendLogic {
    /// The payment request: the recipient, amount, wallet and asset as given, and the
    /// credential and BIP39 passphrase that the mode calls for.
    pub fn build_command(
        mode: &str,
        passphrase: String,
        mnemonic: String,
        bip39_pass: String,
        recipient: String,
        amount: String,
        wallet_address: String,
        asset: String,
    ) -> (c: WSCommand)
        ensures
            c.command@ == "submit_transaction"@,
            c.wallet.deep_view() == Some(wallet_address@),
            c.recipient.deep_view() == Some(recipient@),
            c.amount.deep_view() == Some(amount@),
            (c.passphrase.deep_view(), c.seed.deep_view()) == chosen_credentials(mode@, passphrase@, mnemonic@),
            c.bip39.deep_view() == chosen_bip39(bip39_pass@),
            c.trustline_limit is None && c.fee is None,
            c.tx_type.deep_view() == Some("payment"@),
            c.taker_pays is None && c.taker_gets is None && c.flags is None,
            c.wallet_type.deep_view() == Some(asset@),
    {
        let bip39 = select_bip39(bip39_pass);
        let (passphrase, seed) = select_credentials(mode, passphrase, mnemonic);
        WSCommand {
            command: "submit_transaction".to_owned(),
            wallet: Some(wallet_address),
            recipient: Some(recipient),
            amount: Some(amount),
            passphrase,
            seed,
            bip39,
            trustline_limit: None,
            fee: None,
            tx_type: Some("payment".to_owned()),
            taker_pays: None,
            taker_gets: None,
            flags: None,
            wallet_type: Some(asset),
        }
    }
}

impl TradeLogic {
    /// The offer request: the taker pays `amount` of the base asset and gets
    /// `offer_amount` (amount times limit price) of the quote asset, with the chosen
    /// flags, credential and BIP39 passphrase.
    pub fn build_command(
        mode: &str,
        passphrase: String,
        mnemonic: String,
        bip39_pass: String,
        base_asset: String,
        quote_asset: String,
        amount: String,
        offer_amount: String,
        flags: Vec<String>,
        wallet_address: String,
    ) -> (c: WSCommand)
        ensures
            c.command@ == "submit_transaction"@,
            c.wallet.deep_view() == Some(wallet_address@),
            c.recipient is None && c.amount is None,
            (c.passphrase.deep_view(), c.seed.deep_view()) == chosen_credentials(mode@, passphrase@, mnemonic@),
            c.bip39.deep_view() == chosen_bip39(bip39_pass@),
            c.trustline_limit is None && c.fee is None,
            c.tx_type.deep_view() == Some("offer_create"@),
            c.taker_pays.deep_view() == Some((amount@, base_asset@)),
            c.taker_gets.deep_view() == Some((offer_amount@, quote_asset@)),
            c.flags.deep_view() == Some(flags.deep_view()),
            c.wallet_type is None,
    {
        let bip39 = select_bip39(bip39_pass);
        let (passphrase, seed) = select_credentials(mode, passphrase, mnemonic);
        WSCommand {
            command: "submit_transaction".to_owned(),
            wallet: Some(wallet_address),
            recipient: None,
            amount: None,
            passphrase,
            seed,
            bip39,
            trustline_limit: None,
            fee: None,
            tx_type: Some("offer_create".to_owned()),
            taker_pays: Some((amount, base_asset)),
            taker_gets: Some((offer_amount, quote_asset)),
            flags: Some(flags),
            wallet_type: None,
        }
    }
}

impl XRPImportLogic {
    /// The request that registers an imported wallet with the backend.
    pub fn import_command(address: String) -> (c: WSCommand)
        ensures
            only_command_and_wallet(c, "import_wallet"@, address@),
    {
        wallet_command("import_wallet", address)
    }
}

impl WalletOperations {
    /// The request that tells the backend a wallet was removed.
    pub fn remove_command(wallet_address: String) -> (c: WSCommand)
        ensures
            only_command_and_wallet(c, "delete_wallet"@, wallet_address@),
    {
        wallet_command("delete_wallet", wallet_address)
    }

    /// The progress note after trying to remove the encrypted key file: a warning with the
    /// reason if it could not be removed, a note if it was already gone, nothing otherwise.
    pub fn key_file_note(removal: &KeyFileRemoval) -> (m: Option<String>)
        ensures
            m.deep_view() == match removal {
                KeyFileRemoval::Failed(e) => Some("Warning: Could not delete encrypted file: "@ + e@),
                KeyFileRemoval::Missing => Some("XRP key already removed from storage."@),
                _ => None::<Seq<char>>,
            },
    {
        match removal {
            KeyFileRemoval::Failed(e) => Some(concat_text("Warning: Could not delete encrypted file: ", e.as_str())),
            KeyFileRemoval::Missing => Some("XRP key already removed from storage.".to_owned()),
            _ => None,
        }
    }

    /// The closing message of a key deletion: an error if the wallet's metadata could not be
    /// marked, otherwise whether the key file removal went cleanly.
    pub fn key_deletion_outcome(metadata_updated: bool, removal: &KeyFileRemoval) -> (m: String)
        ensures
            m@ == if !metadata_updated {
                "Error: Failed to update XRP metadata"@
            } else if removal is Failed {
                "Deletion finished with errors"@
            } else {
                "XRP Key deletion complete"@
            },
    {
        if !metadata_updated {
            return "Error: Failed to update XRP metadata".to_owned();
        }
        let clean = match removal {
            KeyFileRemoval::Failed(_) => false,
            _ => true,
        };
        Self::deletion_message(clean)
    }

    /// The error shown when the wallet file could not be removed; the removal stops there.
    pub fn wallet_file_error(reason: &str) -> (m: String)
        ensures
            m@ == "Error removing XRP wallet file: "@ + reason@,
    {
        concat_text("Error removing XRP wallet file: ", reason)
    }

    /// The closing message of a key deletion, by whether the key file could be removed.
    pub fn deletion_message(delete_success: bool) -> (m: String)
        ensures
            m@ == if delete_success { "XRP Key deletion complete"@ } else { "Deletion finished with errors"@ },
    {
        if delete_success {
            "XRP Key deletion complete".to_owned()
        } else {
            "Deletion finished with errors".to_owned()
        }
    }
}

impl PinLogic {
    /// The closing message of a PIN change, by whether the change went through.
    pub fn outcome_message(changed: bool) -> (m: String)
        ensures
            m@ == if changed { "PIN updated successfully!"@ } else { "SIGNAL_INTERRUPT: PIN update failed."@ },
    {
        if changed {
            "PIN updated successfully!".to_owned()
        } else {
            "SIGNAL_INTERRUPT: PIN update failed.".to_owned()
        }
    }
}

impl NameLogic {
    /// The closing message of a name change, by whether the name was written.
    pub fn outcome_message(saved: bool) -> (m: String)
        ensures
            m@ == if saved { "Name updated successfully!"@ } else { "Error: Failed to save name."@ },
    {
        if saved {
            "Name updated successfully!".to_owned()
        } else {
            "Error: Failed to save name.".to_owned()
        }
    }
}

} // verus!
