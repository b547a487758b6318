use vstd::prelude::*;
use crate::create_buffers::{clear_buffer, CreateBufferStore};
use crate::import_buffers::XRPImport;
use crate::text::{byte_len, concat_text, trimmed};
use crate::validation::{check_new_passphrase, FormError};

verus! {

/// Which wallet dialog is being completed.
#[derive(PartialEq, Eq, Debug, Structural)]
pub enum SetupFlow {
    Create,
    Import,
}

/// The background stage at which setting up a wallet failed.
#[derive(PartialEq, Eq, Debug, Structural)]
pub enum SetupStage {
    /// Deriving the wallet from its seed.
    WalletKey,
    /// Encrypting the secret for storage.
    Encryption,
    /// Handing the import request to the backend.
    Dispatch,
}

/// The words that open the dialog's error for a failure at `stage`.
pub open spec fn setup_failure_prefix(flow: SetupFlow, stage: SetupStage) -> Seq<char> {
    match stage {
        SetupStage::WalletKey => match flow {
            SetupFlow::Create => "Wallet creation failed: "@,
            SetupFlow::Import => "Wallet import failed: "@,
        },
        SetupStage::Encryption => "Encryption failed: "@,
        SetupStage::Dispatch => "Failed to send command: "@,
    }
}

fn failure_prefix(flow: &SetupFlow, stage: &SetupStage) -> (r: &'static str)
    ensures
        r@ == setup_failure_prefix(*flow, *stage),
{
    match stage {
        SetupStage::WalletKey => match flow {
            SetupFlow::Create => "Wallet creation failed: ",
            SetupFlow::Import => "Wallet import failed: ",
        },
        SetupStage::Encryption => "Encryption failed: ",
        SetupStage::Dispatch => "Failed to send command: ",
    }
}

/// The progress message shown when creating or importing a wallet failed: "Error: " and
/// the error (for an import, the refusal of `derive_seed` among them).
pub fn failure_progress(error: &str) -> (m: String)
    ensures
        m@ == "Error: "@ + error@,
{
    concat_text("Error: ", error)
}

/// Records how the background part of creating or importing a wallet ended, and gives the
/// progress message to show, if any. A failure at `stage` for `reason` sets the dialog's
/// error to the stage's words and the reason, and the progress message is "Error: " and
/// that error. Success marks the dialog done; a created wallet then shows "Wallet creation
/// completed", an imported one no new message.
pub fn record_setup_result(dialog: &mut XRPImport, flow: SetupFlow, failure: Option<(SetupStage, String)>) -> (progress: Option<String>)
    ensures
        final(dialog).step == old(dialog).step && final(dialog).seed == old(dialog).seed
            && final(dialog).buffer_id == old(dialog).buffer_id,
        match failure {
            Some((stage, reason)) => {
                let msg = setup_failure_prefix(flow, stage) + reason@;
                &&& final(dialog).error.deep_view() == Some(msg)
                &&& final(dialog).done == old(dialog).done
                &&& progress.deep_view() == Some("Error: "@ + msg)
            },
            None => {
                &&& final(dialog).done
                &&& final(dialog).error == old(dialog).error
                &&& progress.deep_view() == if flow == SetupFlow::Create { Some("Wallet creation completed"@) } else { None }
            },
        },
{
    match failure {
        Some((stage, reason)) => {
            let msg = concat_text(failure_prefix(&flow, &stage), reason.as_str());
            let progress = failure_progress(msg.as_str());
            dialog.error = Some(msg);
            Some(progress)
        },
        None => {
            dialog.done = true;
            match flow {
                SetupFlow::Create => Some("Wallet creation completed".to_owned()),
                SetupFlow::Import => None,
            }
        },
    }
}

/// What the continue button of the create dialog's passphrase step decides: the trimmed
/// passphrase must be at least 6 bytes long, and a recovery phrase must be on show.
pub open spec fn create_passphrase_check(passphrase: Seq<char>, seed: Option<Seq<char>>) -> Result<(Seq<char>, Seq<char>), (Seq<char>, Seq<char>)> {
    let p = trimmed(passphrase);
    if byte_len(p) < 6 {
        Err((FormError::PassphraseTooShort.spec_message(), "Error: Passphrase too short"@))
    } else {
        match seed {
            Some(s) => Ok((p, s)),
            None => Err(("No seed available to encrypt."@, "Error: No seed available to encrypt"@)),
        }
    }
}

/// The continue button of the create dialog's passphrase step, with `passphrase` the
/// dialog's passphrase buffer. On success gives the trimmed passphrase and the recovery
/// phrase to encrypt, and leaves the dialog and the buffers alone; on a refusal sets the
/// dialog's error, forgets (and wipes) the dialog's passphrase buffer, and gives the progress
/// message to show.
pub fn check_create_passphrase(
    dialog: &mut XRPImport,
    buffers: &mut CreateBufferStore,
    buffer_id: &str,
    passphrase: &str,
) -> (r: Result<(String, String), String>)
    requires
        old(buffers).wf(),
        byte_len(passphrase@) <= usize::MAX,
    ensures
        final(buffers).wf(),
        final(dialog).step == old(dialog).step && final(dialog).seed == old(dialog).seed
            && final(dialog).buffer_id == old(dialog).buffer_id && final(dialog).done == old(dialog).done,
        match create_passphrase_check(passphrase@, old(dialog).seed.deep_view()) {
            Ok((p, s)) => r matches Ok((rp, rs)) && rp@ == p && rs@ == s && final(dialog).error == old(dialog).error
                && final(buffers)@ == old(buffers)@,
            Err((error, progress)) => r matches Err(m) && m@ == progress && final(dialog).error.deep_view() == Some(error)
                && final(buffers)@ == old(buffers)@.remove(buffer_id@),
        },
{
    let p = match check_new_passphrase(passphrase) {
        Ok(p) => p,
        Err(e) => {
            dialog.error = Some(e.message());
            clear_buffer(buffers, buffer_id);
            return Err("Error: Passphrase too short".to_owned());
        },
    };
    match &dialog.seed {
        Some(s) => Ok((p, s.clone())),
        None => {
            dialog.error = Some("No seed available to encrypt.".to_owned());
            clear_buffer(buffers, buffer_id);
            Err("Error: No seed available to encrypt".to_owned())
        },
    }
}

/// Records how the background creation of a wallet ended, as `record_setup_result` does for
/// the create dialog, and forgets (and wipes) the dialog's passphrase buffer, which happens
/// on every way out of that work.
pub fn record_create_result(
    dialog: &mut XRPImport,
    buffers: &mut CreateBufferStore,
    buffer_id: &str,
    failure: Option<(SetupStage, String)>,
) -> (progress: Option<String>)
    requires
        old(buffers).wf(),
    ensures
        final(buffers).wf(),
        final(buffers)@ == old(buffers)@.remove(buffer_id@),
        final(dialog).step == old(dialog).step && final(dialog).seed == old(dialog).seed
            && final(dialog).buffer_id == old(dialog).buffer_id,
        match failure {
            Some((stage, reason)) => {
                let msg = setup_failure_prefix(SetupFlow::Create, stage) + reason@;
                &&& final(dialog).error.deep_view() == Some(msg)
                &&& final(dialog).done == old(dialog).done
                &&& progress.deep_view() == Some("Error: "@ + msg)
            },
            None => {
                &&& final(dialog).done
                &&& final(dialog).error == old(dialog).error
                &&& progress.deep_view() == Some("Wallet creation completed"@)
            },
        },
{
    let progress = record_setup_result(dialog, SetupFlow::Create, failure);
    clear_buffer(buffers, buffer_id);
    progress
}

} // verus!
