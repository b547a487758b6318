use dannesk::commands::{dispatch_error_message, select_bip39, select_credentials};
use dannesk::euro_enable::{record_submit_result, validate_and_submit_transaction};
use dannesk::euro_modify::BufferManager;
use dannesk::logic::{KeyFileRemoval, NameLogic, PinLogic, TradeLogic, WalletOperations, XRPImportLogic, XRPSendLogic};
use dannesk::name::{FeedbackType, NameComponent, NameSaveOutcome};
use dannesk::send_form::{confirm_amount, confirm_recipient, SignTransaction};
use dannesk::progress::{message_reports_failure, progress_tone, should_dismiss, timed_out, tone_colors, ProgressTone};
use dannesk::settings::SharedSettingsState;
use dannesk::text::{contains_infix, trim};
use dannesk::trustline::{TrustlineStateBuffer, TrustlineStore};
use dannesk::validation::{
    check_new_passphrase, check_recipient, check_seed_format, check_seed_present, check_send_amount, check_spendable,
    send_reserve,
    name_to_save, pin_change_ready, strip_line_breaks, AmountReading, FormError,
};

fn s(t: &str) -> String {
    t.to_string()
}

#[test]
fn trim_agrees_with_std_on_every_char() {
    for u in 0u32..=0x10FFFF {
        if let Some(c) = char::from_u32(u) {
            let t = format!("{c}x{c}");
            assert_eq!(trim(&t), t.trim(), "char {u:#x}");
        }
    }
}

#[test]
fn trim_matches_std() {
    for t in ["", "  ", " a b ", "\t\nword\r\n", "\u{3000}x\u{3000}", "x"] {
        assert_eq!(trim(t), t.trim());
    }
}

#[test]
fn infix_search() {
    assert!(contains_infix("xrp/rlusd", "rl"));
    assert!(contains_infix("abc", ""));
    assert!(!contains_infix("ab", "abc"));
    assert!(!contains_infix("xrp/europ", "usd"));
    assert!(contains_infix("abcabd", "abd"));
}

#[test]
fn recipient_checks() {
    assert_eq!(check_recipient("   \n"), Err(FormError::RecipientRequired));
    assert_eq!(check_recipient("xHb9CJAWyB4rj91VRWn96DkukG4bwdtyTh"), Err(FormError::InvalidAddressFormat));
    assert_eq!(check_recipient("rShort"), Err(FormError::InvalidAddressFormat));
    assert_eq!(check_recipient("rHb9CJAWyB4rj91VRWn96DkukG4bwdtyThXXXX"), Err(FormError::InvalidAddressFormat));
    assert_eq!(
        check_recipient(" rHb9CJAWyB4rj9\n1VRWn96DkukG4bwdtyTh\r\n").unwrap(),
        "rHb9CJAWyB4rj91VRWn96DkukG4bwdtyTh"
    );
    assert_eq!(strip_line_breaks("a\nb\rc"), "abc");
    assert_eq!(FormError::RecipientRequired.message(), "ERR: RECIPIENT_REQUIRED");
    assert_eq!(FormError::InvalidAddressFormat.message(), "ERR: INVALID_XRP_ADDR_FORMAT");
}

#[test]
fn seed_and_passphrase_checks() {
    assert!(check_seed_format("sEdSJHS4oiAdz7w2X2ni1gFiqtbJHqE").is_ok());
    assert_eq!(check_seed_format("aEdSJHS4oiAdz7w2X2ni1gFiqtbJHqE"), Err(FormError::InvalidSeedFormat));
    assert_eq!(check_seed_format("sEdSJHS4oiAdz7w2X2ni1gFiqtb"), Err(FormError::InvalidSeedFormat));
    assert_eq!(check_seed_present("  "), Err(FormError::SeedEmpty));
    assert_eq!(check_seed_present(" seed ").unwrap(), "seed");
    assert_eq!(FormError::SeedEmpty.message(), "Seed cannot be empty.");
    assert_eq!(check_new_passphrase("  12345 "), Err(FormError::PassphraseTooShort));
    assert_eq!(check_new_passphrase(""), Err(FormError::PassphraseTooShort));
    assert_eq!(check_new_passphrase(" 123456 ").unwrap(), "123456");
    // six bytes, though only three characters
    assert_eq!(check_new_passphrase("äöü").unwrap(), "äöü");
    assert_eq!(FormError::PassphraseTooShort.message(), "Passphrase must be at least 6 characters.");
}

#[test]
fn send_amount_checks() {
    assert_eq!(check_send_amount("   ", AmountReading::NotANumber), Err(FormError::AmountEmpty));
    assert_eq!(check_send_amount("abc", AmountReading::NotANumber), Err(FormError::InvalidAmountFormat));
    assert_eq!(check_send_amount("-1", AmountReading::NotPositive), Err(FormError::AmountNotPositive));
    assert_eq!(check_send_amount(" 2.5 ", AmountReading::Positive), Ok(()));
    assert_eq!(FormError::AmountEmpty.message(), "Amount cannot be empty.");
    assert_eq!(FormError::AmountNotPositive.message(), "Amount must be greater than zero.");
    assert_eq!(FormError::InvalidAmountFormat.message(), "Invalid amount format.");
}

#[test]
fn spendable_checks() {
    assert_eq!(send_reserve("XRP"), 1);
    assert_eq!(send_reserve("RLUSD"), 0);
    assert_eq!(check_spendable(false, "XRP", "10.00", "XRP"), Ok(()));
    assert_eq!(
        check_spendable(true, "XRP", "10.00", "XRP"),
        Err(s("Insufficient funds: 1 XRP reserve required."))
    );
    assert_eq!(
        check_spendable(true, "RLUSD", "12.50", "RLUSD"),
        Err(s("Insufficient funds: 12.50 RLUSD available."))
    );
}

#[test]
fn pin_and_name_entries() {
    assert!(pin_change_ready("1234", "5678", "5678"));
    assert!(!pin_change_ready("1234", "5678", "5679"));
    assert!(!pin_change_ready("", "5678", "5678"));
    assert!(!pin_change_ready("1234", "", ""));
    assert_eq!(name_to_save("  Alice "), Some(s("Alice")));
    assert_eq!(name_to_save("   "), None);
    assert_eq!(SharedSettingsState::default().saved_name, "");
}

#[test]
fn credentials_follow_the_mode() {
    assert_eq!(select_credentials("passphrase", s("pw"), s("words")), (Some(s("pw")), None));
    assert_eq!(select_credentials("passphrase", s(""), s("words")), (None, None));
    assert_eq!(select_credentials("seed", s("pw"), s("a b c")), (None, Some(s("a b c"))));
    assert_eq!(select_credentials("seed", s("pw"), s("   ")), (None, None));
    assert_eq!(select_credentials("other", s("pw"), s("words")), (None, None));
    assert_eq!(select_bip39(s("  ")), None);
    assert_eq!(select_bip39(s(" x ")), Some(s(" x ")));
    assert_eq!(dispatch_error_message("channel full"), "Dispatch Error: channel full");
}

#[test]
fn payment_and_offer_requests() {
    let c = XRPSendLogic::build_command("seed", s("pw"), s("w1 w2"), s(""), s("rTo"), s("5"), s("rMe"), s("RLUSD"));
    assert_eq!(c.command, "submit_transaction");
    assert_eq!(c.passphrase, None);
    assert_eq!(c.seed.as_deref(), Some("w1 w2"));
    assert_eq!(c.bip39, None);
    assert_eq!(c.tx_type.as_deref(), Some("payment"));
    assert_eq!(c.wallet_type.as_deref(), Some("RLUSD"));
    assert_eq!(c.recipient.as_deref(), Some("rTo"));

    let o = TradeLogic::build_command(
        "passphrase", s("pw"), s(""), s("extra"), s("XRP"), s("RLUSD"), s("10"), s("25"),
        vec![s("tfFillOrKill")], s("rMe"),
    );
    assert_eq!(o.tx_type.as_deref(), Some("offer_create"));
    assert_eq!(o.taker_pays, Some((s("10"), s("XRP"))));
    assert_eq!(o.taker_gets, Some((s("25"), s("RLUSD"))));
    assert_eq!(o.passphrase.as_deref(), Some("pw"));
    assert_eq!(o.bip39.as_deref(), Some("extra"));
    assert_eq!(o.flags, Some(vec![s("tfFillOrKill")]));
    assert_eq!(o.amount, None);

    let i = XRPImportLogic::import_command(s("rNew"));
    assert_eq!(i.command, "import_wallet");
    assert_eq!(i.wallet.as_deref(), Some("rNew"));
    let d = WalletOperations::remove_command(s("rOld"));
    assert_eq!(d.command, "delete_wallet");
    assert_eq!(d.wallet.as_deref(), Some("rOld"));
    for c in [&i, &d] {
        assert!(c.recipient.is_none() && c.amount.is_none() && c.passphrase.is_none() && c.seed.is_none());
        assert!(c.bip39.is_none() && c.trustline_limit.is_none() && c.fee.is_none() && c.tx_type.is_none());
        assert!(c.taker_pays.is_none() && c.taker_gets.is_none() && c.flags.is_none() && c.wallet_type.is_none());
    }
}

#[test]
fn send_dialog_steps() {
    let mut send = SignTransaction { step: 1, error: None, recipient: None, amount: None, asset: s("XRP") };
    confirm_recipient(&mut send, "  short  ");
    assert_eq!(send.error.as_deref(), Some("ERR: INVALID_XRP_ADDR_FORMAT"));
    assert_eq!(send.step, 1);
    confirm_recipient(&mut send, " rN7n7otQDd6FczFgLdSqtcsAUxDkw6fzRH\n");
    assert_eq!(send.recipient.as_deref(), Some("rN7n7otQDd6FczFgLdSqtcsAUxDkw6fzRH"));
    assert_eq!(send.step, 2);
    assert!(send.error.is_none());
    confirm_amount(&mut send, " ", AmountReading::NotANumber, false, "10.00", "XRP", s("x"));
    assert_eq!(send.error.as_deref(), Some("Amount cannot be empty."));
    assert_eq!((send.step, send.amount.clone()), (2, None));
    confirm_amount(&mut send, "50", AmountReading::Positive, true, "10.00", "XRP", s("50.00"));
    assert_eq!(send.error.as_deref(), Some("Insufficient funds: 1 XRP reserve required."));
    assert_eq!((send.step, send.amount.clone()), (2, None));
    confirm_amount(&mut send, "5", AmountReading::Positive, false, "10.00", "XRP", s("5.00"));
    assert_eq!((send.step, send.amount.as_deref(), send.error.is_none()), (3, Some("5.00"), true));
    let mut token = SignTransaction { step: 2, error: None, recipient: None, amount: None, asset: s("RLUSD") };
    confirm_amount(&mut token, "50", AmountReading::Positive, true, "12.50", "RLUSD", s("50.00"));
    assert_eq!(token.error.as_deref(), Some("Insufficient funds: 12.50 RLUSD available."));
}

#[test]
fn operation_messages() {
    assert_eq!(WalletOperations::deletion_message(true), "XRP Key deletion complete");
    assert_eq!(WalletOperations::deletion_message(false), "Deletion finished with errors");
    assert_eq!(PinLogic::outcome_message(true), "PIN updated successfully!");
    assert_eq!(PinLogic::outcome_message(false), "SIGNAL_INTERRUPT: PIN update failed.");
    assert_eq!(NameLogic::outcome_message(true), "Name updated successfully!");
    assert_eq!(NameLogic::outcome_message(false), "Error: Failed to save name.");
}

fn manager(passphrase: &str, seed: &str) -> BufferManager {
    let mut state = TrustlineStateBuffer::default();
    state.passphrase = s(passphrase);
    state.seed = s(seed);
    BufferManager::from_state_buffer("enable", state)
}

#[test]
fn trustline_submission_refusals() {
    let mut store = TrustlineStore::new();
    let mut m = manager(" ", "");
    assert!(validate_and_submit_transaction(&mut m, Some(s("rMe")), true, &mut store).is_none());
    assert_eq!(m.error().map(|e| e.as_str()), Some("Either passphrase or seed must be provided."));
    assert_eq!(store.get("enable").unwrap().error.as_deref(), Some("Either passphrase or seed must be provided."));

    let mut m = manager("pw", "seed");
    assert!(validate_and_submit_transaction(&mut m, Some(s("rMe")), true, &mut store).is_none());
    assert_eq!(m.error().map(|e| e.as_str()), Some("Provide only one: passphrase or seed."));

    let mut m = manager("pw", "");
    assert!(validate_and_submit_transaction(&mut m, None, true, &mut store).is_none());
    assert_eq!(m.error().map(|e| e.as_str()), Some("No wallet selected"));

    let mut m = manager("pw", "");
    assert!(validate_and_submit_transaction(&mut m, Some(s("rMe")), false, &mut store).is_none());
    assert_eq!(m.error().map(|e| e.as_str()), Some("Insufficient XRP balance (0.20 XRP reserve + fee required)"));
}

#[test]
fn trustline_submission_request_and_outcome() {
    let mut store = TrustlineStore::new();
    let mut m = manager("", "  sEdSeed  ");
    let c = validate_and_submit_transaction(&mut m, Some(s("rMe")), true, &mut store).unwrap();
    assert_eq!(c.tx_type.as_deref(), Some("trustset_euro"));
    assert_eq!(c.seed.as_deref(), Some("sEdSeed"));
    assert_eq!(c.passphrase, None);
    assert_eq!(c.wallet.as_deref(), Some("rMe"));
    record_submit_result(&mut m, Some(s("queue full")), &mut store);
    assert_eq!(m.error().map(|e| e.as_str()), Some("Failed to send command: queue full"));
    assert!(!m.done());
    record_submit_result(&mut m, None, &mut store);
    assert!(m.done());
    assert_eq!(m.seed(), "");
    assert!(m.error().is_none());
    let stored = store.get("enable").unwrap();
    assert!(stored.done && stored.seed.is_empty() && stored.error.is_none());
}

#[test]
fn name_dialog_flow() {
    let mut n = NameComponent::new();
    assert_eq!(n.name_input(), "");
    assert_eq!(n.submit(1000), None);
    assert_eq!(n.feedback_to_show(3999), Some(s("Name cannot be empty")));
    assert_eq!(n.feedback_to_show(4000), None);
    assert_eq!(n.feedback_to_show(4001), None);
    n.set_name_input(s("Bob"));
    assert_eq!(n.submit(5000), Some(s("Bob")));
    n.record_save(NameSaveOutcome::Done, 5000);
    assert_eq!(n.name_input(), "");
    assert_eq!(n.feedback_to_show(6999), Some(s("Name changed successfully")));
    assert_eq!(n.feedback_to_show(7000), None);
    n.set_name_input(s("Carol"));
    n.record_save(NameSaveOutcome::NotSaved, 8000);
    assert_eq!(n.name_input(), "Carol");
    assert_eq!(n.feedback_to_show(8000), Some(s("Failed to save name")));
    n.record_save(NameSaveOutcome::BroadcastFailed(s("closed")), 9000);
    assert_eq!(n.feedback_to_show(9000), Some(s("Failed to update name: closed")));
    n.record_save(NameSaveOutcome::CloseFailed(s("gone")), 9500);
    assert_eq!(n.name_input(), "");
    assert_eq!(n.feedback_to_show(9500), Some(s("Failed to close modal: gone")));
    let _ = FeedbackType::Success;
}

#[test]
fn progress_overlay_rules() {
    assert!(message_reports_failure("File System Error: denied"));
    assert!(message_reports_failure("SIGNAL_INTERRUPT: PIN update FAILED."));
    assert!(!message_reports_failure("Saving new name..."));
    assert_eq!(progress_tone("Error: Encryption failed", true), ProgressTone::Failed);
    assert_eq!(progress_tone("Operation Timed Out—please try again", true), ProgressTone::TimedOut);
    assert_eq!(progress_tone("XRP Key deletion complete", true), ProgressTone::Complete);
    assert_eq!(progress_tone("Verifying credentials...", false), ProgressTone::InFlight);
    assert_eq!(tone_colors(&ProgressTone::Failed), Some((s("#dc2626"), s("#ffffff"))));
    assert_eq!(tone_colors(&ProgressTone::TimedOut), Some((s("#eab308"), s("#000000"))));
    assert_eq!(tone_colors(&ProgressTone::Complete), Some((s("#16a34a"), s("#ffffff"))));
    assert_eq!(tone_colors(&ProgressTone::InFlight), None);
    assert!(should_dismiss("done", true));
    assert!(should_dismiss("Internal thread error", false));
    assert!(!should_dismiss("Saving", false));
    assert!(timed_out("Saving", false, 15));
    assert!(!timed_out("Saving", false, 14));
    assert!(!timed_out("Saving", true, 100));
    assert!(!timed_out("Failed to save", false, 100));
}

#[test]
fn key_deletion_messages() {
    assert_eq!(
        WalletOperations::key_file_note(&KeyFileRemoval::Failed(s("busy"))),
        Some(s("Warning: Could not delete encrypted file: busy"))
    );
    assert_eq!(
        WalletOperations::key_file_note(&KeyFileRemoval::Missing),
        Some(s("XRP key already removed from storage."))
    );
    assert_eq!(WalletOperations::key_file_note(&KeyFileRemoval::Removed), None);
    assert_eq!(WalletOperations::key_file_note(&KeyFileRemoval::Unlocated), None);
    assert_eq!(
        WalletOperations::key_deletion_outcome(false, &KeyFileRemoval::Removed),
        "Error: Failed to update XRP metadata"
    );
    assert_eq!(WalletOperations::key_deletion_outcome(true, &KeyFileRemoval::Removed), "XRP Key deletion complete");
    assert_eq!(WalletOperations::key_deletion_outcome(true, &KeyFileRemoval::Missing), "XRP Key deletion complete");
    assert_eq!(
        WalletOperations::key_deletion_outcome(true, &KeyFileRemoval::Failed(s("x"))),
        "Deletion finished with errors"
    );
    assert_eq!(WalletOperations::wallet_file_error("denied"), "Error removing XRP wallet file: denied");
}
