use dannesk::import_buffers::XRPImport;
use dannesk::logic::XRPImportLogic;
use dannesk::create_buffers::{clear_buffer, get_buffer, update_buffer, CreateBufferStore};
use dannesk::wallet_setup::{
    check_create_passphrase, failure_progress, record_create_result, record_setup_result, SetupFlow, SetupStage,
};

const ABANDON_ABOUT: &str =
    "abandon abandon abandon abandon abandon abandon abandon abandon abandon abandon abandon about";

#[test]
fn derive_seed_uses_first_sixteen_seed_bytes() {
    // BIP39 seed of this phrase under "TREZOR" starts c55257c360c07c72029aebc1b53c05ed.
    let seed = XRPImportLogic::derive_seed(ABANDON_ABOUT, "TREZOR").unwrap();
    assert_eq!(seed, "sEdVsj9cNXUZPFwRW1Jd3XM9iVSHcDc");
}

#[test]
fn derive_seed_depends_on_passphrase() {
    let seed = XRPImportLogic::derive_seed(ABANDON_ABOUT, "").unwrap();
    assert_eq!(seed, "sEdTcoapvJFMfmMpet6s3BHzXqDAtga");
    assert_ne!(seed, XRPImportLogic::derive_seed(ABANDON_ABOUT, "TREZOR").unwrap());
}

#[test]
fn derive_seed_is_an_ed25519_seed() {
    let seed = XRPImportLogic::derive_seed(ABANDON_ABOUT, "x").unwrap();
    assert!(seed.starts_with("sEd"));
    assert_eq!(seed.len(), 31);
}

#[test]
fn derive_seed_refuses_bad_checksum() {
    let phrase = "abandon abandon abandon abandon abandon abandon abandon abandon abandon abandon abandon abandon";
    let err = XRPImportLogic::derive_seed(phrase, "").unwrap_err();
    assert!(err.starts_with("Invalid mnemonic: "));
    assert!(err.len() > "Invalid mnemonic: ".len());
}

#[test]
fn derive_seed_refuses_unknown_word() {
    let err = XRPImportLogic::derive_seed("hello world", "").unwrap_err();
    assert!(err.starts_with("Invalid mnemonic: "));
}

#[test]
fn new_mnemonic_has_twenty_four_words() {
    let phrase = XRPImportLogic::new_mnemonic();
    assert_eq!(phrase.split(' ').count(), 24);
    assert!(XRPImportLogic::derive_seed(&phrase, "").is_ok());
}

#[test]
fn new_mnemonics_differ() {
    assert_ne!(XRPImportLogic::new_mnemonic(), XRPImportLogic::new_mnemonic());
}

#[test]
fn new_wallet_dialog_shows_a_phrase() {
    let w = XRPImport::new_wallet();
    assert_eq!(w.step, 1);
    assert!(w.error.is_none());
    assert!(!w.done);
    assert_eq!(w.seed.unwrap().split(' ').count(), 24);
}

#[test]
fn new_import_dialog_is_empty() {
    let w = XRPImport::new_import();
    assert_eq!(w.step, 1);
    assert!(w.seed.is_none());
    assert!(w.buffer_id.is_none());
}

#[test]
fn setup_failures_are_reported() {
    let mut d = XRPImport::new_import();
    let p = record_setup_result(&mut d, SetupFlow::Import, Some((SetupStage::WalletKey, "bad seed".to_string())));
    assert_eq!(d.error.as_deref(), Some("Wallet import failed: bad seed"));
    assert_eq!(p.as_deref(), Some("Error: Wallet import failed: bad seed"));
    assert!(!d.done);
    let mut c = XRPImport::new_import();
    let p = record_setup_result(&mut c, SetupFlow::Create, Some((SetupStage::WalletKey, "x".to_string())));
    assert_eq!(p.as_deref(), Some("Error: Wallet creation failed: x"));
    let p = record_setup_result(&mut c, SetupFlow::Create, Some((SetupStage::Encryption, "y".to_string())));
    assert_eq!(c.error.as_deref(), Some("Encryption failed: y"));
    assert_eq!(p.as_deref(), Some("Error: Encryption failed: y"));
    let p = record_setup_result(&mut c, SetupFlow::Create, Some((SetupStage::Dispatch, "full".to_string())));
    assert_eq!(p.as_deref(), Some("Error: Failed to send command: full"));
}

#[test]
fn setup_success_marks_done() {
    let mut d = XRPImport::new_import();
    assert_eq!(record_setup_result(&mut d, SetupFlow::Import, None), None);
    assert!(d.done);
    let mut c = XRPImport::new_wallet();
    assert_eq!(record_setup_result(&mut c, SetupFlow::Create, None).as_deref(), Some("Wallet creation completed"));
    assert!(c.done);
}

#[test]
fn create_passphrase_step() {
    let mut buffers = CreateBufferStore::new();
    let mut c = XRPImport::new_wallet();
    let phrase = c.seed.clone().unwrap();
    update_buffer(&mut buffers, "c1", " 12345 ".to_string());
    let pass = get_buffer(&mut buffers, "c1");
    assert_eq!(check_create_passphrase(&mut c, &mut buffers, "c1", &pass), Err("Error: Passphrase too short".to_string()));
    assert_eq!(c.error.as_deref(), Some("Passphrase must be at least 6 characters."));
    assert_eq!(get_buffer(&mut buffers, "c1"), "");
    c.error = None;
    update_buffer(&mut buffers, "c1", " secret1 ".to_string());
    let (p, s) = check_create_passphrase(&mut c, &mut buffers, "c1", " secret1 ").unwrap();
    assert_eq!(p, "secret1");
    assert_eq!(s, phrase);
    assert!(c.error.is_none());
    assert_eq!(get_buffer(&mut buffers, "c1"), " secret1 ");
    let mut empty = XRPImport::new_import();
    assert_eq!(
        check_create_passphrase(&mut empty, &mut buffers, "c1", "longenough"),
        Err("Error: No seed available to encrypt".to_string())
    );
    assert_eq!(empty.error.as_deref(), Some("No seed available to encrypt."));
    assert_eq!(get_buffer(&mut buffers, "c1"), "");
}

#[test]
fn create_result_clears_the_buffer() {
    let mut buffers = CreateBufferStore::new();
    update_buffer(&mut buffers, "a", "secret1".to_string());
    update_buffer(&mut buffers, "b", "other12".to_string());
    let mut c = XRPImport::new_wallet();
    let p = record_create_result(&mut c, &mut buffers, "a", Some((SetupStage::Encryption, "bad".to_string())));
    assert_eq!(p.as_deref(), Some("Error: Encryption failed: bad"));
    assert_eq!(get_buffer(&mut buffers, "a"), "");
    assert_eq!(get_buffer(&mut buffers, "b"), "other12");
    update_buffer(&mut buffers, "a", "secret1".to_string());
    let p = record_create_result(&mut c, &mut buffers, "a", None);
    assert_eq!(p.as_deref(), Some("Wallet creation completed"));
    assert!(c.done);
    assert_eq!(get_buffer(&mut buffers, "a"), "");
    clear_buffer(&mut buffers, "b");
    assert_eq!(get_buffer(&mut buffers, "b"), "");
}

#[test]
fn refused_phrase_gives_bip39_reason() {
    let phrase = "hello world";
    let reason = bip39::Mnemonic::parse_in(bip39::Language::English, phrase).unwrap_err().to_string();
    let err = XRPImportLogic::derive_seed(phrase, "").unwrap_err();
    assert_eq!(err, format!("Invalid mnemonic: {}", reason));
    assert_eq!(failure_progress(&err), format!("Error: Invalid mnemonic: {}", reason));
}
