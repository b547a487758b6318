use dannesk::euro_modify::{BufferManager as TrustlineManager, InputMode};
use dannesk::import_buffers::{self, ImportBufferStore, XRPImport};
use dannesk::rlusd_send::BufferManager as SendManager;
use dannesk::send_buffers::{self, SendBufferStore};
use dannesk::trade_buffers::{self, TradeState, TradeStore};
use dannesk::trustline::{self, TrustlineStateBuffer, TrustlineStore};

fn s(t: &str) -> String {
    t.to_string()
}

#[test]
fn send_buffers_start_empty_in_passphrase_mode() {
    let mut store = SendBufferStore::new();
    let b = send_buffers::get_buffers(&mut store, "form-1");
    assert_eq!(b, (s(""), s(""), s(""), s(""), s("Passphrase")));
}

#[test]
fn send_buffers_read_back_what_was_written() {
    let mut store = SendBufferStore::new();
    send_buffers::update_buffers(&mut store, "form-1", s("rAddr"), s("12.5"), s("pass"), s(""), s("Passphrase"));
    let b = send_buffers::get_buffers(&mut store, "form-1");
    assert_eq!(b, (s("rAddr"), s("12.5"), s("pass"), s(""), s("Passphrase")));
    // a second read gives the same
    assert_eq!(send_buffers::get_buffers(&mut store, "form-1"), b);
}

#[test]
fn send_buffers_forms_are_independent() {
    let mut store = SendBufferStore::new();
    send_buffers::update_buffers(&mut store, "a", s("1"), s("2"), s("3"), s("4"), s("Seed"));
    send_buffers::update_buffers(&mut store, "b", s("5"), s("6"), s("7"), s("8"), s("Passphrase"));
    send_buffers::clear_buffer(&mut store, "b");
    assert_eq!(send_buffers::get_buffers(&mut store, "a"), (s("1"), s("2"), s("3"), s("4"), s("Seed")));
    assert_eq!(send_buffers::get_buffers(&mut store, "b"), (s(""), s(""), s(""), s(""), s("Passphrase")));
}

#[test]
fn send_buffers_clear_then_read_gives_defaults() {
    let mut store = SendBufferStore::new();
    send_buffers::update_buffers(&mut store, "x", s("r"), s("1"), s("secret"), s("seed words"), s("Seed"));
    send_buffers::clear_buffer(&mut store, "x");
    send_buffers::clear_buffer(&mut store, "never-written");
    assert_eq!(send_buffers::get_buffers(&mut store, "x"), (s(""), s(""), s(""), s(""), s("Passphrase")));
}

#[test]
fn input_mode_names_round_trip() {
    assert_eq!(InputMode::Passphrase.to_string(), "Passphrase");
    assert_eq!(InputMode::Seed.to_string(), "Seed");
    assert_eq!(InputMode::from_string("Seed"), InputMode::Seed);
    assert_eq!(InputMode::from_string("Passphrase"), InputMode::Passphrase);
    assert_eq!(InputMode::from_string("seed"), InputMode::Passphrase);
    assert_eq!(InputMode::from_string(""), InputMode::Passphrase);
    assert_eq!(InputMode::from_string(&InputMode::Seed.to_string()), InputMode::Seed);
}

#[test]
fn send_manager_keeps_store_in_step() {
    let mut store = SendBufferStore::new();
    let mut m = SendManager::new("f", s(""), s(""), s("pass"), s("words"), s("Passphrase"));
    m.update_address("rRecipient", &mut store);
    assert_eq!(m.address_buffer(), "rRecipient");
    m.update_usd_amount("3.5", &mut store);
    m.set_input_mode(InputMode::Seed, &mut store);
    assert_eq!(m.passphrase_buffer(), "");
    assert_eq!(m.seed_buffer(), "words");
    assert_eq!(m.input_mode(), "Seed");
    assert_eq!(send_buffers::get_buffers(&mut store, "f"), (s("rRecipient"), s("3.5"), s(""), s("words"), s("Seed")));
    m.set_input_mode(InputMode::Passphrase, &mut store);
    m.update_passphrase("new pass", &mut store);
    assert_eq!(m.seed_buffer(), "");
    assert_eq!(m.usd_amount_buffer(), "3.5");
    assert_eq!(send_buffers::get_buffers(&mut store, "f"), (s("rRecipient"), s("3.5"), s("new pass"), s(""), s("Passphrase")));
    m.update_seed("other words", &mut store);
    assert_eq!(send_buffers::get_buffers(&mut store, "f").3, "other words");
}

#[test]
fn trustline_state_default_and_zeroize() {
    let d = TrustlineStateBuffer::default();
    assert_eq!(d.trustline_limit, 0);
    assert_eq!(d.input_mode, "Passphrase");
    assert!(d.error.is_none() && !d.done && d.buffer_id.is_none());
    let mut t = TrustlineStateBuffer {
        trustline_limit: 1000,
        passphrase: s("p"),
        seed: s("q"),
        input_mode: s("Seed"),
        error: Some(s("bad")),
        done: true,
        buffer_id: Some(s("id")),
    };
    t.zeroize();
    assert_eq!(t.trustline_limit, 0);
    assert_eq!(t.passphrase, "");
    assert_eq!(t.seed, "");
    assert_eq!(t.input_mode, "");
    assert!(t.error.is_none() && !t.done && t.buffer_id.is_none());
}

#[test]
fn trustline_buffer_id_is_kept_once_given() {
    let mut state = TrustlineStateBuffer::default();
    let id = trustline::get_or_init_buffer_id(&mut state);
    assert_eq!(id.len(), 36);
    assert_eq!(id.matches('-').count(), 4);
    assert_eq!(state.buffer_id.as_deref(), Some(id.as_str()));
    let again = trustline::get_or_init_buffer_id(&mut state);
    assert_eq!(again, id);
    let other = trustline::get_or_init_buffer_id(&mut TrustlineStateBuffer::default());
    assert_ne!(other, id);
}

#[test]
fn trustline_store_update_sets_all_fields() {
    let mut store = TrustlineStore::new();
    trustline::update_buffers(&mut store, "t1", 500, s("pw"), s(""), s("Passphrase"), Some(s("oops")), false);
    let got = store.get("t1").unwrap();
    assert_eq!(got.trustline_limit, 500);
    assert_eq!(got.passphrase, "pw");
    assert_eq!(got.error.as_deref(), Some("oops"));
    assert_eq!(got.buffer_id.as_deref(), Some("t1"));
    trustline::clear_buffer(&mut store, "t1");
    assert!(store.get("t1").is_none());
}

#[test]
fn trustline_forms_are_independent() {
    let mut store = TrustlineStore::new();
    trustline::update_buffers(&mut store, "a", 1, s("pa"), s(""), s("Passphrase"), None, false);
    trustline::update_buffers(&mut store, "b", 2, s(""), s("sb"), s("Seed"), None, true);
    trustline::update_buffers(&mut store, "a", 3, s("pa2"), s(""), s("Passphrase"), None, false);
    let b = store.get("b").unwrap();
    assert_eq!(b.trustline_limit, 2);
    assert_eq!(b.seed, "sb");
    assert!(b.done);
    assert_eq!(store.get("a").unwrap().trustline_limit, 3);
    trustline::clear_buffer(&mut store, "a");
    assert!(store.get("a").is_none());
    assert_eq!(store.get("b").unwrap().input_mode, "Seed");
}

#[test]
fn trustline_manager_round_trip_and_sync() {
    let mut store = TrustlineStore::new();
    let state = TrustlineStateBuffer {
        trustline_limit: 7,
        passphrase: s("p"),
        seed: s("s"),
        input_mode: s("Passphrase"),
        error: None,
        done: false,
        buffer_id: None,
    };
    let mut m = TrustlineManager::from_state_buffer("tl", state);
    let back = m.to_state_buffer();
    assert_eq!(back.buffer_id.as_deref(), Some("tl"));
    assert_eq!(back.trustline_limit, 7);
    m.set_input_mode(InputMode::Seed, &mut store);
    assert_eq!(m.passphrase(), "");
    assert_eq!(m.seed(), "s");
    assert_eq!(m.input_mode(), "Seed");
    m.update_trustline_limit(1_000_000, &mut store);
    m.set_error(Some(s("e")), &mut store);
    m.set_done(true, &mut store);
    assert_eq!(m.trustline_limit(), 1_000_000);
    assert_eq!(m.error().map(|e| e.as_str()), Some("e"));
    assert!(m.done());
    let stored = store.get("tl").unwrap();
    assert_eq!(stored.trustline_limit, 1_000_000);
    assert_eq!(stored.seed, "s");
    assert_eq!(stored.passphrase, "");
    assert_eq!(stored.input_mode, "Seed");
    assert_eq!(stored.error.as_deref(), Some("e"));
    assert!(stored.done);
    m.update_passphrase("pp", &mut store);
    m.update_seed("", &mut store);
    assert_eq!(store.get("tl").unwrap().passphrase, "pp");
    assert_eq!(store.get("tl").unwrap().seed, "");
}

#[test]
fn import_buffers_behave_like_a_keyed_store() {
    let mut store = ImportBufferStore::new();
    assert_eq!(import_buffers::get_buffer(&mut store, "i"), (s(""), s("")));
    import_buffers::update_buffer(&mut store, "i", s("sEdSeed"), s("pw"));
    assert_eq!(import_buffers::get_buffer(&mut store, "i"), (s("sEdSeed"), s("pw")));
    import_buffers::clear_buffer(&mut store, "i");
    assert_eq!(import_buffers::get_buffer(&mut store, "i"), (s(""), s("")));
}

#[test]
fn import_dialog_id_and_seed_step() {
    let mut dialog = XRPImport::new_import();
    let id = import_buffers::get_or_init_buffer_id(&mut dialog);
    assert_eq!(id.len(), 36);
    assert_eq!(import_buffers::get_or_init_buffer_id(&mut dialog), id);
    dialog.submit_seed("  short ");
    assert_eq!(dialog.step, 1);
    assert_eq!(
        dialog.error.as_deref(),
        Some("Invalid seed format. Must start with 's' and be at least 29 characters.")
    );
    dialog.error = None;
    dialog.submit_seed("  sEdSJHS4oiAdz7w2X2ni1gFiqtbJHqE  ");
    assert_eq!(dialog.step, 2);
    assert!(dialog.error.is_none());
}

fn sample_trade(id: &str) -> TradeState {
    let mut t = TradeState::default();
    t.base_asset = s("XRP");
    t.quote_asset = s("RLUSD");
    t.amount = s("10");
    t.limit_price = s("2.5");
    t.flags = vec![s("tfFillOrKill")];
    t.search_query = s(id);
    t
}

#[test]
fn trade_state_default_and_zeroize() {
    let d = TradeState::default();
    assert_eq!(d.step, 1);
    assert_eq!(d.input_mode, "Passphrase");
    assert_eq!(d.fee_percentage_bits, 0.0f64.to_bits());
    let mut t = sample_trade("id");
    t.zeroize();
    assert_eq!(t.step, 0);
    assert!(t.flags.is_empty());
    assert_eq!(t.search_query, "");
    assert_eq!(t.input_mode, "");
}

#[test]
fn trade_store_id_is_stable_and_gates_access() {
    let mut store = TradeStore::new();
    let id = trade_buffers::get_or_init_buffer_id(&mut store);
    assert_eq!(id.len(), 36);
    assert_eq!(trade_buffers::get_or_init_buffer_id(&mut store), id);
    assert!(trade_buffers::get_buffer(&store, &id).is_some());
    assert!(trade_buffers::get_buffer(&store, "someone-else").is_none());
    let t = sample_trade(&id);
    trade_buffers::update_buffers(
        &mut store, "wrong-id", t.base_asset.clone(), t.quote_asset.clone(), t.amount.clone(),
        t.limit_price.clone(), t.flags.clone(), s(""), s(""), 2, false, None, 0, id.clone(), s("Passphrase"),
    );
    assert_eq!(trade_buffers::get_buffer(&store, &id).unwrap().base_asset, "");
    trade_buffers::update_buffers(
        &mut store, &id, t.base_asset.clone(), t.quote_asset.clone(), t.amount.clone(),
        t.limit_price.clone(), t.flags.clone(), s(""), s(""), 2, false, None, 0.15f64.to_bits(), id.clone(), s("Seed"),
    );
    let got = trade_buffers::get_buffer(&store, &id).unwrap();
    assert_eq!(got.base_asset, "XRP");
    assert_eq!(got.step, 2);
    assert_eq!(f64::from_bits(got.fee_percentage_bits), 0.15);
    assert_eq!(got.input_mode, "Seed");
    trade_buffers::clear_buffer(&mut store, "not-it");
    assert!(trade_buffers::get_buffer(&store, &id).is_some());
    trade_buffers::clear_buffer(&mut store, &id);
    assert!(trade_buffers::get_buffer(&store, &id).is_none());
    let after = trade_buffers::get_buffer(&store, "").unwrap();
    assert_eq!(after.input_mode, "Passphrase");
    assert_eq!(after.step, 0);
    let fresh = trade_buffers::get_or_init_buffer_id(&mut store);
    assert_ne!(fresh, id);
    trade_buffers::clear_all_buffers(&mut store);
    assert!(trade_buffers::get_buffer(&store, &fresh).is_none());
}
