use dannesk::trade::{
    check_step1, check_trade_authorization, flags_display, join_seed_words, market_rate_rule, matching_pairs,
    commit_review, pair_list_open, rate_line_rule, select_pair, set_limit_price, trade_form_ready, toggle_execution_flag, trading_pairs, write_trade_state, ExecutionFlag, MarketRate, TradeAuthError,
};
use dannesk::trade_buffers::{self, TradeState, TradeStore};

fn s(t: &str) -> String {
    t.to_string()
}

#[test]
fn flags_exclude_each_other() {
    let mut flags: Vec<String> = Vec::new();
    toggle_execution_flag(&mut flags, ExecutionFlag::FillOrKill);
    assert_eq!(flags, vec![s("tfFillOrKill")]);
    toggle_execution_flag(&mut flags, ExecutionFlag::ImmediateOrCancel);
    assert_eq!(flags, vec![s("tfImmediateOrCancel")]);
    toggle_execution_flag(&mut flags, ExecutionFlag::ImmediateOrCancel);
    assert!(flags.is_empty());
    let mut other = vec![s("tfSell"), s("tfFillOrKill"), s("tfFillOrKill")];
    toggle_execution_flag(&mut other, ExecutionFlag::FillOrKill);
    assert_eq!(other, vec![s("tfSell")]);
    toggle_execution_flag(&mut other, ExecutionFlag::FillOrKill);
    toggle_execution_flag(&mut other, ExecutionFlag::FillOrKill);
    assert_eq!(other, vec![s("tfSell")]);
}

#[test]
fn step1_checks_in_order() {
    let mut t = TradeState::default();
    check_step1(&mut t, true, true);
    assert_eq!(t.error.as_deref(), Some("Please select a valid trading pair"));
    t.base_asset = s("XRP");
    t.quote_asset = s("XRP");
    check_step1(&mut t, true, true);
    assert_eq!(t.error.as_deref(), Some("Base and quote assets cannot be the same"));
    t.quote_asset = s("RLUSD");
    t.amount = s("ten");
    check_step1(&mut t, false, true);
    assert_eq!(t.error.as_deref(), Some("Please enter a valid amount"));
    t.amount = s("10");
    check_step1(&mut t, true, false);
    assert_eq!(t.error.as_deref(), Some("Please enter a valid price"));
    t.limit_price = s("2.5");
    check_step1(&mut t, true, true);
    assert!(t.error.is_none());
    assert_eq!(t.step, 2);
}

#[test]
fn pair_selection_and_write_back() {
    let mut store = TradeStore::new();
    let id = trade_buffers::get_or_init_buffer_id(&mut store);
    let mut t = trade_buffers::get_buffer(&store, &id).unwrap();
    t.amount = s("4");
    t.error = Some(s("old"));
    select_pair(&mut t, 3);
    assert_eq!((t.base_asset.as_str(), t.quote_asset.as_str(), t.search_query.as_str()), ("EUROP", "XRP", "EUROP/XRP"));
    assert_eq!(t.amount, "");
    assert!(t.error.is_none());
    write_trade_state(&mut store, &id, &t);
    // the pair label became the dialog's id
    assert!(trade_buffers::get_buffer(&store, &id).is_none());
    assert_eq!(trade_buffers::get_buffer(&store, "EUROP/XRP").unwrap().base_asset, "EUROP");
    assert_eq!(trading_pairs().len(), 6);
}

#[test]
fn pair_search_ignores_case() {
    assert_eq!(matching_pairs("europ"), vec![2, 3, 4, 5]);
    assert_eq!(matching_pairs("XRP/R"), vec![0]);
    assert_eq!(matching_pairs(""), vec![0, 1, 2, 3, 4, 5]);
    assert!(matching_pairs("btc").is_empty());
}

#[test]
fn market_rate_rules() {
    assert_eq!(market_rate_rule("XRP", "RLUSD"), MarketRate::XrpUsd);
    assert_eq!(market_rate_rule("RLUSD", "XRP"), MarketRate::InverseXrpUsd);
    assert_eq!(market_rate_rule("XRP", "EUROP"), MarketRate::XrpEur);
    assert_eq!(market_rate_rule("EUROP", "XRP"), MarketRate::InverseXrpEur);
    assert_eq!(market_rate_rule("RLUSD", "EUROP"), MarketRate::InverseEurUsd);
    assert_eq!(market_rate_rule("EUROP", "RLUSD"), MarketRate::EurUsd);
    assert_eq!(market_rate_rule("BTC", "XRP"), MarketRate::Unknown);
}

#[test]
fn authorization_checks() {
    let words: Vec<String> = (0..24).map(|i| format!("w{}", i)).collect();
    let mut short = words.clone();
    short[3] = s("  ");
    assert_eq!(check_trade_authorization("passphrase", "  ", &words, "XRP", "RLUSD", true, true), Err(TradeAuthError::PassphraseRequired));
    assert_eq!(check_trade_authorization("seed", "", &short, "XRP", "RLUSD", true, true), Err(TradeAuthError::MnemonicLengthMismatch));
    assert_eq!(check_trade_authorization("ledger", "pw", &words, "XRP", "RLUSD", true, true), Err(TradeAuthError::InvalidAuthMode));
    assert_eq!(check_trade_authorization("seed", "", &words, "XRP", "XRP", true, true), Err(TradeAuthError::AssetPairIdentityConflict));
    assert_eq!(check_trade_authorization("passphrase", "pw", &words, "XRP", "RLUSD", false, true), Err(TradeAuthError::InvalidQuantity));
    assert_eq!(check_trade_authorization("passphrase", "pw", &words, "XRP", "RLUSD", true, false), Err(TradeAuthError::InvalidLimitPrice));
    assert_eq!(check_trade_authorization("seed", "", &words, "XRP", "RLUSD", true, true), Ok(()));
    assert_eq!(TradeAuthError::MnemonicLengthMismatch.message(), "ERR: MNEMONIC_LENGTH_MISMATCH");
    assert_eq!(TradeAuthError::InvalidLimitPrice.message(), "ERR: INVALID_LIMIT_PRICE");
}

#[test]
fn seed_words_join() {
    let words = vec![s(""), s("alpha"), s(""), s("beta"), s(" "), s("")];
    assert_eq!(join_seed_words(&words), "alpha beta  ");
    assert_eq!(join_seed_words(&vec![]), "");
}

#[test]
fn flags_for_review() {
    assert_eq!(flags_display(&vec![]), "None");
    assert_eq!(flags_display(&vec![s("tfFillOrKill")]), "FillOrKill");
    assert_eq!(flags_display(&vec![s("tfSell"), s("Passive")]), "Sell, Passive");
}

#[test]
fn order_form_readiness() {
    let flags = vec![s("tfFillOrKill")];
    assert!(trade_form_ready("XRP", "RLUSD", "10", "2.5", &flags));
    assert!(!trade_form_ready("XRP", "RLUSD", "10", "2.5", &vec![]));
    assert!(!trade_form_ready("", "RLUSD", "10", "2.5", &flags));
    assert!(!trade_form_ready("XRP", "RLUSD", "", "2.5", &flags));
    assert!(!trade_form_ready("XRP", "RLUSD", "10", "", &flags));
    assert!(pair_list_open("x", false));
    assert!(pair_list_open("", true));
    assert!(!pair_list_open("", false));
}

#[test]
fn typed_price_drops_spread() {
    let mut t = TradeState::default();
    t.fee_percentage_bits = 0.15f64.to_bits();
    t.amount = s("10");
    set_limit_price(&mut t, s("2.75"));
    assert_eq!(t.limit_price, "2.75");
    assert_eq!(t.fee_percentage_bits, 0);
    assert_eq!(t.amount, "10");
}

#[test]
fn rate_line_swaps_the_euro_dollar_pairs() {
    assert_eq!(rate_line_rule("RLUSD", "EUROP"), MarketRate::EurUsd);
    assert_eq!(rate_line_rule("EUROP", "RLUSD"), MarketRate::InverseEurUsd);
    assert_eq!(market_rate_rule("RLUSD", "EUROP"), MarketRate::InverseEurUsd);
    assert_eq!(rate_line_rule("XRP", "RLUSD"), MarketRate::XrpUsd);
    assert_eq!(rate_line_rule("XRP", "XRP"), MarketRate::Unknown);
}

#[test]
fn review_commit_writes_the_form() {
    let mut t = TradeState::default();
    let before = t.clone();
    assert!(!commit_review(&mut t, s("XRP"), s("RLUSD"), s("10"), s("2.5"), 0, vec![]));
    assert_eq!((t.step, t.base_asset.clone(), t.flags.clone()), (before.step, before.base_asset.clone(), before.flags.clone()));
    assert!(commit_review(&mut t, s("XRP"), s("RLUSD"), s("10"), s("2.5"), 0.1f64.to_bits(), vec![s("tfFillOrKill")]));
    assert_eq!(t.step, 2);
    assert_eq!((t.base_asset.as_str(), t.quote_asset.as_str()), ("XRP", "RLUSD"));
    assert_eq!((t.amount.as_str(), t.limit_price.as_str()), ("10", "2.5"));
    assert_eq!(f64::from_bits(t.fee_percentage_bits), 0.1);
    assert_eq!(t.flags, vec![s("tfFillOrKill")]);
}
