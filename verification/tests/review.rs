use dannesk::review::{send_review, trade_back, trade_review};
use dannesk::trade::join_seed_words;
use dannesk::words::{recovery_words, split_words};

fn s(t: &str) -> String {
    t.to_string()
}

fn rows(v: &[(&str, &str)]) -> Vec<(String, String)> {
    v.iter().map(|(a, b)| (s(a), s(b))).collect()
}

#[test]
fn xrp_payment_review() {
    let r = send_review(Some(s("rDest")), Some(s("12.5")), Some(s("XRP")), "6.25");
    assert_eq!(
        r,
        rows(&[
            ("RECIPIENT_ADDR", "rDest"),
            ("SEND_QUANTITY", "12.5 XRP"),
            ("USD_VALUATION", "$6.25"),
            ("NETWORK_ID", "XRP_LEDGER_MAINNET"),
        ])
    );
}

#[test]
fn token_payment_review() {
    let r = send_review(Some(s("rDest")), Some(s("3")), Some(s("EUROP")), "ignored");
    assert_eq!(r[2], (s("USD_VALUATION"), s("$3")));
    let r = send_review(Some(s("rDest")), Some(s("3")), Some(s("RLUSD")), "ignored");
    assert_eq!(
        r,
        rows(&[("RECIPIENT_ADDR", "rDest"), ("SEND_QUANTITY", "3 RLUSD"), ("NETWORK_ID", "XRP_LEDGER_MAINNET")])
    );
}

#[test]
fn payment_review_placeholders() {
    let r = send_review(None, None, None, "0.00");
    assert_eq!(r[0], (s("RECIPIENT_ADDR"), s("NULL")));
    assert_eq!(r[1], (s("SEND_QUANTITY"), s("0.00 XRP")));
    assert_eq!(r[2], (s("USD_VALUATION"), s("$0.00")));
}

#[test]
fn order_review() {
    let r = trade_review("XRP", "RLUSD", "10", "2.5", None, &vec![]);
    assert_eq!(
        r,
        rows(&[
            ("Buy Asset", "XRP"),
            ("Sell Asset", "RLUSD"),
            ("Amount", "10 XRP"),
            ("Limit Price", "2.5 RLUSD"),
            ("Trading Fees", "Auto"),
        ])
    );
    let r = trade_review("XRP", "RLUSD", "10", "2.5", Some(s("0.15%")), &vec![s("tfFillOrKill")]);
    assert_eq!(r[4], (s("Trading Fees"), s("0.15%")));
    assert_eq!(r[5], (s("Flags"), s("FillOrKill")));
}

#[test]
fn back_button_steps() {
    assert_eq!(trade_back(1), None);
    assert_eq!(trade_back(2), Some(1));
    assert_eq!(trade_back(3), Some(2));
}

#[test]
fn words_of_a_phrase() {
    assert_eq!(split_words("  alpha beta\tgamma\n delta  "), vec![s("alpha"), s("beta"), s("gamma"), s("delta")]);
    assert!(split_words("   ").is_empty());
    assert!(split_words("").is_empty());
    assert_eq!(split_words("one"), vec![s("one")]);
    assert_eq!(recovery_words(&Some(s("a b"))), vec![s("a"), s("b")]);
    assert!(recovery_words(&None).is_empty());
}

#[test]
fn joined_words_split_back() {
    let ws = vec![s("abandon"), s("ability"), s("able")];
    assert_eq!(split_words(&join_seed_words(&ws)), ws);
    let phrase = "abandon ability able";
    assert_eq!(join_seed_words(&split_words(phrase)), phrase);
}
