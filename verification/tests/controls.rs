use dannesk::controls::{
    balance_toggle_label, close_modal, connection_status, icon_emphasis, shown_address, shown_version,
    theme_toggle_label, ticker_markets, toggled_balance, toggled_theme, ModalState,
};
use dannesk::settings::PinLogic;

#[test]
fn theme_toggle() {
    assert_eq!(theme_toggle_label(true), "MODE_DRK");
    assert_eq!(theme_toggle_label(false), "MODE_LGT");
    assert_eq!(toggled_theme(true, false), (false, false));
    let (d, h) = toggled_theme(false, true);
    assert_eq!(toggled_theme(d, h), (false, true));
}

#[test]
fn balance_toggle() {
    assert_eq!(balance_toggle_label(false), "HIDE");
    assert_eq!(balance_toggle_label(true), "REVEAL");
    assert_eq!(toggled_balance(true, false), (true, true));
    let (d, h) = toggled_balance(false, true);
    assert_eq!(toggled_balance(d, h), (false, true));
}

#[test]
fn closing_overlays() {
    let mut m = ModalState { settings: true, exchange: true, name: true };
    close_modal(&mut m, "name_overlay");
    assert!(!m.name && m.settings && m.exchange);
    close_modal(&mut m, "exchange_overlay");
    assert!(m.settings && m.exchange);
    close_modal(&mut m, "settings_overlay");
    assert!(!m.settings && m.exchange);
}

#[test]
fn versions_and_markets() {
    assert_eq!(shown_version(None), "vX.X.X");
    assert_eq!(shown_version(Some("v0.4.0")), "v0.4.0");
    let m = ticker_markets();
    assert_eq!(m.len(), 5);
    assert_eq!(m[0], ("BTC/USD".to_string(), "$".to_string(), 2));
    assert_eq!(m[3], ("XRP/EUR".to_string(), "€".to_string(), 4));
}

#[test]
fn stream_status() {
    let (c, e, text, color) = connection_status(true, true);
    assert_eq!((c.as_str(), e.as_str()), ("#10B981", "#10B981"));
    assert_eq!(text, "All systems are operational. Real-time data is active.");
    assert_eq!(color, "#999");
    let (c, e, text, color) = connection_status(true, false);
    assert_eq!((c.as_str(), e.as_str()), ("#10B981", "#ef4444"));
    assert_eq!(text, "Connection interrupted. Attempting to restore data streams...");
    assert_eq!(color, "#ef4444");
}

#[test]
fn small_screen_texts() {
    assert_eq!(icon_emphasis(true), ("var(--text)".to_string(), "1.0".to_string()));
    assert_eq!(icon_emphasis(false), ("var(--text-secondary)".to_string(), "0.5".to_string()));
    assert_eq!(shown_address(None), "No Address");
    assert_eq!(shown_address(Some("rAbc".to_string())), "rAbc");
    assert_eq!(PinLogic::outcome_message(true), "Name updated successfully!");
    assert_eq!(PinLogic::outcome_message(false), "Error: PIN update failed. Check old PIN.");
}
