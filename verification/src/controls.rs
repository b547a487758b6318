use vstd::prelude::*;
use crate::text::same_text;

verus! {

/// The label of the theme toggle: which theme is on.
pub fn theme_toggle_label(is_dark: bool) -> (r: String)
    ensures
        r@ == if is_dark { "MODE_DRK"@ } else { "MODE_LGT"@ },
{
    if is_dark { "MODE_DRK".to_owned() } else { "MODE_LGT".to_owned() }
}

/// Theme and balance visibility (in that order) after the theme toggle is pressed: the
/// theme flips, the balance visibility stays.
pub open spec fn after_theme_toggle(s: (bool, bool)) -> (bool, bool) {
    (!s.0, s.1)
}

/// Theme and balance visibility after the balance toggle is pressed: the visibility flips,
/// the theme stays.
pub open spec fn after_balance_toggle(s: (bool, bool)) -> (bool, bool) {
    (s.0, !s.1)
}

/// What the theme toggle sends when pressed.
pub fn toggled_theme(is_dark: bool, hide_balance: bool) -> (r: (bool, bool))
    ensures
        r == after_theme_toggle((is_dark, hide_balance)),
{
    (!is_dark, hide_balance)
}

/// The label of the balance toggle: what pressing it does.
pub fn balance_toggle_label(hide_balance: bool) -> (r: String)
    ensures
        r@ == if hide_balance { "REVEAL"@ } else { "HIDE"@ },
{
    if hide_balance { "REVEAL".to_owned() } else { "HIDE".to_owned() }
}

/// What the balance toggle sends when pressed.
pub fn toggled_balance(is_dark: bool, hide_balance: bool) -> (r: (bool, bool))
    ensures
        r == after_balance_toggle((is_dark, hide_balance)),
{
    (is_dark, !hide_balance)
}

/// Pressing a toggle twice gives back the settings it started from; the two toggles
/// commute, and each leaves the other's setting alone.
pub proof fn law_toggles_undo(s: (bool, bool))
    ensures
        after_theme_toggle(after_theme_toggle(s)) == s,
        after_balance_toggle(after_balance_toggle(s)) == s,
        after_theme_toggle(after_balance_toggle(s)) == after_balance_toggle(after_theme_toggle(s)),
        after_theme_toggle(s).1 == s.1,
        after_balance_toggle(s).0 == s.0,
{
}

/// Which overlays are open.
pub struct ModalState {
    pub settings: bool,
    pub exchange: bool,
    pub name: bool,
}

/// Closes the overlay whose id is `id` ("name_overlay" or "settings_overlay"); any other
/// id changes nothing.
pub fn close_modal(state: &mut ModalState, id: &str)
    ensures
        final(state).exchange == old(state).exchange,
        final(state).name == if id@ == "name_overlay"@ { false } else { old(state).name },
        final(state).settings == if id@ == "settings_overlay"@ { false } else { old(state).settings },
{
    proof {
        reveal_strlit("name_overlay");
        reveal_strlit("settings_overlay");
        assert("name_overlay"@ != "settings_overlay"@) by {
            assert("name_overlay"@[0] != "settings_overlay"@[0]);
        }
    }
    if same_text(id, "name_overlay") {
        state.name = false;
    } else if same_text(id, "settings_overlay") {
        state.settings = false;
    }
}

/// The version shown as the latest: the one the server reported, or "vX.X.X" before it has.
pub fn shown_version(remote: Option<&str>) -> (r: String)
    ensures
        r@ == match remote {
            Some(v) => v@,
            None => "vX.X.X"@,
        },
{
    match remote {
        Some(v) => v.to_owned(),
        None => "vX.X.X".to_owned(),
    }
}

/// The markets of the ticker: pair, currency symbol and number of decimals shown.
pub open spec fn spec_ticker_markets() -> Seq<(Seq<char>, Seq<char>, usize)> {
    seq![
        ("BTC/USD"@, "$"@, 2usize),
        ("XRP/USD"@, "$"@, 4usize),
        ("EUR/USD"@, "$"@, 2usize),
        ("XRP/EUR"@, "€"@, 4usize),
        ("BTC/EUR"@, "€"@, 2usize),
    ]
}

/// The markets of the ticker, in order: pair, currency symbol and decimals shown.
pub fn ticker_markets() -> (r: Vec<(String, String, usize)>)
    ensures
        r.deep_view() == spec_ticker_markets(),
{
    let mut r: Vec<(String, String, usize)> = Vec::new();
    r.push(("BTC/USD".to_owned(), "$".to_owned(), 2));
    r.push(("XRP/USD".to_owned(), "$".to_owned(), 4));
    r.push(("EUR/USD".to_owned(), "$".to_owned(), 2));
    r.push(("XRP/EUR".to_owned(), "€".to_owned(), 4));
    r.push(("BTC/EUR".to_owned(), "€".to_owned(), 2));
    assert(r.deep_view() =~= spec_ticker_markets());
    r
}

/// The colour of a stream's status dot: green when connected, red otherwise.
pub open spec fn stream_color(connected: bool) -> Seq<char> {
    if connected { "#10B981"@ } else { "#ef4444"@ }
}

/// The status screen's summary line and its colour: all is well only when both streams
/// are connected.
pub open spec fn status_summary(crypto_connected: bool, exchange_connected: bool) -> (Seq<char>, Seq<char>) {
    if crypto_connected && exchange_connected {
        ("All systems are operational. Real-time data is active."@, "#999"@)
    } else {
        ("Connection interrupted. Attempting to restore data streams..."@, "#ef4444"@)
    }
}

/// What the status screen shows: the dot colours of the crypto and exchange-rate streams,
/// then the summary line and its colour.
pub fn connection_status(crypto_connected: bool, exchange_connected: bool) -> (r: (String, String, String, String))
    ensures
        r.0@ == stream_color(crypto_connected),
        r.1@ == stream_color(exchange_connected),
        (r.2@, r.3@) == status_summary(crypto_connected, exchange_connected),
{
    let crypto = if crypto_connected { "#10B981".to_owned() } else { "#ef4444".to_owned() };
    let exchange = if exchange_connected { "#10B981".to_owned() } else { "#ef4444".to_owned() };
    if crypto_connected && exchange_connected {
        (crypto, exchange, "All systems are operational. Real-time data is active.".to_owned(), "#999".to_owned())
    } else {
        (crypto, exchange, "Connection interrupted. Attempting to restore data streams...".to_owned(), "#ef4444".to_owned())
    }
}

/// The colour and opacity of a settings icon: full text colour when its screen is open,
/// the secondary colour at half opacity otherwise.
pub fn icon_emphasis(is_active: bool) -> (r: (String, String))
    ensures
        (r.0@, r.1@) == if is_active { ("var(--text)"@, "1.0"@) } else { ("var(--text-secondary)"@, "0.5"@) },
{
    if is_active {
        ("var(--text)".to_owned(), "1.0".to_owned())
    } else {
        ("var(--text-secondary)".to_owned(), "0.5".to_owned())
    }
}

/// The address shown on the receive screen: the wallet's, or "No Address" without one.
pub fn shown_address(address: Option<String>) -> (r: String)
    ensures
        r@ == match address {
            Some(a) => a@,
            None => "No Address"@,
        },
{
    match address {
        Some(a) => a,
        None => "No Address".to_owned(),
    }
}

} // verus!
