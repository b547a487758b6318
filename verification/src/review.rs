use vstd::prelude::*;
use crate::text::{append_text, concat_text, same_text};
use crate::trade::{flags_display, flags_display_text};

verus! {

/// The rows of the payment review: recipient, quantity, the USD value unless the asset is
/// RLUSD (for XRP the caller's valuation at the XRP rate, for a token the amount itself),
/// and the network.
pub open spec fn send_review_rows(recipient: Seq<char>, amount: Seq<char>, asset: Seq<char>, xrp_usd: Seq<char>) -> Seq<(Seq<char>, Seq<char>)> {
    let usd = if asset == "XRP"@ { xrp_usd } else { amount };
    let head = seq![("RECIPIENT_ADDR"@, recipient), ("SEND_QUANTITY"@, amount + " "@ + asset)];
    let rows = if asset != "RLUSD"@ { head.push(("USD_VALUATION"@, "$"@ + usd)) } else { head };
    rows.push(("NETWORK_ID"@, "XRP_LEDGER_MAINNET"@))
}

/// A missing field shown as its placeholder.
pub open spec fn or_placeholder(v: Option<Seq<char>>, placeholder: Seq<char>) -> Seq<char> {
    match v {
        Some(s) => s,
        None => placeholder,
    }
}

fn or_default(v: Option<String>, placeholder: &str) -> (r: String)
    ensures
        r@ == or_placeholder(v.deep_view(), placeholder@),
{
    match v {
        Some(s) => s,
        None => placeholder.to_owned(),
    }
}

/// The review rows of a payment. A missing recipient shows as "NULL", a missing amount as
/// "0.00" and a missing asset as "XRP"; `xrp_usd` is the USD value of the amount at the XRP
/// rate, used when the asset is XRP.
pub fn send_review(recipient: Option<String>, amount: Option<String>, asset: Option<String>, xrp_usd: &str) -> (r: Vec<(String, String)>)
    ensures
        r.deep_view() == send_review_rows(
            or_placeholder(recipient.deep_view(), "NULL"@),
            or_placeholder(amount.deep_view(), "0.00"@),
            or_placeholder(asset.deep_view(), "XRP"@),
            xrp_usd@,
        ),
{
    let recipient = or_default(recipient, "NULL");
    let amount = or_default(amount, "0.00");
    let asset = or_default(asset, "XRP");
    let is_xrp = same_text(asset.as_str(), "XRP");
    let is_rlusd = same_text(asset.as_str(), "RLUSD");
    let mut quantity = amount.clone();
    append_text(&mut quantity, " ");
    append_text(&mut quantity, asset.as_str());
    let usd = if is_xrp { concat_text("$", xrp_usd) } else { concat_text("$", amount.as_str()) };
    let mut rows: Vec<(String, String)> = Vec::new();
    rows.push(("RECIPIENT_ADDR".to_owned(), recipient));
    rows.push(("SEND_QUANTITY".to_owned(), quantity));
    if !is_rlusd {
        rows.push(("USD_VALUATION".to_owned(), usd));
    }
    rows.push(("NETWORK_ID".to_owned(), "XRP_LEDGER_MAINNET".to_owned()));
    let ghost want = send_review_rows(recipient@, amount@, asset@, xrp_usd@);
    assert(rows.deep_view() =~= want);
    rows
}

/// The rows of the order review: the asset bought and sold, the amount in the base asset,
/// the limit price in the quote asset, the fee ("Auto" when none was set) and, when any
/// are set, the execution flags.
pub open spec fn trade_review_rows(
    base: Seq<char>,
    quote: Seq<char>,
    amount: Seq<char>,
    limit_price: Seq<char>,
    fee: Option<Seq<char>>,
    flags: Seq<Seq<char>>,
) -> Seq<(Seq<char>, Seq<char>)> {
    let rows = seq![
        ("Buy Asset"@, base),
        ("Sell Asset"@, quote),
        ("Amount"@, amount + " "@ + base),
        ("Limit Price"@, limit_price + " "@ + quote),
        ("Trading Fees"@, or_placeholder(fee, "Auto"@)),
    ];
    if flags.len() == 0 { rows } else { rows.push(("Flags"@, flags_display_text(flags))) }
}

/// The review rows of an order; `fee` is the fee percentage as shown, or nothing when the
/// fee is left to the network.
pub fn trade_review(
    base: &str,
    quote: &str,
    amount: &str,
    limit_price: &str,
    fee: Option<String>,
    flags: &Vec<String>,
) -> (r: Vec<(String, String)>)
    ensures
        r.deep_view() == trade_review_rows(base@, quote@, amount@, limit_price@, fee.deep_view(), flags.deep_view()),
{
    let mut amount_text = amount.to_owned();
    append_text(&mut amount_text, " ");
    append_text(&mut amount_text, base);
    let mut price_text = limit_price.to_owned();
    append_text(&mut price_text, " ");
    append_text(&mut price_text, quote);
    let mut rows: Vec<(String, String)> = Vec::new();
    rows.push(("Buy Asset".to_owned(), base.to_owned()));
    rows.push(("Sell Asset".to_owned(), quote.to_owned()));
    rows.push(("Amount".to_owned(), amount_text));
    rows.push(("Limit Price".to_owned(), price_text));
    rows.push(("Trading Fees".to_owned(), or_default(fee, "Auto")));
    if flags.len() > 0 {
        rows.push(("Flags".to_owned(), flags_display(flags)));
    }
    assert(flags.deep_view().len() == flags@.len());
    assert(rows.deep_view() =~= trade_review_rows(base@, quote@, amount@, limit_price@, fee.deep_view(), flags.deep_view()));
    rows
}

/// Where the back button of the trade dialog leads: one step back, or, from the first
/// step, out of the dialog (`None`).
pub fn trade_back(step: u8) -> (r: Option<u8>)
    requires
        step >= 1,
    ensures
        r == if step == 1 { None } else { Some((step - 1) as u8) },
{
    if step == 1 { None } else { Some(step - 1) }
}

} // verus!
