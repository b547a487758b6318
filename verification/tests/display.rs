use dannesk::display::{
    currency_decimals, flags_cell, row_shade, short_text, status_text, truncate_amount_text, TransactionStatus,
};
use dannesk::transactions::{recent_order, recent_transactions};

fn s(t: &str) -> String {
    t.to_string()
}

#[test]
fn currency_text_keeps_two_decimals() {
    assert_eq!(currency_decimals("1.000000"), "1.00");
    assert_eq!(currency_decimals("1.100000"), "1.10");
    assert_eq!(currency_decimals("1.123400"), "1.1234");
    assert_eq!(currency_decimals("12"), "12.00");
    assert_eq!(currency_decimals("0.000001"), "0.000001");
    assert_eq!(currency_decimals(&format!("{:.6}", 2.5f64)), "2.50");
}

#[test]
fn short_ids() {
    assert_eq!(short_text("ABCDEF0123456789"), "ABCDEF01..");
    assert_eq!(short_text("ABCDEF01"), "ABCDEF01");
    assert_eq!(short_text(""), "");
}

#[test]
fn status_cells() {
    assert_eq!(status_text(&TransactionStatus::Success), (s("OK"), s("var(--status-ok)")));
    assert_eq!(status_text(&TransactionStatus::Failed), (s("FAIL"), s("var(--status-warn)")));
    assert_eq!(status_text(&TransactionStatus::Pending), (s("WAIT"), s("var(--accent)")));
    assert_eq!(status_text(&TransactionStatus::Cancelled), (s("VOID"), s("var(--text-secondary)")));
}

#[test]
fn newest_transactions_first() {
    let ts = vec![
        s("2024-01-02T00:00:00Z"),
        s("not a date"),
        s("2024-03-01 12:00:00+00:00"),
        s("2024-01-02T00:00:00Z"),
        s("2023-12-31T23:59:59.5Z"),
    ];
    assert_eq!(recent_transactions(&ts), vec![2, 0, 3, 4, 1]);
}

#[test]
fn listing_is_capped() {
    let keys: Vec<(i64, u32)> = (0..150).map(|i| (i as i64, 0)).collect();
    let r = recent_order(&keys, 100);
    assert_eq!(r.len(), 100);
    assert_eq!(r[0], 149);
    assert_eq!(r[99], 50);
    assert_eq!(recent_order(&keys, 0), Vec::<usize>::new());
}

#[test]
fn row_cells() {
    assert_eq!(row_shade(0), "transparent");
    assert_eq!(row_shade(1), "var(--bg-faint)");
    assert_eq!(row_shade(4), "transparent");
    assert_eq!(flags_cell(None), "---");
    assert_eq!(flags_cell(Some("tfSell")), "tfSell");
}

#[test]
fn unparsable_timestamps_sort_as_the_earliest_instant() {
    let min = chrono::DateTime::<chrono::Utc>::MIN_UTC;
    assert_eq!((min.timestamp(), min.timestamp_subsec_nanos()), (-8334601228800, 0));
    let ts = vec![s("garbage"), s("1970-01-01T00:00:00Z"), s("")];
    assert_eq!(recent_transactions(&ts), vec![1, 0, 2]);
}

#[test]
fn amounts_are_cut_not_rounded() {
    assert_eq!(truncate_amount_text("1.23456789", 6), "1.234567");
    assert_eq!(truncate_amount_text("1.9999999", 6), "1.999999");
    assert_eq!(truncate_amount_text(&format!("{}", 0.29f64), 6), "0.29");
    assert_eq!(truncate_amount_text("2", 6), "2.00");
    assert_eq!(truncate_amount_text("2.5", 6), "2.50");
    assert_eq!(truncate_amount_text("5.97", 0), "5.00");
    assert_eq!(truncate_amount_text("-0.1234567", 6), "-0.123456");
}
