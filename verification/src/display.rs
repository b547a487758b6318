use vstd::prelude::*;
use crate::text::{append_text, chars_of, concat_text, lemma_encode_concat, string_from_chars};

verus! {

/// Where the first `.` of a text is, or the text's length if it has none.
pub open spec fn dot_position(s: Seq<char>) -> int
    decreases s.len(),
{
    if s.len() == 0 {
        0
    } else if s[0] == '.' {
        0
    } else {
        1 + dot_position(s.drop_first())
    }
}

/// A text without its trailing `0` characters.
pub open spec fn without_trailing_zeros(s: Seq<char>) -> Seq<char>
    decreases s.len(),
{
    if s.len() > 0 && s.last() == '0' {
        without_trailing_zeros(s.drop_last())
    } else {
        s
    }
}

/// A formatted number shown as an amount: trailing zeros of the fraction dropped, but at
/// least two decimals kept ("1" and "1.000" become "1.00", "1.1" becomes "1.10").
pub open spec fn currency_text(s: Seq<char>) -> Seq<char> {
    let d = dot_position(s);
    if d == s.len() {
        s + ".00"@
    } else {
        let int_part = s.subrange(0, d);
        let frac = without_trailing_zeros(s.subrange(d + 1, s.len() as int));
        if frac.len() == 0 {
            int_part + ".00"@
        } else if frac.len() == 1 {
            int_part + "."@ + frac + "0"@
        } else {
            int_part + "."@ + frac
        }
    }
}

proof fn lemma_dot_position(s: Seq<char>, i: int)
    requires
        0 <= i <= s.len(),
        forall|j: int| 0 <= j < i ==> s[j] != '.',
        i == s.len() || s[i] == '.',
    ensures
        dot_position(s) == i,
    decreases i,
{
    if i > 0 {
        let t = s.drop_first();
        assert forall|j: int| 0 <= j < i - 1 implies t[j] != '.' by {
            assert(t[j] == s[j + 1]);
        }
        if i < s.len() {
            assert(t[i - 1] == s[i]);
        }
        lemma_dot_position(t, i - 1);
    }
}

proof fn lemma_trailing_zeros(s: Seq<char>, k: int)
    requires
        0 <= k <= s.len(),
        forall|j: int| k <= j < s.len() ==> s[j] == '0',
        k == 0 || s[k - 1] != '0',
    ensures
        without_trailing_zeros(s) == s.subrange(0, k),
    decreases s.len() - k,
{
    if k == s.len() {
        assert(s.subrange(0, k) =~= s);
    } else {
        let t = s.drop_last();
        assert forall|j: int| k <= j < t.len() implies t[j] == '0' by {
            assert(t[j] == s[j]);
        }
        if k > 0 {
            assert(t[k - 1] == s[k - 1]);
        }
        lemma_trailing_zeros(t, k);
        assert(t.subrange(0, k) =~= s.subrange(0, k));
    }
}

/// Shows a formatted number as an amount with at least two decimals and no needless
/// trailing zeros.
pub fn currency_decimals(formatted: &str) -> (r: String)
    ensures
        r@ == currency_text(formatted@),
{
    let cs = chars_of(formatted);
    let n = cs.len();
    let mut d: usize = 0;
    while d < n && cs[d] != '.'
        invariant
            cs@ == formatted@,
            n == cs@.len(),
            0 <= d <= n,
            forall|j: int| 0 <= j < d ==> formatted@[j] != '.',
        decreases n - d,
    {
        d = d + 1;
    }
    proof {
        lemma_dot_position(formatted@, d as int);
    }
    if d == n {
        return concat_text(formatted, ".00");
    }
    let mut e: usize = n;
    while e > d + 1 && cs[e - 1] == '0'
        invariant
            cs@ == formatted@,
            n == cs@.len(),
            d < n,
            d + 1 <= e <= n,
            forall|j: int| e <= j < n ==> formatted@[j] == '0',
        decreases e,
    {
        e = e - 1;
    }
    let ghost fr = formatted@.subrange(d + 1, n as int);
    proof {
        assert forall|j: int| e - d - 1 <= j < fr.len() implies fr[j] == '0' by {
            assert(fr[j] == formatted@[j + d + 1]);
        }
        if e > d + 1 {
            assert(fr[e - d - 2] == formatted@[e - 1]);
        }
        lemma_trailing_zeros(fr, e - d - 1);
        assert(fr.subrange(0, e - d - 1) =~= formatted@.subrange(d + 1, e as int));
    }
    let mut r = formatted.substring_char(0, d).to_owned();
    let frac = formatted.substring_char(d + 1, e);
    if e == d + 1 {
        append_text(&mut r, ".00");
    } else if e == d + 2 {
        append_text(&mut r, ".");
        append_text(&mut r, frac);
        append_text(&mut r, "0");
    } else {
        append_text(&mut r, ".");
        append_text(&mut r, frac);
    }
    r
}

/// A number's decimal text cut to at most `decimals` digits after the point, without
/// rounding (with none, the point goes too); a text without a point is kept whole.
pub open spec fn truncated_fraction(s: Seq<char>, decimals: nat) -> Seq<char> {
    let d = dot_position(s);
    if d == s.len() {
        s
    } else if decimals == 0 {
        s.subrange(0, d)
    } else if d + 1 + decimals < s.len() {
        s.subrange(0, d + 1 + decimals)
    } else {
        s
    }
}

/// Shows a number's exact decimal text (as `f64`'s `Display` writes it) as an amount cut,
/// not rounded, to at most `decimals` decimals, with at least two decimals and no needless
/// trailing zeros.
pub fn truncate_amount_text(exact: &str, decimals: usize) -> (r: String)
    ensures
        r@ == currency_text(truncated_fraction(exact@, decimals as nat)),
{
    let n = exact.unicode_len();
    let mut d: usize = 0;
    while d < n && exact.get_char(d) != '.'
        invariant
            n == exact@.len(),
            0 <= d <= n,
            forall|j: int| 0 <= j < d ==> exact@[j] != '.',
        decreases n - d,
    {
        d = d + 1;
    }
    proof {
        lemma_dot_position(exact@, d as int);
    }
    let cut: String = if d == n {
        exact.to_owned()
    } else if decimals == 0 {
        exact.substring_char(0, d).to_owned()
    } else if decimals < n - d - 1 {
        exact.substring_char(0, d + 1 + decimals).to_owned()
    } else {
        exact.to_owned()
    };
    currency_decimals(cut.as_str())
}

/// The first eight bytes of a text and "..", or the whole text if it has at most eight bytes.
pub fn short_text(s: &str) -> (r: String)
    requires
        vstd::utf8::encode_utf8(s@).len() <= usize::MAX,
        vstd::utf8::encode_utf8(s@).len() > 8 ==> vstd::utf8::is_char_boundary(vstd::utf8::encode_utf8(s@), 8),
    ensures
        vstd::utf8::encode_utf8(s@).len() > 8 ==> vstd::utf8::encode_utf8(r@)
            == vstd::utf8::encode_utf8(s@).subrange(0, 8) + vstd::utf8::encode_utf8(".."@),
        vstd::utf8::encode_utf8(s@).len() <= 8 ==> r@ == s@,
{
    if s.len() > 8 {
        let (head, _) = s.split_at(8);
        let r = concat_text(head, "..");
        proof {
            lemma_encode_concat(head@, ".."@);
        }
        r
    } else {
        s.to_owned()
    }
}

/// The state of a ledger transaction.
#[derive(PartialEq, Eq, Debug, Structural)]
pub enum TransactionStatus {
    Success,
    Failed,
    Pending,
    Cancelled,
}

/// The status column of a transaction row: its text and its colour.
pub open spec fn status_cell(status: TransactionStatus) -> (Seq<char>, Seq<char>) {
    match status {
        TransactionStatus::Success => ("OK"@, "var(--status-ok)"@),
        TransactionStatus::Failed => ("FAIL"@, "var(--status-warn)"@),
        TransactionStatus::Pending => ("WAIT"@, "var(--accent)"@),
        TransactionStatus::Cancelled => ("VOID"@, "var(--text-secondary)"@),
    }
}

/// The text and colour shown for a transaction's status.
pub fn status_text(status: &TransactionStatus) -> (r: (String, String))
    ensures
        (r.0@, r.1@) == status_cell(*status),
{
    match status {
        TransactionStatus::Success => ("OK".to_owned(), "var(--status-ok)".to_owned()),
        TransactionStatus::Failed => ("FAIL".to_owned(), "var(--status-warn)".to_owned()),
        TransactionStatus::Pending => ("WAIT".to_owned(), "var(--accent)".to_owned()),
        TransactionStatus::Cancelled => ("VOID".to_owned(), "var(--text-secondary)".to_owned()),
    }
}

/// The background of a transaction row: rows alternate, starting with a clear one.
pub fn row_shade(index: usize) -> (r: String)
    ensures
        r@ == if index % 2 == 0 { "transparent"@ } else { "var(--bg-faint)"@ },
{
    if index % 2 == 0 { "transparent".to_owned() } else { "var(--bg-faint)".to_owned() }
}

/// The flags cell of a transaction row: the flags, or "---" when there are none.
pub fn flags_cell(flags: Option<&str>) -> (r: String)
    ensures
        r@ == match flags {
            Some(f) => f@,
            None => "---"@,
        },
{
    match flags {
        Some(f) => f.to_owned(),
        None => "---".to_owned(),
    }
}

} // verus!
