use vstd::prelude::*;
use crate::text::{append_text, contains_infix, has_infix, lowercase, same_text, to_lowercase, trim, trimmed};
use crate::trade_buffers::{copy_strings, update_buffers, written_trade_state, TradeState, TradeStateView, TradeStore};
use crate::trustline::copy_opt_string;

verus! {

/// An execution flag of an offer.
#[derive(PartialEq, Eq, Debug, Structural)]
pub enum ExecutionFlag {
    FillOrKill,
    ImmediateOrCancel,
}

/// How a flag is written in an offer's flag list.
pub open spec fn flag_value(f: ExecutionFlag) -> Seq<char> {
    match f {
        ExecutionFlag::FillOrKill => "tfFillOrKill"@,
        ExecutionFlag::ImmediateOrCancel => "tfImmediateOrCancel"@,
    }
}

/// The flag that cannot be set together with `f`.
pub open spec fn other_flag(f: ExecutionFlag) -> ExecutionFlag {
    match f {
        ExecutionFlag::FillOrKill => ExecutionFlag::ImmediateOrCancel,
        ExecutionFlag::ImmediateOrCancel => ExecutionFlag::FillOrKill,
    }
}

impl ExecutionFlag {
    /// How the flag is written in an offer's flag list.
    pub fn value(&self) -> (r: String)
        ensures
            r@ == flag_value(*self),
    {
        match self {
            ExecutionFlag::FillOrKill => "tfFillOrKill".to_owned(),
            ExecutionFlag::ImmediateOrCancel => "tfImmediateOrCancel".to_owned(),
        }
    }
}

/// A list without any entry equal to `v`, the order of the rest kept.
pub open spec fn remove_all(s: Seq<Seq<char>>, v: Seq<char>) -> Seq<Seq<char>>
    decreases s.len(),
{
    if s.len() == 0 {
        s
    } else if s.last() == v {
        remove_all(s.drop_last(), v)
    } else {
        remove_all(s.drop_last(), v).push(s.last())
    }
}

/// Toggling a flag: a set flag is removed; an unset one is added at the end, after the
/// flag it excludes is removed.
pub open spec fn toggled(s: Seq<Seq<char>>, f: ExecutionFlag) -> Seq<Seq<char>> {
    if s.contains(flag_value(f)) {
        remove_all(s, flag_value(f))
    } else {
        remove_all(s, flag_value(other_flag(f))).push(flag_value(f))
    }
}

/// Whether `v` holds the text `t`.
pub fn contains_text(v: &Vec<String>, t: &str) -> (r: bool)
    ensures
        r == v.deep_view().contains(t@),
{
    let mut i: usize = 0;
    while i < v.len()
        invariant
            0 <= i <= v@.len(),
            forall|j: int| 0 <= j < i ==> v@[j]@ != t@,
        decreases v@.len() - i,
    {
        if same_text(v[i].as_str(), t) {
            assert(v.deep_view()[i as int] == t@);
            return true;
        }
        i = i + 1;
    }
    proof {
        if v.deep_view().contains(t@) {
            let j = choose|j: int| 0 <= j < v.deep_view().len() && v.deep_view()[j] == t@;
            assert(v@[j]@ == t@);
        }
    }
    false
}

/// Removes every entry equal to `t`, keeping the order of the rest.
pub fn remove_text(v: &mut Vec<String>, t: &str)
    ensures
        final(v).deep_view() == remove_all(old(v).deep_view(), t@),
{
    let ghost orig = v.deep_view();
    let mut kept: Vec<String> = Vec::new();
    let mut i: usize = 0;
    while i < v.len()
        invariant
            v.deep_view() == orig,
            0 <= i <= v@.len(),
            kept.deep_view() == remove_all(orig.subrange(0, i as int), t@),
        decreases v@.len() - i,
    {
        proof {
            assert(orig.subrange(0, i + 1).drop_last() =~= orig.subrange(0, i as int));
            assert(orig.subrange(0, i + 1).last() == v@[i as int]@);
        }
        if !same_text(v[i].as_str(), t) {
            let ghost before = kept.deep_view();
            kept.push(v[i].clone());
            assert(kept.deep_view() =~= before.push(v@[i as int]@));
        }
        i = i + 1;
    }
    assert(orig.subrange(0, v@.len() as int) =~= orig);
    *v = kept;
}

/// Toggles an execution flag; the two flags exclude each other.
pub fn toggle_execution_flag(flags: &mut Vec<String>, flag: ExecutionFlag)
    ensures
        final(flags).deep_view() == toggled(old(flags).deep_view(), flag),
{
    let value = flag.value();
    if contains_text(flags, value.as_str()) {
        remove_text(flags, value.as_str());
    } else {
        let other = match flag {
            ExecutionFlag::FillOrKill => ExecutionFlag::ImmediateOrCancel,
            ExecutionFlag::ImmediateOrCancel => ExecutionFlag::FillOrKill,
        };
        let other_value = other.value();
        remove_text(flags, other_value.as_str());
        let ghost before = flags.deep_view();
        flags.push(value);
        assert(flags.deep_view() =~= before.push(flag_value(flag)));
    }
}

proof fn lemma_push_contains(x: Seq<Seq<char>>, a: Seq<char>, w: Seq<char>)
    ensures
        x.push(a).contains(w) == (x.contains(w) || a == w),
{
    if x.contains(w) {
        let j = choose|j: int| 0 <= j < x.len() && x[j] == w;
        assert(x.push(a)[j] == w);
    }
    if a == w {
        assert(x.push(a)[x.len() as int] == w);
    }
    if x.push(a).contains(w) {
        let j = choose|j: int| 0 <= j < x.push(a).len() && x.push(a)[j] == w;
        if j < x.len() {
            assert(x[j] == w);
        }
    }
}

proof fn lemma_remove_all_contains(s: Seq<Seq<char>>, v: Seq<char>, w: Seq<char>)
    ensures
        remove_all(s, v).contains(w) == (s.contains(w) && w != v),
    decreases s.len(),
{
    if s.len() == 0 {
    } else {
        let d = s.drop_last();
        lemma_remove_all_contains(d, v, w);
        assert(d.push(s.last()) =~= s);
        lemma_push_contains(d, s.last(), w);
        if s.last() != v {
            lemma_push_contains(remove_all(d, v), s.last(), w);
        }
    }
}

proof fn lemma_remove_all_absent(s: Seq<Seq<char>>, v: Seq<char>)
    requires
        !s.contains(v),
    ensures
        remove_all(s, v) == s,
    decreases s.len(),
{
    if s.len() > 0 {
        let d = s.drop_last();
        assert forall|j: int| 0 <= j < d.len() implies d[j] != v by {
            assert(s[j] == d[j]);
        }
        assert(s[s.len() - 1] != v);
        lemma_remove_all_absent(d, v);
        assert(d.push(s.last()) =~= s);
    }
}

/// After toggling, the two flags are never both set if they were not both set before; a
/// flag that was unset becomes set and clears the other; toggling an unset flag twice on a
/// list holding neither flag gives the list back.
pub proof fn law_flags_exclusive(s: Seq<Seq<char>>, f: ExecutionFlag)
    ensures
        !(s.contains(flag_value(f)) && s.contains(flag_value(other_flag(f))))
            ==> !(toggled(s, f).contains(flag_value(f)) && toggled(s, f).contains(flag_value(other_flag(f)))),
        !s.contains(flag_value(f)) ==> toggled(s, f).contains(flag_value(f))
            && !toggled(s, f).contains(flag_value(other_flag(f))),
        s.contains(flag_value(f)) ==> !toggled(s, f).contains(flag_value(f)),
        !s.contains(flag_value(f)) && !s.contains(flag_value(other_flag(f))) ==> toggled(toggled(s, f), f) == s,
{
    let v = flag_value(f);
    let o = flag_value(other_flag(f));
    reveal_strlit("tfFillOrKill");
    reveal_strlit("tfImmediateOrCancel");
    assert(v != o) by {
        assert(v.len() != o.len());
    }
    lemma_remove_all_contains(s, v, v);
    lemma_remove_all_contains(s, v, o);
    lemma_remove_all_contains(s, o, v);
    lemma_remove_all_contains(s, o, o);
    let t = remove_all(s, o).push(v);
    assert(t.last() == v);
    assert(t.contains(v));
    if !s.contains(v) {
        assert forall|j: int| 0 <= j < t.len() && t[j] == o implies false by {
            if j < t.len() - 1 {
                assert(remove_all(s, o)[j] == o);
                assert(remove_all(s, o).contains(o));
            }
        }
    }
    if !s.contains(v) && !s.contains(o) {
        lemma_remove_all_absent(s, o);
        lemma_remove_all_absent(s, v);
        assert(t.drop_last() =~= s);
        assert(remove_all(t, v) == remove_all(s, v));
    }
}

/// The checks of the first trade step, in order.
pub open spec fn step1_error(t: TradeStateView, amount_is_number: bool, price_is_number: bool) -> Option<Seq<char>> {
    if t.base_asset.len() == 0 || t.quote_asset.len() == 0 {
        Some("Please select a valid trading pair"@)
    } else if t.base_asset == t.quote_asset {
        Some("Base and quote assets cannot be the same"@)
    } else if t.amount.len() == 0 || !amount_is_number {
        Some("Please enter a valid amount"@)
    } else if t.limit_price.len() == 0 || !price_is_number {
        Some("Please enter a valid price"@)
    } else {
        None
    }
}

/// Runs the checks of the first trade step; `amount_is_number` and `price_is_number` tell
/// whether the amount and the limit price parse as numbers. The error is set on a refusal;
/// otherwise the error is cleared and the dialog moves to step 2.
pub fn check_step1(trade_state: &mut TradeState, amount_is_number: bool, price_is_number: bool)
    ensures
        final(trade_state)@ == match step1_error(old(trade_state)@, amount_is_number, price_is_number) {
            Some(e) => TradeStateView { error: Some(e), ..old(trade_state)@ },
            None => TradeStateView { error: None, step: 2, ..old(trade_state)@ },
        },
{
    trade_state.error = None;
    if trade_state.base_asset.as_str().is_empty() || trade_state.quote_asset.as_str().is_empty() {
        trade_state.error = Some("Please select a valid trading pair".to_owned());
    } else if trade_state.base_asset == trade_state.quote_asset {
        trade_state.error = Some("Base and quote assets cannot be the same".to_owned());
    } else if trade_state.amount.as_str().is_empty() || !amount_is_number {
        trade_state.error = Some("Please enter a valid amount".to_owned());
    } else if trade_state.limit_price.as_str().is_empty() || !price_is_number {
        trade_state.error = Some("Please enter a valid price".to_owned());
    } else {
        trade_state.step = 2;
    }
}

/// Writes the whole dialog `trade_state` into the store, if `buffer_id` is the stored
/// dialog's id.
pub fn write_trade_state(storage: &mut TradeStore, buffer_id: &str, trade_state: &TradeState)
    ensures
        final(storage)@ == if old(storage)@.search_query == buffer_id@ { trade_state@ } else { old(storage)@ },
{
    update_buffers(
        storage,
        buffer_id,
        trade_state.base_asset.clone(),
        trade_state.quote_asset.clone(),
        trade_state.amount.clone(),
        trade_state.limit_price.clone(),
        copy_strings(&trade_state.flags),
        trade_state.passphrase.clone(),
        trade_state.seed.clone(),
        trade_state.step,
        trade_state.done,
        copy_opt_string(&trade_state.error),
        trade_state.fee_percentage_bits,
        trade_state.search_query.clone(),
        trade_state.input_mode.clone(),
    );
}

/// The trading pairs on offer: label, base asset, quote asset.
pub open spec fn spec_trading_pairs() -> Seq<(Seq<char>, Seq<char>, Seq<char>)> {
    seq![
        ("XRP/RLUSD"@, "XRP"@, "RLUSD"@),
        ("RLUSD/XRP"@, "RLUSD"@, "XRP"@),
        ("XRP/EUROP"@, "XRP"@, "EUROP"@),
        ("EUROP/XRP"@, "EUROP"@, "XRP"@),
        ("RLUSD/EUROP"@, "RLUSD"@, "EUROP"@),
        ("EUROP/RLUSD"@, "EUROP"@, "RLUSD"@),
    ]
}

/// The trading pairs on offer: label, base asset, quote asset.
pub fn trading_pairs() -> (r: Vec<(String, String, String)>)
    ensures
        r.deep_view() == spec_trading_pairs(),
{
    let mut r: Vec<(String, String, String)> = Vec::new();
    r.push(("XRP/RLUSD".to_owned(), "XRP".to_owned(), "RLUSD".to_owned()));
    r.push(("RLUSD/XRP".to_owned(), "RLUSD".to_owned(), "XRP".to_owned()));
    r.push(("XRP/EUROP".to_owned(), "XRP".to_owned(), "EUROP".to_owned()));
    r.push(("EUROP/XRP".to_owned(), "EUROP".to_owned(), "XRP".to_owned()));
    r.push(("RLUSD/EUROP".to_owned(), "RLUSD".to_owned(), "EUROP".to_owned()));
    r.push(("EUROP/RLUSD".to_owned(), "EUROP".to_owned(), "RLUSD".to_owned()));
    assert(r.deep_view() =~= spec_trading_pairs());
    r
}

/// Picks trading pair `index`: base and quote are set, the pair's label becomes the search
/// text, amount and limit price are emptied and the error cleared.
pub fn select_pair(trade_state: &mut TradeState, index: usize)
    requires
        index < 6,
    ensures
        final(trade_state)@ == (TradeStateView {
            base_asset: spec_trading_pairs()[index as int].1,
            quote_asset: spec_trading_pairs()[index as int].2,
            search_query: spec_trading_pairs()[index as int].0,
            error: None,
            amount: Seq::empty(),
            limit_price: Seq::empty(),
            ..old(trade_state)@
        }),
{
    let pairs = trading_pairs();
    assert(pairs.deep_view().len() == pairs@.len());
    assert(pairs.deep_view()[index as int] == pairs@[index as int].deep_view());
    let (label, base, quote) = (pairs[index].0.clone(), pairs[index].1.clone(), pairs[index].2.clone());
    trade_state.base_asset = base;
    trade_state.quote_asset = quote;
    trade_state.search_query = label;
    trade_state.error = None;
    trade_state.amount = String::new();
    trade_state.limit_price = String::new();
}

/// Which exchange rate gives the market price of a pair, quote units per base unit.
#[derive(PartialEq, Eq, Debug, Structural)]
pub enum MarketRate {
    XrpUsd,
    InverseXrpUsd,
    XrpEur,
    InverseXrpEur,
    InverseEurUsd,
    EurUsd,
    Unknown,
}

/// The rate rule of a pair.
pub open spec fn spec_market_rate(base: Seq<char>, quote: Seq<char>) -> MarketRate {
    if base == "XRP"@ && quote == "RLUSD"@ {
        MarketRate::XrpUsd
    } else if base == "RLUSD"@ && quote == "XRP"@ {
        MarketRate::InverseXrpUsd
    } else if base == "XRP"@ && quote == "EUROP"@ {
        MarketRate::XrpEur
    } else if base == "EUROP"@ && quote == "XRP"@ {
        MarketRate::InverseXrpEur
    } else if base == "RLUSD"@ && quote == "EUROP"@ {
        MarketRate::InverseEurUsd
    } else if base == "EUROP"@ && quote == "RLUSD"@ {
        MarketRate::EurUsd
    } else {
        MarketRate::Unknown
    }
}

/// Which exchange rate prices the pair `base`/`quote`; the inverse rules divide one by the
/// rate (or give zero when it is not positive), which is left to the caller.
pub fn market_rate_rule(base: &str, quote: &str) -> (r: MarketRate)
    ensures
        r == spec_market_rate(base@, quote@),
{
    if same_text(base, "XRP") && same_text(quote, "RLUSD") {
        MarketRate::XrpUsd
    } else if same_text(base, "RLUSD") && same_text(quote, "XRP") {
        MarketRate::InverseXrpUsd
    } else if same_text(base, "XRP") && same_text(quote, "EUROP") {
        MarketRate::XrpEur
    } else if same_text(base, "EUROP") && same_text(quote, "XRP") {
        MarketRate::InverseXrpEur
    } else if same_text(base, "RLUSD") && same_text(quote, "EUROP") {
        MarketRate::InverseEurUsd
    } else if same_text(base, "EUROP") && same_text(quote, "RLUSD") {
        MarketRate::EurUsd
    } else {
        MarketRate::Unknown
    }
}

/// Every pair on offer has a rate rule.
pub proof fn law_pairs_priced(i: int)
    requires
        0 <= i < 6,
    ensures
        spec_market_rate(spec_trading_pairs()[i].1, spec_trading_pairs()[i].2) != MarketRate::Unknown,
{
    reveal_strlit("XRP");
    reveal_strlit("RLUSD");
    reveal_strlit("EUROP");
}

/// Why the final trade step refused to sign.
#[derive(PartialEq, Eq, Debug, Structural)]
pub enum TradeAuthError {
    PassphraseRequired,
    MnemonicLengthMismatch,
    InvalidAuthMode,
    AssetPairIdentityConflict,
    InvalidQuantity,
    InvalidLimitPrice,
}

impl TradeAuthError {
    /// The text shown for the refusal.
    pub open spec fn spec_message(&self) -> Seq<char> {
        match self {
            TradeAuthError::PassphraseRequired => "ERR: PASSPHRASE_REQUIRED"@,
            TradeAuthError::MnemonicLengthMismatch => "ERR: MNEMONIC_LENGTH_MISMATCH"@,
            TradeAuthError::InvalidAuthMode => "ERR: INVALID_AUTH_MODE"@,
            TradeAuthError::AssetPairIdentityConflict => "ERR: ASSET_PAIR_IDENTITY_CONFLICT"@,
            TradeAuthError::InvalidQuantity => "ERR: INVALID_QUANTITY"@,
            TradeAuthError::InvalidLimitPrice => "ERR: INVALID_LIMIT_PRICE"@,
        }
    }

    /// The text shown for the refusal.
    pub fn message(&self) -> (r: String)
        ensures
            r@ == self.spec_message(),
    {
        match self {
            TradeAuthError::PassphraseRequired => "ERR: PASSPHRASE_REQUIRED".to_owned(),
            TradeAuthError::MnemonicLengthMismatch => "ERR: MNEMONIC_LENGTH_MISMATCH".to_owned(),
            TradeAuthError::InvalidAuthMode => "ERR: INVALID_AUTH_MODE".to_owned(),
            TradeAuthError::AssetPairIdentityConflict => "ERR: ASSET_PAIR_IDENTITY_CONFLICT".to_owned(),
            TradeAuthError::InvalidQuantity => "ERR: INVALID_QUANTITY".to_owned(),
            TradeAuthError::InvalidLimitPrice => "ERR: INVALID_LIMIT_PRICE".to_owned(),
        }
    }
}

/// How many of the words are not blank.
pub open spec fn filled_count(words: Seq<Seq<char>>) -> nat
    decreases words.len(),
{
    if words.len() == 0 {
        0
    } else {
        filled_count(words.drop_last()) + if trimmed(words.last()).len() == 0 { 0nat } else { 1nat }
    }
}

/// The outcome of the final trade step's checks, in order: the credential first, then the
/// pair, the quantity and the limit price.
pub open spec fn trade_auth_check(
    mode: Seq<char>,
    passphrase: Seq<char>,
    words: Seq<Seq<char>>,
    base: Seq<char>,
    quote: Seq<char>,
    amount_positive: bool,
    price_positive: bool,
) -> Result<(), TradeAuthError> {
    if mode == "passphrase"@ && trimmed(passphrase).len() == 0 {
        Err(TradeAuthError::PassphraseRequired)
    } else if mode == "seed"@ && filled_count(words) != 24 {
        Err(TradeAuthError::MnemonicLengthMismatch)
    } else if mode != "passphrase"@ && mode != "seed"@ {
        Err(TradeAuthError::InvalidAuthMode)
    } else if base == quote {
        Err(TradeAuthError::AssetPairIdentityConflict)
    } else if !amount_positive {
        Err(TradeAuthError::InvalidQuantity)
    } else if !price_positive {
        Err(TradeAuthError::InvalidLimitPrice)
    } else {
        Ok(())
    }
}

fn count_filled(words: &Vec<String>) -> (n: usize)
    ensures
        n == filled_count(words.deep_view()),
{
    let mut n: usize = 0;
    let mut i: usize = 0;
    while i < words.len()
        invariant
            0 <= i <= words@.len(),
            n == filled_count(words.deep_view().subrange(0, i as int)),
            n <= i,
        decreases words@.len() - i,
    {
        proof {
            assert(words.deep_view().subrange(0, i + 1).drop_last() =~= words.deep_view().subrange(0, i as int));
        }
        if !trim(words[i].as_str()).as_str().is_empty() {
            n = n + 1;
        }
        i = i + 1;
    }
    assert(words.deep_view().subrange(0, words@.len() as int) =~= words.deep_view());
    n
}

/// Runs the final trade step's checks. In seed mode exactly 24 non-blank words are needed.
/// `amount_positive` and `price_positive` tell whether the amount and the limit price parse
/// to numbers above zero.
pub fn check_trade_authorization(
    mode: &str,
    passphrase: &str,
    seed_words: &Vec<String>,
    base: &str,
    quote: &str,
    amount_positive: bool,
    price_positive: bool,
) -> (r: Result<(), TradeAuthError>)
    ensures
        r == trade_auth_check(mode@, passphrase@, seed_words.deep_view(), base@, quote@, amount_positive, price_positive),
{
    let is_passphrase = same_text(mode, "passphrase");
    let is_seed = same_text(mode, "seed");
    proof {
        reveal_strlit("passphrase");
        reveal_strlit("seed");
        assert("passphrase"@.len() != "seed"@.len());
    }
    if is_passphrase {
        if trim(passphrase).as_str().is_empty() {
            return Err(TradeAuthError::PassphraseRequired);
        }
    } else if is_seed {
        if count_filled(seed_words) != 24 {
            return Err(TradeAuthError::MnemonicLengthMismatch);
        }
    } else {
        return Err(TradeAuthError::InvalidAuthMode);
    }
    if same_text(base, quote) {
        Err(TradeAuthError::AssetPairIdentityConflict)
    } else if !amount_positive {
        Err(TradeAuthError::InvalidQuantity)
    } else if !price_positive {
        Err(TradeAuthError::InvalidLimitPrice)
    } else {
        Ok(())
    }
}

/// The non-empty words joined by single spaces.
pub open spec fn joined_words(words: Seq<Seq<char>>) -> Seq<char>
    decreases words.len(),
{
    if words.len() == 0 {
        Seq::empty()
    } else {
        let head = joined_words(words.drop_last());
        if words.last().len() == 0 {
            head
        } else if head.len() == 0 {
            words.last()
        } else {
            head + " "@ + words.last()
        }
    }
}

/// The recovery phrase from the entered words: the non-empty words joined by single spaces.
pub fn join_seed_words(words: &Vec<String>) -> (r: String)
    ensures
        r@ == joined_words(words.deep_view()),
{
    let mut r = String::new();
    let mut i: usize = 0;
    while i < words.len()
        invariant
            0 <= i <= words@.len(),
            r@ == joined_words(words.deep_view().subrange(0, i as int)),
        decreases words@.len() - i,
    {
        proof {
            assert(words.deep_view().subrange(0, i + 1).drop_last() =~= words.deep_view().subrange(0, i as int));
        }
        let w = words[i].as_str();
        if !w.is_empty() {
            if !r.as_str().is_empty() {
                append_text(&mut r, " ");
            }
            append_text(&mut r, w);
        }
        proof {
            if w@.len() != 0 {
                assert(r@ =~= joined_words(words.deep_view().subrange(0, i + 1)));
            }
        }
        i = i + 1;
    }
    assert(words.deep_view().subrange(0, words@.len() as int) =~= words.deep_view());
    r
}

/// A flag without its `tf` prefix, if it has one.
pub open spec fn flag_label(f: Seq<char>) -> Seq<char> {
    if f.len() >= 2 && f[0] == 't' && f[1] == 'f' {
        f.subrange(2, f.len() as int)
    } else {
        f
    }
}

/// The labels of the flags joined by ", ".
pub open spec fn joined_flag_labels(flags: Seq<Seq<char>>) -> Seq<char>
    decreases flags.len(),
{
    if flags.len() == 0 {
        Seq::empty()
    } else if flags.len() == 1 {
        flag_label(flags[0])
    } else {
        joined_flag_labels(flags.drop_last()) + ", "@ + flag_label(flags.last())
    }
}

/// How the review step shows the flags: "None" when there are none, otherwise the flags
/// without their `tf` prefix, separated by ", ".
pub open spec fn flags_display_text(flags: Seq<Seq<char>>) -> Seq<char> {
    if flags.len() == 0 {
        "None"@
    } else {
        joined_flag_labels(flags)
    }
}

fn strip_tf(f: &str) -> (r: String)
    ensures
        r@ == flag_label(f@),
{
    let n = f.unicode_len();
    if n >= 2 && f.get_char(0) == 't' && f.get_char(1) == 'f' {
        f.substring_char(2, n).to_owned()
    } else {
        f.to_owned()
    }
}

/// The flags as the review step shows them.
pub fn flags_display(flags: &Vec<String>) -> (r: String)
    ensures
        r@ == flags_display_text(flags.deep_view()),
{
    if flags.len() == 0 {
        return "None".to_owned();
    }
    let mut r = strip_tf(flags[0].as_str());
    proof {
        assert(flags.deep_view().subrange(0, 1) =~= seq![flags.deep_view()[0]]);
        assert(joined_flag_labels(flags.deep_view().subrange(0, 1)) == flag_label(flags.deep_view()[0]));
    }
    let mut i: usize = 1;
    while i < flags.len()
        invariant
            1 <= i <= flags@.len(),
            r@ == joined_flag_labels(flags.deep_view().subrange(0, i as int)),
        decreases flags@.len() - i,
    {
        proof {
            assert(flags.deep_view().subrange(0, i + 1).drop_last() =~= flags.deep_view().subrange(0, i as int));
        }
        append_text(&mut r, ", ");
        let label = strip_tf(flags[i].as_str());
        append_text(&mut r, label.as_str());
        i = i + 1;
    }
    assert(flags.deep_view().subrange(0, flags@.len() as int) =~= flags.deep_view());
    r
}

/// Whether pair `i` is listed for a search: its lowercase label contains the lowercase query.
pub open spec fn pair_listed(i: int, query: Seq<char>) -> bool {
    has_infix(lowercase(spec_trading_pairs()[i].0), lowercase(query))
}

/// The pairs among the first `n` that a search lists, in order.
pub open spec fn listed_pairs(query: Seq<char>, n: int) -> Seq<usize>
    decreases n,
{
    if n <= 0 {
        Seq::empty()
    } else if pair_listed(n - 1, query) {
        listed_pairs(query, n - 1).push((n - 1) as usize)
    } else {
        listed_pairs(query, n - 1)
    }
}

/// The positions of the trading pairs whose label contains the query, ignoring case.
pub fn matching_pairs(query: &str) -> (r: Vec<usize>)
    ensures
        r@ == listed_pairs(query@, 6),
{
    let q = to_lowercase(query);
    let pairs = trading_pairs();
    assert(pairs.deep_view().len() == pairs@.len());
    let mut r: Vec<usize> = Vec::new();
    let mut i: usize = 0;
    while i < pairs.len()
        invariant
            pairs.deep_view() == spec_trading_pairs(),
            pairs@.len() == 6,
            q@ == lowercase(query@),
            0 <= i <= 6,
            r@ == listed_pairs(query@, i as int),
        decreases 6 - i,
    {
        assert(pairs.deep_view()[i as int].0 == pairs@[i as int].0@);
        let label = to_lowercase(pairs[i].0.as_str());
        if contains_infix(label.as_str(), q.as_str()) {
            r.push(i);
        }
        i = i + 1;
    }
    r
}

/// Whether the order form may go on to review: a pair is chosen, amount and limit price
/// are filled in, and an execution flag is set.
pub fn trade_form_ready(base: &str, quote: &str, amount: &str, limit_price: &str, flags: &Vec<String>) -> (r: bool)
    ensures
        r == (base@.len() > 0 && quote@.len() > 0 && amount@.len() > 0 && limit_price@.len() > 0 && flags@.len() > 0),
{
    !base.is_empty() && !quote.is_empty() && !amount.is_empty() && !limit_price.is_empty() && flags.len() > 0
}

/// Whether the pair list is open: while searching, or once something is typed.
pub fn pair_list_open(query: &str, is_searching: bool) -> (r: bool)
    ensures
        r == (query@.len() > 0 || is_searching),
{
    !query.is_empty() || is_searching
}

/// A limit price typed in by hand: it replaces the price and drops the chosen spread (the
/// fee percentage goes back to zero).
pub fn set_limit_price(trade_state: &mut TradeState, price: String)
    ensures
        final(trade_state)@ == (TradeStateView { limit_price: price@, fee_percentage_bits: 0, ..old(trade_state)@ }),
{
    trade_state.limit_price = price;
    trade_state.fee_percentage_bits = 0;
}

/// The rate rule of the line shown under the order form ("1 BASE = rate QUOTE"). It agrees
/// with `spec_market_rate` except on the two RLUSD/EUROP pairs, whose rules it swaps.
pub open spec fn spec_rate_line_rule(base: Seq<char>, quote: Seq<char>) -> MarketRate {
    if base == "RLUSD"@ && quote == "EUROP"@ {
        MarketRate::EurUsd
    } else if base == "EUROP"@ && quote == "RLUSD"@ {
        MarketRate::InverseEurUsd
    } else {
        spec_market_rate(base, quote)
    }
}

/// The rate rule of the line shown under the order form.
pub fn rate_line_rule(base: &str, quote: &str) -> (r: MarketRate)
    ensures
        r == spec_rate_line_rule(base@, quote@),
{
    if same_text(base, "RLUSD") && same_text(quote, "EUROP") {
        MarketRate::EurUsd
    } else if same_text(base, "EUROP") && same_text(quote, "RLUSD") {
        MarketRate::InverseEurUsd
    } else {
        market_rate_rule(base, quote)
    }
}

/// The "Review Trade" button of the order form: when the form is ready (a pair chosen,
/// amount and limit price filled in, an execution flag set) the chosen pair, amount, limit
/// price, fee and flags are written into the dialog and it moves to step 2; otherwise the
/// dialog is left as it was. Whether the dialog moved on.
pub fn commit_review(
    trade_state: &mut TradeState,
    base: String,
    quote: String,
    amount: String,
    limit_price: String,
    fee_percentage_bits: u64,
    flags: Vec<String>,
) -> (moved: bool)
    ensures
        moved == (base@.len() > 0 && quote@.len() > 0 && amount@.len() > 0 && limit_price@.len() > 0 && flags@.len() > 0),
        final(trade_state)@ == if moved {
            TradeStateView {
                base_asset: base@,
                quote_asset: quote@,
                amount: amount@,
                limit_price: limit_price@,
                fee_percentage_bits,
                flags: flags.deep_view(),
                step: 2,
                ..old(trade_state)@
            }
        } else {
            old(trade_state)@
        },
{
    if !trade_form_ready(base.as_str(), quote.as_str(), amount.as_str(), limit_price.as_str(), &flags) {
        return false;
    }
    trade_state.base_asset = base;
    trade_state.quote_asset = quote;
    trade_state.amount = amount;
    trade_state.limit_price = limit_price;
    trade_state.fee_percentage_bits = fee_percentage_bits;
    trade_state.flags = flags;
    trade_state.step = 2;
    true
}

/// An order is only signed with a valid credential for its mode, distinct assets, and a
/// positive amount and limit price, whichever credential mode is used.
pub proof fn law_trade_auth_ok_means_valid(
    mode: Seq<char>,
    passphrase: Seq<char>,
    words: Seq<Seq<char>>,
    base: Seq<char>,
    quote: Seq<char>,
    amount_positive: bool,
    price_positive: bool,
)
    ensures
        trade_auth_check(mode, passphrase, words, base, quote, amount_positive, price_positive) is Ok ==> {
            &&& amount_positive && price_positive && base != quote
            &&& mode == "passphrase"@ || mode == "seed"@
            &&& mode == "passphrase"@ ==> trimmed(passphrase).len() > 0
            &&& mode == "seed"@ ==> filled_count(words) == 24
        },
        !price_positive ==> trade_auth_check(mode, passphrase, words, base, quote, amount_positive, price_positive) is Err,
        !amount_positive ==> trade_auth_check(mode, passphrase, words, base, quote, amount_positive, price_positive) is Err,
{
}

/// Every trading pair's label is its base asset, a slash and its quote asset, and the two
/// assets differ.
pub proof fn law_pair_labels(i: int)
    requires
        0 <= i < 6,
    ensures
        spec_trading_pairs()[i].0 == spec_trading_pairs()[i].1 + "/"@ + spec_trading_pairs()[i].2,
        spec_trading_pairs()[i].1 != spec_trading_pairs()[i].2,
{
    reveal_strlit("XRP");
    reveal_strlit("RLUSD");
    reveal_strlit("EUROP");
    reveal_strlit("/");
    reveal_strlit("XRP/RLUSD");
    reveal_strlit("RLUSD/XRP");
    reveal_strlit("XRP/EUROP");
    reveal_strlit("EUROP/XRP");
    reveal_strlit("RLUSD/EUROP");
    reveal_strlit("EUROP/RLUSD");
    assert("XRP/RLUSD"@ =~= "XRP"@ + "/"@ + "RLUSD"@);
    assert("RLUSD/XRP"@ =~= "RLUSD"@ + "/"@ + "XRP"@);
    assert("XRP/EUROP"@ =~= "XRP"@ + "/"@ + "EUROP"@);
    assert("EUROP/XRP"@ =~= "EUROP"@ + "/"@ + "XRP"@);
    assert("RLUSD/EUROP"@ =~= "RLUSD"@ + "/"@ + "EUROP"@);
    assert("EUROP/RLUSD"@ =~= "EUROP"@ + "/"@ + "RLUSD"@);
    assert("XRP"@.len() != "RLUSD"@.len() && "XRP"@.len() != "EUROP"@.len());
    assert("RLUSD"@ != "EUROP"@) by {
        assert("RLUSD"@[0] != "EUROP"@[0]);
    }
}

} // verus!
