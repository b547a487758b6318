use vstd::prelude::*;
use crate::ids::new_uuid_string;
use crate::send_buffers::passphrase_mode;
use crate::trustline::copy_opt_string;

verus! {

/// The state of the trade dialog. The fee percentage is kept as the bit pattern of its
/// IEEE-754 double (`f64::to_bits`); `0` is the percentage `0.0`.
pub struct TradeState {
    pub step: u8,
    pub done: bool,
    pub base_asset: String,
    pub quote_asset: String,
    pub amount: String,
    pub limit_price: String,
    pub flags: Vec<String>,
    pub passphrase: String,
    pub seed: String,
    pub error: Option<String>,
    pub fee_percentage_bits: u64,
    pub search_query: String,
    pub input_mode: String,
}

/// What the trade dialog holds, with its texts as character sequences.
pub struct TradeStateView {
    pub step: u8,
    pub done: bool,
    pub base_asset: Seq<char>,
    pub quote_asset: Seq<char>,
    pub amount: Seq<char>,
    pub limit_price: Seq<char>,
    pub flags: Seq<Seq<char>>,
    pub passphrase: Seq<char>,
    pub seed: Seq<char>,
    pub error: Option<Seq<char>>,
    pub fee_percentage_bits: u64,
    pub search_query: Seq<char>,
    pub input_mode: Seq<char>,
}

impl View for TradeState {
    type V = TradeStateView;

    open spec fn view(&self) -> TradeStateView {
        TradeStateView {
            step: self.step,
            done: self.done,
            base_asset: self.base_asset@,
            quote_asset: self.quote_asset@,
            amount: self.amount@,
            limit_price: self.limit_price@,
            flags: self.flags.deep_view(),
            passphrase: self.passphrase@,
            seed: self.seed@,
            error: self.error.deep_view(),
            fee_percentage_bits: self.fee_percentage_bits,
            search_query: self.search_query@,
            input_mode: self.input_mode@,
        }
    }
}

/// A fresh trade dialog: step 1, nothing chosen, passphrase mode, no id.
pub open spec fn default_trade_state() -> TradeStateView {
    TradeStateView {
        step: 1,
        done: false,
        base_asset: Seq::empty(),
        quote_asset: Seq::empty(),
        amount: Seq::empty(),
        limit_price: Seq::empty(),
        flags: Seq::empty(),
        passphrase: Seq::empty(),
        seed: Seq::empty(),
        error: None,
        fee_percentage_bits: 0,
        search_query: Seq::empty(),
        input_mode: passphrase_mode(),
    }
}

/// A wiped trade dialog: step 0, everything zero or empty, the input mode included.
pub open spec fn wiped_trade_state() -> TradeStateView {
    TradeStateView { step: 0, input_mode: Seq::empty(), ..default_trade_state() }
}

/// The dialog after a reset: wiped, with no id, back in passphrase mode.
pub open spec fn reset_trade_state() -> TradeStateView {
    TradeStateView { step: 0, ..default_trade_state() }
}

pub(crate) fn copy_strings(v: &Vec<String>) -> (r: Vec<String>)
    ensures
        r@ == v@,
{
    let mut r: Vec<String> = Vec::new();
    let mut i: usize = 0;
    while i < v.len()
        invariant
            0 <= i <= v@.len(),
            r@ == v@.subrange(0, i as int),
        decreases v@.len() - i,
    {
        r.push(v[i].clone());
        i = i + 1;
        assert(r@ =~= v@.subrange(0, i as int));
    }
    assert(v@.subrange(0, v@.len() as int) =~= v@);
    r
}

impl Clone for TradeState {
    fn clone(&self) -> (r: Self)
        ensures
            r@ == self@,
    {
        TradeState {
            step: self.step,
            done: self.done,
            base_asset: self.base_asset.clone(),
            quote_asset: self.quote_asset.clone(),
            amount: self.amount.clone(),
            limit_price: self.limit_price.clone(),
            flags: copy_strings(&self.flags),
            passphrase: self.passphrase.clone(),
            seed: self.seed.clone(),
            error: copy_opt_string(&self.error),
            fee_percentage_bits: self.fee_percentage_bits,
            search_query: self.search_query.clone(),
            input_mode: self.input_mode.clone(),
        }
    }
}

fn passphrase_mode_string() -> (r: String)
    ensures
        r@ == passphrase_mode(),
{
    let r = "Passphrase".to_owned();
    proof {
        reveal_strlit("Passphrase");
        assert(r@ =~= passphrase_mode());
    }
    r
}

impl Default for TradeState {
    fn default() -> (r: Self)
        ensures
            r@ == default_trade_state(),
    {
        let r = TradeState {
            step: 1,
            done: false,
            base_asset: String::new(),
            quote_asset: String::new(),
            amount: String::new(),
            limit_price: String::new(),
            flags: Vec::new(),
            passphrase: String::new(),
            seed: String::new(),
            error: None,
            fee_percentage_bits: 0,
            search_query: String::new(),
            input_mode: passphrase_mode_string(),
        };
        assert(r@.flags =~= Seq::<Seq<char>>::empty());
        r
    }
}

impl TradeState {
    /// Empties the dialog: step 0, every text and the flag list emptied, no error, fee 0.
    pub fn zeroize(&mut self)
        ensures
            final(self)@ == wiped_trade_state(),
    {
        self.step = 0;
        self.done = false;
        self.base_asset = String::new();
        self.quote_asset = String::new();
        self.amount = String::new();
        self.limit_price = String::new();
        self.flags.clear();
        self.passphrase = String::new();
        self.seed = String::new();
        self.error = None;
        self.fee_percentage_bits = 0;
        self.search_query = String::new();
        self.input_mode = String::new();
        assert(self@.flags =~= Seq::<Seq<char>>::empty());
    }
}

/// The one trade dialog; its `search_query` field holds the dialog's id.
pub struct TradeStore {
    state: TradeState,
}

impl View for TradeStore {
    type V = TradeStateView;

    closed spec fn view(&self) -> TradeStateView {
        self.state@
    }
}

impl TradeStore {
    /// A store holding a fresh dialog.
    pub fn new() -> (s: Self)
        ensures
            s@ == default_trade_state(),
    {
        TradeStore { state: TradeState::default() }
    }
}

/// The dialog's id: the current one, or, if it has none, a fresh random one that is
/// recorded along with a zero fee and passphrase mode.
pub open spec fn spec_init_id(s: TradeStateView, fresh: Seq<char>) -> TradeStateView {
    if s.search_query.len() == 0 {
        TradeStateView { search_query: fresh, fee_percentage_bits: 0, input_mode: passphrase_mode(), ..s }
    } else {
        s
    }
}

/// Returns the dialog's id, giving it a fresh random one first if it has none.
pub fn get_or_init_buffer_id(storage: &mut TradeStore) -> (id: String)
    ensures
        old(storage)@.search_query.len() != 0 ==> id@ == old(storage)@.search_query && final(storage)@ == old(storage)@,
        old(storage)@.search_query.len() == 0 ==> id@.len() == 36,
        final(storage)@ == spec_init_id(old(storage)@, id@),
{
    if storage.state.search_query.as_str().is_empty() {
        let new_id = new_uuid_string();
        storage.state.search_query = new_id.clone();
        storage.state.fee_percentage_bits = 0;
        storage.state.input_mode = passphrase_mode_string();
        new_id
    } else {
        storage.state.search_query.clone()
    }
}

/// The dialog as written by `update_buffers` when the id matches.
pub open spec fn written_trade_state(
    base_asset: Seq<char>,
    quote_asset: Seq<char>,
    amount: Seq<char>,
    limit_price: Seq<char>,
    flags: Seq<Seq<char>>,
    passphrase: Seq<char>,
    seed: Seq<char>,
    step: u8,
    done: bool,
    error: Option<Seq<char>>,
    fee_percentage_bits: u64,
    search_query: Seq<char>,
    input_mode: Seq<char>,
) -> TradeStateView {
    TradeStateView {
        step,
        done,
        base_asset,
        quote_asset,
        amount,
        limit_price,
        flags,
        passphrase,
        seed,
        error,
        fee_percentage_bits,
        search_query,
        input_mode,
    }
}

/// Overwrites every field of the dialog if `buffer_id` is its id; otherwise does nothing.
pub fn update_buffers(
    storage: &mut TradeStore,
    buffer_id: &str,
    base_asset: String,
    quote_asset: String,
    amount: String,
    limit_price: String,
    flags: Vec<String>,
    passphrase: String,
    seed: String,
    step: u8,
    done: bool,
    error: Option<String>,
    fee_percentage_bits: u64,
    search_query: String,
    input_mode: String,
)
    ensures
        final(storage)@ == if old(storage)@.search_query == buffer_id@ {
            written_trade_state(base_asset@, quote_asset@, amount@, limit_price@, flags.deep_view(), passphrase@, seed@,
                step, done, error.deep_view(), fee_percentage_bits, search_query@, input_mode@)
        } else {
            old(storage)@
        },
{
    if storage.state.search_query == buffer_id.to_owned() {
        storage.state.base_asset = base_asset;
        storage.state.quote_asset = quote_asset;
        storage.state.amount = amount;
        storage.state.limit_price = limit_price;
        storage.state.flags = flags;
        storage.state.passphrase = passphrase;
        storage.state.seed = seed;
        storage.state.step = step;
        storage.state.done = done;
        storage.state.error = error;
        storage.state.fee_percentage_bits = fee_percentage_bits;
        storage.state.search_query = search_query;
        storage.state.input_mode = input_mode;
    }
}

/// A copy of the dialog if `buffer_id` is its id.
pub fn get_buffer(storage: &TradeStore, buffer_id: &str) -> (r: Option<TradeState>)
    ensures
        r is Some <==> storage@.search_query == buffer_id@,
        r matches Some(t) ==> t@ == storage@,
{
    if storage.state.search_query == buffer_id.to_owned() {
        Some(storage.state.clone())
    } else {
        None
    }
}

/// Resets the dialog if `buffer_id` is its id; otherwise does nothing.
pub fn clear_buffer(storage: &mut TradeStore, buffer_id: &str)
    ensures
        final(storage)@ == if old(storage)@.search_query == buffer_id@ { reset_trade_state() } else { old(storage)@ },
{
    if storage.state.search_query == buffer_id.to_owned() {
        storage.state.zeroize();
        storage.state.search_query = String::new();
        storage.state.input_mode = passphrase_mode_string();
    }
}

/// Resets the dialog, whatever its id.
pub fn clear_all_buffers(storage: &mut TradeStore)
    ensures
        final(storage)@ == reset_trade_state(),
{
    storage.state.zeroize();
    storage.state.search_query = String::new();
    storage.state.input_mode = passphrase_mode_string();
}

/// Asking for the id twice gives the same id, and the second time changes nothing.
pub proof fn law_trade_id_stable(s: TradeStateView, fresh: Seq<char>, fresh2: Seq<char>)
    requires
        fresh.len() == 36,
    ensures
        spec_init_id(s, fresh).search_query.len() != 0,
        spec_init_id(spec_init_id(s, fresh), fresh2) == spec_init_id(s, fresh),
{
}

/// After a reset no non-empty id names the dialog, and the next id request starts a new one.
pub proof fn law_trade_reset_forgets_id(id: Seq<char>, fresh: Seq<char>)
    requires
        id.len() != 0,
    ensures
        reset_trade_state().search_query != id,
        spec_init_id(reset_trade_state(), fresh).search_query == fresh,
{
}

/// Writing the dialog under its own id, keeping that id, and reading it back by the id
/// gives what was written; a write under another id changes nothing.
pub proof fn law_trade_read_after_write(s: TradeStateView, id: Seq<char>, w: TradeStateView)
    requires
        w.search_query == id,
    ensures
        ({
            let after = if s.search_query == id { w } else { s };
            &&& s.search_query == id ==> after.search_query == id && after == w
            &&& s.search_query != id ==> after == s
        }),
{
}

} // verus!
