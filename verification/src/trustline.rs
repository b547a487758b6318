use vstd::prelude::*;
use crate::ids::new_uuid_string;
use crate::keyed_store::KeyedStore;
use crate::send_buffers::passphrase_mode;
use crate::wipe::wipe_string;

verus! {

/// The state of a trustline form (enable or modify a trustline).
pub struct TrustlineStateBuffer {
    pub trustline_limit: u64,
    pub passphrase: String,
    pub seed: String,
    pub input_mode: String,
    pub error: Option<String>,
    pub done: bool,
    pub buffer_id: Option<String>,
}

/// What a trustline form holds, with its texts as character sequences.
pub struct TrustlineStateView {
    pub trustline_limit: u64,
    pub passphrase: Seq<char>,
    pub seed: Seq<char>,
    pub input_mode: Seq<char>,
    pub error: Option<Seq<char>>,
    pub done: bool,
    pub buffer_id: Option<Seq<char>>,
}

impl View for TrustlineStateBuffer {
    type V = TrustlineStateView;

    open spec fn view(&self) -> TrustlineStateView {
        TrustlineStateView {
            trustline_limit: self.trustline_limit,
            passphrase: self.passphrase@,
            seed: self.seed@,
            input_mode: self.input_mode@,
            error: self.error.deep_view(),
            done: self.done,
            buffer_id: self.buffer_id.deep_view(),
        }
    }
}

/// A fresh trustline form: no limit, no credentials, passphrase mode, no error, no id.
pub open spec fn default_trustline_state() -> TrustlineStateView {
    TrustlineStateView {
        trustline_limit: 0,
        passphrase: Seq::empty(),
        seed: Seq::empty(),
        input_mode: passphrase_mode(),
        error: None,
        done: false,
        buffer_id: None,
    }
}

/// A wiped trustline form: everything zero or empty, the input mode included.
pub open spec fn wiped_trustline_state() -> TrustlineStateView {
    TrustlineStateView {
        trustline_limit: 0,
        passphrase: Seq::empty(),
        seed: Seq::empty(),
        input_mode: Seq::empty(),
        error: None,
        done: false,
        buffer_id: None,
    }
}

pub(crate) fn copy_opt_string(s: &Option<String>) -> (r: Option<String>)
    ensures
        r == *s,
{
    match s {
        Some(v) => Some(v.clone()),
        None => None,
    }
}

impl Clone for TrustlineStateBuffer {
    fn clone(&self) -> (r: Self)
        ensures
            r == *self,
    {
        TrustlineStateBuffer {
            trustline_limit: self.trustline_limit,
            passphrase: self.passphrase.clone(),
            seed: self.seed.clone(),
            input_mode: self.input_mode.clone(),
            error: copy_opt_string(&self.error),
            done: self.done,
            buffer_id: copy_opt_string(&self.buffer_id),
        }
    }
}

impl Default for TrustlineStateBuffer {
    fn default() -> (r: Self)
        ensures
            r@ == default_trustline_state(),
    {
        let r = TrustlineStateBuffer {
            trustline_limit: 0,
            passphrase: String::new(),
            seed: String::new(),
            input_mode: "Passphrase".to_owned(),
            error: None,
            done: false,
            buffer_id: None,
        };
        proof {
            reveal_strlit("Passphrase");
            assert(r.input_mode@ =~= passphrase_mode());
        }
        r
    }
}

impl TrustlineStateBuffer {
    /// Wipes the form: the secrets are overwritten, every field is reset to zero or empty.
    pub fn zeroize(&mut self)
        ensures
            final(self)@ == wiped_trustline_state(),
    {
        self.trustline_limit = 0;
        wipe_string(&mut self.passphrase);
        wipe_string(&mut self.seed);
        wipe_string(&mut self.input_mode);
        self.error = None;
        self.done = false;
        self.buffer_id = None;
    }
}

/// Returns the form's buffer id, giving the form a fresh random one first if it has none.
pub fn get_or_init_buffer_id(state: &mut TrustlineStateBuffer) -> (id: String)
    ensures
        old(state).buffer_id is Some ==> *final(state) == *old(state) && id@ == old(state).buffer_id.unwrap()@,
        old(state).buffer_id is None ==> final(state)@ == (TrustlineStateView { buffer_id: Some(id@), ..old(state)@ })
            && id@.len() == 36,
{
    match &state.buffer_id {
        Some(id) => id.clone(),
        None => {
            let new_id = new_uuid_string();
            state.buffer_id = Some(new_id.clone());
            new_id
        },
    }
}

/// The forms kept by id.
pub struct TrustlineStore {
    states: KeyedStore<TrustlineStateBuffer>,
}

impl View for TrustlineStore {
    type V = Map<Seq<char>, TrustlineStateView>;

    closed spec fn view(&self) -> Map<Seq<char>, TrustlineStateView> {
        self.states@.map_values(|s: TrustlineStateBuffer| s@)
    }
}

impl TrustlineStore {
    /// The store is consistent.
    pub closed spec fn wf(&self) -> bool {
        self.states.wf()
    }

    /// A store with no forms.
    pub fn new() -> (s: Self)
        ensures
            s.wf(),
            s@ == Map::<Seq<char>, TrustlineStateView>::empty(),
    {
        let s = TrustlineStore { states: KeyedStore::new() };
        assert(s@ =~= Map::<Seq<char>, TrustlineStateView>::empty());
        s
    }

    /// The form stored under `buffer_id`, if any.
    pub fn get(&self, buffer_id: &str) -> (r: Option<TrustlineStateBuffer>)
        requires
            self.wf(),
        ensures
            r is Some <==> self@.contains_key(buffer_id@),
            r matches Some(s) ==> s@ == self@[buffer_id@],
    {
        match self.states.get(buffer_id) {
            Some(s) => Some(s.clone()),
            None => None,
        }
    }
}

/// The form that `update_buffers` stores: every field as given, filed under its own id.
pub open spec fn stored_trustline_state(
    buffer_id: Seq<char>,
    trustline_limit: u64,
    passphrase: Seq<char>,
    seed: Seq<char>,
    input_mode: Seq<char>,
    error: Option<Seq<char>>,
    done: bool,
) -> TrustlineStateView {
    TrustlineStateView { trustline_limit, passphrase, seed, input_mode, error, done, buffer_id: Some(buffer_id) }
}

/// Stores the form `buffer_id` with the given fields; its `buffer_id` field is set to `buffer_id`.
pub fn update_buffers(
    storage: &mut TrustlineStore,
    buffer_id: &str,
    trustline_limit: u64,
    passphrase: String,
    seed: String,
    input_mode: String,
    error: Option<String>,
    done: bool,
)
    requires
        old(storage).wf(),
    ensures
        final(storage).wf(),
        final(storage)@ == old(storage)@.insert(
            buffer_id@,
            stored_trustline_state(buffer_id@, trustline_limit, passphrase@, seed@, input_mode@, error.deep_view(), done),
        ),
{
    let mut state = match storage.states.get(buffer_id) {
        Some(s) => s.clone(),
        None => TrustlineStateBuffer::default(),
    };
    state.trustline_limit = trustline_limit;
    state.passphrase = passphrase;
    state.seed = seed;
    state.input_mode = input_mode;
    state.error = error;
    state.done = done;
    state.buffer_id = Some(buffer_id.to_owned());
    proof {
        assert(storage.states@.insert(buffer_id@, state).map_values(|s: TrustlineStateBuffer| s@)
            =~= storage.states@.map_values(|s: TrustlineStateBuffer| s@).insert(buffer_id@, state@));
    }
    storage.states.insert(buffer_id.to_owned(), state);
}

/// Forgets the form `buffer_id`, wiping what it held.
pub fn clear_buffer(storage: &mut TrustlineStore, buffer_id: &str)
    requires
        old(storage).wf(),
    ensures
        final(storage).wf(),
        final(storage)@ == old(storage)@.remove(buffer_id@),
{
    proof {
        assert(storage.states@.remove(buffer_id@).map_values(|s: TrustlineStateBuffer| s@)
            =~= storage.states@.map_values(|s: TrustlineStateBuffer| s@).remove(buffer_id@));
    }
    if let Some(mut state) = storage.states.remove(buffer_id) {
        state.zeroize();
    }
}

/// Reading a form right after storing it gives back the stored fields under the form's own
/// id; storing or forgetting one form leaves every other form as it was; a forgotten form
/// is no longer found.
pub proof fn law_trustline_read_after_write(
    m: Map<Seq<char>, TrustlineStateView>,
    id: Seq<char>,
    other: Seq<char>,
    trustline_limit: u64,
    passphrase: Seq<char>,
    seed: Seq<char>,
    input_mode: Seq<char>,
    error: Option<Seq<char>>,
    done: bool,
)
    requires
        id != other,
    ensures
        ({
            let w = m.insert(id, stored_trustline_state(id, trustline_limit, passphrase, seed, input_mode, error, done));
            &&& w.contains_key(id)
            &&& w[id].trustline_limit == trustline_limit && w[id].passphrase == passphrase && w[id].seed == seed
            &&& w[id].input_mode == input_mode && w[id].error == error && w[id].done == done
            &&& w[id].buffer_id == Some(id)
            &&& w.contains_key(other) == m.contains_key(other)
            &&& m.contains_key(other) ==> w[other] == m[other]
        }),
        !m.remove(id).contains_key(id),
        m.remove(id).contains_key(other) == m.contains_key(other),
        m.contains_key(other) ==> m.remove(id)[other] == m[other],
{
}

} // verus!
