use vstd::prelude::*;
use crate::keyed_store::KeyedStore;
use crate::wipe::wipe_string;

verus! {

/// The text buffers of one send form: address, amount, passphrase, seed and input mode.
pub type SendBuffers = (String, String, String, String, String);

/// What a send form's buffers hold, as character sequences.
pub type SendBuffersView = (Seq<char>, Seq<char>, Seq<char>, Seq<char>, Seq<char>);

/// The name of the input mode that a fresh form starts in.
pub open spec fn passphrase_mode() -> Seq<char> {
    seq!['P', 'a', 's', 's', 'p', 'h', 'r', 'a', 's', 'e']
}

/// The buffers of a form that has never been written: all empty, passphrase mode.
pub open spec fn default_send_buffers() -> SendBuffersView {
    (Seq::empty(), Seq::empty(), Seq::empty(), Seq::empty(), passphrase_mode())
}

/// Reading a form's buffers: the stored ones, or fresh defaults that are stored from then on.
pub open spec fn spec_get_buffers(m: Map<Seq<char>, SendBuffersView>, id: Seq<char>) -> (SendBuffersView, Map<Seq<char>, SendBuffersView>) {
    if m.contains_key(id) {
        (m[id], m)
    } else {
        (default_send_buffers(), m.insert(id, default_send_buffers()))
    }
}

/// Writing a form's buffers replaces what was stored under its id.
pub open spec fn spec_update_buffers(m: Map<Seq<char>, SendBuffersView>, id: Seq<char>, b: SendBuffersView) -> Map<Seq<char>, SendBuffersView> {
    m.insert(id, b)
}

/// Clearing a form's buffers forgets them.
pub open spec fn spec_clear_buffer(m: Map<Seq<char>, SendBuffersView>, id: Seq<char>) -> Map<Seq<char>, SendBuffersView> {
    m.remove(id)
}

/// The buffers of all open send forms, by form id.
pub struct SendBufferStore {
    buffers: KeyedStore<SendBuffers>,
}

impl View for SendBufferStore {
    type V = Map<Seq<char>, SendBuffersView>;

    closed spec fn view(&self) -> Map<Seq<char>, SendBuffersView> {
        self.buffers@.map_values(|b: SendBuffers| b.deep_view())
    }
}

impl SendBufferStore {
    /// The store is consistent.
    pub closed spec fn wf(&self) -> bool {
        self.buffers.wf()
    }

    /// A store with no forms.
    pub fn new() -> (s: Self)
        ensures
            s.wf(),
            s@ == Map::<Seq<char>, SendBuffersView>::empty(),
    {
        let s = SendBufferStore { buffers: KeyedStore::new() };
        assert(s@ =~= Map::<Seq<char>, SendBuffersView>::empty());
        s
    }
}

fn copy_buffers(b: &SendBuffers) -> (r: SendBuffers)
    ensures
        r == *b,
{
    (b.0.clone(), b.1.clone(), b.2.clone(), b.3.clone(), b.4.clone())
}

proof fn lemma_insert_view(m: Map<Seq<char>, SendBuffers>, k: Seq<char>, v: SendBuffers)
    ensures
        m.insert(k, v).map_values(|b: SendBuffers| b.deep_view())
            == m.map_values(|b: SendBuffers| b.deep_view()).insert(k, v.deep_view()),
{
    assert(m.insert(k, v).map_values(|b: SendBuffers| b.deep_view())
        =~= m.map_values(|b: SendBuffers| b.deep_view()).insert(k, v.deep_view()));
}

proof fn lemma_remove_view(m: Map<Seq<char>, SendBuffers>, k: Seq<char>)
    ensures
        m.remove(k).map_values(|b: SendBuffers| b.deep_view())
            == m.map_values(|b: SendBuffers| b.deep_view()).remove(k),
{
    assert(m.remove(k).map_values(|b: SendBuffers| b.deep_view())
        =~= m.map_values(|b: SendBuffers| b.deep_view()).remove(k));
}

/// Returns the buffers of form `buffer_id`; a form seen for the first time gets empty
/// buffers in passphrase mode, and those are kept.
pub fn get_buffers(storage: &mut SendBufferStore, buffer_id: &str) -> (r: SendBuffers)
    requires
        old(storage).wf(),
    ensures
        final(storage).wf(),
        (r.deep_view(), final(storage)@) == spec_get_buffers(old(storage)@, buffer_id@),
{
    let found = match storage.buffers.get(buffer_id) {
        Some(b) => Some(copy_buffers(b)),
        None => None,
    };
    match found {
        Some(b) => b,
        None => {
            let fresh: SendBuffers = (String::new(), String::new(), String::new(), String::new(), "Passphrase".to_owned());
            proof {
                reveal_strlit("Passphrase");
                assert(fresh.deep_view() =~= default_send_buffers());
                lemma_insert_view(storage.buffers@, buffer_id@, fresh);
            }
            storage.buffers.insert(buffer_id.to_owned(), copy_buffers(&fresh));
            fresh
        },
    }
}

/// Stores the buffers of form `buffer_id`, replacing any it had.
pub fn update_buffers(
    storage: &mut SendBufferStore,
    buffer_id: &str,
    address: String,
    euro_amount: String,
    passphrase: String,
    seed: String,
    input_mode: String,
)
    requires
        old(storage).wf(),
    ensures
        final(storage).wf(),
        final(storage)@ == spec_update_buffers(
            old(storage)@,
            buffer_id@,
            (address@, euro_amount@, passphrase@, seed@, input_mode@),
        ),
{
    let b: SendBuffers = (address, euro_amount, passphrase, seed, input_mode);
    proof {
        lemma_insert_view(storage.buffers@, buffer_id@, b);
    }
    storage.buffers.insert(buffer_id.to_owned(), b);
}

/// Forgets the buffers of form `buffer_id`, wiping the secrets they held.
pub fn clear_buffer(storage: &mut SendBufferStore, buffer_id: &str)
    requires
        old(storage).wf(),
    ensures
        final(storage).wf(),
        final(storage)@ == spec_clear_buffer(old(storage)@, buffer_id@),
{
    proof {
        lemma_remove_view(storage.buffers@, buffer_id@);
    }
    if let Some((mut address, mut euro_amount, mut passphrase, mut seed, mut input_mode)) = storage.buffers.remove(buffer_id) {
        wipe_string(&mut address);
        wipe_string(&mut euro_amount);
        wipe_string(&mut passphrase);
        wipe_string(&mut seed);
        wipe_string(&mut input_mode);
    }
}

/// Reading a form right after writing it gives back what was written, and keeps the store as written.
pub proof fn law_send_read_after_write(m: Map<Seq<char>, SendBuffersView>, id: Seq<char>, b: SendBuffersView)
    ensures
        spec_get_buffers(spec_update_buffers(m, id, b), id) == (b, spec_update_buffers(m, id, b)),
{
}

/// After a form is cleared, reading it gives fresh defaults.
pub proof fn law_send_cleared_reads_default(m: Map<Seq<char>, SendBuffersView>, id: Seq<char>)
    ensures
        spec_get_buffers(spec_clear_buffer(m, id), id).0 == default_send_buffers(),
{
}

/// Writing, reading or clearing one form leaves every other form as it was.
pub proof fn law_send_forms_independent(m: Map<Seq<char>, SendBuffersView>, id: Seq<char>, other: Seq<char>, b: SendBuffersView)
    requires
        id != other,
    ensures
        spec_update_buffers(m, id, b).contains_key(other) == m.contains_key(other),
        spec_clear_buffer(m, id).contains_key(other) == m.contains_key(other),
        spec_get_buffers(m, id).1.contains_key(other) == m.contains_key(other),
        m.contains_key(other) ==> spec_update_buffers(m, id, b)[other] == m[other]
            && spec_clear_buffer(m, id)[other] == m[other]
            && spec_get_buffers(m, id).1[other] == m[other],
{
}

/// Reading a form twice gives the same buffers both times and changes nothing the second time.
pub proof fn law_send_read_idempotent(m: Map<Seq<char>, SendBuffersView>, id: Seq<char>)
    ensures
        spec_get_buffers(spec_get_buffers(m, id).1, id) == spec_get_buffers(m, id),
{
}

} // verus!
