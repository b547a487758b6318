use vstd::prelude::*;
use crate::keyed_store::KeyedStore;
use crate::wipe::wipe_string;

verus! {

/// Reading the passphrase buffer of a create dialog: the stored one, or an empty buffer that
/// is stored from then on.
pub open spec fn spec_get_passphrase(m: Map<Seq<char>, Seq<char>>, id: Seq<char>) -> (Seq<char>, Map<Seq<char>, Seq<char>>) {
    if m.contains_key(id) {
        (m[id], m)
    } else {
        (Seq::empty(), m.insert(id, Seq::empty()))
    }
}

/// The passphrase buffers of all open create-wallet dialogs, by dialog id.
pub struct CreateBufferStore {
    buffers: KeyedStore<String>,
}

impl View for CreateBufferStore {
    type V = Map<Seq<char>, Seq<char>>;

    closed spec fn view(&self) -> Map<Seq<char>, Seq<char>> {
        self.buffers@.map_values(|b: String| b@)
    }
}

impl CreateBufferStore {
    /// The store is consistent.
    pub closed spec fn wf(&self) -> bool {
        self.buffers.wf()
    }

    /// A store with no dialogs.
    pub fn new() -> (s: Self)
        ensures
            s.wf(),
            s@ == Map::<Seq<char>, Seq<char>>::empty(),
    {
        let s = CreateBufferStore { buffers: KeyedStore::new() };
        assert(s@ =~= Map::<Seq<char>, Seq<char>>::empty());
        s
    }
}

/// Returns the passphrase buffer of dialog `buffer_id`; a dialog seen for the first time gets
/// an empty buffer, and it is kept.
pub fn get_buffer(storage: &mut CreateBufferStore, buffer_id: &str) -> (r: String)
    requires
        old(storage).wf(),
    ensures
        final(storage).wf(),
        (r@, final(storage)@) == spec_get_passphrase(old(storage)@, buffer_id@),
{
    let found = match storage.buffers.get(buffer_id) {
        Some(b) => Some(b.clone()),
        None => None,
    };
    match found {
        Some(b) => b,
        None => {
            let fresh = String::new();
            proof {
                assert(storage.buffers@.insert(buffer_id@, fresh).map_values(|b: String| b@)
                    =~= storage.buffers@.map_values(|b: String| b@).insert(buffer_id@, Seq::empty()));
            }
            storage.buffers.insert(buffer_id.to_owned(), fresh);
            String::new()
        },
    }
}

/// Stores the passphrase buffer of dialog `buffer_id`, replacing any it had.
pub fn update_buffer(storage: &mut CreateBufferStore, buffer_id: &str, passphrase_buffer: String)
    requires
        old(storage).wf(),
    ensures
        final(storage).wf(),
        final(storage)@ == old(storage)@.insert(buffer_id@, passphrase_buffer@),
{
    proof {
        assert(storage.buffers@.insert(buffer_id@, passphrase_buffer).map_values(|b: String| b@)
            =~= storage.buffers@.map_values(|b: String| b@).insert(buffer_id@, passphrase_buffer@));
    }
    storage.buffers.insert(buffer_id.to_owned(), passphrase_buffer);
}

/// Forgets the passphrase buffer of dialog `buffer_id`, wiping what it held.
pub fn clear_buffer(storage: &mut CreateBufferStore, buffer_id: &str)
    requires
        old(storage).wf(),
    ensures
        final(storage).wf(),
        final(storage)@ == old(storage)@.remove(buffer_id@),
{
    proof {
        assert(storage.buffers@.remove(buffer_id@).map_values(|b: String| b@)
            =~= storage.buffers@.map_values(|b: String| b@).remove(buffer_id@));
    }
    if let Some(mut passphrase) = storage.buffers.remove(buffer_id) {
        wipe_string(&mut passphrase);
    }
}

} // verus!
