use vstd::prelude::*;
use crate::ids::new_uuid_string;
use crate::keyed_store::KeyedStore;
use crate::text::byte_len;
use crate::validation::{check_seed_format, seed_format_ok, FormError};
use crate::wipe::wipe_string;

verus! {

/// The state of the wallet-import dialog.
pub struct XRPImport {
    pub step: u8,
    pub seed: Option<String>,
    pub error: Option<String>,
    pub done: bool,
    pub buffer_id: Option<String>,
}

/// The two text buffers of the import dialog: seed and passphrase.
pub type ImportBuffers = (String, String);

/// What the import buffers hold, as character sequences.
pub type ImportBuffersView = (Seq<char>, Seq<char>);

/// Reading the buffers of a dialog: the stored ones, or two empty buffers that are stored from then on.
pub open spec fn spec_get_buffer(m: Map<Seq<char>, ImportBuffersView>, id: Seq<char>) -> (ImportBuffersView, Map<Seq<char>, ImportBuffersView>) {
    if m.contains_key(id) {
        (m[id], m)
    } else {
        ((Seq::empty(), Seq::empty()), m.insert(id, (Seq::empty(), Seq::empty())))
    }
}

/// The buffers of all open import dialogs, by dialog id.
pub struct ImportBufferStore {
    buffers: KeyedStore<ImportBuffers>,
}

impl View for ImportBufferStore {
    type V = Map<Seq<char>, ImportBuffersView>;

    closed spec fn view(&self) -> Map<Seq<char>, ImportBuffersView> {
        self.buffers@.map_values(|b: ImportBuffers| b.deep_view())
    }
}

impl ImportBufferStore {
    /// The store is consistent.
    pub closed spec fn wf(&self) -> bool {
        self.buffers.wf()
    }

    /// A store with no dialogs.
    pub fn new() -> (s: Self)
        ensures
            s.wf(),
            s@ == Map::<Seq<char>, ImportBuffersView>::empty(),
    {
        let s = ImportBufferStore { buffers: KeyedStore::new() };
        assert(s@ =~= Map::<Seq<char>, ImportBuffersView>::empty());
        s
    }
}

impl XRPImport {
    /// The first import step's button: a seed in the right format moves the dialog to step
    /// 2, otherwise the dialog shows why the seed was refused.
    pub fn submit_seed(&mut self, seed_buffer: &str)
        requires
            byte_len(seed_buffer@) <= usize::MAX,
        ensures
            final(self).buffer_id == old(self).buffer_id && final(self).seed == old(self).seed
                && final(self).done == old(self).done,
            seed_format_ok(seed_buffer@) ==> final(self).step == 2 && final(self).error == old(self).error,
            !seed_format_ok(seed_buffer@) ==> final(self).step == old(self).step
                && final(self).error.deep_view() == Some(FormError::InvalidSeedFormat.spec_message()),
    {
        match check_seed_format(seed_buffer) {
            Ok(()) => {
                self.step = 2;
            },
            Err(e) => {
                self.error = Some(e.message());
            },
        }
    }
}

/// Returns the dialog's buffer id, giving the dialog a fresh random one first if it has none.
pub fn get_or_init_buffer_id(import_state: &mut XRPImport) -> (id: String)
    ensures
        old(import_state).buffer_id is Some ==> *final(import_state) == *old(import_state)
            && id@ == old(import_state).buffer_id.unwrap()@,
        old(import_state).buffer_id is None ==> final(import_state).buffer_id == Some(id)
            && final(import_state).step == old(import_state).step
            && final(import_state).seed == old(import_state).seed
            && final(import_state).error == old(import_state).error
            && final(import_state).done == old(import_state).done
            && id@.len() == 36,
{
    match &import_state.buffer_id {
        Some(id) => id.clone(),
        None => {
            let new_id = new_uuid_string();
            import_state.buffer_id = Some(new_id.clone());
            new_id
        },
    }
}

/// Returns the seed and passphrase buffers of dialog `buffer_id`; a dialog seen for the
/// first time gets two empty buffers, and those are kept.
pub fn get_buffer(storage: &mut ImportBufferStore, buffer_id: &str) -> (r: ImportBuffers)
    requires
        old(storage).wf(),
    ensures
        final(storage).wf(),
        (r.deep_view(), final(storage)@) == spec_get_buffer(old(storage)@, buffer_id@),
{
    let found = match storage.buffers.get(buffer_id) {
        Some(b) => Some((b.0.clone(), b.1.clone())),
        None => None,
    };
    match found {
        Some(b) => b,
        None => {
            let fresh: ImportBuffers = (String::new(), String::new());
            proof {
                assert(storage.buffers@.insert(buffer_id@, fresh).map_values(|b: ImportBuffers| b.deep_view())
                    =~= storage.buffers@.map_values(|b: ImportBuffers| b.deep_view()).insert(buffer_id@, fresh.deep_view()));
            }
            storage.buffers.insert(buffer_id.to_owned(), (String::new(), String::new()));
            fresh
        },
    }
}

/// Stores the seed and passphrase buffers of dialog `buffer_id`, replacing any it had.
pub fn update_buffer(storage: &mut ImportBufferStore, buffer_id: &str, seed_buffer: String, passphrase_buffer: String)
    requires
        old(storage).wf(),
    ensures
        final(storage).wf(),
        final(storage)@ == old(storage)@.insert(buffer_id@, (seed_buffer@, passphrase_buffer@)),
{
    let b: ImportBuffers = (seed_buffer, passphrase_buffer);
    proof {
        assert(storage.buffers@.insert(buffer_id@, b).map_values(|b: ImportBuffers| b.deep_view())
            =~= storage.buffers@.map_values(|b: ImportBuffers| b.deep_view()).insert(buffer_id@, b.deep_view()));
    }
    storage.buffers.insert(buffer_id.to_owned(), b);
}

/// Forgets the buffers of dialog `buffer_id`, wiping the seed and passphrase they held.
pub fn clear_buffer(storage: &mut ImportBufferStore, buffer_id: &str)
    requires
        old(storage).wf(),
    ensures
        final(storage).wf(),
        final(storage)@ == old(storage)@.remove(buffer_id@),
{
    proof {
        assert(storage.buffers@.remove(buffer_id@).map_values(|b: ImportBuffers| b.deep_view())
            =~= storage.buffers@.map_values(|b: ImportBuffers| b.deep_view()).remove(buffer_id@));
    }
    if let Some((mut seed, mut passphrase)) = storage.buffers.remove(buffer_id) {
        wipe_string(&mut seed);
        wipe_string(&mut passphrase);
    }
}

/// Reading a dialog right after writing it gives back what was written; after it is
/// cleared, reading it gives two empty buffers.
pub proof fn law_import_read_after_write(m: Map<Seq<char>, ImportBuffersView>, id: Seq<char>, b: ImportBuffersView)
    ensures
        spec_get_buffer(m.insert(id, b), id) == (b, m.insert(id, b)),
        spec_get_buffer(m.remove(id), id).0 == (Seq::<char>::empty(), Seq::<char>::empty()),
{
}

} // verus!
