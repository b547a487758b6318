use vstd::prelude::*;
use crate::input_mode::{mode_name, seed_mode};
use crate::send_buffers::passphrase_mode;
use crate::trustline::{copy_opt_string, update_buffers, TrustlineStateBuffer, TrustlineStateView, TrustlineStore};

pub use crate::input_mode::InputMode;

verus! {

/// The form a manager keeps: the given form, filed under the manager's id.
pub open spec fn managed_state(buffer_id: Seq<char>, s: TrustlineStateView) -> TrustlineStateView {
    TrustlineStateView { buffer_id: Some(buffer_id), ..s }
}

/// The form after choosing an input mode: the other credential is emptied and the mode's
/// name is recorded.
pub open spec fn with_mode(s: TrustlineStateView, mode: InputMode) -> TrustlineStateView {
    match mode {
        InputMode::Passphrase => TrustlineStateView { seed: Seq::empty(), input_mode: passphrase_mode(), ..s },
        InputMode::Seed => TrustlineStateView { passphrase: Seq::empty(), input_mode: seed_mode(), ..s },
    }
}

/// Edits a trustline form and keeps the stored copy of it in step with every edit.
pub struct BufferManager {
    buffer_id: String,
    trustline_limit: u64,
    passphrase: String,
    seed: String,
    input_mode: String,
    error: Option<String>,
    done: bool,
}

impl View for BufferManager {
    type V = TrustlineStateView;

    /// The managed form; its `buffer_id` is the manager's id.
    closed spec fn view(&self) -> TrustlineStateView {
        TrustlineStateView {
            trustline_limit: self.trustline_limit,
            passphrase: self.passphrase@,
            seed: self.seed@,
            input_mode: self.input_mode@,
            error: self.error.deep_view(),
            done: self.done,
            buffer_id: Some(self.buffer_id@),
        }
    }
}

impl BufferManager {
    /// The id under which the form is stored.
    pub closed spec fn id(&self) -> Seq<char> {
        self.buffer_id@
    }

    /// A manager for the form `state`, stored under `buffer_id`.
    pub fn from_state_buffer(buffer_id: &str, state: TrustlineStateBuffer) -> (r: Self)
        ensures
            r.id() == buffer_id@,
            r@ == managed_state(buffer_id@, state@),
    {
        BufferManager {
            buffer_id: buffer_id.to_owned(),
            trustline_limit: state.trustline_limit,
            passphrase: state.passphrase,
            seed: state.seed,
            input_mode: state.input_mode,
            error: state.error,
            done: state.done,
        }
    }

    /// The managed form, with the manager's id as its `buffer_id`.
    pub fn to_state_buffer(&self) -> (r: TrustlineStateBuffer)
        ensures
            r@ == self@,
            r@.buffer_id == Some(self.id()),
    {
        TrustlineStateBuffer {
            trustline_limit: self.trustline_limit,
            passphrase: self.passphrase.clone(),
            seed: self.seed.clone(),
            input_mode: self.input_mode.clone(),
            error: copy_opt_string(&self.error),
            done: self.done,
            buffer_id: Some(self.buffer_id.clone()),
        }
    }

    /// Stores the managed form under the manager's id.
    pub fn update_buffers(&mut self, storage: &mut TrustlineStore)
        requires
            old(storage).wf(),
        ensures
            final(storage).wf(),
            *final(self) == *old(self),
            final(storage)@ == old(storage)@.insert(old(self).id(), old(self)@),
            old(self)@.buffer_id == Some(old(self).id()),
    {
        update_buffers(
            storage,
            self.buffer_id.as_str(),
            self.trustline_limit,
            self.passphrase.clone(),
            self.seed.clone(),
            self.input_mode.clone(),
            copy_opt_string(&self.error),
            self.done,
        );
    }

    /// Switches the input mode, emptying the credential of the other mode, and stores the form.
    pub fn set_input_mode(&mut self, mode: InputMode, storage: &mut TrustlineStore)
        requires
            old(storage).wf(),
        ensures
            final(storage).wf(),
            final(self).id() == old(self).id(),
            final(self)@ == with_mode(old(self)@, mode),
            final(storage)@ == old(storage)@.insert(final(self).id(), final(self)@),
    {
        match mode {
            InputMode::Passphrase => {
                self.seed = String::new();
                self.input_mode = InputMode::Passphrase.to_string();
            },
            InputMode::Seed => {
                self.passphrase = String::new();
                self.input_mode = InputMode::Seed.to_string();
            },
        }
        self.update_buffers(storage);
    }

    /// Sets the trustline limit and stores the form.
    pub fn update_trustline_limit(&mut self, limit: u64, storage: &mut TrustlineStore)
        requires
            old(storage).wf(),
        ensures
            final(storage).wf(),
            final(self).id() == old(self).id(),
            final(self)@ == (TrustlineStateView { trustline_limit: limit, ..old(self)@ }),
            final(storage)@ == old(storage)@.insert(final(self).id(), final(self)@),
    {
        self.trustline_limit = limit;
        self.update_buffers(storage);
    }

    /// Sets the passphrase and stores the form.
    pub fn update_passphrase(&mut self, passphrase: &str, storage: &mut TrustlineStore)
        requires
            old(storage).wf(),
        ensures
            final(storage).wf(),
            final(self).id() == old(self).id(),
            final(self)@ == (TrustlineStateView { passphrase: passphrase@, ..old(self)@ }),
            final(storage)@ == old(storage)@.insert(final(self).id(), final(self)@),
    {
        self.passphrase = passphrase.to_owned();
        self.update_buffers(storage);
    }

    /// Sets the seed and stores the form.
    pub fn update_seed(&mut self, seed: &str, storage: &mut TrustlineStore)
        requires
            old(storage).wf(),
        ensures
            final(storage).wf(),
            final(self).id() == old(self).id(),
            final(self)@ == (TrustlineStateView { seed: seed@, ..old(self)@ }),
            final(storage)@ == old(storage)@.insert(final(self).id(), final(self)@),
    {
        self.seed = seed.to_owned();
        self.update_buffers(storage);
    }

    /// Sets or clears the error message and stores the form.
    pub fn set_error(&mut self, error: Option<String>, storage: &mut TrustlineStore)
        requires
            old(storage).wf(),
        ensures
            final(storage).wf(),
            final(self).id() == old(self).id(),
            final(self)@ == (TrustlineStateView { error: error.deep_view(), ..old(self)@ }),
            final(storage)@ == old(storage)@.insert(final(self).id(), final(self)@),
    {
        self.error = error;
        self.update_buffers(storage);
    }

    /// Marks the form done or not and stores it.
    pub fn set_done(&mut self, done: bool, storage: &mut TrustlineStore)
        requires
            old(storage).wf(),
        ensures
            final(storage).wf(),
            final(self).id() == old(self).id(),
            final(self)@ == (TrustlineStateView { done: done, ..old(self)@ }),
            final(storage)@ == old(storage)@.insert(final(self).id(), final(self)@),
    {
        self.done = done;
        self.update_buffers(storage);
    }

    /// The trustline limit.
    pub fn trustline_limit(&self) -> (r: u64)
        ensures
            r == self@.trustline_limit,
    {
        self.trustline_limit
    }

    /// The passphrase.
    pub fn passphrase(&self) -> (r: &str)
        ensures
            r@ == self@.passphrase,
    {
        self.passphrase.as_str()
    }

    /// The seed.
    pub fn seed(&self) -> (r: &str)
        ensures
            r@ == self@.seed,
    {
        self.seed.as_str()
    }

    /// The stored name of the input mode.
    pub fn input_mode(&self) -> (r: &str)
        ensures
            r@ == self@.input_mode,
    {
        self.input_mode.as_str()
    }

    /// The error message, if any.
    pub fn error(&self) -> (r: Option<&String>)
        ensures
            r.deep_view() == self@.error,
    {
        self.error.as_ref()
    }

    /// Whether the form is done.
    pub fn done(&self) -> (r: bool)
        ensures
            r == self@.done,
    {
        self.done
    }
}

/// A manager's form carries the manager's id, and managing a form that already carries
/// that id changes nothing about it.
pub proof fn law_managed_state_keeps_form(buffer_id: Seq<char>, s: TrustlineStateView)
    ensures
        managed_state(buffer_id, s).buffer_id == Some(buffer_id),
        managed_state(buffer_id, managed_state(buffer_id, s)) == managed_state(buffer_id, s),
        s.buffer_id == Some(buffer_id) ==> managed_state(buffer_id, s) == s,
{
}

/// After choosing a mode only that mode's credential can be non-empty, the recorded name
/// reads back as the chosen mode, and choosing the same mode again changes nothing.
pub proof fn law_mode_choice(s: TrustlineStateView, mode: InputMode)
    ensures
        mode == InputMode::Passphrase ==> with_mode(s, mode).seed == Seq::<char>::empty(),
        mode == InputMode::Seed ==> with_mode(s, mode).passphrase == Seq::<char>::empty(),
        with_mode(s, mode).input_mode == mode_name(mode),
        crate::input_mode::parse_mode(with_mode(s, mode).input_mode) == mode,
        with_mode(with_mode(s, mode), mode) == with_mode(s, mode),
{
    crate::input_mode::law_mode_round_trip(mode);
}

} // verus!
