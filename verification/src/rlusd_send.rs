use vstd::prelude::*;
use crate::input_mode::seed_mode;
use crate::send_buffers::{passphrase_mode, update_buffers, SendBufferStore, SendBuffersView};

pub use crate::input_mode::InputMode;

verus! {

/// The buffers after choosing an input mode: the other credential is emptied and the
/// mode's name is recorded (fields: address, amount, passphrase, seed, mode).
pub open spec fn send_with_mode(b: SendBuffersView, mode: InputMode) -> SendBuffersView {
    match mode {
        InputMode::Passphrase => (b.0, b.1, b.2, Seq::empty(), passphrase_mode()),
        InputMode::Seed => (b.0, b.1, Seq::empty(), b.3, seed_mode()),
    }
}

/// Edits the buffers of a send form and keeps the stored copy in step with every edit.
pub struct BufferManager {
    buffer_id: String,
    address_buffer: String,
    usd_amount_buffer: String,
    passphrase_buffer: String,
    seed_buffer: String,
    input_mode: String,
}

impl View for BufferManager {
    type V = SendBuffersView;

    /// The buffers: address, amount, passphrase, seed, input mode.
    closed spec fn view(&self) -> SendBuffersView {
        (self.address_buffer@, self.usd_amount_buffer@, self.passphrase_buffer@, self.seed_buffer@, self.input_mode@)
    }
}

impl BufferManager {
    /// The id under which the buffers are stored.
    pub closed spec fn id(&self) -> Seq<char> {
        self.buffer_id@
    }

    /// A manager for the given buffers, stored under `buffer_id`.
    pub fn new(
        buffer_id: &str,
        address_buffer: String,
        usd_amount_buffer: String,
        passphrase_buffer: String,
        seed_buffer: String,
        input_mode: String,
    ) -> (r: Self)
        ensures
            r.id() == buffer_id@,
            r@ == (address_buffer@, usd_amount_buffer@, passphrase_buffer@, seed_buffer@, input_mode@),
    {
        BufferManager {
            buffer_id: buffer_id.to_owned(),
            address_buffer,
            usd_amount_buffer,
            passphrase_buffer,
            seed_buffer,
            input_mode,
        }
    }

    /// Stores the buffers under the manager's id.
    pub fn update_buffers(&mut self, storage: &mut SendBufferStore)
        requires
            old(storage).wf(),
        ensures
            final(storage).wf(),
            *final(self) == *old(self),
            final(storage)@ == old(storage)@.insert(old(self).id(), old(self)@),
    {
        update_buffers(
            storage,
            self.buffer_id.as_str(),
            self.address_buffer.clone(),
            self.usd_amount_buffer.clone(),
            self.passphrase_buffer.clone(),
            self.seed_buffer.clone(),
            self.input_mode.clone(),
        );
    }

    /// Switches the input mode, emptying the credential of the other mode, and stores the buffers.
    pub fn set_input_mode(&mut self, mode: InputMode, storage: &mut SendBufferStore)
        requires
            old(storage).wf(),
        ensures
            final(storage).wf(),
            final(self).id() == old(self).id(),
            final(self)@ == send_with_mode(old(self)@, mode),
            final(storage)@ == old(storage)@.insert(final(self).id(), final(self)@),
    {
        match mode {
            InputMode::Passphrase => {
                self.seed_buffer = String::new();
                self.input_mode = InputMode::Passphrase.to_string();
            },
            InputMode::Seed => {
                self.passphrase_buffer = String::new();
                self.input_mode = InputMode::Seed.to_string();
            },
        }
        self.update_buffers(storage);
    }

    /// Sets the recipient address and stores the buffers.
    pub fn update_address(&mut self, address: &str, storage: &mut SendBufferStore)
        requires
            old(storage).wf(),
        ensures
            final(storage).wf(),
            final(self).id() == old(self).id(),
            final(self)@ == (address@, old(self)@.1, old(self)@.2, old(self)@.3, old(self)@.4),
            final(storage)@ == old(storage)@.insert(final(self).id(), final(self)@),
    {
        self.address_buffer = address.to_owned();
        self.update_buffers(storage);
    }

    /// Sets the amount and stores the buffers.
    pub fn update_usd_amount(&mut self, usd_amount: &str, storage: &mut SendBufferStore)
        requires
            old(storage).wf(),
        ensures
            final(storage).wf(),
            final(self).id() == old(self).id(),
            final(self)@ == (old(self)@.0, usd_amount@, old(self)@.2, old(self)@.3, old(self)@.4),
            final(storage)@ == old(storage)@.insert(final(self).id(), final(self)@),
    {
        self.usd_amount_buffer = usd_amount.to_owned();
        self.update_buffers(storage);
    }

    /// Sets the passphrase and stores the buffers.
    pub fn update_passphrase(&mut self, passphrase: &str, storage: &mut SendBufferStore)
        requires
            old(storage).wf(),
        ensures
            final(storage).wf(),
            final(self).id() == old(self).id(),
            final(self)@ == (old(self)@.0, old(self)@.1, passphrase@, old(self)@.3, old(self)@.4),
            final(storage)@ == old(storage)@.insert(final(self).id(), final(self)@),
    {
        self.passphrase_buffer = passphrase.to_owned();
        self.update_buffers(storage);
    }

    /// Sets the seed and stores the buffers.
    pub fn update_seed(&mut self, seed: &str, storage: &mut SendBufferStore)
        requires
            old(storage).wf(),
        ensures
            final(storage).wf(),
            final(self).id() == old(self).id(),
            final(self)@ == (old(self)@.0, old(self)@.1, old(self)@.2, seed@, old(self)@.4),
            final(storage)@ == old(storage)@.insert(final(self).id(), final(self)@),
    {
        self.seed_buffer = seed.to_owned();
        self.update_buffers(storage);
    }

    /// The recipient address.
    pub fn address_buffer(&self) -> (r: &str)
        ensures
            r@ == self@.0,
    {
        self.address_buffer.as_str()
    }

    /// The amount.
    pub fn usd_amount_buffer(&self) -> (r: &str)
        ensures
            r@ == self@.1,
    {
        self.usd_amount_buffer.as_str()
    }

    /// The passphrase.
    pub fn passphrase_buffer(&self) -> (r: &str)
        ensures
            r@ == self@.2,
    {
        self.passphrase_buffer.as_str()
    }

    /// The seed.
    pub fn seed_buffer(&self) -> (r: &str)
        ensures
            r@ == self@.3,
    {
        self.seed_buffer.as_str()
    }

    /// The stored name of the input mode.
    pub fn input_mode(&self) -> (r: &str)
        ensures
            r@ == self@.4,
    {
        self.input_mode.as_str()
    }
}

/// After choosing a mode only that mode's credential can be non-empty, the address and
/// amount are untouched, and choosing the same mode again changes nothing.
pub proof fn law_send_mode_choice(b: SendBuffersView, mode: InputMode)
    ensures
        mode == InputMode::Passphrase ==> send_with_mode(b, mode).3 == Seq::<char>::empty(),
        mode == InputMode::Seed ==> send_with_mode(b, mode).2 == Seq::<char>::empty(),
        send_with_mode(b, mode).0 == b.0 && send_with_mode(b, mode).1 == b.1,
        crate::input_mode::parse_mode(send_with_mode(b, mode).4) == mode,
        send_with_mode(send_with_mode(b, mode), mode) == send_with_mode(b, mode),
{
    crate::input_mode::law_mode_round_trip(mode);
}

} // verus!
