use vstd::prelude::*;

verus! {

/// The settings saved to disk: the display name.
pub struct SharedSettingsState {
    pub saved_name: String,
}

impl Default for SharedSettingsState {
    fn default() -> (r: Self)
        ensures
            r.saved_name@ == Seq::<char>::empty(),
    {
        SharedSettingsState { saved_name: String::new() }
    }
}

/// The PIN change started from the settings screen.
pub struct PinLogic;

impl PinLogic {
    /// The closing message of a PIN change made from the settings screen, by whether the
    /// change went through. (On success this screen reuses the name screen's message.)
    pub fn outcome_message(changed: bool) -> (m: String)
        ensures
            m@ == if changed { "Name updated successfully!"@ } else { "Error: PIN update failed. Check old PIN."@ },
    {
        if changed {
            "Name updated successfully!".to_owned()
        } else {
            "Error: PIN update failed. Check old PIN.".to_owned()
        }
    }
}

} // verus!
