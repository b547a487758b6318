use vstd::prelude::*;
use crate::text::concat_text;

verus! {

/// Whether a feedback message reports success or an error.
#[derive(PartialEq, Eq, Debug, Structural)]
pub enum FeedbackType {
    Success,
    Error,
}

/// How long a feedback message stays on screen, in milliseconds.
pub open spec fn feedback_duration_ms(kind: FeedbackType) -> u64 {
    match kind {
        FeedbackType::Success => 2000,
        FeedbackType::Error => 3000,
    }
}

/// How saving a new name went, after the name was handed over.
pub enum NameSaveOutcome {
    /// The settings file could not be written.
    NotSaved,
    /// The file was written but the new name could not be broadcast.
    BroadcastFailed(String),
    /// The name was saved and broadcast, but the dialog could not be closed.
    CloseFailed(String),
    /// The name was saved and broadcast and the dialog closed.
    Done,
}

/// The name-change dialog: the name being typed and the last feedback, with the time (in
/// milliseconds on the caller's clock) at which it was shown.
pub struct NameComponent {
    name_input: String,
    feedback_message: Option<(String, u64, FeedbackType)>,
}

/// What the dialog holds: the typed name and the feedback (text, time shown, kind).
pub struct NameComponentView {
    pub name_input: Seq<char>,
    pub feedback: Option<(Seq<char>, u64, FeedbackType)>,
}

impl View for NameComponent {
    type V = NameComponentView;

    closed spec fn view(&self) -> NameComponentView {
        NameComponentView {
            name_input: self.name_input@,
            feedback: match &self.feedback_message {
                Some((m, t, k)) => Some((m@, *t, *k)),
                None => None,
            },
        }
    }
}

impl NameComponent {
    /// An empty dialog.
    pub fn new() -> (r: Self)
        ensures
            r@.name_input == Seq::<char>::empty(),
            r@.feedback is None,
    {
        NameComponent { name_input: String::new(), feedback_message: None }
    }

    /// The name being typed.
    pub fn name_input(&self) -> (r: &str)
        ensures
            r@ == self@.name_input,
    {
        self.name_input.as_str()
    }

    /// Replaces the name being typed.
    pub fn set_name_input(&mut self, name: String)
        ensures
            final(self)@ == (NameComponentView { name_input: name@, ..old(self)@ }),
    {
        self.name_input = name;
    }

    /// Submits the typed name: an empty name is refused with the error "Name cannot be
    /// empty"; otherwise the name is handed back to be saved and nothing changes.
    pub fn submit(&mut self, now_ms: u64) -> (r: Option<String>)
        ensures
            old(self)@.name_input.len() == 0 ==> r is None && final(self)@ == (NameComponentView {
                feedback: Some(("Name cannot be empty"@, now_ms, FeedbackType::Error)),
                ..old(self)@
            }),
            old(self)@.name_input.len() != 0 ==> r.deep_view() == Some(old(self)@.name_input) && final(self)@ == old(self)@,
    {
        if self.name_input.as_str().is_empty() {
            self.feedback_message = Some(("Name cannot be empty".to_owned(), now_ms, FeedbackType::Error));
            None
        } else {
            Some(self.name_input.clone())
        }
    }

    /// Records how saving went: a failure becomes an error message, a success clears the
    /// typed name and says "Name changed successfully", unless closing the dialog then failed.
    pub fn record_save(&mut self, outcome: NameSaveOutcome, now_ms: u64)
        ensures
            match outcome {
                NameSaveOutcome::NotSaved => final(self)@ == (NameComponentView {
                    feedback: Some(("Failed to save name"@, now_ms, FeedbackType::Error)),
                    ..old(self)@
                }),
                NameSaveOutcome::BroadcastFailed(e) => final(self)@ == (NameComponentView {
                    feedback: Some(("Failed to update name: "@ + e@, now_ms, FeedbackType::Error)),
                    ..old(self)@
                }),
                NameSaveOutcome::CloseFailed(e) => final(self)@ == (NameComponentView {
                    name_input: Seq::empty(),
                    feedback: Some(("Failed to close modal: "@ + e@, now_ms, FeedbackType::Error)),
                }),
                NameSaveOutcome::Done => final(self)@ == (NameComponentView {
                    name_input: Seq::empty(),
                    feedback: Some(("Name changed successfully"@, now_ms, FeedbackType::Success)),
                }),
            },
    {
        match outcome {
            NameSaveOutcome::NotSaved => {
                self.feedback_message = Some(("Failed to save name".to_owned(), now_ms, FeedbackType::Error));
            },
            NameSaveOutcome::BroadcastFailed(e) => {
                self.feedback_message = Some((concat_text("Failed to update name: ", e.as_str()), now_ms, FeedbackType::Error));
            },
            NameSaveOutcome::CloseFailed(e) => {
                self.name_input = String::new();
                self.feedback_message = Some((concat_text("Failed to close modal: ", e.as_str()), now_ms, FeedbackType::Error));
            },
            NameSaveOutcome::Done => {
                self.name_input = String::new();
                self.feedback_message = Some(("Name changed successfully".to_owned(), now_ms, FeedbackType::Success));
            },
        }
    }

    /// The feedback text to show at time `now_ms`: shown for two seconds after a success and
    /// three after an error, then dropped.
    pub fn feedback_to_show(&mut self, now_ms: u64) -> (r: Option<String>)
        ensures
            final(self)@.name_input == old(self)@.name_input,
            match old(self)@.feedback {
                Some((m, t, k)) => if (if now_ms >= t { now_ms - t } else { 0 }) < feedback_duration_ms(k) {
                    r.deep_view() == Some(m) && final(self)@ == old(self)@
                } else {
                    r is None && final(self)@.feedback is None
                },
                None => r is None && final(self)@ == old(self)@,
            },
    {
        let shown = match &self.feedback_message {
            Some((m, t, k)) => {
                let elapsed = if now_ms >= *t { now_ms - *t } else { 0 };
                let limit: u64 = match k {
                    FeedbackType::Success => 2000,
                    FeedbackType::Error => 3000,
                };
                if elapsed < limit {
                    Some(Some(m.clone()))
                } else {
                    Some(None)
                }
            },
            None => None,
        };
        match shown {
            Some(Some(m)) => Some(m),
            Some(None) => {
                self.feedback_message = None;
                None
            },
            None => None,
        }
    }
}

} // verus!
