//! Actions sent by the backend and the responses that report their progress.

use vstd::prelude::*;
use crate::text::{same_text, texts};

verus! {

/// A command issued by the backend. `name` selects the route; `action_id`
/// identifies the action in every response.
#[derive(Debug)]
pub struct Action {
    pub action_id: String,
    pub kind: String,
    pub name: String,
    pub payload: String,
}

/// What an [`Action`] says, field by field.
pub struct ActionView {
    pub action_id: Seq<char>,
    pub kind: Seq<char>,
    pub name: Seq<char>,
    pub payload: Seq<char>,
}

impl View for Action {
    type V = ActionView;

    open spec fn view(&self) -> ActionView {
        ActionView {
            action_id: self.action_id@,
            kind: self.kind@,
            name: self.name@,
            payload: self.payload@,
        }
    }
}

impl Clone for Action {
    fn clone(&self) -> (r: Self)
        ensures
            r == *self,
    {
        Action {
            action_id: self.action_id.clone(),
            kind: self.kind.clone(),
            name: self.name.clone(),
            payload: self.payload.clone(),
        }
    }
}

impl Action {
    /// Builds an action from its four parts.
    pub fn new(action_id: &str, kind: &str, name: &str, payload: &str) -> (a: Action)
        ensures
            a@ == (ActionView { action_id: action_id@, kind: kind@, name: name@, payload: payload@ }),
    {
        Action {
            action_id: String::from_str(action_id),
            kind: String::from_str(kind),
            name: String::from_str(name),
            payload: String::from_str(payload),
        }
    }

    /// The same action addressed to the route `name`.
    pub fn renamed(self, name: &str) -> (a: Action)
        ensures
            a@ == self@.renamed(name@),
    {
        Action {
            action_id: self.action_id,
            kind: self.kind,
            name: String::from_str(name),
            payload: self.payload,
        }
    }
}

impl ActionView {
    /// The same action addressed to the route `name`.
    pub open spec fn renamed(self, name: Seq<char>) -> ActionView {
        ActionView { name, ..self }
    }
}

/// A report on an action: its state, progress in percent, and errors.
/// `done_response` may carry the action to hand to the next route.
#[derive(Debug)]
pub struct ActionResponse {
    pub action_id: String,
    pub sequence: u32,
    pub timestamp: u64,
    pub state: String,
    pub progress: u8,
    pub errors: Vec<String>,
    pub done_response: Option<Action>,
}

/// What an [`ActionResponse`] says, field by field.
pub struct ActionResponseView {
    pub action_id: Seq<char>,
    pub sequence: u32,
    pub timestamp: u64,
    pub state: Seq<char>,
    pub progress: u8,
    pub errors: Seq<Seq<char>>,
    pub done_response: Option<ActionView>,
}

/// The view of an optional action.
pub open spec fn action_option_view(a: Option<Action>) -> Option<ActionView> {
    match a {
        Some(a) => Some(a@),
        None => None,
    }
}

impl View for ActionResponse {
    type V = ActionResponseView;

    open spec fn view(&self) -> ActionResponseView {
        ActionResponseView {
            action_id: self.action_id@,
            sequence: self.sequence,
            timestamp: self.timestamp,
            state: self.state@,
            progress: self.progress,
            errors: texts(self.errors@),
            done_response: action_option_view(self.done_response),
        }
    }
}

impl ActionResponseView {
    /// A response without errors and without a follow-up action.
    pub open spec fn progress(
        id: Seq<char>,
        state: Seq<char>,
        progress: u8,
        timestamp: u64,
    ) -> ActionResponseView {
        ActionResponseView {
            action_id: id,
            sequence: 0,
            timestamp,
            state,
            progress,
            errors: Seq::empty(),
            done_response: None,
        }
    }

    /// The response that closes an action successfully.
    pub open spec fn success(id: Seq<char>, timestamp: u64) -> ActionResponseView {
        Self::progress(id, "Completed"@, 100, timestamp)
    }

    /// The response that closes an action with one error.
    pub open spec fn failure(id: Seq<char>, error: Seq<char>, timestamp: u64) -> ActionResponseView {
        ActionResponseView { errors: seq![error], ..Self::progress(id, "Failed"@, 100, timestamp) }
    }

    /// The action ended well.
    pub open spec fn is_completed(self) -> bool {
        self.state == "Completed"@
    }

    /// The action ended badly.
    pub open spec fn is_failed(self) -> bool {
        self.state == "Failed"@
    }

    /// The action reached full progress without a final state: it is ready
    /// to be handed to the next route.
    pub open spec fn is_done(self) -> bool {
        self.progress == 100 && !self.is_completed() && !self.is_failed()
    }
}

impl Clone for ActionResponse {
    fn clone(&self) -> (r: Self)
        ensures
            r@ == self@,
    {
        let mut errors: Vec<String> = Vec::new();
        let mut i: usize = 0;
        while i < self.errors.len()
            invariant
                i <= self.errors.len(),
                errors@ == self.errors@.subrange(0, i as int),
            decreases self.errors.len() - i,
        {
            errors.push(self.errors[i].clone());
            i += 1;
        }
        assert(errors@ =~= self.errors@);
        let done_response = match &self.done_response {
            Some(a) => Some(a.clone()),
            None => None,
        };
        ActionResponse {
            action_id: self.action_id.clone(),
            sequence: self.sequence,
            timestamp: self.timestamp,
            state: self.state.clone(),
            progress: self.progress,
            errors,
            done_response,
        }
    }
}

impl ActionResponse {
    /// A response with the given state and progress, stamped `timestamp`
    /// (milliseconds since the epoch).
    pub fn progress(id: &str, state: &str, progress: u8, timestamp: u64) -> (r: ActionResponse)
        ensures
            r@ == ActionResponseView::progress(id@, state@, progress, timestamp),
    {
        let r = ActionResponse {
            action_id: String::from_str(id),
            sequence: 0,
            timestamp,
            state: String::from_str(state),
            progress,
            errors: Vec::new(),
            done_response: None,
        };
        assert(r@.errors =~= Seq::empty());
        r
    }

    /// The response that closes the action `id` successfully.
    pub fn success(id: &str, timestamp: u64) -> (r: ActionResponse)
        ensures
            r@ == ActionResponseView::success(id@, timestamp),
    {
        Self::progress(id, "Completed", 100, timestamp)
    }

    /// The response that closes the action `id` with the error `error`.
    pub fn failure(id: &str, error: String, timestamp: u64) -> (r: ActionResponse)
        ensures
            r@ == ActionResponseView::failure(id@, error@, timestamp),
    {
        let mut errors: Vec<String> = Vec::new();
        errors.push(error);
        let r = ActionResponse {
            action_id: String::from_str(id),
            sequence: 0,
            timestamp,
            state: String::from_str("Failed"),
            progress: 100,
            errors,
            done_response: None,
        };
        assert(r@.errors =~= seq![error@]);
        r
    }

    /// The same response with one more error at the end.
    pub fn add_error(self, error: String) -> (r: ActionResponse)
        ensures
            r@ == (ActionResponseView { errors: self@.errors.push(error@), ..self@ }),
    {
        let mut r = self;
        r.errors.push(error);
        assert(r@.errors =~= self@.errors.push(error@));
        r
    }

    /// The same response with the sequence number `sequence`.
    pub fn set_sequence(self, sequence: u32) -> (r: ActionResponse)
        ensures
            r@ == (ActionResponseView { sequence, ..self@ }),
    {
        let mut r = self;
        r.sequence = sequence;
        r
    }

    /// The same response carrying `action` for the next route.
    pub fn set_done_response(self, action: Action) -> (r: ActionResponse)
        ensures
            r@ == (ActionResponseView { done_response: Some(action@), ..self@ }),
    {
        let mut r = self;
        r.done_response = Some(action);
        r
    }

    /// Whether the state is `"Completed"`.
    pub fn is_completed(&self) -> (b: bool)
        ensures
            b == self@.is_completed(),
    {
        same_text(&self.state, "Completed")
    }

    /// Whether the state is `"Failed"`.
    pub fn is_failed(&self) -> (b: bool)
        ensures
            b == self@.is_failed(),
    {
        same_text(&self.state, "Failed")
    }

    /// Whether progress is 100 and the state is neither `"Completed"` nor
    /// `"Failed"`.
    pub fn is_done(&self) -> (b: bool)
        ensures
            b == self@.is_done(),
    {
        self.progress == 100 && !self.is_completed() && !self.is_failed()
    }
}

} // verus!
