use vstd::prelude::*;
use crate::codec::{pretty_body, pretty_json_of};
use crate::text::{pop_char, push_char, same_text};

verus! {

/// The top-level mode of the interface; exactly one is active.
#[derive(Clone, Copy, Debug, PartialEq, Eq, Structural)]
pub enum CurrentScreen {
    /// Browsing the history; no input field is active.
    Main,
    /// A URL is being typed into the input field.
    Editing,
    /// A yes/no prompt asks whether to leave.
    Exiting,
}

/// The input field that is being edited.
#[derive(Clone, Copy, Debug, PartialEq, Eq, Structural)]
pub enum CurrentlyEditing {
    Url,
}

/// Why a request did not produce a history entry.
#[derive(Clone, Copy, Debug, PartialEq, Eq, Structural)]
pub enum RequestError {
    /// The connection failed (DNS, connect, transport).
    NetworkError,
    /// No response arrived in time.
    Timeout,
    /// The server answered with a status outside 200..=299.
    NonSuccessStatus(u16),
    /// The body of a successful response is not JSON.
    BodyParseError,
}

/// Whether an HTTP status counts as success.
pub open spec fn is_success(status: u16) -> bool {
    200 <= status && status < 300
}

/// The request methods a user can pick for the next request.
#[derive(Clone, Copy, Debug, PartialEq, Eq, Structural)]
pub enum RequestMethod {
    GET,
    POST,
    PUT,
    DELETE,
    PATCH,
}

/// The canonical upper-case name of a method.
pub open spec fn method_text(m: RequestMethod) -> Seq<char> {
    match m {
        RequestMethod::GET => "GET"@,
        RequestMethod::POST => "POST"@,
        RequestMethod::PUT => "PUT"@,
        RequestMethod::DELETE => "DELETE"@,
        RequestMethod::PATCH => "PATCH"@,
    }
}

/// The method whose canonical name is `s`, if any.
pub open spec fn method_of_text(s: Seq<char>) -> Option<RequestMethod> {
    if s == "GET"@ {
        Some(RequestMethod::GET)
    } else if s == "POST"@ {
        Some(RequestMethod::POST)
    } else if s == "PUT"@ {
        Some(RequestMethod::PUT)
    } else if s == "DELETE"@ {
        Some(RequestMethod::DELETE)
    } else if s == "PATCH"@ {
        Some(RequestMethod::PATCH)
    } else {
        None
    }
}

impl RequestMethod {
    /// The canonical upper-case name of this method.
    pub fn as_str(&self) -> (r: &'static str)
        ensures
            r@ == method_text(*self),
    {
        match self {
            RequestMethod::GET => "GET",
            RequestMethod::POST => "POST",
            RequestMethod::PUT => "PUT",
            RequestMethod::DELETE => "DELETE",
            RequestMethod::PATCH => "PATCH",
        }
    }

    /// The method named by `s` in its canonical upper-case form.
    pub fn from_text(s: &str) -> (r: Option<RequestMethod>)
        ensures
            r == method_of_text(s@),
    {
        if same_text(s, "GET") {
            Some(RequestMethod::GET)
        } else if same_text(s, "POST") {
            Some(RequestMethod::POST)
        } else if same_text(s, "PUT") {
            Some(RequestMethod::PUT)
        } else if same_text(s, "DELETE") {
            Some(RequestMethod::DELETE)
        } else if same_text(s, "PATCH") {
            Some(RequestMethod::PATCH)
        } else {
            None
        }
    }
}

/// A method's name reads back as the same method.
pub proof fn lemma_method_text_round_trip(m: RequestMethod)
    ensures
        method_of_text(method_text(m)) == Some(m),
{
    reveal_strlit("GET");
    reveal_strlit("POST");
    reveal_strlit("PUT");
    reveal_strlit("DELETE");
    reveal_strlit("PATCH");
    assert("GET"@.len() == 3 && "PUT"@.len() == 3 && "POST"@.len() == 4);
    assert("DELETE"@.len() == 6 && "PATCH"@.len() == 5);
    assert("GET"@[0] != "PUT"@[0]);
    assert("GET"@ != "PUT"@);
}

/// One change of the draft.
pub enum DraftEdit {
    /// A character typed at the end.
    Insert(char),
    /// The last character deleted.
    Backspace,
}

/// `draft` after the edit `e`.
pub open spec fn edit_text(draft: Seq<char>, e: DraftEdit) -> Seq<char> {
    match e {
        DraftEdit::Insert(c) => draft.push(c),
        DraftEdit::Backspace => if draft.len() > 0 {
            draft.drop_last()
        } else {
            draft
        },
    }
}

/// `draft` after the edits `es`, in order.
pub open spec fn edit_all(draft: Seq<char>, es: Seq<DraftEdit>) -> Seq<char>
    decreases es.len(),
{
    if es.len() == 0 {
        draft
    } else {
        edit_text(edit_all(draft, es.drop_last()), es.last())
    }
}

/// A request that completed, as kept in the history.
pub struct Request {
    pub url: String,
    pub method: RequestMethod,
    /// The response body in pretty-printed JSON.
    pub response: String,
}

/// The whole state of a session.
pub struct App {
    /// The URL being typed, not yet submitted.
    pub url_input: String,
    /// The method for the next request.
    pub request_method_input: RequestMethod,
    /// The completed requests, oldest first; only ever appended to.
    pub requests: Vec<Request>,
    pub current_screen: CurrentScreen,
    /// Which field is edited; present exactly while editing.
    pub currently_editing: Option<CurrentlyEditing>,
    /// Whether a submitted request awaits its response.
    pub in_flight: bool,
    /// The failure of the last request, until one succeeds.
    pub last_error: Option<RequestError>,
}

impl App {
    /// The session's invariant.
    pub open spec fn wf(&self) -> bool {
        &&& (self.currently_editing is Some) == (self.current_screen == CurrentScreen::Editing)
        &&& self.in_flight ==> self.current_screen == CurrentScreen::Editing
    }

    /// Whether the session's invariant holds; the fields are public, so a
    /// caller that changed them can test it before calling a transition.
    pub fn is_well_formed(&self) -> (r: bool)
        ensures
            r == self.wf(),
    {
        let editing = match self.currently_editing {
            Some(_) => true,
            None => false,
        };
        let on_edit_screen = self.current_screen == CurrentScreen::Editing;
        editing == on_edit_screen && (!self.in_flight || on_edit_screen)
    }

    /// `self` and `other` differ at most in screen and edited field.
    pub open spec fn same_data(&self, other: &App) -> bool {
        &&& self.url_input@ == other.url_input@
        &&& self.request_method_input == other.request_method_input
        &&& self.requests@ == other.requests@
        &&& self.in_flight == other.in_flight
        &&& self.last_error == other.last_error
    }

    /// `self` is `other` unchanged.
    pub open spec fn same_as(&self, other: &App) -> bool {
        &&& self.same_data(other)
        &&& self.current_screen == other.current_screen
        &&& self.currently_editing == other.currently_editing
    }

    /// `self` is `old` with the draft committed to the history with `response`.
    pub open spec fn committed(&self, old: &App, response: Seq<char>) -> bool {
        &&& self.requests@.len() == old.requests@.len() + 1
        &&& self.requests@.take(old.requests@.len() as int) == old.requests@
        &&& self.requests@.last().url@ == old.url_input@
        &&& self.requests@.last().method == old.request_method_input
        &&& self.requests@.last().response@ == response
        &&& self.url_input@.len() == 0
        &&& self.request_method_input == old.request_method_input
        &&& self.current_screen == CurrentScreen::Main
        &&& self.currently_editing is None
        &&& !self.in_flight
        &&& self.last_error is None
    }

    /// `self` is `old` after a request failed with `e`: back to browsing,
    /// with the history and the draft kept.
    pub open spec fn failed(&self, old: &App, e: RequestError) -> bool {
        &&& self.requests@ == old.requests@
        &&& self.url_input@ == old.url_input@
        &&& self.request_method_input == old.request_method_input
        &&& self.current_screen == CurrentScreen::Main
        &&& self.currently_editing is None
        &&& !self.in_flight
        &&& self.last_error == Some(e)
    }

    /// A fresh session: browsing, empty draft, empty history, method GET.
    pub fn new() -> (r: App)
        ensures
            r.wf(),
            r.url_input@.len() == 0,
            r.request_method_input == RequestMethod::GET,
            r.requests@.len() == 0,
            r.current_screen == CurrentScreen::Main,
            r.currently_editing is None,
            !r.in_flight,
            r.last_error is None,
    {
        App {
            url_input: String::new(),
            request_method_input: RequestMethod::GET,
            requests: Vec::new(),
            current_screen: CurrentScreen::Main,
            currently_editing: None,
            in_flight: false,
            last_error: None,
        }
    }

    /// Commits the draft with `response` as a completed request, clears the
    /// draft and returns to browsing.
    pub fn save_request_values(&mut self, response: String)
        ensures
            final(self).wf(),
            final(self).committed(old(self), response@),
    {
        let ghost before = self.requests@;
        let url = self.url_input.clone();
        let request = Request { url, method: self.request_method_input, response };
        self.requests.push(request);
        self.url_input = String::new();
        self.currently_editing = None;
        self.current_screen = CurrentScreen::Main;
        self.in_flight = false;
        self.last_error = None;
        assert(self.requests@.take(before.len() as int) =~= before);
    }

    /// `self` is `old` after `begin_edit`.
    pub open spec fn after_begin_edit(&self, old: &App) -> bool {
        &&& self.same_data(old)
        &&& if old.current_screen == CurrentScreen::Main {
            &&& self.current_screen == CurrentScreen::Editing
            &&& self.currently_editing == Some(CurrentlyEditing::Url)
        } else {
            self.same_as(old)
        }
    }

    /// Opens the URL field; only from browsing.
    pub fn begin_edit(&mut self)
        requires
            old(self).wf(),
        ensures
            final(self).wf(),
            final(self).after_begin_edit(old(self)),
    {
        if self.current_screen == CurrentScreen::Main {
            self.current_screen = CurrentScreen::Editing;
            self.currently_editing = Some(CurrentlyEditing::Url);
        }
    }

    /// Whether the draft can be edited, the edit cancelled or submitted now.
    pub open spec fn accepts_input(&self) -> bool {
        self.current_screen == CurrentScreen::Editing && !self.in_flight
    }

    /// `self` is `old` after `cancel_edit`.
    pub open spec fn after_cancel_edit(&self, old: &App) -> bool {
        &&& self.same_data(old)
        &&& if old.accepts_input() {
            &&& self.current_screen == CurrentScreen::Main
            &&& self.currently_editing is None
        } else {
            self.same_as(old)
        }
    }

    /// Closes the URL field and returns to browsing, keeping the draft; only
    /// while editing with no request pending.
    pub fn cancel_edit(&mut self)
        requires
            old(self).wf(),
        ensures
            final(self).wf(),
            final(self).after_cancel_edit(old(self)),
    {
        if self.current_screen == CurrentScreen::Editing && !self.in_flight {
            self.current_screen = CurrentScreen::Main;
            self.currently_editing = None;
        }
    }

    /// `self` is `old` after the edit `e` of the draft.
    pub open spec fn after_edit(&self, old: &App, e: DraftEdit) -> bool {
        &&& self.current_screen == old.current_screen
        &&& self.currently_editing == old.currently_editing
        &&& self.requests@ == old.requests@
        &&& self.in_flight == old.in_flight
        &&& self.last_error == old.last_error
        &&& self.request_method_input == old.request_method_input
        &&& self.url_input@ == if old.accepts_input() {
            edit_text(old.url_input@, e)
        } else {
            old.url_input@
        }
    }

    /// Types `c` at the end of the draft; ignored unless the draft accepts input.
    pub fn append_to_draft(&mut self, c: char)
        requires
            old(self).wf(),
        ensures
            final(self).wf(),
            final(self).after_edit(old(self), DraftEdit::Insert(c)),
    {
        if self.current_screen == CurrentScreen::Editing && !self.in_flight {
            push_char(&mut self.url_input, c);
        }
    }

    /// Deletes the last character of the draft; ignored unless the draft
    /// accepts input, and on an empty draft.
    pub fn backspace_draft(&mut self)
        requires
            old(self).wf(),
        ensures
            final(self).wf(),
            final(self).after_edit(old(self), DraftEdit::Backspace),
    {
        if self.current_screen == CurrentScreen::Editing && !self.in_flight {
            pop_char(&mut self.url_input);
        }
    }

    /// `self` is `old` after `submit` returned `r`.
    pub open spec fn after_submit(&self, old: &App, r: Option<String>) -> bool {
        if old.accepts_input() && old.url_input@.len() > 0 {
            &&& r is Some
            &&& r->0@ == old.url_input@
            &&& self.in_flight
            &&& self.current_screen == old.current_screen
            &&& self.currently_editing == old.currently_editing
            &&& self.url_input@ == old.url_input@
            &&& self.request_method_input == old.request_method_input
            &&& self.requests@ == old.requests@
            &&& self.last_error == old.last_error
        } else {
            r is None && self.same_as(old)
        }
    }

    /// Submits the draft: where the draft accepts input and is not empty, the
    /// request becomes pending and its URL is returned for fetching; otherwise
    /// nothing changes.
    pub fn submit(&mut self) -> (r: Option<String>)
        requires
            old(self).wf(),
        ensures
            final(self).wf(),
            final(self).after_submit(old(self), r),
    {
        if self.current_screen == CurrentScreen::Editing && !self.in_flight
            && !self.url_input.as_str().is_empty() {
            self.in_flight = true;
            Some(self.url_input.clone())
        } else {
            None
        }
    }

    /// `self` is `old` after `request_exit`.
    pub open spec fn after_request_exit(&self, old: &App) -> bool {
        &&& self.same_data(old)
        &&& self.currently_editing == old.currently_editing
        &&& self.current_screen == if old.current_screen == CurrentScreen::Main {
            CurrentScreen::Exiting
        } else {
            old.current_screen
        }
    }

    /// Asks whether to leave; only from browsing.
    pub fn request_exit(&mut self)
        requires
            old(self).wf(),
        ensures
            final(self).wf(),
            final(self).after_request_exit(old(self)),
    {
        if self.current_screen == CurrentScreen::Main {
            self.current_screen = CurrentScreen::Exiting;
        }
    }

    /// `self` is `old` after `confirm_exit(yes)` returned `quit`.
    pub open spec fn after_confirm_exit(&self, old: &App, yes: bool, quit: bool) -> bool {
        &&& self.same_data(old)
        &&& quit == (yes && old.current_screen == CurrentScreen::Exiting)
        &&& if !yes && old.current_screen == CurrentScreen::Exiting {
            &&& self.current_screen == CurrentScreen::Main
            &&& self.currently_editing is None
        } else {
            self.same_as(old)
        }
    }

    /// Answers the exit prompt. Returns whether the session ends: `true`
    /// only for a yes while the prompt is shown. A no returns to browsing;
    /// outside the prompt nothing changes.
    pub fn confirm_exit(&mut self, yes: bool) -> (quit: bool)
        requires
            old(self).wf(),
        ensures
            final(self).wf(),
            final(self).after_confirm_exit(old(self), yes, quit),
    {
        if self.current_screen == CurrentScreen::Exiting {
            if yes {
                true
            } else {
                self.current_screen = CurrentScreen::Main;
                false
            }
        } else {
            false
        }
    }

    /// Ends the pending request with error `e`.
    fn fail_request(&mut self, e: RequestError)
        ensures
            final(self).wf(),
            final(self).failed(old(self), e),
    {
        self.current_screen = CurrentScreen::Main;
        self.currently_editing = None;
        self.in_flight = false;
        self.last_error = Some(e);
    }

    /// Ends the pending request given the pretty-printed body of a successful
    /// response: the text commits the request, `None` fails it with
    /// `BodyParseError`.
    pub fn finish_with_body(&mut self, pretty: Option<String>) -> (r: Result<(), RequestError>)
        requires
            old(self).wf(),
            old(self).in_flight,
        ensures
            final(self).wf(),
            match pretty {
                Some(t) => r is Ok && final(self).committed(old(self), t@),
                None => r == Err::<(), RequestError>(RequestError::BodyParseError) && final(self).failed(old(self), RequestError::BodyParseError),
            },
    {
        match pretty {
            Some(t) => {
                self.save_request_values(t);
                Ok(())
            },
            None => {
                self.fail_request(RequestError::BodyParseError);
                Err(RequestError::BodyParseError)
            },
        }
    }

    /// Ends the pending request with what the network gave: a status and a
    /// body, or a transport error. A success status with a JSON body commits
    /// the request with the body pretty-printed; anything else fails it, keeps
    /// history and draft, and returns to browsing.
    pub fn complete_request(&mut self, response: Result<(u16, Vec<u8>), RequestError>) -> (r:
        Result<(), RequestError>)
        requires
            old(self).wf(),
            old(self).in_flight,
        ensures
            final(self).wf(),
            match response {
                Err(e) => r == Err::<(), RequestError>(e) && final(self).failed(old(self), e),
                Ok((status, body)) => if !is_success(status) {
                    r == Err::<(), RequestError>(RequestError::NonSuccessStatus(status))
                        && final(self).failed(old(self), RequestError::NonSuccessStatus(status))
                } else {
                    match pretty_json_of(body@) {
                        Some(t) => r is Ok && final(self).committed(old(self), t),
                        None => r == Err::<(), RequestError>(RequestError::BodyParseError)
                            && final(self).failed(old(self), RequestError::BodyParseError),
                    }
                },
            },
    {
        match response {
            Err(e) => {
                self.fail_request(e);
                Err(e)
            },
            Ok((status, body)) => {
                if status < 200 || status >= 300 {
                    self.fail_request(RequestError::NonSuccessStatus(status));
                    Err(RequestError::NonSuccessStatus(status))
                } else {
                    let pretty = pretty_body(&body);
                    self.finish_with_body(pretty)
                }
            },
        }
    }
}

impl Default for App {
    fn default() -> (r: App)
        ensures
            r.wf(),
            r.url_input@.len() == 0,
            r.request_method_input == RequestMethod::GET,
            r.requests@.len() == 0,
            r.current_screen == CurrentScreen::Main,
            r.currently_editing is None,
            !r.in_flight,
            r.last_error is None,
    {
        App::new()
    }
}

/// Edits of the draft take effect in order while it accepts input, and
/// leave it as it is otherwise.
pub proof fn lemma_edits_apply_in_order(states: Seq<App>, edits: Seq<DraftEdit>)
    requires
        states.len() == edits.len() + 1,
        forall|i: int| 0 <= i < edits.len() ==> #[trigger] states[i + 1].after_edit(&states[i], edits[i]),
    ensures
        states.last().url_input@ == if states[0].accepts_input() {
            edit_all(states[0].url_input@, edits)
        } else {
            states[0].url_input@
        },
        states.last().accepts_input() == states[0].accepts_input(),
        states.last().requests@ == states[0].requests@,
    decreases edits.len(),
{
    if edits.len() > 0 {
        let n = edits.len() as int;
        let fewer = states.drop_last();
        assert forall|i: int| 0 <= i < n - 1 implies #[trigger] fewer[i + 1].after_edit(&fewer[i], edits.drop_last()[i]) by {
            assert(states[i + 1].after_edit(&states[i], edits[i]));
        }
        lemma_edits_apply_in_order(fewer, edits.drop_last());
        assert(states[n].after_edit(&states[n - 1], edits[n - 1]));
    }
}

/// Opening the URL field and cancelling returns to browsing with history
/// and draft as they were.
pub proof fn lemma_edit_then_cancel(a0: App, a1: App, a2: App)
    requires
        a0.wf(),
        a0.current_screen == CurrentScreen::Main,
        a1.after_begin_edit(&a0),
        a2.after_cancel_edit(&a1),
    ensures
        a2.current_screen == CurrentScreen::Main,
        a2.currently_editing is None,
        a2.requests@ == a0.requests@,
        a2.url_input@ == a0.url_input@,
{
}

/// A submitted draft that completes successfully adds exactly one history
/// entry, for that draft's URL, and leaves an empty draft while browsing.
pub proof fn lemma_submit_then_success(a0: App, a1: App, a2: App, r: Option<String>, body: Seq<char>)
    requires
        a0.wf(),
        a0.accepts_input(),
        a0.url_input@.len() > 0,
        a1.after_submit(&a0, r),
        a2.committed(&a1, body),
    ensures
        a2.requests@.len() == a0.requests@.len() + 1,
        a2.requests@.take(a0.requests@.len() as int) == a0.requests@,
        a2.requests@.last().url@ == a0.url_input@,
        a2.requests@.last().response@ == body,
        a2.url_input@.len() == 0,
        a2.current_screen == CurrentScreen::Main,
{
}

/// Declining the exit prompt returns to browsing with history and draft
/// untouched, and does not end the session.
pub proof fn lemma_decline_exit(a0: App, a1: App, quit: bool)
    requires
        a0.current_screen == CurrentScreen::Exiting,
        a1.after_confirm_exit(&a0, false, quit),
    ensures
        !quit,
        a1.current_screen == CurrentScreen::Main,
        a1.requests@ == a0.requests@,
        a1.url_input@ == a0.url_input@,
{
}

} // verus!
