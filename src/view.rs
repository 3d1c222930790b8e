use vstd::prelude::*;
use crate::app::{
    method_text, App, CurrentScreen, CurrentlyEditing, Request, RequestError,
};
use crate::text::{decimal, decimal_string};

verus! {

/// The history line of a completed request: `METHOD | URL`.
pub open spec fn line_of(r: Request) -> Seq<char> {
    method_text(r.method) + " | "@ + r.url@
}

/// The history line of `r`.
pub fn history_line(r: &Request) -> (s: String)
    ensures
        s@ == line_of(*r),
{
    let mut s = String::from_str(r.method.as_str());
    s.append(" | ");
    s.append(r.url.as_str());
    s
}

/// One line per completed request, oldest first.
pub fn history_lines(app: &App) -> (lines: Vec<String>)
    ensures
        lines@.len() == app.requests@.len(),
        forall|i: int| 0 <= i < lines@.len() ==> #[trigger] lines@[i]@ == line_of(app.requests@[i]),
{
    let mut lines: Vec<String> = Vec::new();
    let n = app.requests.len();
    let mut i: usize = 0;
    while i < n
        invariant
            n == app.requests@.len(),
            i <= n,
            lines@.len() == i,
            forall|k: int| 0 <= k < i ==> #[trigger] lines@[k]@ == line_of(app.requests@[k]),
        decreases n - i,
    {
        let line = history_line(&app.requests[i]);
        lines.push(line);
        i = i + 1;
    }
    lines
}

/// The name of a screen as the footer shows it.
pub open spec fn mode_text(s: CurrentScreen) -> Seq<char> {
    match s {
        CurrentScreen::Main => "Normal Mode"@,
        CurrentScreen::Editing => "Editing Mode"@,
        CurrentScreen::Exiting => "Exiting"@,
    }
}

/// The footer's name for the current screen.
pub fn mode_label(s: CurrentScreen) -> (r: &'static str)
    ensures
        r@ == mode_text(s),
{
    match s {
        CurrentScreen::Main => "Normal Mode",
        CurrentScreen::Editing => "Editing Mode",
        CurrentScreen::Exiting => "Exiting",
    }
}

/// What the footer says of the edited field.
pub open spec fn editing_text(e: Option<CurrentlyEditing>) -> Seq<char> {
    match e {
        Some(CurrentlyEditing::Url) => "Editing URL"@,
        None => "Not Editing Anything"@,
    }
}

/// The footer's note on the field being edited.
pub fn editing_label(e: Option<CurrentlyEditing>) -> (r: &'static str)
    ensures
        r@ == editing_text(e),
{
    match e {
        Some(CurrentlyEditing::Url) => "Editing URL",
        None => "Not Editing Anything",
    }
}

/// The key hints shown on a screen.
pub open spec fn hint_text(s: CurrentScreen) -> Seq<char> {
    match s {
        CurrentScreen::Editing => "(ESC) to cancel/(Tab) to switch boxes/enter to complete"@,
        _ => "(q) to quit / (e) to make new pair"@,
    }
}

/// The footer's key hints for the current screen.
pub fn key_hint(s: CurrentScreen) -> (r: &'static str)
    ensures
        r@ == hint_text(s),
{
    match s {
        CurrentScreen::Editing => "(ESC) to cancel/(Tab) to switch boxes/enter to complete",
        _ => "(q) to quit / (e) to make new pair",
    }
}

/// The message shown for a failed request.
pub open spec fn error_message(e: RequestError) -> Seq<char> {
    match e {
        RequestError::NetworkError => "Request failed: network error"@,
        RequestError::Timeout => "Request failed: timed out"@,
        RequestError::NonSuccessStatus(code) => "Request failed: status "@ + decimal(code as nat),
        RequestError::BodyParseError => "Request failed: the response body is not JSON"@,
    }
}

/// The message for a failed request.
pub fn error_text(e: RequestError) -> (r: String)
    ensures
        r@ == error_message(e),
{
    match e {
        RequestError::NetworkError => String::from_str("Request failed: network error"),
        RequestError::Timeout => String::from_str("Request failed: timed out"),
        RequestError::NonSuccessStatus(code) => {
            let mut s = String::from_str("Request failed: status ");
            let digits = decimal_string(code);
            s.append(digits.as_str());
            s
        },
        RequestError::BodyParseError => String::from_str(
            "Request failed: the response body is not JSON",
        ),
    }
}

/// What the response pane shows: the error of the last request where it
/// failed, else the body of the most recent completed request; `None` where
/// there is neither.
pub open spec fn response_of(app: App) -> Option<Seq<char>> {
    match app.last_error {
        Some(e) => Some(error_message(e)),
        None => if app.requests@.len() > 0 {
            Some(app.requests@.last().response@)
        } else {
            None
        },
    }
}

/// The text of the response pane.
pub fn response_text(app: &App) -> (r: Option<String>)
    ensures
        match r {
            Some(t) => response_of(*app) == Some(t@),
            None => response_of(*app) is None,
        },
{
    match app.last_error {
        Some(e) => Some(error_text(e)),
        None => {
            let n = app.requests.len();
            if n > 0 {
                Some(app.requests[n - 1].response.clone())
            } else {
                None
            }
        },
    }
}

/// Once a request is committed, the response pane shows its body.
pub proof fn lemma_pane_shows_latest(before: App, after: App, body: Seq<char>)
    requires
        after.committed(&before, body),
    ensures
        response_of(after) == Some(body),
{
}

} // verus!
