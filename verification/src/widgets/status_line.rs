//! The one-line status bar at the bottom of the screen.
use vstd::prelude::*;

verus! {

/// A message for the status bar, or none.
#[derive(Debug, Clone, PartialEq)]
pub enum Status {
    Info(String),
    Error(String),
    Success(String),
    /// No message.
    Blank,
}

/// The colour family in which the status bar writes its message.
#[derive(Debug, Clone, Copy, PartialEq, Eq, Structural)]
pub enum StatusTone {
    /// White on the bar's background: information, or no message.
    Plain,
    /// Red on the bar's background.
    Error,
    /// Green on the bar's background.
    Success,
}

/// The status bar: the status it shows, if any.
#[derive(Debug)]
pub struct StatusLine {
    status: Option<Status>,
}

impl View for StatusLine {
    type V = Option<Status>;

    closed spec fn view(&self) -> Option<Status> {
        self.status
    }
}

/// The text that the bar shows for `status`.
pub open spec fn status_text(status: Option<Status>) -> Seq<char> {
    match status {
        Some(Status::Info(m)) => m@,
        Some(Status::Error(m)) => m@,
        Some(Status::Success(m)) => m@,
        _ => Seq::empty(),
    }
}

/// The tone in which the bar shows `status`.
pub open spec fn status_tone(status: Option<Status>) -> StatusTone {
    match status {
        Some(Status::Error(_)) => StatusTone::Error,
        Some(Status::Success(_)) => StatusTone::Success,
        _ => StatusTone::Plain,
    }
}

impl StatusLine {
    /// An empty status bar.
    pub fn new() -> (line: StatusLine)
        ensures
            line@ == Option::<Status>::None,
    {
        StatusLine { status: None }
    }

    /// Shows `status`.
    pub fn set_text(&mut self, status: Status)
        ensures
            final(self)@ == Some(status),
    {
        self.status = Some(status);
    }

    /// Shows nothing.
    pub fn clear(&mut self)
        ensures
            final(self)@ == Option::<Status>::None,
    {
        self.status = None;
    }

    /// The text and the tone in which the bar is drawn.
    pub fn display(&self) -> (shown: (String, StatusTone))
        ensures
            shown.0@ == status_text(self@),
            shown.1 == status_tone(self@),
    {
        match &self.status {
            Some(Status::Info(m)) => (m.clone(), StatusTone::Plain),
            Some(Status::Error(m)) => (m.clone(), StatusTone::Error),
            Some(Status::Success(m)) => (m.clone(), StatusTone::Success),
            _ => (String::new(), StatusTone::Plain),
        }
    }
}

} // verus!
