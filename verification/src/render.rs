//! What the store tells the drawing side of the application.
use vstd::prelude::*;

use crate::widgets::status_line::Status;

verus! {

/// An event for the drawing side: redraw, show a status, show a query's
/// result, or enter the main screen after connecting.
#[derive(Debug, Clone, PartialEq)]
pub enum RenderEvent {
    Draw,
    StatusMessage(Status),
    QueryResult { headers: Vec<String>, rows: Vec<Vec<String>> },
    Connected,
}

} // verus!
