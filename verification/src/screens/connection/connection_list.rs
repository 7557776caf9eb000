//! The list of saved connections and the one that is selected.
use vstd::prelude::*;

use crate::data::{ConnectionInfo, Data};
use crate::events::{KeyCode, TermEvent};
use crate::text::{push_decimal, decimal};
use vstd::string::*;

verus! {

/// The list of saved connections: the position of the selected one.
#[derive(Debug)]
pub struct ConnectionList {
    selected: usize,
}

/// Whether `event` is a key that moves the selection up (Up or `k`).
pub open spec fn moves_up(event: TermEvent) -> bool {
    event.has_code(KeyCode::Up) || event.has_code(KeyCode::Char('k'))
}

/// Whether `event` is a key that moves the selection down (Down or `j`).
pub open spec fn moves_down(event: TermEvent) -> bool {
    event.has_code(KeyCode::Down) || event.has_code(KeyCode::Char('j'))
}

/// Whether `event` would move the selection in an empty list, where the last
/// position does not exist.
pub open spec fn list_event_fails(count: nat, event: TermEvent) -> bool {
    count == 0 && (moves_up(event) || moves_down(event))
}

/// Whether `event` would move the selection in an empty list (see
/// `list_event_fails`).
pub fn list_event_fails_on(count: usize, event: &TermEvent) -> (fails: bool)
    ensures
        fails == list_event_fails(count as nat, *event),
{
    match event.key {
        Some(k) => count == 0 && (k.code == KeyCode::Up || k.code == KeyCode::Char('k') || k.code == KeyCode::Down
            || k.code == KeyCode::Char('j')),
        None => false,
    }
}

/// The selected position after `event` among `count` connections: up goes to
/// the previous position, from the first to the last; down goes to the next
/// one, from the last to the first; other events keep it.
pub open spec fn list_step(selected: usize, count: nat, event: TermEvent) -> usize {
    if moves_up(event) {
        if selected > 0 {
            (selected - 1) as usize
        } else {
            (count - 1) as usize
        }
    } else if moves_down(event) {
        if selected < count - 1 {
            (selected + 1) as usize
        } else {
            0
        }
    } else {
        selected
    }
}

/// The text of a connection's host line.
pub open spec fn host_label(info: ConnectionInfo) -> Seq<char> {
    "Host: "@ + info.host@
}

/// The text of a connection's port line.
pub open spec fn port_label(info: ConnectionInfo) -> Seq<char> {
    "Port: "@ + decimal(info.port as nat)
}

impl ConnectionList {
    /// The selected position.
    pub closed spec fn position(&self) -> usize {
        self.selected
    }

    /// A list with the first connection selected.
    pub fn new() -> (list: Self)
        ensures
            list.position() == 0,
    {
        ConnectionList { selected: 0 }
    }

    /// The selected position.
    pub fn selected(&self) -> (p: usize)
        ensures
            p == self.position(),
    {
        self.selected
    }

    /// Moves the selection with the arrow keys or `k` and `j`, wrapping
    /// around at both ends of the saved connections.
    pub fn handle_event(&mut self, event: &TermEvent, ctx: &Data)
        requires
            !list_event_fails(ctx.connections@.len(), *event),
        ensures
            final(self).position() == list_step(old(self).position(), ctx.connections@.len(), *event),
    {
        match event.key {
            Some(key_event) => match key_event.code {
                KeyCode::Up | KeyCode::Char('k') => {
                    if self.selected > 0 {
                        self.selected -= 1;
                    } else {
                        self.selected = ctx.connections.len() - 1;
                    }
                },
                KeyCode::Down | KeyCode::Char('j') => {
                    if self.selected < ctx.connections.len() - 1 {
                        self.selected += 1;
                    } else {
                        self.selected = 0;
                    }
                },
                _ => {},
            },
            None => {},
        }
    }

    /// The two lines shown in a connection's box: its host and its port.
    pub fn connection_labels(&self, connection: &ConnectionInfo) -> (labels: (String, String))
        ensures
            labels.0@ == host_label(*connection),
            labels.1@ == port_label(*connection),
    {
        let mut host = String::from_str("Host: ");
        host.append(connection.host.as_str());
        let mut port = String::from_str("Port: ");
        push_decimal(&mut port, connection.port);
        (host, port)
    }
}

/// Moving the selection down and then up, or up and then down, in a
/// non-empty list returns it to where it was.
pub proof fn lemma_selection_round_trip(selected: usize, count: nat, up: TermEvent, down: TermEvent)
    requires
        0 < count <= usize::MAX,
        selected < count,
        moves_up(up),
        !moves_down(up),
        moves_down(down),
        !moves_up(down),
    ensures
        list_step(list_step(selected, count, down), count, up) == selected,
        list_step(list_step(selected, count, up), count, down) == selected,
        list_step(selected, count, up) < count,
        list_step(selected, count, down) < count,
{
}

} // verus!
