//! The connection screen: the saved connections and the form for a new one.
pub mod connection_list;
pub mod new_connection_form;

use vstd::prelude::*;

use crate::data::{AppCommand, Data};
use crate::events::{KeyCode, KeyEvent, KeyEventKind, TermEvent};
use connection_list::{list_event_fails, list_event_fails_on, list_step, ConnectionList};
use new_connection_form::{form_event_fails, form_event_fails_on, form_step, ConnectionInfoForm};

verus! {

/// Whether the connection screen shows only the list or the new-connection
/// form over it.
#[derive(Debug, Clone, Copy, PartialEq, Eq, Structural)]
pub enum ConnectionScreenState {
    Home,
    NewConnection,
}

/// The connection screen: what it shows, the list of connections and the
/// new-connection form.
#[derive(Debug)]
pub struct ConnectionScreen {
    state: ConnectionScreenState,
    connections_list: ConnectionList,
    new_connection_form: ConnectionInfoForm,
}

/// Whether `event` is a press of `n`, which opens the form.
pub open spec fn opens_form(event: TermEvent) -> bool {
    event.is_press_of(KeyCode::Char('n'))
}

/// Whether `event` is exactly a bare Escape press, which closes the form.
pub open spec fn closes_form(event: TermEvent) -> bool {
    event.key == Some(KeyEvent::plain(KeyCode::Esc))
}

/// Whether `event` is a press of Enter, which saves the form.
pub open spec fn submits_form(event: TermEvent) -> bool {
    event.is_press_of(KeyCode::Enter)
}

/// Whether handling `event` on the screen `before` leads to the screen
/// `after` and the command `command`: on the list, `n` opens an empty form and
/// other events move the selection as `list_step` says; on the form, a bare
/// Escape closes it, Enter closes it and asks for the connection it describes
/// to be saved, and other events go to the form as `form_step` says.
pub open spec fn screen_step(
    before: ConnectionScreen,
    after: ConnectionScreen,
    event: TermEvent,
    ctx: Data,
    command: Option<AppCommand>,
) -> bool {
    match before.mode() {
        ConnectionScreenState::Home => if opens_form(event) {
            &&& command is None
            &&& after.mode() == ConnectionScreenState::NewConnection
            &&& after.form().is_fresh()
            &&& after.list() == before.list()
        } else {
            &&& command is None
            &&& after.mode() == ConnectionScreenState::Home
            &&& after.form() == before.form()
            &&& after.list().position() == list_step(
                before.list().position(),
                ctx.connections@.len(),
                event,
            )
        },
        ConnectionScreenState::NewConnection => if closes_form(event) {
            &&& command is None
            &&& after.mode() == ConnectionScreenState::Home
            &&& after.form() == before.form()
            &&& after.list() == before.list()
        } else if submits_form(event) {
            &&& command matches Some(AppCommand::SaveConnection(info)) && before.form().describes(info)
            &&& after.mode() == ConnectionScreenState::Home
            &&& after.form() == before.form()
            &&& after.list() == before.list()
        } else {
            &&& command is None
            &&& after.mode() == ConnectionScreenState::NewConnection
            &&& after.list() == before.list()
            &&& form_step(before.form(), after.form(), event)
        },
    }
}

impl ConnectionScreen {
    /// What the screen shows.
    pub closed spec fn mode(&self) -> ConnectionScreenState {
        self.state
    }

    /// The list of connections.
    pub closed spec fn list(&self) -> ConnectionList {
        self.connections_list
    }

    /// The new-connection form.
    pub closed spec fn form(&self) -> ConnectionInfoForm {
        self.new_connection_form
    }

    /// Whether nothing on the screen can take `event`: a move in an empty
    /// list, or a key for a text field while the form's focus is on a
    /// database kind.
    pub open spec fn event_fails(&self, event: TermEvent, ctx: Data) -> bool {
        match self.mode() {
            ConnectionScreenState::Home => !opens_form(event) && list_event_fails(ctx.connections@.len(), event),
            ConnectionScreenState::NewConnection => !closes_form(event) && !submits_form(event)
                && form_event_fails(self.form().focus(), event),
        }
    }

    /// Whether nothing on the screen can take `event` (see `event_fails`).
    pub fn event_fails_on(&self, event: &TermEvent, ctx: &Data) -> (fails: bool)
        ensures
            fails == self.event_fails(*event, *ctx),
    {
        match self.state {
            ConnectionScreenState::Home => {
                let opens = match event.key {
                    Some(k) => k.code == KeyCode::Char('n') && k.kind == KeyEventKind::Press,
                    None => false,
                };
                !opens && list_event_fails_on(ctx.connections.len(), event)
            },
            ConnectionScreenState::NewConnection => {
                let closes = event.key == Some(KeyEvent::from_code(KeyCode::Esc));
                let submits = match event.key {
                    Some(k) => k.code == KeyCode::Enter && k.kind == KeyEventKind::Press,
                    None => false,
                };
                !closes && !submits && form_event_fails_on(self.new_connection_form.state(), event)
            },
        }
    }

    /// The list alone, with the first connection selected and an empty form
    /// behind it.
    pub fn new() -> (screen: Self)
        ensures
            screen.mode() == ConnectionScreenState::Home,
            screen.list().position() == 0,
            screen.form().is_fresh(),
    {
        ConnectionScreen {
            state: ConnectionScreenState::Home,
            new_connection_form: ConnectionInfoForm::new(),
            connections_list: ConnectionList::new(),
        }
    }

    /// What the screen shows.
    pub fn state(&self) -> (s: ConnectionScreenState)
        ensures
            s == self.mode(),
    {
        self.state
    }

    /// The list of connections.
    pub fn connections_list(&self) -> (l: &ConnectionList)
        ensures
            *l == self.list(),
    {
        &self.connections_list
    }

    /// The new-connection form.
    pub fn new_connection_form(&self) -> (f: &ConnectionInfoForm)
        ensures
            *f == self.form(),
    {
        &self.new_connection_form
    }

    /// Handles an event. On the list, `n` opens an empty form and other keys
    /// move the selection. On the form, a bare Escape closes it, Enter closes
    /// it and asks for the described connection to be saved, and other events
    /// go to the form.
    pub fn handle_event(&mut self, event: &TermEvent, ctx: &Data) -> (command: Option<AppCommand>)
        requires
            !old(self).event_fails(*event, *ctx),
        ensures
            screen_step(*old(self), *final(self), *event, *ctx, command),
    {
        match self.state {
            ConnectionScreenState::Home => {
                match event.key {
                    Some(key_event) => {
                        if key_event.code == KeyCode::Char('n') && key_event.kind == KeyEventKind::Press {
                            self.state = ConnectionScreenState::NewConnection;
                            self.new_connection_form = ConnectionInfoForm::new();
                            return None;
                        }
                    },
                    None => {},
                }
                self.connections_list.handle_event(event, ctx);
                None
            },
            ConnectionScreenState::NewConnection => {
                if event.key == Some(KeyEvent::from_code(KeyCode::Esc)) {
                    self.state = ConnectionScreenState::Home;
                    return None;
                }
                match event.key {
                    Some(key_event) => {
                        if key_event.code == KeyCode::Enter && key_event.kind == KeyEventKind::Press {
                            let info = self.new_connection_form.to_connection_info();
                            self.state = ConnectionScreenState::Home;
                            return Some(AppCommand::SaveConnection(info));
                        }
                    },
                    None => {},
                }
                self.new_connection_form.handle_event(event);
                None
            },
        }
    }
}

} // verus!
