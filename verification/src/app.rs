//! The application: which screen is shown, the status bar, and the handling
//! of terminal events and drawing events.
use vstd::prelude::*;
use vstd::string::*;

use crate::data::{AppCommand, Data};
use crate::events::{KeyCode, KeyEventKind, TermEvent, MODIFIER_CONTROL};
use crate::render::RenderEvent;
use crate::screens::connection::{screen_step, ConnectionScreen};
use crate::screens::main::{main_step, result_lines, shown_lines, MainScreen};
use crate::text::string_views;
use crate::textarea::text_lines;
use crate::widgets::status_line::{Status, StatusLine};

verus! {

/// The tabs of the main screen.
#[derive(Debug, Clone, Copy, PartialEq, Eq, Structural)]
pub enum MainScreenTabs {
    Querying,
    Monitoring,
}

/// The screen that the application shows.
#[derive(Debug, Clone, Copy, PartialEq, Eq, Structural)]
pub enum AppState {
    ConnectionScreen,
    MainScreen(MainScreenTabs),
}

/// The application: the screen shown, both screens, and the status bar.
#[derive(Debug)]
pub struct App {
    state: AppState,
    connection_screen: ConnectionScreen,
    main_screen: MainScreen,
    status_line: StatusLine,
}

/// Whether `event` is Control+C (with no other modifier), which quits.
pub open spec fn is_interrupt(event: TermEvent) -> bool {
    event.key matches Some(k) && k.code == KeyCode::Char('c') && k.modifiers == MODIFIER_CONTROL
}

/// Whether `event` is a key event other than a press (a repeat or a release),
/// which is ignored.
pub open spec fn is_not_press(event: TermEvent) -> bool {
    event.key matches Some(k) && k.kind != KeyEventKind::Press
}

/// The message shown once a connection is open.
pub open spec fn connected_message() -> Seq<char> {
    "Connected"@
}

impl App {
    /// The screen shown.
    pub closed spec fn mode(&self) -> AppState {
        self.state
    }

    /// The connection screen.
    pub closed spec fn connections_screen(&self) -> ConnectionScreen {
        self.connection_screen
    }

    /// The main screen.
    pub closed spec fn main_view(&self) -> MainScreen {
        self.main_screen
    }

    /// The status bar.
    pub closed spec fn status(&self) -> StatusLine {
        self.status_line
    }

    /// Whether the screen shown cannot take `event` (see
    /// `ConnectionScreen::event_fails`).
    pub open spec fn event_fails(&self, event: TermEvent, ctx: Data) -> bool {
        &&& !is_interrupt(event)
        &&& !is_not_press(event)
        &&& self.mode() == AppState::ConnectionScreen
        &&& self.connections_screen().event_fails(event, ctx)
    }

    /// Whether the screen shown cannot take `event` (see `event_fails`):
    /// handling such an event is refused.
    pub fn rejects(&self, event: &TermEvent, ctx: &Data) -> (fails: bool)
        ensures
            fails == self.event_fails(*event, *ctx),
    {
        let interrupt = match event.key {
            Some(k) => k.code == KeyCode::Char('c') && k.modifiers == MODIFIER_CONTROL,
            None => false,
        };
        let not_press = match event.key {
            Some(k) => k.kind != KeyEventKind::Press,
            None => false,
        };
        match self.state {
            AppState::ConnectionScreen => !interrupt && !not_press && self.connection_screen.event_fails_on(event, ctx),
            AppState::MainScreen(_) => false,
        }
    }

    /// The connection screen, showing the list, and an empty status bar.
    pub fn new() -> (app: Self)
        ensures
            app.mode() == AppState::ConnectionScreen,
            app.connections_screen().mode() == crate::screens::connection::ConnectionScreenState::Home,
            app.connections_screen().list().position() == 0,
            app.connections_screen().form().is_fresh(),
            text_lines(app.main_view().results()) == seq![Seq::<char>::empty()],
            text_lines(app.main_view().query()) == seq![Seq::<char>::empty()],
            app.status()@ is None,
    {
        App {
            state: AppState::ConnectionScreen,
            connection_screen: ConnectionScreen::new(),
            main_screen: MainScreen::new(),
            status_line: StatusLine::new(),
        }
    }

    /// Shows `message` in the status bar.
    pub fn set_status_message(&mut self, message: Status)
        ensures
            final(self).status()@ == Some(message),
            final(self).mode() == old(self).mode(),
            final(self).connections_screen() == old(self).connections_screen(),
            final(self).main_view() == old(self).main_view(),
    {
        self.status_line.set_text(message);
    }

    /// Empties the status bar.
    pub fn clear_status_message(&mut self)
        ensures
            final(self).status()@ is None,
            final(self).mode() == old(self).mode(),
            final(self).connections_screen() == old(self).connections_screen(),
            final(self).main_view() == old(self).main_view(),
    {
        self.status_line.clear();
    }

    /// Shows the main screen, on its query tab.
    pub fn goto_main_screen(&mut self)
        ensures
            final(self).mode() == AppState::MainScreen(MainScreenTabs::Querying),
            final(self).status() == old(self).status(),
            final(self).connections_screen() == old(self).connections_screen(),
            final(self).main_view() == old(self).main_view(),
    {
        self.state = AppState::MainScreen(MainScreenTabs::Querying);
    }

    /// Shows a query's result on the main screen.
    pub fn set_query_result(&mut self, headers: Vec<String>, rows: Vec<Vec<String>>)
        ensures
            text_lines(final(self).main_view().results()) == shown_lines(
                result_lines(string_views(headers@), rows@.map_values(|row: Vec<String>| string_views(row@))),
            ),
            final(self).main_view().query() == old(self).main_view().query(),
            final(self).mode() == old(self).mode(),
            final(self).status() == old(self).status(),
            final(self).connections_screen() == old(self).connections_screen(),
    {
        self.main_screen.set_output(headers, rows);
    }

    /// Handles a terminal event and says whether to quit and what to ask of
    /// the store. Control+C quits; a key that is not a press is ignored;
    /// anything else goes to the screen shown.
    pub fn handle_event(&mut self, event: &TermEvent, ctx: &Data) -> (outcome: (bool, Option<AppCommand>))
        requires
            !old(self).event_fails(*event, *ctx),
        ensures
            final(self).mode() == old(self).mode(),
            final(self).status() == old(self).status(),
            if is_interrupt(*event) {
                &&& outcome.0
                &&& outcome.1 is None
                &&& *final(self) == *old(self)
            } else if is_not_press(*event) {
                &&& !outcome.0
                &&& outcome.1 is None
                &&& *final(self) == *old(self)
            } else {
                &&& !outcome.0
                &&& match old(self).mode() {
                    AppState::ConnectionScreen => {
                        &&& screen_step(
                            old(self).connections_screen(),
                            final(self).connections_screen(),
                            *event,
                            *ctx,
                            outcome.1,
                        )
                        &&& final(self).main_view() == old(self).main_view()
                    },
                    AppState::MainScreen(_) => {
                        &&& main_step(old(self).main_view(), final(self).main_view(), *event, outcome.1)
                        &&& final(self).connections_screen() == old(self).connections_screen()
                    },
                }
            },
    {
        match event.key {
            Some(key_event) => {
                if key_event.code == KeyCode::Char('c') && key_event.modifiers == MODIFIER_CONTROL {
                    return (true, None);
                }
                if key_event.kind != KeyEventKind::Press {
                    return (false, None);
                }
            },
            None => {},
        }
        match self.state {
            AppState::ConnectionScreen => {
                let command = self.connection_screen.handle_event(event, ctx);
                (false, command)
            },
            AppState::MainScreen(_) => {
                let command = self.main_screen.handle_event(event);
                (false, command)
            },
        }
    }

    /// Applies a drawing event before the screen is drawn again: a status
    /// goes to the status bar, a query's result to the main screen, and a new
    /// connection shows "Connected" and the main screen.
    pub fn apply_render_event(&mut self, event: RenderEvent)
        ensures
            match event {
                RenderEvent::Draw => *final(self) == *old(self),
                RenderEvent::StatusMessage(status) => {
                    &&& final(self).status()@ == Some(status)
                    &&& final(self).mode() == old(self).mode()
                    &&& final(self).main_view() == old(self).main_view()
                    &&& final(self).connections_screen() == old(self).connections_screen()
                },
                RenderEvent::Connected => {
                    &&& final(self).status()@ matches Some(Status::Success(m)) && m@ == connected_message()
                    &&& final(self).mode() == AppState::MainScreen(MainScreenTabs::Querying)
                    &&& final(self).main_view() == old(self).main_view()
                    &&& final(self).connections_screen() == old(self).connections_screen()
                },
                RenderEvent::QueryResult { headers, rows } => {
                    &&& text_lines(final(self).main_view().results()) == shown_lines(
                        result_lines(
                            string_views(headers@),
                            rows@.map_values(|row: Vec<String>| string_views(row@)),
                        ),
                    )
                    &&& final(self).main_view().query() == old(self).main_view().query()
                    &&& final(self).mode() == old(self).mode()
                    &&& final(self).status() == old(self).status()
                    &&& final(self).connections_screen() == old(self).connections_screen()
                },
            },
    {
        match event {
            RenderEvent::Draw => {},
            RenderEvent::StatusMessage(status) => {
                self.set_status_message(status);
            },
            RenderEvent::Connected => {
                self.set_status_message(Status::Success(String::from_str("Connected")));
                self.goto_main_screen();
            },
            RenderEvent::QueryResult { headers, rows } => {
                self.set_query_result(headers, rows);
            },
        }
    }

    /// The screen shown.
    pub fn state(&self) -> (s: AppState)
        ensures
            s == self.mode(),
    {
        self.state
    }

    /// The connection screen.
    pub fn connection_screen(&self) -> (s: &ConnectionScreen)
        ensures
            *s == self.connections_screen(),
    {
        &self.connection_screen
    }

    /// The main screen.
    pub fn main_screen(&self) -> (s: &MainScreen)
        ensures
            *s == self.main_view(),
    {
        &self.main_screen
    }

    /// The status bar.
    pub fn status_line(&self) -> (s: &StatusLine)
        ensures
            *s == self.status(),
    {
        &self.status_line
    }
}

impl Default for App {
    fn default() -> (app: Self)
        ensures
            app.mode() == AppState::ConnectionScreen,
            app.status()@ is None,
    {
        Self::new()
    }
}

} // verus!
