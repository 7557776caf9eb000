//! The form in which a new connection is described.
use vstd::prelude::*;

use crate::data::{DatabaseType, NewConnectionInfo};
use crate::events::{KeyCode, KeyEventKind, TermEvent};
use crate::text::{parse_u16, parse_u16_str};
use crate::textarea::{edited_lines, new_text_field, text_field_input, text_field_lines, text_lines, TextField};
use crate::widgets::radio::{same_buttons_but_highlight, same_buttons_but_selection, RadioGroup};

verus! {

/// The part of the form that has the focus: one of the six text fields, or
/// one of the three database kinds.
#[derive(Debug, Clone, Copy, PartialEq, Eq, Structural)]
pub enum ConnectionInfoFormState {
    Name,
    Host,
    Port,
    User,
    Password,
    Database,
    DatabaseTypePostgres,
    DatabaseTypeMysql,
    DatabaseTypeSqlite,
}

/// The number of text fields of the form.
pub const INPUT_COUNT: usize = 6usize;

/// The port used when the port field does not hold a port number.
pub const DEFAULT_PORT: u16 = 5432u16;

impl ConnectionInfoFormState {
    /// The position of this part in the form, from 0 (name) to 8 (SQLite).
    pub open spec fn position(self) -> int {
        match self {
            ConnectionInfoFormState::Name => 0,
            ConnectionInfoFormState::Host => 1,
            ConnectionInfoFormState::Port => 2,
            ConnectionInfoFormState::User => 3,
            ConnectionInfoFormState::Password => 4,
            ConnectionInfoFormState::Database => 5,
            ConnectionInfoFormState::DatabaseTypePostgres => 6,
            ConnectionInfoFormState::DatabaseTypeMysql => 7,
            ConnectionInfoFormState::DatabaseTypeSqlite => 8,
        }
    }

    /// Whether the focus is on one of the database kinds.
    pub open spec fn is_database_type(self) -> bool {
        self.position() >= 6
    }

    /// The part that Tab moves to: the next one, from the last back to the
    /// first.
    pub open spec fn following(self) -> ConnectionInfoFormState {
        match self {
            ConnectionInfoFormState::Name => ConnectionInfoFormState::Host,
            ConnectionInfoFormState::Host => ConnectionInfoFormState::Port,
            ConnectionInfoFormState::Port => ConnectionInfoFormState::User,
            ConnectionInfoFormState::User => ConnectionInfoFormState::Password,
            ConnectionInfoFormState::Password => ConnectionInfoFormState::Database,
            ConnectionInfoFormState::Database => ConnectionInfoFormState::DatabaseTypePostgres,
            ConnectionInfoFormState::DatabaseTypePostgres => ConnectionInfoFormState::DatabaseTypeMysql,
            ConnectionInfoFormState::DatabaseTypeMysql => ConnectionInfoFormState::DatabaseTypeSqlite,
            ConnectionInfoFormState::DatabaseTypeSqlite => ConnectionInfoFormState::Name,
        }
    }

    /// The part that Shift+Tab moves to: the previous one, from the first to
    /// the last.
    pub open spec fn preceding(self) -> ConnectionInfoFormState {
        match self {
            ConnectionInfoFormState::Name => ConnectionInfoFormState::DatabaseTypeSqlite,
            ConnectionInfoFormState::Host => ConnectionInfoFormState::Name,
            ConnectionInfoFormState::Port => ConnectionInfoFormState::Host,
            ConnectionInfoFormState::User => ConnectionInfoFormState::Port,
            ConnectionInfoFormState::Password => ConnectionInfoFormState::User,
            ConnectionInfoFormState::Database => ConnectionInfoFormState::Password,
            ConnectionInfoFormState::DatabaseTypePostgres => ConnectionInfoFormState::Database,
            ConnectionInfoFormState::DatabaseTypeMysql => ConnectionInfoFormState::DatabaseTypePostgres,
            ConnectionInfoFormState::DatabaseTypeSqlite => ConnectionInfoFormState::DatabaseTypeMysql,
        }
    }

    /// Whether the focus is on one of the database kinds.
    pub fn on_database_type(&self) -> (b: bool)
        ensures
            b == self.is_database_type(),
    {
        match self {
            ConnectionInfoFormState::DatabaseTypePostgres
            | ConnectionInfoFormState::DatabaseTypeMysql
            | ConnectionInfoFormState::DatabaseTypeSqlite => true,
            _ => false,
        }
    }

    /// The position of this part.
    pub fn index(&self) -> (i: usize)
        ensures
            i == self.position(),
    {
        match self {
            ConnectionInfoFormState::Name => 0,
            ConnectionInfoFormState::Host => 1,
            ConnectionInfoFormState::Port => 2,
            ConnectionInfoFormState::User => 3,
            ConnectionInfoFormState::Password => 4,
            ConnectionInfoFormState::Database => 5,
            ConnectionInfoFormState::DatabaseTypePostgres => 6,
            ConnectionInfoFormState::DatabaseTypeMysql => 7,
            ConnectionInfoFormState::DatabaseTypeSqlite => 8,
        }
    }

    fn next(self) -> (s: Self)
        ensures
            s == self.following(),
    {
        match self {
            ConnectionInfoFormState::Name => ConnectionInfoFormState::Host,
            ConnectionInfoFormState::Host => ConnectionInfoFormState::Port,
            ConnectionInfoFormState::Port => ConnectionInfoFormState::User,
            ConnectionInfoFormState::User => ConnectionInfoFormState::Password,
            ConnectionInfoFormState::Password => ConnectionInfoFormState::Database,
            ConnectionInfoFormState::Database => ConnectionInfoFormState::DatabaseTypePostgres,
            ConnectionInfoFormState::DatabaseTypePostgres => ConnectionInfoFormState::DatabaseTypeMysql,
            ConnectionInfoFormState::DatabaseTypeMysql => ConnectionInfoFormState::DatabaseTypeSqlite,
            ConnectionInfoFormState::DatabaseTypeSqlite => ConnectionInfoFormState::Name,
        }
    }

    fn previous(self) -> (s: Self)
        ensures
            s == self.preceding(),
    {
        match self {
            ConnectionInfoFormState::Name => ConnectionInfoFormState::DatabaseTypeSqlite,
            ConnectionInfoFormState::Host => ConnectionInfoFormState::Name,
            ConnectionInfoFormState::Port => ConnectionInfoFormState::Host,
            ConnectionInfoFormState::User => ConnectionInfoFormState::Port,
            ConnectionInfoFormState::Password => ConnectionInfoFormState::User,
            ConnectionInfoFormState::Database => ConnectionInfoFormState::Password,
            ConnectionInfoFormState::DatabaseTypePostgres => ConnectionInfoFormState::Database,
            ConnectionInfoFormState::DatabaseTypeMysql => ConnectionInfoFormState::DatabaseTypePostgres,
            ConnectionInfoFormState::DatabaseTypeSqlite => ConnectionInfoFormState::DatabaseTypeMysql,
        }
    }
}

/// The key code of `event` when it is a key press, and nothing otherwise.
pub open spec fn pressed_code(event: TermEvent) -> Option<KeyCode> {
    match event.key {
        Some(k) => if k.kind == KeyEventKind::Press {
            Some(k.code)
        } else {
            None
        },
        None => None,
    }
}

/// Whether a pressed key, with the focus on `focus`, picks the database kind
/// under the focus (Enter or space on a kind).
pub open spec fn picks_kind(focus: ConnectionInfoFormState, code: KeyCode) -> bool {
    focus.is_database_type() && (code == KeyCode::Enter || code == KeyCode::Char(' '))
}

/// Whether a pressed key goes to the text field under the focus: any key but
/// Tab, Shift+Tab and a kind-picking key.
pub open spec fn goes_to_field(focus: ConnectionInfoFormState, code: KeyCode) -> bool {
    code != KeyCode::Tab && code != KeyCode::BackTab && !picks_kind(focus, code)
}

/// Whether the form has no text field to give `event` to: a key that goes to
/// a text field while the focus is on a database kind.
pub open spec fn form_event_fails(focus: ConnectionInfoFormState, event: TermEvent) -> bool {
    pressed_code(event) matches Some(code) && goes_to_field(focus, code) && focus.is_database_type()
}

/// Whether the form has no text field to give `event` to (see
/// `form_event_fails`).
pub fn form_event_fails_on(focus: ConnectionInfoFormState, event: &TermEvent) -> (fails: bool)
    ensures
        fails == form_event_fails(focus, *event),
{
    match event.key {
        Some(k) => {
            if k.kind != KeyEventKind::Press || !focus.on_database_type() {
                false
            } else {
                k.code != KeyCode::Tab && k.code != KeyCode::BackTab && k.code != KeyCode::Enter && k.code
                    != KeyCode::Char(' ')
            }
        },
        None => false,
    }
}

/// The focus of the form after `event`.
pub open spec fn focus_after(focus: ConnectionInfoFormState, event: TermEvent) -> ConnectionInfoFormState {
    match pressed_code(event) {
        Some(KeyCode::Tab) => focus.following(),
        Some(KeyCode::BackTab) => focus.preceding(),
        _ => focus,
    }
}

/// The form in which a new connection is described: six text fields, the
/// database kinds, the part that has the focus, and the kind chosen.
#[derive(Debug)]
pub struct ConnectionInfoForm {
    name: TextField,
    host: TextField,
    port: TextField,
    user: TextField,
    password: TextField,
    database: TextField,
    database_type: RadioGroup<'static, DatabaseType>,
    state: ConnectionInfoFormState,
    selected_database_type: Option<DatabaseType>,
    focus_moved: bool,
}

/// How a text field of the form is drawn.
#[derive(Debug, Clone, Copy, PartialEq, Eq, Structural)]
pub enum FieldFrame {
    /// The field has the focus: a reversed cursor and a light magenta border.
    Focused,
    /// The field does not have the focus and the focus has moved since the
    /// form was made: no visible cursor, a white border and a white title.
    Plain,
    /// The field does not have the focus and the focus has not moved yet: no
    /// visible cursor, a white border and a title in the default colour.
    Fresh,
}

/// The title of the text field at position `i`.
pub open spec fn field_title_text(i: int) -> Seq<char> {
    if i == 0 {
        "Name"@
    } else if i == 1 {
        "Host"@
    } else if i == 2 {
        "Port"@
    } else if i == 3 {
        "User"@
    } else if i == 4 {
        "Password"@
    } else {
        "Database"@
    }
}

/// The title of the text field at position `i`: name, host, port, user,
/// password, database.
pub fn field_title(i: usize) -> (title: &'static str)
    requires
        i < INPUT_COUNT,
    ensures
        title@ == field_title_text(i as int),
{
    if i == 0 {
        "Name"
    } else if i == 1 {
        "Host"
    } else if i == 2 {
        "Port"
    } else if i == 3 {
        "User"
    } else if i == 4 {
        "Password"
    } else {
        "Database"
    }
}

/// The text shown in the empty text field at position `i`: the default port
/// in the port field, nothing elsewhere.
pub fn field_placeholder(i: usize) -> (placeholder: Option<&'static str>)
    ensures
        match placeholder {
            Some(t) => i == 2 && t@ == "5432"@,
            None => i != 2,
        },
{
    if i == 2 {
        Some("5432")
    } else {
        None
    }
}

/// The character that hides what is typed in the text field at position `i`:
/// a bullet in the password field, none elsewhere.
pub fn field_mask(i: usize) -> (mask: Option<char>)
    ensures
        mask == (if i == 4 {
            Some('\u{2022}')
        } else {
            None::<char>
        }),
{
    if i == 4 {
        Some('\u{2022}')
    } else {
        None
    }
}

/// The first line of a text field.
pub open spec fn first_line(field: TextField) -> Seq<char> {
    text_lines(field)[0]
}

/// The port written in a field's first line, or the default port.
pub open spec fn port_or_default(line: Seq<char>) -> u16 {
    match parse_u16(line) {
        Some(p) => p,
        None => DEFAULT_PORT,
    }
}

/// Whether the kind buttons are highlighted as the focus `focus` says: the
/// button under the focus when it is on a kind, none otherwise.
pub open spec fn kinds_highlighted_for(group: RadioGroup<'static, DatabaseType>, focus: ConnectionInfoFormState) -> bool {
    forall|i: int|
        0 <= i < group.buttons().len() ==> (#[trigger] group.buttons()[i]).is_highlighted() == (
        focus.is_database_type() && i == focus.position() - 6)
}

/// Whether the form `after` is what handling `event` makes of `before`: the
/// focus moves as `focus_after` says; Tab and Shift+Tab leave the text alone
/// and highlight the kind under the new focus; Enter or space on a kind chooses
/// it; any other pressed key goes to the text field under the focus, whose
/// lines become `edited_lines` of it, and changes no other field;
/// other events change nothing.
pub open spec fn form_step(before: ConnectionInfoForm, after: ConnectionInfoForm, event: TermEvent) -> bool {
    &&& after.focus() == focus_after(before.focus(), event)
    &&& after.chosen_kind() == before.chosen_kind()
    &&& after.focus_has_moved() == (before.focus_has_moved() || pressed_code(event) == Some(KeyCode::Tab)
        || pressed_code(event) == Some(KeyCode::BackTab))
    &&& match pressed_code(event) {
        None => after == before,
        Some(code) => if code == KeyCode::Tab || code == KeyCode::BackTab {
            &&& forall|j: int| 0 <= j < 6 ==> #[trigger] after.input_at(j) == before.input_at(j)
            &&& after.kinds().choice() == before.kinds().choice()
            &&& same_buttons_but_highlight(before.kinds().buttons(), after.kinds().buttons())
            &&& kinds_highlighted_for(after.kinds(), after.focus())
        } else if picks_kind(before.focus(), code) {
            &&& forall|j: int| 0 <= j < 6 ==> #[trigger] after.input_at(j) == before.input_at(j)
            &&& after.kinds().choice() == Some((before.focus().position() - 6) as usize)
            &&& same_buttons_but_selection(before.kinds().buttons(), after.kinds().buttons())
            &&& forall|i: int|
                0 <= i < after.kinds().buttons().len() ==> (#[trigger] after.kinds().buttons()[i]).is_selected()
                    == (i == before.focus().position() - 6)
        } else {
            &&& forall|j: int|
                0 <= j < 6 && j != before.focus().position() ==> #[trigger] after.input_at(j)
                    == before.input_at(j)
            &&& text_lines(after.input_at(before.focus().position())) == edited_lines(
                before.input_at(before.focus().position()),
                event.input.key,
                event.input.ctrl,
                event.input.alt,
                event.input.shift,
            )
            &&& after.kinds() == before.kinds()
        },
    }
}

impl ConnectionInfoForm {
    #[verifier::type_invariant]
    spec fn inv(self) -> bool {
        &&& text_lines(self.name).len() > 0
        &&& text_lines(self.host).len() > 0
        &&& text_lines(self.port).len() > 0
        &&& text_lines(self.user).len() > 0
        &&& text_lines(self.password).len() > 0
        &&& text_lines(self.database).len() > 0
    }

    /// The text field at position `i` (name, host, port, user, password,
    /// database).
    pub closed spec fn input_at(&self, i: int) -> TextField {
        if i == 0 {
            self.name
        } else if i == 1 {
            self.host
        } else if i == 2 {
            self.port
        } else if i == 3 {
            self.user
        } else if i == 4 {
            self.password
        } else {
            self.database
        }
    }

    /// The part that has the focus.
    pub closed spec fn focus(&self) -> ConnectionInfoFormState {
        self.state
    }

    /// The database kinds.
    pub closed spec fn kinds(&self) -> RadioGroup<'static, DatabaseType> {
        self.database_type
    }

    /// The database kind recorded as chosen.
    pub closed spec fn chosen_kind(&self) -> Option<DatabaseType> {
        self.selected_database_type
    }

    /// Whether the focus has been moved with Tab or Shift+Tab since the form
    /// was made.
    pub closed spec fn focus_has_moved(&self) -> bool {
        self.focus_moved
    }

    /// Whether the form is as `new` makes it.
    pub open spec fn is_fresh(&self) -> bool {
        &&& !self.focus_has_moved()
        &&& forall|i: int| 0 <= i < 6 ==> text_lines(#[trigger] self.input_at(i)) == seq![Seq::<char>::empty()]
        &&& self.focus() == ConnectionInfoFormState::Name
        &&& self.chosen_kind() is None
        &&& self.kinds().choice() is None
        &&& self.kinds().buttons().len() == 3
        &&& self.kinds().buttons()[0].label_str() == "Postgres"
        &&& self.kinds().buttons()[0].stands_for() == DatabaseType::Postgres
        &&& self.kinds().buttons()[1].label_str() == "MySQL"
        &&& self.kinds().buttons()[1].stands_for() == DatabaseType::Mysql
        &&& self.kinds().buttons()[2].label_str() == "SQLite"
        &&& self.kinds().buttons()[2].stands_for() == DatabaseType::Sqlite
        &&& forall|i: int|
            0 <= i < 3 ==> !(#[trigger] self.kinds().buttons()[i]).is_selected()
                && !self.kinds().buttons()[i].is_highlighted()
    }

    /// An empty form with the focus on the name field and no kind chosen.
    pub fn new() -> (form: Self)
        ensures
            form.is_fresh(),
    {
        let database_type = RadioGroup::from(
            vec![("Postgres", DatabaseType::Postgres), ("MySQL", DatabaseType::Mysql), ("SQLite", DatabaseType::Sqlite)],
        );
        ConnectionInfoForm {
            name: new_text_field(),
            host: new_text_field(),
            port: new_text_field(),
            user: new_text_field(),
            password: new_text_field(),
            database: new_text_field(),
            database_type,
            state: ConnectionInfoFormState::Name,
            selected_database_type: None,
            focus_moved: false,
        }
    }

    /// The text field at position `i`.
    pub fn input(&self, i: usize) -> (field: &TextField)
        requires
            i < INPUT_COUNT,
        ensures
            *field == self.input_at(i as int),
    {
        if i == 0 {
            &self.name
        } else if i == 1 {
            &self.host
        } else if i == 2 {
            &self.port
        } else if i == 3 {
            &self.user
        } else if i == 4 {
            &self.password
        } else {
            &self.database
        }
    }

    /// How the text field at position `i` is drawn: focused when it has the
    /// focus, so that exactly one field is drawn focused while the focus is on
    /// a text field and none while it is on a kind; the others plain once the
    /// focus has moved, and fresh before.
    pub fn field_frame(&self, i: usize) -> (frame: FieldFrame)
        requires
            i < INPUT_COUNT,
        ensures
            frame == (if i == self.focus().position() {
                FieldFrame::Focused
            } else if self.focus_has_moved() {
                FieldFrame::Plain
            } else {
                FieldFrame::Fresh
            }),
    {
        if i == self.state.index() {
            FieldFrame::Focused
        } else if self.focus_moved {
            FieldFrame::Plain
        } else {
            FieldFrame::Fresh
        }
    }

    /// The part that has the focus.
    pub fn state(&self) -> (s: ConnectionInfoFormState)
        ensures
            s == self.focus(),
    {
        self.state
    }

    /// The database kinds.
    pub fn database_type(&self) -> (g: &RadioGroup<'static, DatabaseType>)
        ensures
            *g == self.kinds(),
    {
        &self.database_type
    }

    fn forward_input(&mut self, i: usize, event: &TermEvent)
        requires
            i < INPUT_COUNT,
        ensures
            text_lines(final(self).input_at(i as int)) == edited_lines(
                old(self).input_at(i as int),
                event.input.key,
                event.input.ctrl,
                event.input.alt,
                event.input.shift,
            ),
            forall|j: int| 0 <= j < 6 && j != i ==> #[trigger] final(self).input_at(j) == old(self).input_at(j),
            final(self).focus() == old(self).focus(),
            final(self).kinds() == old(self).kinds(),
            final(self).chosen_kind() == old(self).chosen_kind(),
            final(self).focus_has_moved() == old(self).focus_has_moved(),
    {
        proof {
            use_type_invariant(&*self);
        }
        let mut field = new_text_field();
        if i == 0 {
            std::mem::swap(&mut field, &mut self.name);
            text_field_input(&mut field, &event.input);
            std::mem::swap(&mut field, &mut self.name);
        } else if i == 1 {
            std::mem::swap(&mut field, &mut self.host);
            text_field_input(&mut field, &event.input);
            std::mem::swap(&mut field, &mut self.host);
        } else if i == 2 {
            std::mem::swap(&mut field, &mut self.port);
            text_field_input(&mut field, &event.input);
            std::mem::swap(&mut field, &mut self.port);
        } else if i == 3 {
            std::mem::swap(&mut field, &mut self.user);
            text_field_input(&mut field, &event.input);
            std::mem::swap(&mut field, &mut self.user);
        } else if i == 4 {
            std::mem::swap(&mut field, &mut self.password);
            text_field_input(&mut field, &event.input);
            std::mem::swap(&mut field, &mut self.password);
        } else {
            std::mem::swap(&mut field, &mut self.database);
            text_field_input(&mut field, &event.input);
            std::mem::swap(&mut field, &mut self.database);
        }
    }

    /// Highlights the kind under the focus, if the focus is on a kind, and no
    /// kind otherwise, and records that the focus has moved (from then on the
    /// fields without the focus are drawn plain).
    fn set_selected_input(&mut self)
        ensures
            forall|j: int| 0 <= j < 6 ==> #[trigger] final(self).input_at(j) == old(self).input_at(j),
            final(self).focus() == old(self).focus(),
            final(self).focus_has_moved(),
            final(self).chosen_kind() == old(self).chosen_kind(),
            final(self).kinds().choice() == old(self).kinds().choice(),
            same_buttons_but_highlight(old(self).kinds().buttons(), final(self).kinds().buttons()),
            kinds_highlighted_for(final(self).kinds(), final(self).focus()),
    {
        proof {
            use_type_invariant(&*self);
        }
        let mut kinds = RadioGroup::from(Vec::new());
        std::mem::swap(&mut kinds, &mut self.database_type);
        if self.state.on_database_type() {
            let i = self.state.index() - INPUT_COUNT;
            kinds.highlight(i);
        } else {
            kinds.unhighlight();
        }
        std::mem::swap(&mut kinds, &mut self.database_type);
        self.focus_moved = true;
    }

    /// Whether `info` is what the form records: the first line of each
    /// field, the port read as a number (the default port when it is not
    /// one), and Postgres as the kind.
    pub open spec fn describes(&self, info: NewConnectionInfo) -> bool {
        &&& info.name@ == first_line(self.input_at(0))
        &&& info.host@ == first_line(self.input_at(1))
        &&& info.port == port_or_default(first_line(self.input_at(2)))
        &&& info.user@ == first_line(self.input_at(3))
        &&& info.password@ == first_line(self.input_at(4))
        &&& info.database@ == first_line(self.input_at(5))
        &&& info.database_type == DatabaseType::Postgres
    }

    /// What the form records for the new connection: the first line of each
    /// field, the port read as a number (the default port when it is not
    /// one), and Postgres as the kind.
    pub fn to_connection_info(&self) -> (info: NewConnectionInfo)
        ensures
            self.describes(info),
    {
        proof {
            use_type_invariant(self);
            assert(text_lines(self.input_at(0)).len() > 0);
            assert(text_lines(self.input_at(1)).len() > 0);
            assert(text_lines(self.input_at(2)).len() > 0);
            assert(text_lines(self.input_at(3)).len() > 0);
            assert(text_lines(self.input_at(4)).len() > 0);
            assert(text_lines(self.input_at(5)).len() > 0);
        }
        let name = first_line_of(&self.name);
        let host = first_line_of(&self.host);
        let port_line = first_line_of(&self.port);
        let user = first_line_of(&self.user);
        let password = first_line_of(&self.password);
        let database = first_line_of(&self.database);
        let port = match parse_u16_str(port_line.as_str()) {
            Some(p) => p,
            None => DEFAULT_PORT,
        };
        NewConnectionInfo { name, host, port, user, password, database, database_type: DatabaseType::Postgres }
    }

    /// Handles a key: Tab and Shift+Tab move the focus forward and back
    /// (highlighting the kind under it), Enter or space on a kind chooses that
    /// kind, and any other pressed key goes to the text field under the
    /// focus. Other events change nothing.
    pub fn handle_event(&mut self, event: &TermEvent)
        requires
            !form_event_fails(old(self).focus(), *event),
        ensures
            form_step(*old(self), *final(self), *event),
    {
        proof {
            use_type_invariant(&*self);
        }
        match event.key {
            Some(key_event) => {
                if key_event.kind == KeyEventKind::Press {
                    match key_event.code {
                        KeyCode::Tab => {
                            self.state = self.state.next();
                            self.set_selected_input();
                        },
                        KeyCode::BackTab => {
                            self.state = self.state.previous();
                            self.set_selected_input();
                        },
                        code => {
                            let picks = (code == KeyCode::Enter || code == KeyCode::Char(' '));
                            if picks && self.state.on_database_type() {
                                let i = self.state.index() - INPUT_COUNT;
                                let mut kinds = RadioGroup::from(Vec::new());
                                std::mem::swap(&mut kinds, &mut self.database_type);
                                kinds.select(i);
                                std::mem::swap(&mut kinds, &mut self.database_type);
                            } else {
                                let i = self.state.index();
                                self.forward_input(i, event);
                            }
                        },
                    }
                }
            },
            None => {},
        }
    }
}

fn first_line_of(field: &TextField) -> (line: String)
    requires
        text_lines(*field).len() > 0,
    ensures
        line@ == first_line(*field),
{
    let lines = text_field_lines(field);
    assert(lines@.len() == text_lines(*field).len());
    assert(lines@[0]@ == text_lines(*field)[0]);
    lines[0].clone()
}

/// Moving the focus forward and then back returns it to where it was, and so
/// does moving it back and then forward.
pub proof fn lemma_focus_round_trip(focus: ConnectionInfoFormState)
    ensures
        focus.following().preceding() == focus,
        focus.preceding().following() == focus,
{
}

/// Tab moves the focus to the part one position further on (from SQLite back
/// to the name field) and Shift+Tab to the part one position back (from the
/// name field to SQLite); positions run 0 to 8 and tell the parts apart.
pub proof fn lemma_focus_moves_by_one_position(focus: ConnectionInfoFormState, other: ConnectionInfoFormState)
    ensures
        0 <= focus.position() < 9,
        focus.following().position() == (focus.position() + 1) % 9,
        focus.preceding().position() == (focus.position() + 8) % 9,
        focus.position() == other.position() ==> focus == other,
{
    match focus {
        ConnectionInfoFormState::Name => {},
        ConnectionInfoFormState::Host => {},
        ConnectionInfoFormState::Port => {},
        ConnectionInfoFormState::User => {},
        ConnectionInfoFormState::Password => {},
        ConnectionInfoFormState::Database => {},
        ConnectionInfoFormState::DatabaseTypePostgres => {},
        ConnectionInfoFormState::DatabaseTypeMysql => {},
        ConnectionInfoFormState::DatabaseTypeSqlite => {},
    }
}

/// Nine presses of Tab bring the focus back to where it started.
pub proof fn lemma_focus_cycle(focus: ConnectionInfoFormState)
    ensures
        focus.following().following().following().following().following().following().following().following().following()
            == focus,
{
    match focus {
        ConnectionInfoFormState::Name => {},
        ConnectionInfoFormState::Host => {},
        ConnectionInfoFormState::Port => {},
        ConnectionInfoFormState::User => {},
        ConnectionInfoFormState::Password => {},
        ConnectionInfoFormState::Database => {},
        ConnectionInfoFormState::DatabaseTypePostgres => {},
        ConnectionInfoFormState::DatabaseTypeMysql => {},
        ConnectionInfoFormState::DatabaseTypeSqlite => {},
    }
}

} // verus!
