use dbterm::app::{App, AppState, MainScreenTabs};
use dbterm::data::{AppCommand, Data, DatabaseType, NewConnectionInfo};
use dbterm::events::{
    KeyCode, KeyEvent, KeyEventKind, TermEvent, TextInput, TextKey as Key, MODIFIER_CONTROL, MODIFIER_SHIFT,
};
use dbterm::render::RenderEvent;
use dbterm::screens::connection::connection_list::{list_event_fails_on, ConnectionList};
use dbterm::screens::connection::new_connection_form::{
    field_mask, field_placeholder, field_title, form_event_fails_on, ConnectionInfoForm, ConnectionInfoFormState,
    FieldFrame,
};
use dbterm::screens::connection::{ConnectionScreen, ConnectionScreenState};
use dbterm::screens::main::MainScreen;
use dbterm::widgets::status_line::{Status, StatusTone};

fn key_with(code: KeyCode, input: Key, modifiers: u8, kind: KeyEventKind) -> TermEvent {
    TermEvent {
        key: Some(KeyEvent { code, modifiers, kind, state: 0 }),
        input: TextInput { key: input, ctrl: modifiers & MODIFIER_CONTROL != 0, alt: false, shift: modifiers & MODIFIER_SHIFT != 0 },
    }
}

fn press(code: KeyCode, input: Key) -> TermEvent {
    key_with(code, input, 0, KeyEventKind::Press)
}

fn ch(c: char) -> TermEvent {
    press(KeyCode::Char(c), Key::Char(c))
}

fn tab() -> TermEvent {
    press(KeyCode::Tab, Key::Tab)
}

fn backtab() -> TermEvent {
    key_with(KeyCode::BackTab, Key::Null, MODIFIER_SHIFT, KeyEventKind::Press)
}

fn enter() -> TermEvent {
    press(KeyCode::Enter, Key::Enter)
}

fn esc() -> TermEvent {
    press(KeyCode::Esc, Key::Esc)
}

fn lines(field: &dbterm::textarea::TextField) -> Vec<String> {
    field.area.lines().to_vec()
}

fn data_with(n: usize) -> Data {
    let mut d = Data::new();
    for i in 0..n {
        d.save_new_connection(NewConnectionInfo {
            name: format!("c{}", i),
            host: "h".into(),
            port: 1,
            user: "u".into(),
            password: "p".into(),
            database: "d".into(),
            database_type: DatabaseType::Postgres,
        });
    }
    d
}

#[test]
fn list_moves_and_wraps() {
    let d = data_with(3);
    let mut l = ConnectionList::new();
    l.handle_event(&press(KeyCode::Up, Key::Up), &d);
    assert_eq!(l.selected(), 2);
    l.handle_event(&ch('j'), &d);
    assert_eq!(l.selected(), 0);
    l.handle_event(&press(KeyCode::Down, Key::Down), &d);
    assert_eq!(l.selected(), 1);
    l.handle_event(&ch('k'), &d);
    assert_eq!(l.selected(), 0);
    l.handle_event(&ch('x'), &d);
    assert_eq!(l.selected(), 0);
}

#[test]
fn list_labels() {
    let d = data_with(1);
    let l = ConnectionList::new();
    let (host, port) = l.connection_labels(&d.connections[0].1);
    assert_eq!(host, "Host: h");
    assert_eq!(port, "Port: 1");
}

#[test]
fn form_focus_moves_with_tab() {
    let mut f = ConnectionInfoForm::new();
    assert_eq!(f.state(), ConnectionInfoFormState::Name);
    f.handle_event(&backtab());
    assert_eq!(f.state(), ConnectionInfoFormState::DatabaseTypeSqlite);
    assert!(f.database_type().radio_buttons()[2].highlighted());
    f.handle_event(&tab());
    assert_eq!(f.state(), ConnectionInfoFormState::Name);
    assert!(f.database_type().radio_buttons().iter().all(|b| !b.highlighted()));
    for _ in 0..9 {
        f.handle_event(&tab());
    }
    assert_eq!(f.state(), ConnectionInfoFormState::Name);
    assert!(!ConnectionInfoFormState::Database.on_database_type());
    assert!(ConnectionInfoFormState::DatabaseTypeMysql.on_database_type());
    assert_eq!(ConnectionInfoFormState::DatabaseTypeMysql.index(), 7);
}

#[test]
fn form_typing_and_submit() {
    let mut f = ConnectionInfoForm::new();
    for c in "db1".chars() {
        f.handle_event(&ch(c));
    }
    f.handle_event(&tab());
    for c in "example.org".chars() {
        f.handle_event(&ch(c));
    }
    f.handle_event(&tab());
    for c in "6543".chars() {
        f.handle_event(&ch(c));
    }
    assert_eq!(lines(f.input(0)), vec!["db1".to_string()]);
    let info = f.to_connection_info();
    assert_eq!(info.name, "db1");
    assert_eq!(info.host, "example.org");
    assert_eq!(info.port, 6543);
    assert_eq!(info.user, "");
    assert_eq!(info.database_type, DatabaseType::Postgres);
}

#[test]
fn form_bad_port_uses_default() {
    let mut f = ConnectionInfoForm::new();
    f.handle_event(&tab());
    f.handle_event(&tab());
    for c in "port".chars() {
        f.handle_event(&ch(c));
    }
    assert_eq!(f.to_connection_info().port, 5432);
    let empty = ConnectionInfoForm::new();
    assert_eq!(empty.to_connection_info().port, 5432);
}

#[test]
fn form_picks_kind_with_space() {
    let mut f = ConnectionInfoForm::new();
    for _ in 0..7 {
        f.handle_event(&tab());
    }
    assert_eq!(f.state(), ConnectionInfoFormState::DatabaseTypeMysql);
    f.handle_event(&ch(' '));
    assert_eq!(f.database_type().selected(), Some(&DatabaseType::Mysql));
    f.handle_event(&tab());
    f.handle_event(&enter());
    assert_eq!(f.database_type().selected(), Some(&DatabaseType::Sqlite));
    assert_eq!(f.to_connection_info().database_type, DatabaseType::Postgres);
}

#[test]
fn form_ignores_releases() {
    let mut f = ConnectionInfoForm::new();
    f.handle_event(&key_with(KeyCode::Tab, Key::Tab, 0, KeyEventKind::Release));
    f.handle_event(&key_with(KeyCode::Char('a'), Key::Char('a'), 0, KeyEventKind::Repeat));
    assert_eq!(f.state(), ConnectionInfoFormState::Name);
    assert_eq!(lines(f.input(0)), vec![String::new()]);
}

#[test]
fn connection_screen_form_cycle() {
    let d = data_with(1);
    let mut s = ConnectionScreen::new();
    assert_eq!(s.state(), ConnectionScreenState::Home);
    assert!(s.handle_event(&ch('n'), &d).is_none());
    assert_eq!(s.state(), ConnectionScreenState::NewConnection);
    s.handle_event(&ch('z'), &d);
    match s.handle_event(&enter(), &d) {
        Some(AppCommand::SaveConnection(info)) => assert_eq!(info.name, "z"),
        other => panic!("unexpected {:?}", other),
    }
    assert_eq!(s.state(), ConnectionScreenState::Home);
    s.handle_event(&ch('n'), &d);
    assert_eq!(lines(s.new_connection_form().input(0)), vec![String::new()]);
    assert!(s.handle_event(&esc(), &d).is_none());
    assert_eq!(s.state(), ConnectionScreenState::Home);
}

#[test]
fn connection_screen_escape_must_be_bare() {
    let d = data_with(1);
    let mut s = ConnectionScreen::new();
    s.handle_event(&ch('n'), &d);
    s.handle_event(&key_with(KeyCode::Esc, Key::Esc, MODIFIER_SHIFT, KeyEventKind::Press), &d);
    assert_eq!(s.state(), ConnectionScreenState::NewConnection);
}

#[test]
fn connection_screen_list_keys() {
    let d = data_with(2);
    let mut s = ConnectionScreen::new();
    s.handle_event(&ch('j'), &d);
    assert_eq!(s.connections_list().selected(), 1);
}

#[test]
fn main_screen_query_and_output() {
    let mut m = MainScreen::new();
    for c in "select 1".chars() {
        assert!(m.handle_event(&ch(c)).is_none());
    }
    match m.handle_event(&key_with(KeyCode::Enter, Key::Enter, MODIFIER_CONTROL, KeyEventKind::Press)) {
        Some(AppCommand::Query(q)) => assert_eq!(q, "select 1"),
        other => panic!("unexpected {:?}", other),
    }
    match m.handle_event(&enter()) {
        Some(AppCommand::Query(q)) => assert_eq!(q, "select 1"),
        other => panic!("unexpected {:?}", other),
    }
    m.set_output(vec!["id".into()], vec![vec!["INT4".into(), "TEXT".into()]]);
    assert_eq!(lines(m.output()), vec!["id".to_string(), "INT4\nTEXT".to_string()]);
    m.set_output(vec![], vec![]);
    assert_eq!(lines(m.output()), vec![String::new()]);
}

#[test]
fn app_ctrl_c_quits_everywhere() {
    let d = data_with(0);
    let mut app = App::new();
    let ctrl_c = key_with(KeyCode::Char('c'), Key::Char('c'), MODIFIER_CONTROL, KeyEventKind::Release);
    let (quit, cmd) = app.handle_event(&ctrl_c, &d);
    assert!(quit && cmd.is_none());
    app.goto_main_screen();
    let (quit, _) = app.handle_event(&ctrl_c, &d);
    assert!(quit);
    let (quit, cmd) = app.handle_event(&ch('c'), &d);
    assert!(!quit && cmd.is_none());
}

#[test]
fn app_ignores_non_press_and_dispatches() {
    let d = data_with(0);
    let mut app = App::new();
    let (quit, cmd) = app.handle_event(&key_with(KeyCode::Char('n'), Key::Char('n'), 0, KeyEventKind::Release), &d);
    assert!(!quit && cmd.is_none());
    assert_eq!(app.connection_screen().state(), ConnectionScreenState::Home);
    app.handle_event(&ch('n'), &d);
    assert_eq!(app.connection_screen().state(), ConnectionScreenState::NewConnection);
    app.handle_event(&ch('q'), &d);
    let (quit, cmd) = app.handle_event(&enter(), &d);
    assert!(!quit);
    assert!(matches!(cmd, Some(AppCommand::SaveConnection(ref i)) if i.name == "q"));
}

#[test]
fn app_render_events() {
    let mut app = App::default();
    assert_eq!(app.state(), AppState::ConnectionScreen);
    app.apply_render_event(RenderEvent::Draw);
    assert_eq!(app.status_line().display(), (String::new(), StatusTone::Plain));
    app.apply_render_event(RenderEvent::StatusMessage(Status::Error("bad".into())));
    assert_eq!(app.status_line().display(), ("bad".to_string(), StatusTone::Error));
    app.apply_render_event(RenderEvent::Connected);
    assert_eq!(app.state(), AppState::MainScreen(MainScreenTabs::Querying));
    assert_eq!(app.status_line().display(), ("Connected".to_string(), StatusTone::Success));
    app.apply_render_event(RenderEvent::QueryResult { headers: vec!["h".into()], rows: vec![vec!["r".into()]] });
    assert_eq!(lines(app.main_screen().output()), vec!["h".to_string(), "r".to_string()]);
    app.clear_status_message();
    assert_eq!(app.status_line().display(), (String::new(), StatusTone::Plain));
}

#[test]
fn app_main_screen_sends_query() {
    let d = data_with(0);
    let mut app = App::new();
    app.set_status_message(Status::Info("hi".into()));
    app.goto_main_screen();
    app.handle_event(&ch('x'), &d);
    let (quit, cmd) = app.handle_event(&enter(), &d);
    assert!(!quit);
    assert!(matches!(cmd, Some(AppCommand::Query(ref q)) if q == "x"));
    app.set_query_result(vec![], vec![vec!["a".into(), "b".into()]]);
    assert_eq!(lines(app.main_screen().output()), vec!["a\nb".to_string()]);
    assert_eq!(app.status_line().display(), ("hi".to_string(), StatusTone::Plain));
}

#[test]
fn app_rejects_moves_in_empty_list() {
    let empty = data_with(0);
    let app = App::new();
    assert!(app.rejects(&press(KeyCode::Up, Key::Up), &empty));
    assert!(app.rejects(&ch('j'), &empty));
    assert!(!app.rejects(&ch('n'), &empty));
    assert!(!app.rejects(&press(KeyCode::Up, Key::Up), &data_with(1)));
    let ctrl_c = key_with(KeyCode::Char('c'), Key::Char('c'), MODIFIER_CONTROL, KeyEventKind::Press);
    assert!(!app.rejects(&ctrl_c, &empty));
}

#[test]
fn app_rejects_text_on_kind_focus() {
    let d = data_with(0);
    let mut app = App::new();
    app.handle_event(&ch('n'), &d);
    assert!(!app.rejects(&ch('a'), &d));
    app.handle_event(&backtab(), &d);
    assert!(app.rejects(&ch('a'), &d));
    assert!(!app.rejects(&ch(' '), &d));
    assert!(!app.rejects(&enter(), &d));
    assert!(!app.rejects(&esc(), &d));
    assert!(!app.rejects(&tab(), &d));
    assert!(!app.rejects(&key_with(KeyCode::Char('a'), Key::Char('a'), 0, KeyEventKind::Release), &d));
}

#[test]
fn form_and_list_failure_checks() {
    assert!(list_event_fails_on(0, &ch('k')));
    assert!(!list_event_fails_on(2, &ch('k')));
    assert!(!list_event_fails_on(0, &ch('x')));
    assert!(form_event_fails_on(ConnectionInfoFormState::DatabaseTypePostgres, &ch('x')));
    assert!(!form_event_fails_on(ConnectionInfoFormState::Port, &ch('x')));
    assert!(!form_event_fails_on(ConnectionInfoFormState::DatabaseTypePostgres, &tab()));
}

#[test]
fn form_field_presentation() {
    let mut f = ConnectionInfoForm::new();
    let frames: Vec<FieldFrame> = (0..6).map(|i| f.field_frame(i)).collect();
    assert_eq!(frames[0], FieldFrame::Focused);
    assert!(frames[1..].iter().all(|x| *x == FieldFrame::Fresh));
    f.handle_event(&ch('a'));
    assert_eq!(f.field_frame(1), FieldFrame::Fresh);
    f.handle_event(&tab());
    assert_eq!(f.field_frame(1), FieldFrame::Focused);
    assert_eq!(f.field_frame(0), FieldFrame::Plain);
    f.handle_event(&backtab());
    f.handle_event(&backtab());
    assert!((0..6).all(|i| f.field_frame(i) == FieldFrame::Plain));
    let titles: Vec<&str> = (0..6).map(field_title).collect();
    assert_eq!(titles, vec!["Name", "Host", "Port", "User", "Password", "Database"]);
    assert_eq!(field_placeholder(2), Some("5432"));
    assert_eq!(field_placeholder(0), None);
    assert_eq!(field_mask(4), Some('\u{2022}'));
    assert_eq!(field_mask(3), None);
}

#[test]
fn main_screen_titles() {
    assert_eq!(MainScreen::header_title(), "Header");
    assert_eq!(MainScreen::results_title(), "Results");
    assert_eq!(MainScreen::query_title(), "Query");
}

#[test]
fn text_editing_reaches_fields() {
    let mut m = MainScreen::new();
    m.handle_event(&ch('a'));
    m.handle_event(&ch('b'));
    m.handle_event(&press(KeyCode::Other, Key::Backspace));
    assert_eq!(lines(m.input()), vec!["a".to_string()]);
    m.handle_event(&TermEvent {
        key: None,
        input: TextInput { key: Key::Null, ctrl: false, alt: false, shift: false },
    });
    assert_eq!(lines(m.input()), vec!["a".to_string()]);
    let mut f = ConnectionInfoForm::new();
    f.handle_event(&ch('x'));
    f.handle_event(&ch('y'));
    f.handle_event(&press(KeyCode::Other, Key::Left));
    f.handle_event(&ch('z'));
    assert_eq!(lines(f.input(0)), vec!["xzy".to_string()]);
}
