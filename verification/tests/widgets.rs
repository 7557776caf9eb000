use dbterm::layout::Area;
use dbterm::widgets::button::{Button, ButtonFrame};
use dbterm::widgets::picker::{Picker, PickerSelect};
use dbterm::widgets::popup::{centered_rect, Popup};
use dbterm::widgets::radio::RadioGroup;
use dbterm::widgets::status_line::{Status, StatusLine, StatusTone};
use ratatui::style::{Color, Style};

#[test]
fn button_click_toggles() {
    let mut b = Button::new("OK");
    assert!(!b.clicked && !b.highlighted);
    assert_eq!(b.frame(), ButtonFrame::Plain);
    b.click();
    assert!(b.clicked);
    assert_eq!(b.frame(), ButtonFrame::Pressed);
    b.click();
    assert!(!b.clicked);
    assert_eq!(b.text(), "OK");
}

#[test]
fn button_highlight_and_style() {
    let mut b = Button::new("Go").border_style(Style::default().fg(Color::Red));
    assert_eq!(*b.chosen_border_style(), Some(Style::default().fg(Color::Red)));
    b.highlight();
    assert_eq!(b.frame(), ButtonFrame::Highlighted);
    b.click();
    assert_eq!(b.frame(), ButtonFrame::Pressed);
    b.click();
    b.unhighlight();
    assert_eq!(b.frame(), ButtonFrame::Plain);
    assert!(Button::new("x").chosen_border_style().is_none());
}

fn items() -> Vec<(&'static str, u32)> {
    vec![("one", 1), ("two", 2), ("three", 3)]
}

#[test]
fn picker_cursor_wraps() {
    let mut p = Picker::single("Pick", items());
    p.previous();
    p.select();
    assert_eq!(p.selected(), Some(vec![&3]));
    p.next();
    p.select();
    assert_eq!(p.selected(), Some(vec![&1]));
    p.next();
    p.previous();
    p.select();
    assert_eq!(p.selected(), Some(vec![]));
}

#[test]
fn picker_single_keeps_one() {
    let mut p = Picker::single("Pick", items());
    assert_eq!(p.selected(), None);
    p.select();
    p.next();
    p.select();
    assert_eq!(p.selected(), Some(vec![&2]));
    p.select();
    assert_eq!(p.selected(), Some(vec![]));
}

#[test]
fn picker_multiple_toggles() {
    let mut p = Picker::multiple("Pick", items());
    p.select();
    p.next();
    p.next();
    p.select();
    assert_eq!(p.selected(), Some(vec![&1, &3]));
    p.previous();
    p.previous();
    p.select();
    assert_eq!(p.selected(), Some(vec![&3]));
    p.select();
    assert_eq!(p.selected(), Some(vec![&3, &1]));
    assert_eq!(p.title(), "Pick");
    assert_eq!(p.items().len(), 3);
}

#[test]
fn picker_new_with_mode() {
    let mut p = Picker::new("T", items(), PickerSelect::Multiple);
    p.select();
    p.next();
    p.select();
    assert_eq!(p.selected(), Some(vec![&1, &2]));
}

#[test]
fn radio_group_select_and_highlight() {
    let mut g = RadioGroup::from(vec![("Postgres", 'p'), ("MySQL", 'm'), ("SQLite", 's')]);
    assert_eq!(g.selected(), None);
    g.select(1);
    assert_eq!(g.selected(), Some(&'m'));
    let flags: Vec<bool> = g.radio_buttons().iter().map(|b| b.selected()).collect();
    assert_eq!(flags, vec![false, true, false]);
    g.highlight(2);
    let lit: Vec<bool> = g.radio_buttons().iter().map(|b| b.highlighted()).collect();
    assert_eq!(lit, vec![false, false, true]);
    g.unhighlight();
    assert!(g.radio_buttons().iter().all(|b| !b.highlighted()));
    g.select(0);
    assert_eq!(g.selected(), Some(&'p'));
}

#[test]
fn radio_button_size_caption_value() {
    let mut g = RadioGroup::from(vec![("MySQL", 7u8), ("Ünï", 8u8)]);
    assert_eq!(g.radio_buttons()[0].size(), 7);
    assert_eq!(g.radio_buttons()[1].size(), 7);
    assert_eq!(*g.radio_buttons()[1].value(), 8);
    assert_eq!(g.radio_buttons()[0].caption(), "\u{25ce} MySQL");
    g.select(0);
    assert_eq!(g.radio_buttons()[0].caption(), "\u{25c9} MySQL");
}

#[test]
fn radio_button_highlight() {
    let g = RadioGroup::from(vec![("a", 1)]);
    let mut buttons = g;
    buttons.highlight(0);
    assert!(buttons.radio_buttons()[0].highlighted());
    buttons.highlight(5);
    assert!(!buttons.radio_buttons()[0].highlighted());
}

#[test]
fn status_line_display() {
    let mut s = StatusLine::new();
    assert_eq!(s.display(), (String::new(), StatusTone::Plain));
    s.set_text(Status::Error("boom".into()));
    assert_eq!(s.display(), ("boom".to_string(), StatusTone::Error));
    s.set_text(Status::Success("ok".into()));
    assert_eq!(s.display(), ("ok".to_string(), StatusTone::Success));
    s.set_text(Status::Info("note".into()));
    assert_eq!(s.display(), ("note".to_string(), StatusTone::Plain));
    s.set_text(Status::Blank);
    assert_eq!(s.display(), (String::new(), StatusTone::Plain));
    s.clear();
    assert_eq!(s.display(), (String::new(), StatusTone::Plain));
}

#[test]
fn centered_rect_splits_by_percent() {
    let r = centered_rect(80, 50, Area { x: 0, y: 0, width: 100, height: 100 });
    assert_eq!(r, Area { x: 10, y: 25, width: 80, height: 50 });
    let whole = centered_rect(100, 100, Area { x: 3, y: 4, width: 20, height: 10 });
    assert_eq!(whole, Area { x: 3, y: 4, width: 20, height: 10 });
}

#[test]
fn popup_areas() {
    let p = Popup::new("New Connection");
    assert_eq!(p.title(), "New Connection");
    let inner = p.layout(Area { x: 0, y: 0, width: 100, height: 50 });
    assert_eq!(inner, Area { x: 1, y: 1, width: 98, height: 48 });
    let body = p.body_area(Area { x: 0, y: 0, width: 102, height: 102 });
    assert_eq!(body, centered_rect(80, 95, Area { x: 1, y: 1, width: 100, height: 100 }));
    assert!(body.width < 100 && body.height < 100);
}

#[test]
fn popup_body_inside_area() {
    let p = Popup::new("T");
    for (w, h) in [(1u16, 1u16), (2, 2), (10, 4), (80, 24), (200, 60)] {
        let area = Area { x: 5, y: 7, width: w, height: h };
        let b = p.body_area(area);
        assert!(
            b.width == 0
                || b.height == 0
                || (b.x >= area.x + 1
                    && b.y >= area.y + 1
                    && b.x + b.width + 1 <= area.x + area.width
                    && b.y + b.height + 1 <= area.y + area.height),
            "{:?} in {:?}",
            b,
            area
        );
    }
}
