//! The multi-line text editing widget of the user interface, seen through the
//! lines of text it holds.
use vstd::prelude::*;

use crate::events::TextInput;
use crate::events::TextKey::{
    self, Backspace, Char, Delete, Down, End, Enter, Esc, Home, Left, MouseScrollDown, MouseScrollUp, Null, PageDown,
    PageUp, Right, Tab, Up, F,
};
use crate::text::string_views;
use tui_textarea::{Input, Key, TextArea};

verus! {

/// A text field: the editing widget of the `tui_textarea` crate, kept whole
/// in a field of its own. The library reaches it only through the functions
/// below, and names the lines it holds `text_lines`; the widget itself is
/// public so that the drawing code can draw a copy of it.
#[verifier::external_body]
#[derive(Debug)]
pub struct TextField {
    pub area: TextArea<'static>,
}

/// The lines of text that a text field holds.
pub uninterp spec fn text_lines(field: TextField) -> Seq<Seq<char>>;

/// `TextArea::default`: the field holds a single empty line.
#[verifier::external_body]
pub(crate) fn new_text_field() -> (field: TextField)
    ensures
        text_lines(field) == seq![Seq::<char>::empty()],
{
    TextField { area: TextArea::default() }
}

/// `TextArea::new`: the field holds the given lines, or a single empty line
/// when none is given.
#[verifier::external_body]
pub(crate) fn text_field_from(lines: Vec<String>) -> (field: TextField)
    ensures
        text_lines(field) == (if lines@.len() == 0 {
            seq![Seq::<char>::empty()]
        } else {
            string_views(lines@)
        }),
{
    TextField { area: TextArea::new(lines) }
}

/// The lines that a text field holds after it receives `key`, with Control,
/// Alt and Shift held as `ctrl`, `alt` and `shift`.
pub uninterp spec fn edited_lines(field: TextField, key: TextKey, ctrl: bool, alt: bool, shift: bool) -> Seq<
    Seq<char>,
>;

/// `TextArea::input`: the field edits its text as the key says, giving the
/// lines named by `edited_lines` (what each key binding does is not spelt
/// out); the field keeps at least one line, and the `Null` key leaves the
/// field as it was.
#[verifier::external_body]
pub(crate) fn text_field_input(field: &mut TextField, input: &TextInput)
    ensures
        text_lines(*final(field)) == edited_lines(*old(field), input.key, input.ctrl, input.alt, input.shift),
        text_lines(*final(field)).len() > 0,
        input.key == TextKey::Null ==> *final(field) == *old(field),
{
    let key = match input.key {
        Char(c) => Key::Char(c), F(n) => Key::F(n), Backspace => Key::Backspace, Enter => Key::Enter,
        Left => Key::Left, Right => Key::Right, Up => Key::Up, Down => Key::Down, Tab => Key::Tab,
        Delete => Key::Delete, Home => Key::Home, End => Key::End, PageUp => Key::PageUp,
        PageDown => Key::PageDown, Esc => Key::Esc, MouseScrollDown => Key::MouseScrollDown,
        MouseScrollUp => Key::MouseScrollUp, Null => Key::Null,
    };
    field.area.input(Input { key, ctrl: input.ctrl, alt: input.alt, shift: input.shift });
}

/// `TextArea::lines`: the lines the field holds.
#[verifier::external_body]
pub(crate) fn text_field_lines(field: &TextField) -> (lines: Vec<String>)
    ensures
        string_views(lines@) == text_lines(*field),
{
    field.area.lines().to_vec()
}

} // verus!
