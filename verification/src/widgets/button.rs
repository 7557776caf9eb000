//! A push button that toggles when clicked.
use vstd::prelude::*;

use ratatui::style::Style;

verus! {

/// A drawing style of the terminal library, carried through unread.
#[verifier::external_type_specification]
#[verifier::external_body]
pub struct ExStyle(Style);

/// A button: its label, whether it is clicked (pressed in) and highlighted,
/// and the style of its border when neither, if one was chosen.
#[derive(Debug)]
pub struct Button<'a> {
    text: &'a str,
    pub clicked: bool,
    pub highlighted: bool,
    border_style: Option<Style>,
}

/// How a button's border is drawn.
#[derive(Debug, Clone, Copy, PartialEq, Eq, Structural)]
pub enum ButtonFrame {
    /// Light magenta, reversed: the button is clicked.
    Pressed,
    /// Light magenta: the button is highlighted and not clicked.
    Highlighted,
    /// The button's own border style (the default style unless one was
    /// chosen).
    Plain,
}

impl<'a> Button<'a> {
    /// Whether the button is clicked.
    pub closed spec fn is_clicked(&self) -> bool {
        self.clicked
    }

    /// Whether the button is highlighted.
    pub closed spec fn is_highlighted(&self) -> bool {
        self.highlighted
    }

    /// The button's label.
    pub closed spec fn label(&self) -> Seq<char> {
        self.text@
    }

    /// The border style chosen for the button, if any.
    pub closed spec fn chosen_style(&self) -> Option<Style> {
        self.border_style
    }

    /// A button labelled `text`, neither clicked nor highlighted, with the
    /// default border style.
    pub fn new(text: &'a str) -> (b: Self)
        ensures
            b.label() == text@,
            !b.is_clicked(),
            !b.is_highlighted(),
            b.chosen_style() is None,
    {
        Button { text, clicked: false, highlighted: false, border_style: None }
    }

    /// The same button with the border style `style`.
    pub fn border_style(self, style: Style) -> (b: Self)
        ensures
            b.label() == self.label(),
            b.is_clicked() == self.is_clicked(),
            b.is_highlighted() == self.is_highlighted(),
            b.chosen_style() == Some(style),
    {
        Button { text: self.text, clicked: self.clicked, highlighted: self.highlighted, border_style: Some(style) }
    }

    /// Toggles the clicked state.
    pub fn click(&mut self)
        ensures
            final(self).is_clicked() == !old(self).is_clicked(),
            final(self).is_highlighted() == old(self).is_highlighted(),
            final(self).label() == old(self).label(),
            final(self).chosen_style() == old(self).chosen_style(),
    {
        self.clicked = !self.clicked;
    }

    /// Highlights the button.
    pub fn highlight(&mut self)
        ensures
            final(self).is_highlighted(),
            final(self).is_clicked() == old(self).is_clicked(),
            final(self).label() == old(self).label(),
            final(self).chosen_style() == old(self).chosen_style(),
    {
        self.highlighted = true;
    }

    /// Removes the highlight.
    pub fn unhighlight(&mut self)
        ensures
            !final(self).is_highlighted(),
            final(self).is_clicked() == old(self).is_clicked(),
            final(self).label() == old(self).label(),
            final(self).chosen_style() == old(self).chosen_style(),
    {
        self.highlighted = false;
    }

    /// The label.
    pub fn text(&self) -> (t: &'a str)
        ensures
            t@ == self.label(),
    {
        self.text
    }

    /// The chosen border style, if any.
    pub fn chosen_border_style(&self) -> (s: &Option<Style>)
        ensures
            *s == self.chosen_style(),
    {
        &self.border_style
    }

    /// How the border is drawn: clicked wins over highlighted.
    pub fn frame(&self) -> (f: ButtonFrame)
        ensures
            f == (if self.is_clicked() {
                ButtonFrame::Pressed
            } else if self.is_highlighted() {
                ButtonFrame::Highlighted
            } else {
                ButtonFrame::Plain
            }),
    {
        if self.clicked {
            ButtonFrame::Pressed
        } else if self.highlighted {
            ButtonFrame::Highlighted
        } else {
            ButtonFrame::Plain
        }
    }
}

} // verus!
