//! A group of radio buttons of which at most one is selected.
use vstd::prelude::*;

use crate::text::byte_len;
use vstd::string::*;

verus! {

/// One radio button: its label, the value it stands for, and whether it is
/// selected and highlighted.
#[derive(Debug)]
pub struct RadioButton<'a, T> {
    text: &'a str,
    value: T,
    selected: bool,
    highlighted: bool,
}

/// A group of radio buttons and the position chosen last, if any.
#[derive(Debug)]
pub struct RadioGroup<'a, T> {
    radio_buttons: Vec<RadioButton<'a, T>>,
    selected: Option<usize>,
}

/// The bullet of a selected button.
pub open spec fn selected_bullet() -> char {
    '\u{25c9}'
}

/// The bullet of a button that is not selected.
pub open spec fn unselected_bullet() -> char {
    '\u{25ce}'
}

impl<'a, T> RadioButton<'a, T> {
    /// The label.
    pub closed spec fn label(&self) -> Seq<char> {
        self.text@
    }

    /// The label as it is stored.
    pub closed spec fn label_str(&self) -> &'a str {
        self.text
    }

    /// The value the button stands for.
    pub closed spec fn stands_for(&self) -> T {
        self.value
    }

    /// Whether the button is selected.
    pub closed spec fn is_selected(&self) -> bool {
        self.selected
    }

    /// Whether the button is highlighted.
    pub closed spec fn is_highlighted(&self) -> bool {
        self.highlighted
    }

    /// The width the button takes: its label's length in bytes, plus the
    /// bullet and a space.
    pub fn size(&self) -> (n: usize)
        ensures
            n == self.label_str().spec_bytes().len() + 2,
    {
        byte_len(self.text) + 2
    }

    /// The value the button stands for.
    pub fn value(&self) -> (v: &T)
        ensures
            *v == self.stands_for(),
    {
        &self.value
    }

    /// Highlights the button.
    pub fn highlight(&mut self)
        ensures
            final(self).is_highlighted(),
            final(self).is_selected() == old(self).is_selected(),
            final(self).label_str() == old(self).label_str(),
            final(self).stands_for() == old(self).stands_for(),
    {
        self.highlighted = true;
    }

    /// Removes the highlight.
    pub fn unhighlight(&mut self)
        ensures
            !final(self).is_highlighted(),
            final(self).is_selected() == old(self).is_selected(),
            final(self).label_str() == old(self).label_str(),
            final(self).stands_for() == old(self).stands_for(),
    {
        self.highlighted = false;
    }

    fn set_selected(&mut self, selected: bool)
        ensures
            final(self).is_selected() == selected,
            final(self).is_highlighted() == old(self).is_highlighted(),
            final(self).label_str() == old(self).label_str(),
            final(self).stands_for() == old(self).stands_for(),
    {
        self.selected = selected;
    }

    fn set_highlighted(&mut self, highlighted: bool)
        ensures
            final(self).is_highlighted() == highlighted,
            final(self).is_selected() == old(self).is_selected(),
            final(self).label_str() == old(self).label_str(),
            final(self).stands_for() == old(self).stands_for(),
    {
        self.highlighted = highlighted;
    }

    /// Whether the button is selected.
    pub fn selected(&self) -> (b: bool)
        ensures
            b == self.is_selected(),
    {
        self.selected
    }

    /// Whether the button is highlighted.
    pub fn highlighted(&self) -> (b: bool)
        ensures
            b == self.is_highlighted(),
    {
        self.highlighted
    }

    /// The text drawn for the button: a filled bullet when selected, a
    /// hollow one otherwise, a space, and the label.
    pub fn caption(&self) -> (c: String)
        ensures
            c@ == seq![if self.is_selected() { selected_bullet() } else { unselected_bullet() }, ' ']
                + self.label(),
    {
        let mut c = String::new();
        if self.selected {
            crate::text::push_char(&mut c, '\u{25c9}');
        } else {
            crate::text::push_char(&mut c, '\u{25ce}');
        }
        crate::text::push_char(&mut c, ' ');
        c.append(self.text);
        c
    }
}

/// Whether `after` differs from `before` only in its buttons' selected flags.
pub open spec fn same_buttons_but_selection<'a, T>(
    before: Seq<RadioButton<'a, T>>,
    after: Seq<RadioButton<'a, T>>,
) -> bool {
    &&& after.len() == before.len()
    &&& forall|i: int|
        0 <= i < before.len() ==> {
            &&& (#[trigger] after[i]).label_str() == before[i].label_str()
            &&& after[i].stands_for() == before[i].stands_for()
            &&& after[i].is_highlighted() == before[i].is_highlighted()
        }
}

/// Whether `after` differs from `before` only in its buttons' highlighted flags.
pub open spec fn same_buttons_but_highlight<'a, T>(
    before: Seq<RadioButton<'a, T>>,
    after: Seq<RadioButton<'a, T>>,
) -> bool {
    &&& after.len() == before.len()
    &&& forall|i: int|
        0 <= i < before.len() ==> {
            &&& (#[trigger] after[i]).label_str() == before[i].label_str()
            &&& after[i].stands_for() == before[i].stands_for()
            &&& after[i].is_selected() == before[i].is_selected()
        }
}

impl<'a, T> RadioGroup<'a, T> {
    /// The buttons, in order.
    pub closed spec fn buttons(&self) -> Seq<RadioButton<'a, T>> {
        self.radio_buttons@
    }

    /// The position chosen last, if any.
    pub closed spec fn choice(&self) -> Option<usize> {
        self.selected
    }

    /// One button for each (label, value) pair, in order, none selected or
    /// highlighted, and no choice made.
    pub fn from(radio_buttons: Vec<(&'a str, T)>) -> (group: Self)
        ensures
            group.choice() is None,
            group.buttons().len() == radio_buttons@.len(),
            forall|i: int|
                0 <= i < radio_buttons@.len() ==> {
                    &&& (#[trigger] group.buttons()[i]).label_str() == radio_buttons@[i].0
                    &&& group.buttons()[i].stands_for() == radio_buttons@[i].1
                    &&& !group.buttons()[i].is_selected()
                    &&& !group.buttons()[i].is_highlighted()
                },
    {
        let ghost items = radio_buttons@;
        let mut buttons: Vec<RadioButton<'a, T>> = Vec::new();
        for item in it: radio_buttons
            invariant
                items == it.seq(),
                buttons@.len() == it.index(),
                forall|i: int|
                    0 <= i < it.index() ==> {
                        &&& (#[trigger] buttons@[i]).text == items[i].0
                        &&& buttons@[i].value == items[i].1
                        &&& !buttons@[i].selected
                        &&& !buttons@[i].highlighted
                    },
        {
            let (text, value) = item;
            buttons.push(RadioButton { text, value, selected: false, highlighted: false });
        }
        RadioGroup { radio_buttons: buttons, selected: None }
    }

    /// The value of the chosen button, if a choice was made.
    pub fn selected(&self) -> (v: Option<&T>)
        requires
            self.choice() matches Some(i) ==> i < self.buttons().len(),
        ensures
            v == (match self.choice() {
                Some(i) => Some(&self.buttons()[i as int].stands_for()),
                None => None,
            }),
    {
        match self.selected {
            Some(i) => Some(&self.radio_buttons[i].value),
            None => None,
        }
    }

    /// Chooses position `index`: exactly the button there, if any, is
    /// selected.
    pub fn select(&mut self, index: usize)
        ensures
            final(self).choice() == Some(index),
            same_buttons_but_selection(old(self).buttons(), final(self).buttons()),
            forall|i: int|
                0 <= i < final(self).buttons().len() ==> (#[trigger] final(self).buttons()[i]).is_selected() == (i
                    == index),
    {
        self.selected = Some(index);
        let ghost before = self.radio_buttons@;
        let n = self.radio_buttons.len();
        let mut i: usize = 0;
        while i < n
            invariant
                n == self.radio_buttons@.len(),
                before.len() == n,
                i <= n,
                self.selected == Some(index),
                forall|k: int|
                    0 <= k < n ==> {
                        &&& (#[trigger] self.radio_buttons@[k]).text == before[k].text
                        &&& self.radio_buttons@[k].value == before[k].value
                        &&& self.radio_buttons@[k].highlighted == before[k].highlighted
                    },
                forall|k: int| 0 <= k < i ==> (#[trigger] self.radio_buttons@[k]).selected == (k == index),
            decreases n - i,
        {
            self.radio_buttons[i].set_selected(i == index);
            i = i + 1;
        }
    }

    /// Highlights exactly the button at `index`, if any.
    pub fn highlight(&mut self, index: usize)
        ensures
            final(self).choice() == old(self).choice(),
            same_buttons_but_highlight(old(self).buttons(), final(self).buttons()),
            forall|i: int|
                0 <= i < final(self).buttons().len() ==> (#[trigger] final(self).buttons()[i]).is_highlighted()
                    == (i == index),
    {
        let ghost before = self.radio_buttons@;
        let n = self.radio_buttons.len();
        let mut i: usize = 0;
        while i < n
            invariant
                n == self.radio_buttons@.len(),
                before.len() == n,
                i <= n,
                self.selected == old(self).selected,
                forall|k: int|
                    0 <= k < n ==> {
                        &&& (#[trigger] self.radio_buttons@[k]).text == before[k].text
                        &&& self.radio_buttons@[k].value == before[k].value
                        &&& self.radio_buttons@[k].selected == before[k].selected
                    },
                forall|k: int| 0 <= k < i ==> (#[trigger] self.radio_buttons@[k]).highlighted == (k == index),
            decreases n - i,
        {
            self.radio_buttons[i].set_highlighted(i == index);
            i = i + 1;
        }
    }

    /// Highlights no button.
    pub fn unhighlight(&mut self)
        ensures
            final(self).choice() == old(self).choice(),
            same_buttons_but_highlight(old(self).buttons(), final(self).buttons()),
            forall|i: int|
                0 <= i < final(self).buttons().len() ==> !(#[trigger] final(self).buttons()[i]).is_highlighted(),
    {
        let ghost before = self.radio_buttons@;
        let n = self.radio_buttons.len();
        let mut i: usize = 0;
        while i < n
            invariant
                n == self.radio_buttons@.len(),
                before.len() == n,
                i <= n,
                self.selected == old(self).selected,
                forall|k: int|
                    0 <= k < n ==> {
                        &&& (#[trigger] self.radio_buttons@[k]).text == before[k].text
                        &&& self.radio_buttons@[k].value == before[k].value
                        &&& self.radio_buttons@[k].selected == before[k].selected
                    },
                forall|k: int| 0 <= k < i ==> !(#[trigger] self.radio_buttons@[k]).highlighted,
            decreases n - i,
        {
            self.radio_buttons[i].set_highlighted(false);
            i = i + 1;
        }
    }

    /// The buttons, in order.
    pub fn radio_buttons(&self) -> (b: &Vec<RadioButton<'a, T>>)
        ensures
            b@ == self.buttons(),
    {
        &self.radio_buttons
    }
}

} // verus!
