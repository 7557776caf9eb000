//! A titled box drawn over the middle of the screen.
use vstd::prelude::*;

use crate::layout::{
    layout_split, lemma_lies_within_trans, lies_within, percent_total, split_by_percentages, Area, SplitDirection,
};

verus! {

/// A popup and its title.
pub struct Popup<'a> {
    title: &'a str,
}

/// The percentages that centre a part of `percent` percent between two equal
/// margins.
pub open spec fn centred_percents(percent: u16) -> Seq<u16> {
    seq![((100 - percent) / 2) as u16, percent, ((100 - percent) / 2) as u16]
}

/// The middle part of `r` that takes `percent_x` percent of its width and
/// `percent_y` percent of its height.
pub open spec fn centred_area(percent_x: u16, percent_y: u16, r: Area) -> Area {
    let rows = layout_split(r, SplitDirection::Vertical, 0, centred_percents(percent_y));
    layout_split(rows[1], SplitDirection::Horizontal, 0, centred_percents(percent_x))[1]
}

/// The area left inside `area` once a margin of one cell is taken off each
/// side.
pub open spec fn inset_area(area: Area) -> Area {
    layout_split(area, SplitDirection::Vertical, 1, seq![100u16])[0]
}

/// The area in which a popup drawn over `area` shows its body.
pub open spec fn popup_body_area(area: Area) -> Area {
    centred_area(80, 95, inset_area(area))
}

fn centred_percentages(percent: u16) -> (v: Vec<u16>)
    requires
        percent <= 100,
    ensures
        v@ == centred_percents(percent),
        percent_total(v@) <= 100,
{
    let side = (100 - percent) / 2;
    let v = vec![side, percent, side];
    assert(v@ =~= centred_percents(percent));
    proof {
        reveal_with_fuel(percent_total, 4);
        assert(v@.drop_last().drop_last().drop_last() =~= Seq::<u16>::empty());
    }
    v
}

/// The middle part of `r` that takes `percent_x` percent of its width and
/// `percent_y` percent of its height: `r` is cut into three rows of
/// `(100 - percent_y) / 2`, `percent_y` and `(100 - percent_y) / 2` percent,
/// and the middle row into three columns in the same way.
pub fn centered_rect(percent_x: u16, percent_y: u16, r: Area) -> (middle: Area)
    requires
        percent_x <= 100,
        percent_y <= 100,
    ensures
        middle == centred_area(percent_x, percent_y, r),
        lies_within(middle, r, 0),
{
    let vertical = centred_percentages(percent_y);
    let rows = split_by_percentages(r, SplitDirection::Vertical, 0, &vertical);
    let horizontal = centred_percentages(percent_x);
    let columns = split_by_percentages(rows[1], SplitDirection::Horizontal, 0, &horizontal);
    proof {
        assert(lies_within(rows@[1], r, 0));
        assert(lies_within(columns@[1], rows@[1], 0));
        lemma_lies_within_trans(columns@[1], rows@[1], r, 0);
    }
    columns[1]
}

impl<'a> Popup<'a> {
    /// The title.
    pub closed spec fn heading(&self) -> &'a str {
        self.title
    }

    /// A popup titled `title`.
    pub fn new(title: &'a str) -> (p: Self)
        ensures
            p.heading() == title,
    {
        Popup { title }
    }

    /// The title.
    pub fn title(&self) -> (t: &'a str)
        ensures
            t == self.heading(),
    {
        self.title
    }

    /// The area inside `area` once a margin of one cell is taken off each side.
    pub fn layout(&self, area: Area) -> (inner: Area)
        ensures
            inner == inset_area(area),
            lies_within(inner, area, 1),
    {
        let whole = vec![100u16];
        assert(whole@ =~= seq![100u16]);
        proof {
            reveal_with_fuel(percent_total, 2);
            assert(whole@.drop_last() =~= Seq::<u16>::empty());
        }
        let parts = split_by_percentages(area, SplitDirection::Vertical, 1, &whole);
        assert(lies_within(parts@[0], area, 1));
        parts[0]
    }

    /// Where the popup's box and body go when it is drawn over `area`: the
    /// middle 80% of the width and 95% of the height of the inset area, which
    /// is empty or lies inside `area` shrunk by one cell on each side.
    pub fn body_area(&self, area: Area) -> (body: Area)
        ensures
            body == popup_body_area(area),
            lies_within(body, area, 1),
    {
        let inner = self.layout(area);
        let body = centered_rect(80, 95, inner);
        proof {
            lemma_lies_within_trans(body, inner, area, 1);
        }
        body
    }
}

} // verus!
