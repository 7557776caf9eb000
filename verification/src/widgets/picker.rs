//! A list of items with a cursor, from which one or several items are picked.
use vstd::prelude::*;

verus! {

/// Whether a picker keeps one picked item or several.
#[derive(Debug, Clone, Copy, PartialEq, Eq, Structural)]
pub enum PickerSelect {
    Single,
    Multiple,
}

/// A picker: its title, its (label, item) pairs, the positions picked so far
/// (none before the first pick), the cursor, and how many may be picked.
#[derive(Debug)]
pub struct Picker<'a, 'b, I> {
    title: &'a str,
    items: Vec<(&'b str, I)>,
    selected: Option<Vec<usize>>,
    index: usize,
    select: PickerSelect,
}

/// The cursor position after moving down from `index` among `n` items,
/// wrapping from the last to the first.
pub open spec fn next_index(index: int, n: int) -> int {
    (index + 1) % n
}

/// The cursor position after moving up from `index` among `n` items,
/// wrapping from the first to the last.
pub open spec fn previous_index(index: int, n: int) -> int {
    if index == 0 {
        n - 1
    } else {
        index - 1
    }
}

/// Whether a position differs from `x`.
pub open spec fn other_than(x: usize) -> spec_fn(usize) -> bool {
    |y: usize| y != x
}

/// The picked positions after picking at `index`: the first pick starts the
/// list; picking a picked position unpicks it; otherwise a single picker
/// keeps only the new position and a multiple picker adds it at the end.
pub open spec fn toggled(picked: Option<Seq<usize>>, index: usize, mode: PickerSelect) -> Option<Seq<usize>> {
    match picked {
        None => Some(seq![index]),
        Some(s) => if s.contains(index) {
            Some(s.filter(other_than(index)))
        } else {
            match mode {
                PickerSelect::Single => Some(seq![index]),
                PickerSelect::Multiple => Some(s.push(index)),
            }
        },
    }
}

/// Whether every picked position is below `n`.
pub open spec fn picks_below(picked: Option<Seq<usize>>, n: nat) -> bool {
    match picked {
        Some(s) => forall|k: int| 0 <= k < s.len() ==> #[trigger] s[k] < n,
        None => true,
    }
}

/// Whether the picked positions hold no position twice, and at most one in a
/// single picker.
pub open spec fn well_picked(picked: Option<Seq<usize>>, mode: PickerSelect) -> bool {
    match picked {
        None => true,
        Some(s) => s.no_duplicates() && (mode == PickerSelect::Single ==> s.len() <= 1),
    }
}

impl<'a, 'b, I> Picker<'a, 'b, I> {
    #[verifier::type_invariant]
    spec fn inv(self) -> bool {
        &&& (self.index == 0 || self.index < self.items@.len())
        &&& well_picked(self.picked_view(), self.select)
        &&& (self.items@.len() > 0 ==> picks_below(self.picked_view(), self.items@.len()))
    }

    spec fn picked_view(self) -> Option<Seq<usize>> {
        match self.selected {
            Some(v) => Some(v@),
            None => None,
        }
    }

    /// The title.
    pub closed spec fn heading(&self) -> &'a str {
        self.title
    }

    /// The (label, item) pairs, in order.
    pub closed spec fn entries(&self) -> Seq<(&'b str, I)> {
        self.items@
    }

    /// The positions picked so far, in the order they were picked.
    pub closed spec fn picked(&self) -> Option<Seq<usize>> {
        self.picked_view()
    }

    /// The cursor position.
    pub closed spec fn cursor(&self) -> usize {
        self.index
    }

    /// How many items may be picked.
    pub closed spec fn mode(&self) -> PickerSelect {
        self.select
    }

    /// Whether every picked position is the position of an item.
    pub open spec fn picks_on_items(&self) -> bool {
        picks_below(self.picked(), self.entries().len())
    }

    /// A picker with nothing picked and the cursor on the first item.
    pub fn new(title: &'a str, items: Vec<(&'b str, I)>, select: PickerSelect) -> (p: Self)
        ensures
            p.heading() == title,
            p.entries() == items@,
            p.picked() is None,
            p.cursor() == 0,
            p.mode() == select,
    {
        Picker { title, items, index: 0, selected: None, select }
    }

    /// A picker that keeps one picked item.
    pub fn single(title: &'a str, items: Vec<(&'b str, I)>) -> (p: Self)
        ensures
            p.heading() == title,
            p.entries() == items@,
            p.picked() is None,
            p.cursor() == 0,
            p.mode() == PickerSelect::Single,
    {
        Self::new(title, items, PickerSelect::Single)
    }

    /// A picker that keeps several picked items.
    pub fn multiple(title: &'a str, items: Vec<(&'b str, I)>) -> (p: Self)
        ensures
            p.heading() == title,
            p.entries() == items@,
            p.picked() is None,
            p.cursor() == 0,
            p.mode() == PickerSelect::Multiple,
    {
        Self::new(title, items, PickerSelect::Multiple)
    }

    /// Moves the cursor down, from the last item to the first.
    pub fn next(&mut self)
        requires
            old(self).entries().len() > 0,
        ensures
            final(self).cursor() == next_index(old(self).cursor() as int, old(self).entries().len() as int),
            final(self).picks_on_items(),
            well_picked(final(self).picked(), final(self).mode()),
            final(self).entries() == old(self).entries(),
            final(self).picked() == old(self).picked(),
            final(self).heading() == old(self).heading(),
            final(self).mode() == old(self).mode(),
    {
        proof {
            use_type_invariant(&*self);
        }
        let n = self.items.len();
        self.index = (self.index + 1) % n;
    }

    /// Moves the cursor up, from the first item to the last.
    pub fn previous(&mut self)
        requires
            old(self).entries().len() > 0,
        ensures
            final(self).cursor() == previous_index(old(self).cursor() as int, old(self).entries().len() as int),
            final(self).picks_on_items(),
            well_picked(final(self).picked(), final(self).mode()),
            final(self).entries() == old(self).entries(),
            final(self).picked() == old(self).picked(),
            final(self).heading() == old(self).heading(),
            final(self).mode() == old(self).mode(),
    {
        proof {
            use_type_invariant(&*self);
        }
        if self.index == 0 {
            self.index = self.items.len() - 1;
        } else {
            self.index -= 1;
        }
    }

    /// Picks, or unpicks, the item under the cursor.
    pub fn select(&mut self)
        ensures
            final(self).picked() == toggled(old(self).picked(), old(self).cursor(), old(self).mode()),
            final(self).cursor() == old(self).cursor(),
            final(self).entries() == old(self).entries(),
            final(self).heading() == old(self).heading(),
            final(self).mode() == old(self).mode(),
            final(self).entries().len() > 0 ==> final(self).picks_on_items(),
            well_picked(final(self).picked(), final(self).mode()),
    {
        proof {
            use_type_invariant(&*self);
            lemma_toggle_keeps_well_picked(self.picked_view(), self.index, self.select);
            if self.items@.len() > 0 {
                lemma_toggle_keeps_below(self.picked_view(), self.index, self.select, self.items@.len());
            }
        }
        let index = self.index;
        let picked = match &self.selected {
            Some(sel) => {
                if contains_index(sel, index) {
                    Some(without_index(sel, index))
                } else {
                    match self.select {
                        PickerSelect::Single => Some(vec![index]),
                        PickerSelect::Multiple => {
                            let mut more = copy_indices(sel);
                            more.push(index);
                            Some(more)
                        },
                    }
                }
            },
            None => Some(vec![index]),
        };
        proof {
            assert(match picked {
                Some(v) => Some(v@),
                None => None::<Seq<usize>>,
            } =~= toggled(self.picked_view(), index, self.select));
        }
        self.selected = picked;
    }

    /// The items at the picked positions, in the order they were picked, or
    /// none before the first pick.
    pub fn selected(&self) -> (items: Option<Vec<&I>>)
        requires
            self.picks_on_items(),
        ensures
            items is None <==> self.picked() is None,
            items matches Some(v) ==> v@ == self.picked().unwrap().map_values(
                |k: usize| &self.entries()[k as int].1,
            ),
    {
        match &self.selected {
            Some(sel) => {
                assert(self.picked() == Some(sel@));
                assert forall|k: int| 0 <= k < sel@.len() implies sel@[k] < self.items@.len() by {
                    assert(self.picks_on_items());
                    assert(self.picked().unwrap()[k] == sel@[k]);
                }
                let mut out: Vec<&I> = Vec::new();
                let n = sel.len();
                let mut i: usize = 0;
                while i < n
                    invariant
                        n == sel@.len(),
                        i <= n,
                        forall|k: int| 0 <= k < n ==> sel@[k] < self.items@.len(),
                        out@ =~= sel@.take(i as int).map_values(|k: usize| &self.items@[k as int].1),
                    decreases n - i,
                {
                    let k = sel[i];
                    out.push(&self.items[k].1);
                    i = i + 1;
                }
                proof {
                    assert(sel@.take(n as int) =~= sel@);
                }
                Some(out)
            },
            None => None,
        }
    }

    /// The title.
    pub fn title(&self) -> (t: &'a str)
        ensures
            t == self.heading(),
    {
        self.title
    }

    /// The (label, item) pairs.
    pub fn items(&self) -> (v: &Vec<(&'b str, I)>)
        ensures
            v@ == self.entries(),
    {
        &self.items
    }
}

fn contains_index(v: &Vec<usize>, x: usize) -> (b: bool)
    ensures
        b == v@.contains(x),
{
    let n = v.len();
    let mut i: usize = 0;
    while i < n
        invariant
            n == v@.len(),
            i <= n,
            forall|k: int| 0 <= k < i ==> v@[k] != x,
        decreases n - i,
    {
        if v[i] == x {
            assert(v@[i as int] == x);
            return true;
        }
        i = i + 1;
    }
    false
}

fn without_index(v: &Vec<usize>, x: usize) -> (r: Vec<usize>)
    ensures
        r@ == v@.filter(other_than(x)),
{
    let mut r: Vec<usize> = Vec::new();
    let n = v.len();
    let mut i: usize = 0;
    while i < n
        invariant
            n == v@.len(),
            i <= n,
            r@ == v@.take(i as int).filter(other_than(x)),
        decreases n - i,
    {
        proof {
            reveal_with_fuel(Seq::filter, 1);
            assert(v@.take(i + 1).drop_last() =~= v@.take(i as int));
        }
        if v[i] != x {
            r.push(v[i]);
        }
        i = i + 1;
    }
    assert(v@.take(n as int) =~= v@);
    r
}

fn copy_indices(v: &Vec<usize>) -> (r: Vec<usize>)
    ensures
        r@ == v@,
{
    let mut r: Vec<usize> = Vec::new();
    let n = v.len();
    let mut i: usize = 0;
    while i < n
        invariant
            n == v@.len(),
            i <= n,
            r@ =~= v@.take(i as int),
        decreases n - i,
    {
        r.push(v[i]);
        i = i + 1;
    }
    assert(v@.take(n as int) =~= v@);
    r
}

proof fn lemma_filter_out(s: Seq<usize>, x: usize)
    ensures
        forall|y: usize| #[trigger] s.filter(other_than(x)).contains(y) <==> (s.contains(y) && y != x),
        s.no_duplicates() ==> s.filter(other_than(x)).no_duplicates(),
    decreases s.len(),
{
    let f = s.filter(other_than(x));
    assert forall|y: usize| #[trigger] f.contains(y) <==> (s.contains(y) && y != x) by {
        if f.contains(y) {
            s.lemma_filter_contains_rev(other_than(x), y);
            let i = choose|i: int| 0 <= i < f.len() && f[i] == y;
            s.lemma_filter_pred(other_than(x), i);
        }
        if s.contains(y) && y != x {
            let i = choose|i: int| 0 <= i < s.len() && s[i] == y;
            s.lemma_filter_contains(other_than(x), i);
        }
    }
    if s.len() > 0 && s.no_duplicates() {
        reveal_with_fuel(Seq::filter, 1);
        let d = s.drop_last();
        assert(d.no_duplicates()) by {
            assert forall|i: int, j: int| 0 <= i < d.len() && 0 <= j < d.len() && i != j implies d[i] != d[j] by {
                assert(d[i] == s[i] && d[j] == s[j]);
            }
        }
        lemma_filter_out(d, x);
        let r = d.filter(other_than(x));
        if s.last() != x {
            assert(!d.contains(s.last())) by {
                if d.contains(s.last()) {
                    let k = choose|k: int| 0 <= k < d.len() && d[k] == s.last();
                    assert(s[k] == s[s.len() - 1]);
                }
            }
            assert(!r.contains(s.last()));
            assert(f == r.push(s.last()));
            assert forall|i: int, j: int| 0 <= i < f.len() && 0 <= j < f.len() && i != j implies f[i] != f[j] by {
                if i < r.len() && j < r.len() {
                    assert(f[i] == r[i] && f[j] == r[j]);
                } else if i < r.len() {
                    assert(f[i] == r[i]);
                    assert(r.contains(f[i]));
                } else if j < r.len() {
                    assert(f[j] == r[j]);
                    assert(r.contains(f[j]));
                }
            }
        } else {
            assert(f == r);
        }
    }
}

/// Picking keeps the picked positions free of repeats, and a single picker
/// never holds more than one.
pub proof fn lemma_toggle_keeps_well_picked(picked: Option<Seq<usize>>, index: usize, mode: PickerSelect)
    requires
        well_picked(picked, mode),
    ensures
        well_picked(toggled(picked, index, mode), mode),
{
    if let Some(s) = picked {
        lemma_filter_out(s, index);
    }
}

/// Picking at a position below `n` keeps every picked position below `n`.
pub proof fn lemma_toggle_keeps_below(picked: Option<Seq<usize>>, index: usize, mode: PickerSelect, n: nat)
    requires
        picks_below(picked, n),
        index < n,
    ensures
        picks_below(toggled(picked, index, mode), n),
{
    if let Some(s) = picked {
        lemma_filter_out(s, index);
        let t = toggled(picked, index, mode).unwrap();
        assert forall|k: int| 0 <= k < t.len() implies #[trigger] t[k] < n by {
            if s.contains(index) {
                assert(t.contains(t[k]));
                assert(s.contains(t[k]));
            } else if mode == PickerSelect::Multiple && k < s.len() {
                assert(t[k] == s[k]);
            }
        }
    }
}

/// Picking at a cursor position `index` below `n`, starting from picked
/// positions that are distinct, below `n` and (in a single picker) at most
/// one: afterwards the picked positions are again distinct and below `n`,
/// `index` is picked exactly when it was not picked before, and a single
/// picker holds either nothing or exactly `index`.
pub proof fn lemma_select_law(picked: Option<Seq<usize>>, index: usize, mode: PickerSelect, n: nat)
    requires
        well_picked(picked, mode),
        picks_below(picked, n),
        index < n,
    ensures
        well_picked(toggled(picked, index, mode), mode),
        picks_below(toggled(picked, index, mode), n),
        toggled(picked, index, mode) matches Some(t) && (t.contains(index) <==> !(picked matches Some(s)
            && s.contains(index))),
        mode == PickerSelect::Single ==> (toggled(picked, index, mode) == Some(Seq::<usize>::empty())
            || toggled(picked, index, mode) == Some(seq![index])),
{
    lemma_toggle_keeps_well_picked(picked, index, mode);
    lemma_toggle_keeps_below(picked, index, mode, n);
    let t = toggled(picked, index, mode).unwrap();
    match picked {
        None => {
            assert(t[0] == index);
        },
        Some(s) => {
            lemma_filter_out(s, index);
            if s.contains(index) {
                assert(!t.contains(index));
                if mode == PickerSelect::Single {
                    assert(t.len() <= s.len());
                    let k = choose|k: int| 0 <= k < s.len() && s[k] == index;
                    assert(s.len() == 1);
                    if t.len() > 0 {
                        assert(t.contains(t[0]));
                        assert(s.contains(t[0]));
                        assert(t[0] == s[0]);
                    }
                    assert(t =~= Seq::<usize>::empty());
                }
            } else {
                match mode {
                    PickerSelect::Single => {
                        assert(t[0] == index);
                    },
                    PickerSelect::Multiple => {
                        assert(t[s.len() as int] == index);
                    },
                }
            }
        },
    }
}

/// In a multiple picker, picking the same position twice leaves the same
/// positions picked.
pub proof fn lemma_toggle_twice_same_membership(s: Seq<usize>, index: usize)
    requires
        s.no_duplicates(),
    ensures
        toggled(Some(s), index, PickerSelect::Multiple) matches Some(once) && toggled(
            Some(once),
            index,
            PickerSelect::Multiple,
        ) matches Some(twice) && forall|y: usize| twice.contains(y) <==> s.contains(y),
{
    lemma_filter_out(s, index);
    let once = toggled(Some(s), index, PickerSelect::Multiple).unwrap();
    if s.contains(index) {
        assert(once == s.filter(other_than(index)));
        assert(!once.contains(index));
        let twice = once.push(index);
        assert(toggled(Some(once), index, PickerSelect::Multiple) == Some(twice));
        assert forall|y: usize| twice.contains(y) <==> s.contains(y) by {
            if twice.contains(y) && y != index {
                let k = choose|k: int| 0 <= k < twice.len() && twice[k] == y;
                assert(twice[once.len() as int] == index);
                assert(k < once.len());
                assert(once[k] == y);
                assert(once.contains(y));
            }
            if s.contains(y) && y != index {
                assert(once.contains(y));
                let k = choose|k: int| 0 <= k < once.len() && once[k] == y;
                assert(twice[k] == y);
            }
            if y == index {
                assert(twice[once.len() as int] == index);
            }
        }
    } else {
        assert(once == s.push(index));
        assert(once[s.len() as int] == index);
        assert(once.contains(index));
        lemma_filter_out(once, index);
        assert forall|y: usize| s.contains(y) <==> (once.contains(y) && y != index) by {
            if s.contains(y) {
                let k = choose|k: int| 0 <= k < s.len() && s[k] == y;
                assert(once[k] == y);
            }
            if once.contains(y) && y != index {
                let k = choose|k: int| 0 <= k < once.len() && once[k] == y;
                assert(k < s.len());
                assert(s[k] == y);
            }
        }
    }
}

/// Moving the cursor down and then up returns it to where it was.
pub proof fn lemma_next_then_previous(index: int, n: int)
    requires
        0 <= index < n,
    ensures
        previous_index(next_index(index, n), n) == index,
        0 <= next_index(index, n) < n,
{
    if index + 1 < n {
        assert((index + 1) % n == index + 1) by (nonlinear_arith)
            requires
                0 <= index + 1 < n,
        ;
    } else {
        assert((index + 1) % n == 0) by (nonlinear_arith)
            requires
                index + 1 == n,
                n > 0,
        ;
    }
}

/// Moving the cursor up and then down returns it to where it was.
pub proof fn lemma_previous_then_next(index: int, n: int)
    requires
        0 <= index < n,
    ensures
        next_index(previous_index(index, n), n) == index,
        0 <= previous_index(index, n) < n,
{
    if index == 0 {
        assert((n - 1 + 1) % n == 0) by (nonlinear_arith)
            requires
                n > 0,
        ;
    } else {
        assert(index % n == index) by (nonlinear_arith)
            requires
                0 <= index < n,
        ;
    }
}

} // verus!
