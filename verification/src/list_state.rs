//! A list of rows with an optional selected row, moved with wrap-around.

use vstd::prelude::*;

verus! {

/// Which row of a table is selected, if any.
#[derive(Clone, Copy, Debug, PartialEq, Eq, Structural)]
pub struct TableSelection {
    pub selected: Option<usize>,
}

impl TableSelection {
    /// No row selected.
    pub fn new() -> (s: Self)
        ensures
            s.selected == None::<usize>,
    {
        TableSelection { selected: None }
    }

    /// The selected row.
    pub fn selected(&self) -> (r: Option<usize>)
        ensures
            r == self.selected,
    {
        self.selected
    }

    /// Selects a row (or none).
    pub fn select(&mut self, index: Option<usize>)
        ensures
            final(self).selected == index,
    {
        self.selected = index;
    }
}

/// Rows of a table and the selection on them.
#[derive(Debug)]
pub struct ListState<T> {
    pub state: TableSelection,
    pub items: Vec<T>,
}

/// Whether moving down from `sel` over `len` rows is defined: a selected row
/// in an empty list has no row below it.
pub open spec fn can_move_down(sel: Option<usize>, len: nat) -> bool {
    sel is None || len > 0
}

/// Whether moving up from `sel` over `len` rows is defined: from the first
/// row of an empty list there is no last row to wrap to.
pub open spec fn can_move_up(sel: Option<usize>, len: nat) -> bool {
    !(sel == Some(0usize) && len == 0)
}

/// The row selected after moving down: the next row, wrapping from the last
/// to the first; the first row when nothing was selected.
pub open spec fn row_below(sel: Option<usize>, len: nat) -> usize {
    match sel {
        Some(i) => if i >= len - 1 {
            0
        } else {
            (i + 1) as usize
        },
        None => 0,
    }
}

/// The row selected after moving up: the previous row, wrapping from the
/// first to the last; the first row when nothing was selected.
pub open spec fn row_above(sel: Option<usize>, len: nat) -> usize {
    match sel {
        Some(i) => if i == 0 {
            (len - 1) as usize
        } else {
            (i - 1) as usize
        },
        None => 0,
    }
}

impl<T> Default for ListState<T> {
    /// An empty list with nothing selected.
    fn default() -> (l: Self)
        ensures
            l.items@.len() == 0,
            l.state.selected == None::<usize>,
    {
        Self::new()
    }
}

impl<T> ListState<T> {
    /// An empty list with nothing selected.
    pub fn new() -> (l: Self)
        ensures
            l.items@.len() == 0,
            l.state.selected == None::<usize>,
    {
        ListState { state: TableSelection::new(), items: Vec::new() }
    }

    /// Selects the next row, wrapping around after the last.
    pub fn move_down(&mut self)
        requires
            can_move_down(old(self).state.selected, old(self).items@.len()),
        ensures
            final(self).items@ == old(self).items@,
            final(self).state.selected == Some(
                row_below(old(self).state.selected, old(self).items@.len()),
            ),
    {
        let i = match self.state.selected() {
            Some(i) => {
                if i >= self.items.len() - 1 {
                    0
                } else {
                    i + 1
                }
            },
            None => 0,
        };
        self.state.select(Some(i));
    }

    /// Selects the previous row, wrapping around before the first.
    pub fn move_up(&mut self)
        requires
            can_move_up(old(self).state.selected, old(self).items@.len()),
        ensures
            final(self).items@ == old(self).items@,
            final(self).state.selected == Some(
                row_above(old(self).state.selected, old(self).items@.len()),
            ),
    {
        let i = match self.state.selected() {
            Some(i) => {
                if i == 0 {
                    self.items.len() - 1
                } else {
                    i - 1
                }
            },
            None => 0,
        };
        self.state.select(Some(i));
    }
}

/// Moving down and then up returns to the row where one started, when that
/// row exists.
pub proof fn down_then_up_returns(i: usize, len: nat)
    requires
        i < len,
        len <= usize::MAX,
    ensures
        can_move_down(Some(i), len),
        can_move_up(Some(row_below(Some(i), len)), len),
        row_above(Some(row_below(Some(i), len)), len) == i,
{
}

/// Moving up and then down returns to the row where one started, when that
/// row exists.
pub proof fn up_then_down_returns(i: usize, len: nat)
    requires
        i < len,
        len <= usize::MAX,
    ensures
        can_move_up(Some(i), len),
        can_move_down(Some(row_above(Some(i), len)), len),
        row_below(Some(row_above(Some(i), len)), len) == i,
{
}

/// In a non-empty list, moving down always lands on an existing row, and so
/// does moving up from no selection or from an existing row.
pub proof fn moves_stay_in_range(sel: Option<usize>, len: nat)
    requires
        len > 0,
        len <= usize::MAX,
    ensures
        row_below(sel, len) < len,
        (sel is None || sel.unwrap() < len) ==> row_above(sel, len) < len,
{
}

/// Going down `k` rows from row `i` (with wrap-around).
pub open spec fn rows_below(i: usize, len: nat, k: nat) -> usize
    decreases k,
{
    if k == 0 {
        i
    } else {
        row_below(Some(rows_below(i, len, (k - 1) as nat)), len)
    }
}

/// Moving down `k` times from row `i` reaches row `(i + k) mod len`; in
/// particular, `len` moves down come back to the starting row.
pub proof fn moving_down_cycles(i: usize, len: nat, k: nat)
    requires
        i < len,
        len <= usize::MAX,
    ensures
        rows_below(i, len, k) == (i + k) % (len as int),
    decreases k,
{
    if k == 0 {
        vstd::arithmetic::div_mod::lemma_small_mod(i as nat, len);
    } else {
        moving_down_cycles(i, len, (k - 1) as nat);
        let prev = rows_below(i, len, (k - 1) as nat);
        let l = len as int;
        assert(0 <= prev < l) by {
            vstd::arithmetic::div_mod::lemma_mod_bound((i + k - 1) as int, l);
        }
        vstd::arithmetic::div_mod::lemma_add_mod_noop(prev as int, 1, l);
        vstd::arithmetic::div_mod::lemma_add_mod_noop((i + k - 1) as int, 1, l);
        vstd::arithmetic::div_mod::lemma_mod_twice((i + k - 1) as int, l);
        if prev + 1 == l {
            vstd::arithmetic::div_mod::lemma_mod_self_0(l);
        } else {
            vstd::arithmetic::div_mod::lemma_small_mod((prev + 1) as nat, len);
        }
    }
}

} // verus!
