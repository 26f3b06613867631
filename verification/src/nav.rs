//! The navigation/viewport state machine: a selection cursor and a scroll
//! offset over the current record list, moved in O(1) per command. Every
//! command takes the list length `n` and the viewport capacity `cap` (both
//! supplied externally) and clamps the cursor into `[0, n-1]` at every step;
//! with an empty list the moves are no-ops.

use vstd::prelude::*;

verus! {

/// Cursor and scroll offset. `selected` is an index into the record list
/// (meaningless while the list is empty); `offset` is the first visible row.
#[derive(Debug, PartialEq, Eq, Structural, Clone, Copy)]
pub struct NavigationState {
    pub selected: usize,
    pub offset: usize,
}

/// The model of a `NavigationState`.
#[verifier::ext_equal]
pub struct NavView {
    pub selected: nat,
    pub offset: nat,
}

impl View for NavigationState {
    type V = NavView;

    open spec fn view(&self) -> NavView {
        NavView { selected: self.selected as nat, offset: self.offset as nat }
    }
}

/// `s` clamped against a list of length `n`: `selected` into `[0, n-1]`, and
/// `offset` at most `selected`. Leaves `s` alone when the list is empty.
pub open spec fn spec_clamp(s: NavView, n: nat) -> NavView {
    if n == 0 {
        s
    } else {
        let sel = if s.selected <= n - 1 {
            s.selected
        } else {
            (n - 1) as nat
        };
        NavView { selected: sel, offset: if s.offset <= sel {
            s.offset
        } else {
            sel
        } }
    }
}

/// One step down. At the last visible row (`selected == cap - 1`) the window
/// scrolls with the cursor; above it only the cursor moves; past the window
/// the move is a no-op; the result is clamped to the list.
pub open spec fn spec_move_down(s: NavView, n: nat, cap: nat) -> NavView {
    if n == 0 {
        s
    } else {
        let c = spec_clamp(s, n);
        let m = if c.selected + 1 == cap {
            NavView { selected: (c.selected + 1) as nat, offset: (c.offset + 1) as nat }
        } else if c.selected < cap {
            NavView { selected: (c.selected + 1) as nat, offset: c.offset }
        } else {
            c
        };
        spec_clamp(m, n)
    }
}

/// One step up. Inside the window only the cursor moves; at the window's top
/// with room above, the window scrolls with the cursor; otherwise the cursor
/// goes to the top row.
pub open spec fn spec_move_up(s: NavView, n: nat) -> NavView {
    if n == 0 {
        s
    } else {
        let c = spec_clamp(s, n);
        if c.selected > c.offset {
            NavView { selected: (c.selected - 1) as nat, offset: c.offset }
        } else if c.selected == c.offset && c.offset > 0 {
            NavView { selected: (c.selected - 1) as nat, offset: (c.offset - 1) as nat }
        } else {
            NavView { selected: 0, offset: c.offset }
        }
    }
}

/// The bottom of the list: last record selected, window scrolled down as the
/// capacity allows.
pub open spec fn spec_jump_bottom(s: NavView, n: nat, cap: nat) -> NavView {
    if n == 0 {
        s
    } else {
        NavView {
            selected: (n - 1) as nat,
            offset: if n - 1 >= cap {
                (n - 1 - cap) as nat
            } else {
                0
            },
        }
    }
}

impl NavigationState {
    /// The state a fresh list starts in: top of the list.
    pub fn new() -> (s: NavigationState)
        ensures
            s@ == (NavView { selected: 0, offset: 0 }),
    {
        NavigationState { selected: 0, offset: 0 }
    }

    /// Moves the cursor one row down; scrolls when the cursor leaves the
    /// bottom of the window.
    pub fn move_down(&mut self, n: usize, cap: usize)
        ensures
            final(self)@ == spec_move_down(old(self)@, n as nat, cap as nat),
    {
        if n == 0 {
            return ;
        }
        self.clamp(n);
        if self.selected + 1 == cap {
            self.selected = self.selected + 1;
            self.offset = self.offset + 1;
        } else if self.selected < cap {
            self.selected = self.selected + 1;
        }
        self.clamp(n);
    }

    /// Moves the cursor one row up; scrolls when the cursor leaves the top
    /// of the window.
    pub fn move_up(&mut self, n: usize)
        ensures
            final(self)@ == spec_move_up(old(self)@, n as nat),
    {
        if n == 0 {
            return ;
        }
        self.clamp(n);
        if self.selected > self.offset {
            self.selected = self.selected - 1;
        } else if self.selected == self.offset && self.offset > 0 {
            self.selected = self.selected - 1;
            self.offset = self.offset - 1;
        } else {
            self.selected = 0;
        }
    }

    /// Jumps to the top of the list. Resets the cursor and the scroll
    /// offset from any state, whatever the list length: the one state that
    /// is valid for every list.
    pub fn jump_top(&mut self)
        ensures
            final(self)@ == (NavView { selected: 0, offset: 0 }),
    {
        self.selected = 0;
        self.offset = 0;
    }

    /// Jumps to the bottom of the list.
    pub fn jump_bottom(&mut self, n: usize, cap: usize)
        ensures
            final(self)@ == spec_jump_bottom(old(self)@, n as nat, cap as nat),
    {
        if n == 0 {
            return ;
        }
        self.selected = n - 1;
        if n - 1 >= cap {
            self.offset = n - 1 - cap;
        } else {
            self.offset = 0;
        }
    }

    /// The reset applied after a successful page change: same as `jump_top`.
    pub fn reset(&mut self)
        ensures
            final(self)@ == (NavView { selected: 0, offset: 0 }),
    {
        self.jump_top();
    }

    /// Clamps the cursor into the list and the offset under the cursor.
    fn clamp(&mut self, n: usize)
        requires
            n > 0,
        ensures
            final(self)@ == spec_clamp(old(self)@, n as nat),
    {
        if self.selected > n - 1 {
            self.selected = n - 1;
        }
        if self.offset > self.selected {
            self.offset = self.selected;
        }
    }
}

/// The navigation invariant over a list of length `n`: on a non-empty list
/// the cursor addresses a record and the window starts at or above it.
pub open spec fn nav_in_range(s: NavView, n: nat) -> bool {
    n > 0 ==> s.selected < n && s.offset <= s.selected
}

/// Every move lands inside the list it was given, from any starting state:
/// the clamping keeps the cursor addressable even after the list shrank
/// under it (as a same-page refresh may make it).
pub proof fn lemma_moves_stay_in_range(s: NavView, n: nat, cap: nat)
    ensures
        nav_in_range(spec_clamp(s, n), n),
        nav_in_range(spec_move_down(s, n, cap), n),
        nav_in_range(spec_move_up(s, n), n),
        nav_in_range(spec_jump_bottom(s, n, cap), n),
        n > 0 ==> nav_in_range(s, n) == (s == spec_clamp(s, n)),
{
}

/// With an empty list every move is a no-op.
pub proof fn lemma_empty_list_moves_are_noops(s: NavView, cap: nat)
    ensures
        spec_move_down(s, 0, cap) == s,
        spec_move_up(s, 0) == s,
        spec_jump_bottom(s, 0, cap) == s,
{
}

/// `spec_move_down` iterated `k` times.
pub open spec fn spec_move_down_n(s: NavView, n: nat, cap: nat, k: nat) -> NavView
    decreases k,
{
    if k == 0 {
        s
    } else {
        spec_move_down(spec_move_down_n(s, n, cap, (k - 1) as nat), n, cap)
    }
}

/// From the top of a list longer than the viewport, moving down once per
/// visible row walks the cursor to `cap` and scrolls the window by exactly
/// one row.
pub proof fn lemma_move_down_fills_viewport(n: nat, cap: nat)
    requires
        cap >= 1,
        n > cap,
    ensures
        spec_move_down_n(NavView { selected: 0, offset: 0 }, n, cap, cap) == (NavView {
            selected: cap,
            offset: 1,
        }),
{
    lemma_move_down_prefix(n, cap, (cap - 1) as nat);
    let before = spec_move_down_n(NavView { selected: 0, offset: 0 }, n, cap, (cap - 1) as nat);
    assert(before == NavView { selected: (cap - 1) as nat, offset: 0 });
    assert(spec_move_down(before, n, cap) =~= (NavView { selected: cap, offset: 1 }));
}

/// While the cursor is still above the last visible row, each step moves the
/// cursor alone.
proof fn lemma_move_down_prefix(n: nat, cap: nat, k: nat)
    requires
        cap >= 1,
        n > cap,
        k <= cap - 1,
    ensures
        spec_move_down_n(NavView { selected: 0, offset: 0 }, n, cap, k) == (NavView {
            selected: k,
            offset: 0,
        }),
    decreases k,
{
    if k > 0 {
        lemma_move_down_prefix(n, cap, (k - 1) as nat);
        let before = spec_move_down_n(NavView { selected: 0, offset: 0 }, n, cap, (k - 1) as nat);
        assert(spec_move_down(before, n, cap) =~= (NavView { selected: k, offset: 0 }));
    }
}

} // verus!
