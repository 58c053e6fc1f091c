use vstd::prelude::*;

verus! {

/// The row that a wanted position lands on in a view of `len` rows: none in
/// an empty view, else the position pulled into `[0, len)`.
pub open spec fn clamp_index(i: int, len: nat) -> Option<nat> {
    if len == 0 {
        None
    } else if i < 0 {
        Some(0)
    } else if i >= len {
        Some((len - 1) as nat)
    } else {
        Some(i as nat)
    }
}

pub open spec fn as_int(sel: Option<usize>) -> Option<nat> {
    match sel {
        Some(i) => Some(i as nat),
        None => None,
    }
}

pub open spec fn next_spec(sel: Option<usize>, len: nat) -> Option<nat> {
    match sel {
        None => clamp_index(0, len),
        Some(i) => clamp_index(i + 1, len),
    }
}

pub open spec fn previous_spec(sel: Option<usize>, len: nat) -> Option<nat> {
    match sel {
        None => clamp_index(len - 1, len),
        Some(i) => clamp_index(if i == 0 { 0 } else { i - 1 }, len),
    }
}

pub open spec fn scroll_down_spec(sel: Option<usize>, n: nat, len: nat) -> Option<nat> {
    match sel {
        None => clamp_index(n as int, len),
        Some(i) => clamp_index(i + n, len),
    }
}

pub open spec fn scroll_up_spec(sel: Option<usize>, n: nat, len: nat) -> Option<nat> {
    match sel {
        None => clamp_index(0, len),
        Some(i) => clamp_index(if i <= n { 0 } else { i - n }, len),
    }
}

/// Keeps a selection inside a view that now has `len` rows.
pub open spec fn clamp_spec(sel: Option<usize>, len: nat) -> Option<nat> {
    match sel {
        None => None,
        Some(i) => clamp_index(i as int, len),
    }
}

/// Single selection over a list whose length changes, with the scrollbar
/// position that follows it.
pub struct Selection {
    pub selected: Option<usize>,
    pub scroll_pos: usize,
}

impl Selection {
    pub open spec fn within(self, len: nat) -> bool {
        match self.selected {
            Some(i) => i < len,
            None => true,
        }
    }

    /// The state after moving to `target`: the scrollbar follows a new row.
    pub open spec fn moved_to(self, target: Option<nat>) -> Selection {
        match target {
            Some(i) => Selection { selected: Some(i as usize), scroll_pos: i as usize },
            None => Selection { selected: None, scroll_pos: self.scroll_pos },
        }
    }

    pub fn new() -> (r: Selection)
        ensures
            r.selected is None,
            r.scroll_pos == 0,
    {
        Selection { selected: None, scroll_pos: 0 }
    }

    fn go(&mut self, target: Option<usize>)
        ensures
            *final(self) == old(self).moved_to(as_int(target)),
    {
        self.selected = target;
        if let Some(i) = target {
            self.scroll_pos = i;
        }
    }

    pub fn select_next(&mut self, len: usize)
        ensures
            *final(self) == old(self).moved_to(next_spec(old(self).selected, len as nat)),
    {
        let target = if len == 0 {
            None
        } else {
            match self.selected {
                None => Some(0),
                Some(i) => if i >= len - 1 { Some(len - 1) } else { Some(i + 1) },
            }
        };
        self.go(target);
    }

    pub fn select_previous(&mut self, len: usize)
        ensures
            *final(self) == old(self).moved_to(previous_spec(old(self).selected, len as nat)),
    {
        let target = if len == 0 {
            None
        } else {
            match self.selected {
                None => Some(len - 1),
                Some(i) => if i == 0 {
                    Some(0)
                } else if i - 1 >= len {
                    Some(len - 1)
                } else {
                    Some(i - 1)
                },
            }
        };
        self.go(target);
    }

    pub fn select_first(&mut self, len: usize)
        ensures
            *final(self) == old(self).moved_to(clamp_index(0, len as nat)),
    {
        let target = if len == 0 { None } else { Some(0) };
        self.go(target);
    }

    pub fn select_last(&mut self, len: usize)
        ensures
            *final(self) == old(self).moved_to(clamp_index(len - 1, len as nat)),
    {
        let target = if len == 0 { None } else { Some(len - 1) };
        self.go(target);
    }

    pub fn scroll_down(&mut self, n: usize, len: usize)
        ensures
            *final(self) == old(self).moved_to(
                scroll_down_spec(old(self).selected, n as nat, len as nat),
            ),
    {
        let base: usize = match self.selected {
            Some(i) => i,
            None => 0,
        };
        let target = if len == 0 {
            None
        } else if base >= len - 1 || n >= len - 1 - base {
            Some(len - 1)
        } else {
            Some(base + n)
        };
        self.go(target);
    }

    pub fn scroll_up(&mut self, n: usize, len: usize)
        ensures
            *final(self) == old(self).moved_to(
                scroll_up_spec(old(self).selected, n as nat, len as nat),
            ),
    {
        let target = if len == 0 {
            None
        } else {
            match self.selected {
                None => Some(0),
                Some(i) => if i <= n {
                    Some(0)
                } else if i - n >= len {
                    Some(len - 1)
                } else {
                    Some(i - n)
                },
            }
        };
        self.go(target);
    }

    pub fn select_none(&mut self)
        ensures
            final(self).selected is None,
            final(self).scroll_pos == old(self).scroll_pos,
    {
        self.selected = None;
    }

    /// Pulls the selection back inside a view that now has `len` rows.
    pub fn clamp(&mut self, len: usize)
        ensures
            *final(self) == old(self).moved_to(clamp_spec(old(self).selected, len as nat)),
            final(self).within(len as nat),
    {
        let target = match self.selected {
            None => None,
            Some(i) => if len == 0 {
                None
            } else if i >= len {
                Some(len - 1)
            } else {
                Some(i)
            },
        };
        self.go(target);
    }

    /// Selects the first row when nothing is selected and the view has rows.
    pub fn select_first_if_needed(&mut self, len: usize)
        ensures
            old(self).selected is None ==> *final(self) == old(self).moved_to(
                clamp_index(0, len as nat),
            ),
            old(self).selected is Some ==> *final(self) == *old(self),
    {
        if self.selected.is_none() {
            self.select_first(len);
        }
    }
}

/// However a view shrinks or grows to `len` rows, the clamped selection is
/// either empty or a row of the view.
pub proof fn lemma_clamp_within(sel: Option<usize>, scroll_pos: usize, len: nat)
    ensures
        (Selection { selected: sel, scroll_pos }).moved_to(clamp_spec(sel, len)).within(len),
{
}

} // verus!
