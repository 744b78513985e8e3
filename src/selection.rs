use vstd::prelude::*;

verus! {

/// The cursor over one list: the index of the highlighted entry, or none.
#[derive(Clone, Copy, Debug, PartialEq, Eq, Structural)]
pub struct Selection {
    pub cursor: Option<usize>,
}

/// The cursor after moving down a list of `len` entries, wrapping from the
/// last entry to the first.
pub open spec fn next_cursor(cursor: Option<usize>, len: nat) -> Option<usize> {
    if len == 0 {
        cursor
    } else {
        match cursor {
            Some(c) => if c + 1 >= len { Some(0usize) } else { Some((c + 1) as usize) },
            None => Some(0usize),
        }
    }
}

/// The cursor after moving up a list of `len` entries, wrapping from the
/// first entry to the last.
pub open spec fn prev_cursor(cursor: Option<usize>, len: nat) -> Option<usize> {
    if len == 0 {
        cursor
    } else {
        match cursor {
            Some(c) => if c == 0 { Some((len - 1) as usize) } else { Some((c - 1) as usize) },
            None => Some(0usize),
        }
    }
}

/// The cursor once its list has been replaced by one of `len` entries: an
/// index that still fits is kept, one past the end moves to the new last
/// entry, and an empty list has nothing selected.
pub open spec fn repaired_cursor(cursor: Option<usize>, len: nat) -> Option<usize> {
    if len == 0 {
        None
    } else {
        match cursor {
            None => Some(0usize),
            Some(c) => if c >= len { Some((len - 1) as usize) } else { Some(c) },
        }
    }
}

impl Selection {
    /// A selection fits a list of `len` entries: nothing is selected exactly
    /// when the list is empty, and otherwise the cursor is in range.
    pub open spec fn fits(self, len: nat) -> bool {
        match self.cursor {
            None => len == 0,
            Some(c) => c < len,
        }
    }

    pub fn new() -> (r: Selection)
        ensures
            r.cursor is None,
            r.fits(0),
    {
        Selection { cursor: None }
    }

    pub fn selected(&self) -> (r: Option<usize>)
        ensures
            r == self.cursor,
    {
        self.cursor
    }

    /// Moves the cursor one entry down, wrapping to the top; an empty list
    /// leaves it as it is.
    pub fn next(&mut self, len: usize)
        ensures
            final(self).cursor == next_cursor(old(self).cursor, len as nat),
    {
        if len == 0 {
            return;
        }
        let i: usize = match self.cursor {
            Some(i) => if i >= len - 1 { 0 } else { i + 1 },
            None => 0,
        };
        self.cursor = Some(i);
    }

    /// Moves the cursor one entry up, wrapping to the bottom; an empty list
    /// leaves it as it is.
    pub fn prev(&mut self, len: usize)
        ensures
            final(self).cursor == prev_cursor(old(self).cursor, len as nat),
    {
        if len == 0 {
            return;
        }
        let i: usize = match self.cursor {
            Some(i) => if i == 0 { len - 1 } else { i - 1 },
            None => 0,
        };
        self.cursor = Some(i);
    }

    /// Brings the cursor back in range after its list was replaced by one of
    /// `len` entries.
    pub fn repair(&mut self, len: usize)
        ensures
            final(self).cursor == repaired_cursor(old(self).cursor, len as nat),
            final(self).fits(len as nat),
    {
        if len == 0 {
            self.cursor = None;
        } else {
            match self.cursor {
                Some(i) => {
                    if i >= len {
                        self.cursor = Some(len - 1);
                    }
                },
                None => {
                    self.cursor = Some(0);
                },
            }
        }
    }
}

/// After a repair the selection fits the new list: it is empty exactly when
/// the list is, and otherwise in range.
pub proof fn lemma_repair_fits(cursor: Option<usize>, len: nat)
    requires
        len <= usize::MAX,
    ensures
        (repaired_cursor(cursor, len) is None) <==> len == 0,
        repaired_cursor(cursor, len) matches Some(c) ==> c < len,
{
}

/// A cursor that still fits after the list shrank is left where it was.
pub proof fn lemma_repair_keeps_fitting_cursor(c: usize, len: nat)
    requires
        c < len,
    ensures
        repaired_cursor(Some(c), len) == Some(c),
{
}

/// A cursor past the end of a shorter, non-empty list moves to its last
/// entry, not to the first.
pub proof fn lemma_repair_clamps_to_last(c: usize, len: nat)
    requires
        0 < len <= c,
    ensures
        repaired_cursor(Some(c), len) == Some((len - 1) as usize),
{
}

/// On a list of one entry, moving either way always selects that entry.
pub proof fn lemma_single_entry_moves(s: Selection)
    requires
        s.fits(1),
    ensures
        next_cursor(s.cursor, 1) == Some(0usize),
        prev_cursor(s.cursor, 1) == Some(0usize),
        next_cursor(next_cursor(s.cursor, 1), 1) == next_cursor(s.cursor, 1),
        prev_cursor(prev_cursor(s.cursor, 1), 1) == prev_cursor(s.cursor, 1),
{
}

/// Moving down and then up, or up and then down, on an unchanged list comes
/// back to the entry that was selected.
pub proof fn lemma_next_prev_round_trip(c: usize, len: nat)
    requires
        c < len <= usize::MAX,
    ensures
        prev_cursor(next_cursor(Some(c), len), len) == Some(c),
        next_cursor(prev_cursor(Some(c), len), len) == Some(c),
{
}

} // verus!
