use vstd::arithmetic::div_mod::lemma_fundamental_div_mod_converse_mod;
use vstd::prelude::*;

verus! {

/// Where the selection lands after one wraparound step of `dir` over a list
/// of `list_len` candidates: from index `i` (or `0` when unset) to
/// `(i + dir) mod list_len`; an empty list leaves the selection alone.
pub open spec fn stepped_selection(sel: Option<usize>, list_len: usize, dir: int) -> Option<
    usize,
> {
    if list_len == 0 {
        sel
    } else {
        let base: int = match sel {
            None => 0,
            Some(i) => i as int,
        };
        Some((((base + dir) % (list_len as int)) as usize))
    }
}

/// Where the selection lands when a list of `list_len` candidates arrives for
/// a frame: `None` on an empty list, the first candidate when unset, clamped
/// to the last candidate when the list shrank past it, otherwise kept.
pub open spec fn synced_selection(sel: Option<usize>, list_len: usize) -> Option<usize> {
    if list_len == 0 {
        None
    } else {
        match sel {
            None => Some(0usize),
            Some(i) => if i < list_len {
                Some(i)
            } else {
                Some((list_len - 1) as usize)
            },
        }
    }
}

/// The long-lived state of one interactive session: the query text being
/// edited, the cursor within it, the prompt prefix, the length of the
/// candidate list given to the most recent frame, the highlighted selection
/// within that list, and the one-shot completion-preview latch.
pub struct Session {
    /// Whether the terminal is currently in interactive mode.
    pub running: bool,
    /// The text typed so far, one entry per character.
    pub query: Vec<char>,
    /// Static prefix shown before the query.
    pub prompt: Vec<char>,
    /// Character offset into `query` where the next edit applies.
    pub cursor_index: usize,
    /// Number of candidates supplied to the most recent frame.
    pub list_len: usize,
    /// Index of the highlighted candidate, `None` exactly when the list is empty.
    pub selection: Option<usize>,
    /// One-shot latch: the next frame previews the selected candidate.
    pub completion_active: bool,
}

impl Session {
    /// The two session invariants: the cursor stays inside the query, and the
    /// selection is `None` exactly when the candidate list is empty, otherwise
    /// a valid index into it.
    pub open spec fn wf(self) -> bool {
        &&& self.cursor_index <= self.query@.len()
        &&& match self.selection {
            None => self.list_len == 0,
            Some(i) => 0 < self.list_len && i < self.list_len,
        }
    }

    /// A fresh session: empty query, cursor at the start, no candidates, no
    /// selection, no pending preview, terminal mode marked active.
    pub fn new(prompt: Vec<char>) -> (s: Session)
        ensures
            s.wf(),
            s.running,
            s.query@ == Seq::<char>::empty(),
            s.prompt@ == prompt@,
            s.cursor_index == 0,
            s.list_len == 0,
            s.selection is None,
            !s.completion_active,
    {
        Session {
            running: true,
            query: Vec::new(),
            prompt,
            cursor_index: 0,
            list_len: 0,
            selection: None,
            completion_active: false,
        }
    }

    /// Runtime mirror of `wf`, so unverified callers can test the
    /// precondition of the state transitions before calling them.
    pub fn is_well_formed(&self) -> (b: bool)
        ensures
            b == self.wf(),
    {
        let cursor_ok = self.cursor_index <= self.query.len();
        let selection_ok = match self.selection {
            None => self.list_len == 0,
            Some(i) => 0 < self.list_len && i < self.list_len,
        };
        cursor_ok && selection_ok
    }

    /// Inserts `ch` at the cursor and advances the cursor past it.
    pub fn insert(&mut self, ch: char)
        requires
            old(self).wf(),
        ensures
            final(self).wf(),
            final(self).query@ == old(self).query@.insert(old(self).cursor_index as int, ch),
            final(self).cursor_index == old(self).cursor_index + 1,
            final(self).prompt@ == old(self).prompt@,
            final(self).list_len == old(self).list_len,
            final(self).selection == old(self).selection,
            final(self).completion_active == old(self).completion_active,
            final(self).running == old(self).running,
    {
        self.query.insert(self.cursor_index, ch);
        // The grown vector's length fits in usize, so the cursor can follow.
        assert(self.cursor_index < self.query.len());
        self.cursor_index = self.cursor_index + 1;
    }

    /// Removes the character immediately before the cursor and moves the
    /// cursor back over it; a no-op when the cursor is at the start.
    pub fn delete_before_cursor(&mut self)
        requires
            old(self).wf(),
        ensures
            final(self).wf(),
            old(self).cursor_index == 0 ==> {
                &&& final(self).query@ == old(self).query@
                &&& final(self).cursor_index == old(self).cursor_index
            },
            old(self).cursor_index > 0 ==> {
                &&& final(self).query@ == old(self).query@.remove(old(self).cursor_index - 1)
                &&& final(self).cursor_index == old(self).cursor_index - 1
            },
            final(self).prompt@ == old(self).prompt@,
            final(self).list_len == old(self).list_len,
            final(self).selection == old(self).selection,
            final(self).completion_active == old(self).completion_active,
            final(self).running == old(self).running,
    {
        if self.cursor_index > 0 {
            self.query.remove(self.cursor_index - 1);
            self.cursor_index = self.cursor_index - 1;
        }
    }

    /// Moves the cursor one character left, stopping at the start.
    pub fn move_left(&mut self)
        requires
            old(self).wf(),
        ensures
            final(self).wf(),
            final(self).cursor_index == if old(self).cursor_index > 0 {
                (old(self).cursor_index - 1) as usize
            } else {
                0usize
            },
            final(self).query@ == old(self).query@,
            final(self).prompt@ == old(self).prompt@,
            final(self).list_len == old(self).list_len,
            final(self).selection == old(self).selection,
            final(self).completion_active == old(self).completion_active,
            final(self).running == old(self).running,
    {
        if self.cursor_index > 0 {
            self.cursor_index = self.cursor_index - 1;
        }
    }

    /// Moves the cursor one character right, stopping at the end of the query.
    pub fn move_right(&mut self)
        requires
            old(self).wf(),
        ensures
            final(self).wf(),
            final(self).cursor_index == if old(self).cursor_index < old(self).query@.len() {
                (old(self).cursor_index + 1) as usize
            } else {
                old(self).cursor_index
            },
            final(self).query@ == old(self).query@,
            final(self).prompt@ == old(self).prompt@,
            final(self).list_len == old(self).list_len,
            final(self).selection == old(self).selection,
            final(self).completion_active == old(self).completion_active,
            final(self).running == old(self).running,
    {
        if self.cursor_index < self.query.len() {
            self.cursor_index = self.cursor_index + 1;
        }
    }

    /// Steps the selection by `dir` with wraparound: stepping backwards from
    /// the first candidate lands on the last, stepping forwards from the last
    /// lands on the first. A step on an empty list changes nothing.
    pub fn step_selection(&mut self, dir: i8)
        requires
            old(self).wf(),
            dir == -1i8 || dir == 1i8,
        ensures
            final(self).wf(),
            final(self).selection == stepped_selection(
                old(self).selection,
                old(self).list_len,
                dir as int,
            ),
            final(self).query@ == old(self).query@,
            final(self).prompt@ == old(self).prompt@,
            final(self).cursor_index == old(self).cursor_index,
            final(self).list_len == old(self).list_len,
            final(self).completion_active == old(self).completion_active,
            final(self).running == old(self).running,
    {
        if self.list_len > 0 {
            let base: usize = match self.selection {
                Some(i) => i,
                None => 0,
            };
            let len: usize = self.list_len;
            let next: usize = if dir == 1 {
                if base == len - 1 {
                    0
                } else {
                    base + 1
                }
            } else {
                if base == 0 {
                    len - 1
                } else {
                    base - 1
                }
            };
            proof {
                let l: int = len as int;
                let b: int = base as int;
                if dir == 1 {
                    if b == l - 1 {
                        lemma_fundamental_div_mod_converse_mod(b + 1, l, 1, 0);
                    } else {
                        lemma_fundamental_div_mod_converse_mod(b + 1, l, 0, b + 1);
                    }
                } else {
                    if b == 0 {
                        lemma_fundamental_div_mod_converse_mod(b - 1, l, -1, l - 1);
                    } else {
                        lemma_fundamental_div_mod_converse_mod(b - 1, l, 0, b - 1);
                    }
                }
            }
            self.selection = Some(next);
        }
    }

    /// Sets the selection to the first candidate when the list is non-empty
    /// and nothing is selected yet, and clears it when the list is empty;
    /// otherwise leaves it alone. Runs at the start of every frame.
    pub fn reset_if_unset(&mut self)
        ensures
            final(self).selection == (if old(self).list_len == 0 {
                None
            } else if old(self).selection is None {
                Some(0usize)
            } else {
                old(self).selection
            }),
            final(self).query@ == old(self).query@,
            final(self).prompt@ == old(self).prompt@,
            final(self).cursor_index == old(self).cursor_index,
            final(self).list_len == old(self).list_len,
            final(self).completion_active == old(self).completion_active,
            final(self).running == old(self).running,
    {
        if self.list_len > 0 {
            if self.selection.is_none() {
                self.selection = Some(0);
            }
        } else {
            self.selection = None;
        }
    }

    /// Records the size of the candidate list supplied for the coming frame
    /// and brings the selection back in range: cleared on an empty list,
    /// clamped to the last candidate when the list shrank past it, set to the
    /// first candidate when it was unset.
    pub fn set_list_len(&mut self, n: usize)
        requires
            old(self).wf(),
        ensures
            final(self).wf(),
            final(self).list_len == n,
            final(self).selection == synced_selection(old(self).selection, n),
            final(self).query@ == old(self).query@,
            final(self).prompt@ == old(self).prompt@,
            final(self).cursor_index == old(self).cursor_index,
            final(self).completion_active == old(self).completion_active,
            final(self).running == old(self).running,
    {
        self.list_len = n;
        match self.selection {
            Some(i) => if i >= n {
                if n == 0 {
                    self.selection = None;
                } else {
                    self.selection = Some(n - 1);
                }
            },
            None => {},
        }
        self.reset_if_unset();
    }

    /// Arms the one-shot completion preview, but only when there is a
    /// candidate to preview; with an empty list the latch is left alone.
    pub fn activate_preview(&mut self)
        ensures
            final(self).completion_active == (old(self).list_len > 0
                || old(self).completion_active),
            final(self).query@ == old(self).query@,
            final(self).prompt@ == old(self).prompt@,
            final(self).cursor_index == old(self).cursor_index,
            final(self).list_len == old(self).list_len,
            final(self).selection == old(self).selection,
            final(self).running == old(self).running,
    {
        if self.list_len > 0 {
            self.completion_active = true;
        }
    }

    /// Marks the terminal mode as left. The restoration I/O itself is the
    /// caller's; this records that it has happened, so a second shutdown can
    /// skip it.
    pub fn mark_stopped(&mut self)
        ensures
            !final(self).running,
            final(self).query@ == old(self).query@,
            final(self).prompt@ == old(self).prompt@,
            final(self).cursor_index == old(self).cursor_index,
            final(self).list_len == old(self).list_len,
            final(self).selection == old(self).selection,
            final(self).completion_active == old(self).completion_active,
    {
        self.running = false;
    }

    /// Whether the terminal is still in interactive mode.
    pub fn is_running(&self) -> (b: bool)
        ensures
            b == self.running,
    {
        self.running
    }

    /// The current query text.
    pub fn get_query(&self) -> (q: &Vec<char>)
        ensures
            q@ == self.query@,
    {
        &self.query
    }

    /// Replaces the prompt prefix.
    pub fn set_prompt(&mut self, prompt: Vec<char>)
        ensures
            final(self).prompt@ == prompt@,
            final(self).query@ == old(self).query@,
            final(self).cursor_index == old(self).cursor_index,
            final(self).list_len == old(self).list_len,
            final(self).selection == old(self).selection,
            final(self).completion_active == old(self).completion_active,
            final(self).running == old(self).running,
    {
        self.prompt = prompt;
    }
}

} // verus!
