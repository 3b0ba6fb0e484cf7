use crate::session::Session;
use crate::session::stepped_selection;
use vstd::prelude::*;

verus! {

/// One captured key event, reduced to the cases the dispatcher distinguishes.
/// Key releases and non-key terminal events never reach the dispatcher; the
/// caller discards them while waiting.
#[derive(Clone, Copy, Debug, PartialEq, Eq, Structural)]
pub enum KeyInput {
    /// A character key; `ctrl` records whether the control modifier was held.
    Char { ch: char, ctrl: bool },
    Backspace,
    Delete,
    Up,
    Down,
    Left,
    Right,
    Enter,
    Tab,
    /// Any key the dispatcher does not recognize.
    Other,
}

/// The dispatcher's verdict on one key event.
#[derive(Clone, Copy, Debug, PartialEq, Eq, Structural)]
pub enum Outcome {
    /// A transition was applied: refresh the candidate list and redraw.
    Continue,
    /// The event produced no transition: keep waiting for the next one.
    Wait,
    /// Cancelled: leave the loop with no confirmed candidate.
    Cancel,
    /// Confirmed: leave the loop with this candidate index.
    Confirm(usize),
}

impl Session {
    /// Whether two sessions hold the same state, field for field.
    pub open spec fn same_state(a: Session, b: Session) -> bool {
        &&& a.running == b.running
        &&& a.query@ == b.query@
        &&& a.prompt@ == b.prompt@
        &&& a.cursor_index == b.cursor_index
        &&& a.list_len == b.list_len
        &&& a.selection == b.selection
        &&& a.completion_active == b.completion_active
    }

    /// Applies exactly one state transition for one captured key event and
    /// says whether the event loop goes on, keeps waiting, or ends — with a
    /// confirmed candidate on Enter over a non-empty list, without one on the
    /// cancel combination (control + `c`), which exits from every state.
    /// Backspace and Delete both delete the character before the cursor.
    pub fn handle_key(&mut self, key: KeyInput) -> (out: Outcome)
        requires
            old(self).wf(),
        ensures
            final(self).wf(),
            final(self).running == old(self).running,
            final(self).prompt@ == old(self).prompt@,
            final(self).list_len == old(self).list_len,
            match key {
                KeyInput::Char { ch, ctrl } => if ctrl && ch == 'c' {
                    &&& out == Outcome::Cancel
                    &&& Self::same_state(*final(self), *old(self))
                } else {
                    &&& out == Outcome::Continue
                    &&& final(self).query@ == old(self).query@.insert(
                        old(self).cursor_index as int,
                        ch,
                    )
                    &&& final(self).cursor_index == old(self).cursor_index + 1
                    &&& final(self).selection == old(self).selection
                    &&& final(self).completion_active == old(self).completion_active
                },
                KeyInput::Backspace | KeyInput::Delete => {
                    &&& out == Outcome::Continue
                    &&& (old(self).cursor_index == 0 ==> final(self).query@ == old(self).query@
                        && final(self).cursor_index == 0)
                    &&& (old(self).cursor_index > 0 ==> final(self).query@ == old(
                        self,
                    ).query@.remove(old(self).cursor_index - 1) && final(self).cursor_index == old(
                        self,
                    ).cursor_index - 1)
                    &&& final(self).selection == old(self).selection
                    &&& final(self).completion_active == old(self).completion_active
                },
                KeyInput::Up => {
                    &&& out == Outcome::Continue
                    &&& final(self).selection == stepped_selection(
                        old(self).selection,
                        old(self).list_len,
                        -1,
                    )
                    &&& final(self).query@ == old(self).query@
                    &&& final(self).cursor_index == old(self).cursor_index
                    &&& final(self).completion_active == old(self).completion_active
                },
                KeyInput::Down => {
                    &&& out == Outcome::Continue
                    &&& final(self).selection == stepped_selection(
                        old(self).selection,
                        old(self).list_len,
                        1,
                    )
                    &&& final(self).query@ == old(self).query@
                    &&& final(self).cursor_index == old(self).cursor_index
                    &&& final(self).completion_active == old(self).completion_active
                },
                KeyInput::Left => {
                    &&& out == Outcome::Continue
                    &&& final(self).cursor_index == (if old(self).cursor_index > 0 {
                        (old(self).cursor_index - 1) as usize
                    } else {
                        0usize
                    })
                    &&& final(self).query@ == old(self).query@
                    &&& final(self).selection == old(self).selection
                    &&& final(self).completion_active == old(self).completion_active
                },
                KeyInput::Right => {
                    &&& out == Outcome::Continue
                    &&& final(self).cursor_index == (if old(self).cursor_index < old(
                        self,
                    ).query@.len() {
                        (old(self).cursor_index + 1) as usize
                    } else {
                        old(self).cursor_index
                    })
                    &&& final(self).query@ == old(self).query@
                    &&& final(self).selection == old(self).selection
                    &&& final(self).completion_active == old(self).completion_active
                },
                KeyInput::Enter => {
                    &&& Self::same_state(*final(self), *old(self))
                    &&& (match old(self).selection {
                        Some(i) => out == Outcome::Confirm(i),
                        None => out == Outcome::Continue,
                    })
                },
                KeyInput::Tab => {
                    &&& out == Outcome::Continue
                    &&& final(self).completion_active == (old(self).list_len > 0 || old(
                        self,
                    ).completion_active)
                    &&& final(self).selection == stepped_selection(
                        old(self).selection,
                        old(self).list_len,
                        1,
                    )
                    &&& final(self).query@ == old(self).query@
                    &&& final(self).cursor_index == old(self).cursor_index
                },
                KeyInput::Other => {
                    &&& out == Outcome::Wait
                    &&& Self::same_state(*final(self), *old(self))
                },
            },
    {
        match key {
            KeyInput::Char { ch, ctrl } => {
                if ctrl && ch == 'c' {
                    Outcome::Cancel
                } else {
                    self.insert(ch);
                    Outcome::Continue
                }
            },
            KeyInput::Backspace | KeyInput::Delete => {
                self.delete_before_cursor();
                Outcome::Continue
            },
            KeyInput::Up => {
                self.step_selection(-1);
                Outcome::Continue
            },
            KeyInput::Down => {
                self.step_selection(1);
                Outcome::Continue
            },
            KeyInput::Left => {
                self.move_left();
                Outcome::Continue
            },
            KeyInput::Right => {
                self.move_right();
                Outcome::Continue
            },
            KeyInput::Enter => match self.selection {
                Some(i) => Outcome::Confirm(i),
                None => Outcome::Continue,
            },
            KeyInput::Tab => {
                self.activate_preview();
                self.step_selection(1);
                Outcome::Continue
            },
            KeyInput::Other => Outcome::Wait,
        }
    }
}

} // verus!
