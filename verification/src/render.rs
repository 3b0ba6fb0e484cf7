use crate::session::Session;
use crate::session::synced_selection;
use vstd::prelude::*;

verus! {

/// One launchable item as this front-end sees it: nothing but the text shown
/// for it, one entry per character. The external search component supplies a
/// fresh ordered list of these before every frame.
pub struct Candidate {
    /// The text shown for this candidate.
    pub display: Vec<char>,
}

impl Candidate {
    /// The display text of this candidate.
    pub fn get_string(&self) -> (s: &Vec<char>)
        ensures
            s@ == self.display@,
    {
        &self.display
    }
}

/// Everything one frame shows, computed from the session and the current
/// candidate list: the text of the input region, the cursor column within it,
/// whether that text is a completion preview, and which list line to
/// highlight. Drawing it on a terminal is the caller's.
pub struct Frame {
    /// Text of the input region.
    pub input_line: Vec<char>,
    /// Column of the text cursor within the input region.
    pub cursor_col: usize,
    /// Whether the input region shows a completion preview this frame.
    pub preview: bool,
    /// Index of the highlighted line of the list region, if any.
    pub highlighted: Option<usize>,
}

/// Appends every character of `src` to `dst`, in order.
fn push_chars(dst: &mut Vec<char>, src: &Vec<char>)
    ensures
        final(dst)@ == old(dst)@ + src@,
{
    let ghost dst0 = dst@;
    let mut i: usize = 0;
    while i < src.len()
        invariant
            i <= src@.len(),
            dst@ == dst0 + src@.subrange(0, i as int),
        decreases src@.len() - i,
    {
        dst.push(src[i]);
        proof {
            assert(src@.subrange(0, i + 1) == src@.subrange(0, i as int).push(src@[i as int]));
        }
        i = i + 1;
    }
    proof {
        assert(src@.subrange(0, src@.len() as int) == src@);
    }
}

impl Session {
    /// Computes one frame from the candidate list supplied for it. Records
    /// the list's length and brings the selection back in range; shows the
    /// selected candidate's full text with the cursor at the region's start
    /// when a completion preview is pending, and the prompt followed by the
    /// query with the cursor after its typed prefix otherwise; highlights the
    /// selected line; and clears the preview latch, so a preview shows for
    /// exactly the one frame after it was armed.
    pub fn render_frame(&mut self, candidates: &Vec<Candidate>) -> (f: Frame)
        requires
            old(self).wf(),
            old(self).prompt@.len() + old(self).query@.len() <= usize::MAX,
        ensures
            final(self).wf(),
            final(self).list_len == candidates@.len(),
            final(self).selection == synced_selection(old(self).selection, candidates@.len() as usize),
            !final(self).completion_active,
            final(self).query@ == old(self).query@,
            final(self).prompt@ == old(self).prompt@,
            final(self).cursor_index == old(self).cursor_index,
            final(self).running == old(self).running,
            f.highlighted == final(self).selection,
            f.preview == (old(self).completion_active && final(self).selection is Some),
            f.preview ==> (final(self).selection matches Some(i) && f.input_line@ == candidates@[
                i as int
            ].display@ && f.cursor_col == 0),
            !f.preview ==> f.input_line@ == old(self).prompt@ + old(self).query@ && f.cursor_col
                == old(self).prompt@.len() + old(self).cursor_index,
    {
        self.set_list_len(candidates.len());
        let preview = self.completion_active && self.selection.is_some();
        let mut input_line: Vec<char> = Vec::new();
        let cursor_col: usize;
        if preview {
            let sel: usize = match self.selection {
                Some(i) => i,
                None => 0,
            };
            push_chars(&mut input_line, &candidates[sel].display);
            cursor_col = 0;
        } else {
            push_chars(&mut input_line, &self.prompt);
            push_chars(&mut input_line, &self.query);
            cursor_col = self.prompt.len() + self.cursor_index;
        }
        self.completion_active = false;
        Frame { input_line, cursor_col, preview, highlighted: self.selection }
    }
}

} // verus!
