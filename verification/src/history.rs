//! The back/forward log of visited paths: an ordered sequence and a
//! cursor, with browser semantics.
use vstd::prelude::*;

verus! {

/// A linear navigation log. Visiting truncates the forward tail and
/// appends; going back or forward only moves the cursor.
pub struct HistoryStack {
    paths: Vec<String>,
    cursor: usize,
}

impl HistoryStack {
    /// The visited paths, oldest first.
    pub closed spec fn entries(&self) -> Seq<Seq<char>> {
        self.paths@.map_values(|p: String| p@)
    }

    /// The cursor: the index of the entry the browser stands on.
    pub closed spec fn cursor_at(&self) -> int {
        self.cursor as int
    }

    /// The log is never empty and the cursor stays inside it.
    pub open spec fn wf(&self) -> bool {
        0 <= self.cursor_at() < self.entries().len()
    }

    /// A fresh log holding only the start path.
    pub fn new(start: String) -> (h: HistoryStack)
        ensures
            h.wf(),
            h.entries() =~= seq![start@],
            h.cursor_at() == 0,
    {
        let mut paths: Vec<String> = Vec::new();
        paths.push(start);
        let h = HistoryStack { paths, cursor: 0 };
        proof {
            assert(h.entries() =~= seq![start@]);
        }
        h
    }

    /// Records a newly visited path: the entries after the cursor are
    /// discarded, the path appended, the cursor moved onto it.
    pub fn visit(&mut self, path: String)
        requires
            old(self).wf(),
        ensures
            final(self).wf(),
            final(self).entries() == old(self).entries().take(old(self).cursor_at() + 1).push(
                path@,
            ),
            final(self).cursor_at() == old(self).cursor_at() + 1,
    {
        proof {
            vstd::std_specs::vec::axiom_spec_len(&self.paths);
        }
        let keep: usize = self.cursor + 1;
        self.paths.truncate(keep);
        self.paths.push(path);
        self.cursor = keep;
        proof {
            assert(self.entries() =~= old(self).entries().take(old(self).cursor_at() + 1).push(
                path@,
            ));
        }
    }

    /// Steps back to the previous entry, returning it; at the oldest
    /// entry nothing happens.
    pub fn back(&mut self) -> (r: Option<String>)
        requires
            old(self).wf(),
        ensures
            final(self).wf(),
            final(self).entries() == old(self).entries(),
            old(self).cursor_at() == 0 ==> r is None && *final(self) == *old(self),
            old(self).cursor_at() > 0 ==> {
                &&& final(self).cursor_at() == old(self).cursor_at() - 1
                &&& r matches Some(p) && p@ == old(self).entries()[old(self).cursor_at() - 1]
            },
    {
        if self.cursor > 0 {
            self.cursor = self.cursor - 1;
            Some(self.paths[self.cursor].clone())
        } else {
            None
        }
    }

    /// Steps forward to the next entry, returning it; at the newest
    /// entry nothing happens.
    pub fn forward(&mut self) -> (r: Option<String>)
        requires
            old(self).wf(),
        ensures
            final(self).wf(),
            final(self).entries() == old(self).entries(),
            old(self).cursor_at() == old(self).entries().len() - 1 ==> r is None && *final(self)
                == *old(self),
            old(self).cursor_at() < old(self).entries().len() - 1 ==> {
                &&& final(self).cursor_at() == old(self).cursor_at() + 1
                &&& r matches Some(p) && p@ == old(self).entries()[old(self).cursor_at() + 1]
            },
    {
        let n: usize = self.paths.len();
        if self.cursor + 1 < n {
            self.cursor = self.cursor + 1;
            Some(self.paths[self.cursor].clone())
        } else {
            None
        }
    }

    /// Whether a step back is possible.
    pub fn can_go_back(&self) -> (r: bool)
        ensures
            r == (self.cursor_at() > 0),
    {
        self.cursor > 0
    }

    /// Whether a step forward is possible.
    pub fn can_go_forward(&self) -> (r: bool)
        requires
            self.wf(),
        ensures
            r == (self.cursor_at() < self.entries().len() - 1),
    {
        let n: usize = self.paths.len();
        self.cursor + 1 < n
    }

    /// The entry the cursor stands on.
    pub fn current(&self) -> (r: &String)
        requires
            self.wf(),
        ensures
            r@ == self.entries()[self.cursor_at()],
    {
        &self.paths[self.cursor]
    }
}

} // verus!
