//! The navigation controller: the current location, the history, the
//! generation-stamped asynchronous loads, and the address-field
//! protocol, driven by a closed set of intents.
use vstd::prelude::*;

use crate::address::{AddressField, AddressMode};
use crate::entry::FileData;
use crate::history::HistoryStack;
use crate::listing::LoadError;
use crate::paths::{parent_of_path, parent_or_fallback};
use crate::utils::str_eq;

verus! {

/// What the filesystem says about a committed address draft.
#[derive(Clone, Copy, PartialEq, Eq, Structural, Debug)]
pub enum PathStatus {
    Missing,
    FoundFile,
    FoundDirectory,
}

/// A request to enumerate a directory, stamped with the generation
/// that was current when it was issued.
pub struct LoadRequest {
    pub path: String,
    pub generation: u64,
}

/// What the surrounding layer must do after an intent: start a load,
/// scroll the listing to its top, focus or unfocus the address editor.
pub struct Effects {
    pub load: Option<LoadRequest>,
    pub scroll_to_top: bool,
    pub focus_address: bool,
    pub unfocus_address: bool,
}

/// No outward effect at all.
pub open spec fn quiet(e: Effects) -> bool {
    e.load is None && !e.scroll_to_top && !e.focus_address && !e.unfocus_address
}

/// The effect asks for exactly one load, of `path`, stamped
/// `generation`.
pub open spec fn load_requested(e: Effects, path: Seq<char>, generation: int) -> bool {
    e.load matches Some(l) && l.path@ == path && l.generation as int == generation
}

impl Effects {
    /// The empty effect.
    pub fn none() -> (e: Effects)
        ensures
            quiet(e),
    {
        Effects { load: None, scroll_to_top: false, focus_address: false, unfocus_address: false }
    }
}

/// The intents the view layer can emit; it emits values, never
/// behaviour.
pub enum Intent {
    Open(FileData),
    Select(FileData),
    HistoryBack,
    HistoryForward,
    LoadCompleted(Result<Vec<FileData>, LoadError>, u64),
    AddressActivate,
    AddressType(String),
    AddressCommit(PathStatus),
    AddressCancel,
}

/// The navigation state as the contracts speak of it.
pub ghost struct NavSnapshot {
    pub current_path: Seq<char>,
    pub entries: Seq<Seq<char>>,
    pub cursor: int,
    pub generation: int,
    pub tree: Option<Seq<FileData>>,
    pub load_error: bool,
}

/// The navigation invariant: the cursor stays inside the history and
/// stands on the current path.
pub open spec fn snap_wf(s: NavSnapshot) -> bool {
    &&& 0 <= s.cursor < s.entries.len()
    &&& s.entries[s.cursor] == s.current_path
}

/// A completed navigation to `target`: the forward tail of the
/// history is discarded, the target appended and made current, and
/// the load generation moves on. The visible tree stays until the new
/// load lands.
pub open spec fn snap_open(s: NavSnapshot, target: Seq<char>) -> NavSnapshot {
    NavSnapshot {
        current_path: target,
        entries: s.entries.take(s.cursor + 1).push(target),
        cursor: s.cursor + 1,
        generation: s.generation + 1,
        tree: s.tree,
        load_error: s.load_error,
    }
}

/// A step back in the history: only the cursor moves; at the oldest
/// entry nothing changes.
pub open spec fn snap_back(s: NavSnapshot) -> NavSnapshot {
    if s.cursor > 0 {
        NavSnapshot {
            current_path: s.entries[s.cursor - 1],
            entries: s.entries,
            cursor: s.cursor - 1,
            generation: s.generation + 1,
            tree: s.tree,
            load_error: s.load_error,
        }
    } else {
        s
    }
}

/// A step forward in the history; at the newest entry nothing
/// changes.
pub open spec fn snap_forward(s: NavSnapshot) -> NavSnapshot {
    if s.cursor < s.entries.len() - 1 {
        NavSnapshot {
            current_path: s.entries[s.cursor + 1],
            entries: s.entries,
            cursor: s.cursor + 1,
            generation: s.generation + 1,
            tree: s.tree,
            load_error: s.load_error,
        }
    } else {
        s
    }
}

/// The tree a load result leaves behind: the entries on success, an
/// empty listing beside the error flag on failure.
pub open spec fn applied_tree(result: Result<Seq<FileData>, LoadError>) -> Option<
    Seq<FileData>,
> {
    match result {
        Ok(entries) => Some(entries),
        Err(_) => Some(Seq::empty()),
    }
}

/// A load result arriving: it lands only if its stamp equals the
/// current generation; a stale result changes nothing.
pub open spec fn snap_apply(
    s: NavSnapshot,
    result: Result<Seq<FileData>, LoadError>,
    generation: int,
) -> NavSnapshot {
    if generation == s.generation {
        NavSnapshot {
            current_path: s.current_path,
            entries: s.entries,
            cursor: s.cursor,
            generation: s.generation,
            tree: applied_tree(result),
            load_error: result is Err,
        }
    } else {
        s
    }
}

/// The view of a load result.
pub open spec fn result_view(result: Result<Vec<FileData>, LoadError>) -> Result<
    Seq<FileData>,
    LoadError,
> {
    match result {
        Ok(entries) => Ok(entries@),
        Err(e) => Err(e),
    }
}

/// Whether opening `entry` navigates at all: only directories, and
/// not the one already current.
pub open spec fn opens_navigation(current: Seq<char>, entry: FileData) -> bool {
    entry.is_dir && entry.path@ != current
}

/// Where opening `entry` leads: the parent of the current path for
/// the synthetic `..` row (the fallback root at a root), else the
/// entry's own path.
pub open spec fn open_target(current: Seq<char>, fallback: Seq<char>, entry: FileData) -> Seq<
    char,
> {
    if entry.name@ == seq!['.', '.'] {
        match parent_of_path(current) {
            Some(p) => p,
            None => fallback,
        }
    } else {
        entry.path@
    }
}

/// Whether a history step in the given direction moves the cursor.
pub open spec fn history_moves(e: Explorer, forward: bool) -> bool {
    if forward {
        e.snapshot().cursor < e.snapshot().entries.len() - 1
    } else {
        e.snapshot().cursor > 0
    }
}

/// Whether committing the draft under this answer completes a
/// navigation: a non-empty draft, found to be a directory, other
/// than the current path.
pub open spec fn commit_navigates(e: Explorer, status: PathStatus) -> bool {
    &&& e.address.draft@.len() > 0
    &&& status == PathStatus::FoundDirectory
    &&& e.address.draft@ != e.current_path@
}

/// Whether handling the intent in this state completes a navigation
/// and so advances the load generation.
pub open spec fn intent_navigates(e: Explorer, intent: Intent) -> bool {
    match intent {
        Intent::Open(entry) => opens_navigation(e.current_path@, entry),
        Intent::HistoryBack => history_moves(e, false),
        Intent::HistoryForward => history_moves(e, true),
        Intent::AddressCommit(status) => commit_navigates(e, status),
        _ => false,
    }
}

/// The controller. It owns the navigation state and the address
/// field; nothing else mutates them.
pub struct Explorer {
    pub current_path: String,
    pub tree: Option<Vec<FileData>>,
    pub load_error: bool,
    pub highlighted_file: Option<String>,
    pub history: HistoryStack,
    pub address: AddressField,
    pub load_generation: u64,
    pub fallback_root: String,
}

impl Explorer {
    /// The navigation state the contracts speak of.
    pub open spec fn snapshot(&self) -> NavSnapshot {
        NavSnapshot {
            current_path: self.current_path@,
            entries: self.history.entries(),
            cursor: self.history.cursor_at(),
            generation: self.load_generation as int,
            tree: match self.tree {
                Some(entries) => Some(entries@),
                None => None,
            },
            load_error: self.load_error,
        }
    }

    /// The controller's invariant.
    pub open spec fn wf(&self) -> bool {
        self.history.wf() && snap_wf(self.snapshot())
    }
}

/// What `open` leaves behind: a non-directory or the current path is
/// a no-op with no effect; otherwise the navigation completes and one
/// stamped load and a scroll-to-top are requested.
pub open spec fn open_post(pre: Explorer, post: Explorer, entry: FileData, eff: Effects) -> bool {
    if opens_navigation(pre.current_path@, entry) {
        let target = open_target(pre.current_path@, pre.fallback_root@, entry);
        &&& post.snapshot() == snap_open(pre.snapshot(), target)
        &&& post.highlighted_file == pre.highlighted_file
        &&& post.address == pre.address
        &&& post.fallback_root == pre.fallback_root
        &&& load_requested(eff, target, pre.snapshot().generation + 1)
        &&& eff.scroll_to_top
        &&& !eff.focus_address && !eff.unfocus_address
    } else {
        post == pre && quiet(eff)
    }
}

/// What `navigate_history` leaves behind: at a boundary nothing
/// changes and nothing is requested; otherwise only the cursor moves,
/// and one stamped load and a scroll-to-top are requested.
pub open spec fn navigate_post(pre: Explorer, post: Explorer, forward: bool, eff: Effects) -> bool {
    if history_moves(pre, forward) {
        let s = if forward {
            snap_forward(pre.snapshot())
        } else {
            snap_back(pre.snapshot())
        };
        &&& post.snapshot() == s
        &&& post.highlighted_file == pre.highlighted_file
        &&& post.address == pre.address
        &&& post.fallback_root == pre.fallback_root
        &&& load_requested(eff, s.current_path, pre.snapshot().generation + 1)
        &&& eff.scroll_to_top
        &&& !eff.focus_address && !eff.unfocus_address
    } else {
        post == pre && quiet(eff)
    }
}

/// What `apply_load_result` leaves behind: the stale-response guard
/// over the snapshot, everything else untouched, no effect.
pub open spec fn apply_post(
    pre: Explorer,
    post: Explorer,
    result: Result<Vec<FileData>, LoadError>,
    generation: u64,
    eff: Effects,
) -> bool {
    &&& post.snapshot() == snap_apply(pre.snapshot(), result_view(result), generation as int)
    &&& post.highlighted_file == pre.highlighted_file
    &&& post.address == pre.address
    &&& post.fallback_root == pre.fallback_root
    &&& quiet(eff)
}

/// What `select` leaves behind: the entry's name highlighted, the
/// address field back to display, nothing else touched, no effect.
pub open spec fn select_post(pre: Explorer, post: Explorer, entry: FileData, eff: Effects) -> bool {
    &&& post.highlighted_file matches Some(h) && h@ == entry.name@
    &&& post.address.mode == AddressMode::Display
    &&& post.address.draft@ == Seq::<char>::empty()
    &&& post.snapshot() == pre.snapshot()
    &&& post.fallback_root == pre.fallback_root
    &&& quiet(eff)
}

/// What `activate_address` leaves behind: editing, the draft seeded
/// with the current path, focus requested.
pub open spec fn activate_post(pre: Explorer, post: Explorer, eff: Effects) -> bool {
    &&& post.address.mode == AddressMode::Editing
    &&& post.address.draft@ == pre.current_path@
    &&& post.snapshot() == pre.snapshot()
    &&& post.highlighted_file == pre.highlighted_file
    &&& post.fallback_root == pre.fallback_root
    &&& eff.load is None && !eff.scroll_to_top && !eff.unfocus_address
    &&& eff.focus_address
}

/// What `type_address` leaves behind: only the draft replaced.
pub open spec fn type_post(pre: Explorer, post: Explorer, text: Seq<char>, eff: Effects) -> bool {
    &&& post.address.mode == pre.address.mode
    &&& post.address.draft@ == text
    &&& post.snapshot() == pre.snapshot()
    &&& post.highlighted_file == pre.highlighted_file
    &&& post.fallback_root == pre.fallback_root
    &&& quiet(eff)
}

/// What `commit_address` leaves behind. The field always returns to
/// display with the draft discarded. An empty draft, a missing path,
/// a file, or the current path itself navigates nowhere and issues no
/// load; a found directory navigates exactly as `open` does.
pub open spec fn commit_post(
    pre: Explorer,
    post: Explorer,
    status: PathStatus,
    eff: Effects,
) -> bool {
    let draft = pre.address.draft@;
    &&& post.address.mode == AddressMode::Display
    &&& post.address.draft@ == Seq::<char>::empty()
    &&& post.highlighted_file == pre.highlighted_file
    &&& post.fallback_root == pre.fallback_root
    &&& if commit_navigates(pre, status) {
        &&& post.snapshot() == snap_open(pre.snapshot(), draft)
        &&& load_requested(eff, draft, pre.snapshot().generation + 1)
        &&& eff.scroll_to_top
        &&& eff.unfocus_address && !eff.focus_address
    } else {
        &&& post.snapshot() == pre.snapshot()
        &&& eff.load is None && !eff.scroll_to_top && !eff.focus_address
        &&& eff.unfocus_address
    }
}

/// What `cancel_address` leaves behind: display mode, the draft
/// discarded, nothing else touched.
pub open spec fn cancel_post(pre: Explorer, post: Explorer, eff: Effects) -> bool {
    &&& post.address.mode == AddressMode::Display
    &&& post.address.draft@ == Seq::<char>::empty()
    &&& post.snapshot() == pre.snapshot()
    &&& post.highlighted_file == pre.highlighted_file
    &&& post.fallback_root == pre.fallback_root
    &&& quiet(eff)
}

impl Explorer {
    /// A fresh controller standing on `start_path`, with the initial
    /// load of it requested under generation zero.
    pub fn new(start_path: String, fallback_root: String) -> (r: (Explorer, Effects))
        ensures
            r.0.wf(),
            r.0.current_path@ == start_path@,
            r.0.snapshot().entries =~= seq![start_path@],
            r.0.snapshot().cursor == 0,
            r.0.snapshot().generation == 0,
            r.0.snapshot().tree is None,
            !r.0.load_error,
            r.0.highlighted_file is None,
            r.0.address.mode == AddressMode::Display,
            r.0.address.draft@ == Seq::<char>::empty(),
            r.0.fallback_root == fallback_root,
            load_requested(r.1, start_path@, 0),
            !r.1.scroll_to_top && !r.1.focus_address && !r.1.unfocus_address,
    {
        let request_path = start_path.clone();
        let history = HistoryStack::new(start_path.clone());
        let explorer = Explorer {
            current_path: start_path,
            tree: None,
            load_error: false,
            highlighted_file: None,
            history,
            address: AddressField::new(),
            load_generation: 0,
            fallback_root,
        };
        let effects = Effects {
            load: Some(LoadRequest { path: request_path, generation: 0 }),
            scroll_to_top: false,
            focus_address: false,
            unfocus_address: false,
        };
        (explorer, effects)
    }

    /// Opens a directory entry; see `open_post`.
    pub fn open(&mut self, entry: &FileData) -> (eff: Effects)
        requires
            old(self).wf(),
            opens_navigation(old(self).current_path@, *entry) ==> old(self).load_generation
                < u64::MAX,
        ensures
            final(self).wf(),
            open_post(*old(self), *final(self), *entry, eff),
    {
        if !entry.is_dir {
            return Effects::none();
        }
        if self.current_path == entry.path {
            return Effects::none();
        }
        let target: String = if str_eq(entry.name.as_str(), "..") {
            proof {
                reveal_strlit("..");
                assert(".."@ =~= seq!['.', '.']);
            }
            parent_or_fallback(self.current_path.as_str(), self.fallback_root.as_str())
        } else {
            proof {
                reveal_strlit("..");
                assert(".."@ =~= seq!['.', '.']);
            }
            entry.path.clone()
        };
        self.current_path = target.clone();
        self.history.visit(target.clone());
        self.load_generation = self.load_generation + 1;
        Effects {
            load: Some(LoadRequest { path: target, generation: self.load_generation }),
            scroll_to_top: true,
            focus_address: false,
            unfocus_address: false,
        }
    }

    /// Steps through the history; see `navigate_post`.
    pub fn navigate_history(&mut self, forward: bool) -> (eff: Effects)
        requires
            old(self).wf(),
            history_moves(*old(self), forward) ==> old(self).load_generation < u64::MAX,
        ensures
            final(self).wf(),
            navigate_post(*old(self), *final(self), forward, eff),
    {
        let moved: Option<String> = if forward {
            self.history.forward()
        } else {
            self.history.back()
        };
        match moved {
            None => Effects::none(),
            Some(path) => {
                self.current_path = path.clone();
                self.load_generation = self.load_generation + 1;
                Effects {
                    load: Some(LoadRequest { path, generation: self.load_generation }),
                    scroll_to_top: true,
                    focus_address: false,
                    unfocus_address: false,
                }
            },
        }
    }

    /// Takes a load result in, unless its generation stamp shows it
    /// stale; see `apply_post`.
    pub fn apply_load_result(
        &mut self,
        result: Result<Vec<FileData>, LoadError>,
        generation: u64,
    ) -> (eff: Effects)
        requires
            old(self).wf(),
        ensures
            final(self).wf(),
            apply_post(*old(self), *final(self), result, generation, eff),
    {
        if generation == self.load_generation {
            match result {
                Ok(entries) => {
                    self.tree = Some(entries);
                    self.load_error = false;
                },
                Err(_) => {
                    self.tree = Some(Vec::new());
                    self.load_error = true;
                },
            }
        }
        Effects::none()
    }

    /// Highlights an entry; see `select_post`.
    pub fn select(&mut self, entry: &FileData) -> (eff: Effects)
        requires
            old(self).wf(),
        ensures
            final(self).wf(),
            select_post(*old(self), *final(self), *entry, eff),
    {
        self.highlighted_file = Some(entry.name.clone());
        self.address.cancel();
        Effects::none()
    }

    /// Starts editing the address; see `activate_post`.
    pub fn activate_address(&mut self) -> (eff: Effects)
        requires
            old(self).wf(),
        ensures
            final(self).wf(),
            activate_post(*old(self), *final(self), eff),
    {
        self.address.activate(self.current_path.as_str());
        Effects { load: None, scroll_to_top: false, focus_address: true, unfocus_address: false }
    }

    /// Replaces the address draft; see `type_post`.
    pub fn type_address(&mut self, text: String) -> (eff: Effects)
        requires
            old(self).wf(),
        ensures
            final(self).wf(),
            type_post(*old(self), *final(self), text@, eff),
    {
        self.address.set_draft(text);
        Effects::none()
    }

    /// Commits the address draft, `status` being the filesystem's
    /// answer about the drafted path; see `commit_post`.
    pub fn commit_address(&mut self, status: PathStatus) -> (eff: Effects)
        requires
            old(self).wf(),
            commit_navigates(*old(self), status) ==> old(self).load_generation < u64::MAX,
        ensures
            final(self).wf(),
            commit_post(*old(self), *final(self), status, eff),
    {
        let empty = self.address.draft.as_str().is_empty();
        let is_directory = match status {
            PathStatus::FoundDirectory => true,
            _ => false,
        };
        let same = self.current_path == self.address.draft;
        if empty || !is_directory || same {
            self.address.cancel();
            return Effects {
                load: None,
                scroll_to_top: false,
                focus_address: false,
                unfocus_address: true,
            };
        }
        let target: String = self.address.draft.clone();
        self.address.cancel();
        self.current_path = target.clone();
        self.history.visit(target.clone());
        self.load_generation = self.load_generation + 1;
        Effects {
            load: Some(LoadRequest { path: target, generation: self.load_generation }),
            scroll_to_top: true,
            focus_address: false,
            unfocus_address: true,
        }
    }

    /// Leaves address editing without committing; see `cancel_post`.
    pub fn cancel_address(&mut self) -> (eff: Effects)
        requires
            old(self).wf(),
        ensures
            final(self).wf(),
            cancel_post(*old(self), *final(self), eff),
    {
        self.address.cancel();
        Effects::none()
    }

    /// One step of the controller: dispatches an intent to its
    /// handler and hands the outward effects back.
    pub fn update(&mut self, intent: Intent) -> (eff: Effects)
        requires
            old(self).wf(),
            intent_navigates(*old(self), intent) ==> old(self).load_generation < u64::MAX,
        ensures
            final(self).wf(),
            intent matches Intent::Open(entry) ==> open_post(*old(self), *final(self), entry, eff),
            intent matches Intent::Select(entry) ==> select_post(
                *old(self),
                *final(self),
                entry,
                eff,
            ),
            intent == Intent::HistoryBack ==> navigate_post(*old(self), *final(self), false, eff),
            intent == Intent::HistoryForward ==> navigate_post(
                *old(self),
                *final(self),
                true,
                eff,
            ),
            intent matches Intent::LoadCompleted(result, generation) ==> apply_post(
                *old(self),
                *final(self),
                result,
                generation,
                eff,
            ),
            intent == Intent::AddressActivate ==> activate_post(*old(self), *final(self), eff),
            intent matches Intent::AddressType(text) ==> type_post(
                *old(self),
                *final(self),
                text@,
                eff,
            ),
            intent matches Intent::AddressCommit(status) ==> commit_post(
                *old(self),
                *final(self),
                status,
                eff,
            ),
            intent == Intent::AddressCancel ==> cancel_post(*old(self), *final(self), eff),
    {
        match intent {
            Intent::Open(entry) => self.open(&entry),
            Intent::Select(entry) => self.select(&entry),
            Intent::HistoryBack => self.navigate_history(false),
            Intent::HistoryForward => self.navigate_history(true),
            Intent::LoadCompleted(result, generation) => self.apply_load_result(
                result,
                generation,
            ),
            Intent::AddressActivate => self.activate_address(),
            Intent::AddressType(text) => self.type_address(text),
            Intent::AddressCommit(status) => self.commit_address(status),
            Intent::AddressCancel => self.cancel_address(),
        }
    }

    /// Whether a step back is possible, for enabling the control.
    pub fn can_go_back(&self) -> (r: bool)
        ensures
            r == (self.snapshot().cursor > 0),
    {
        self.history.can_go_back()
    }

    /// Whether a step forward is possible, for enabling the control.
    pub fn can_go_forward(&self) -> (r: bool)
        requires
            self.wf(),
        ensures
            r == (self.snapshot().cursor < self.snapshot().entries.len() - 1),
    {
        self.history.can_go_forward()
    }

    /// The window title: the application name and the current path.
    pub fn title(&self) -> (r: String)
        ensures
            r@ == "Filed - "@ + self.current_path@,
    {
        let mut s = String::from_str("Filed - ");
        s.append(self.current_path.as_str());
        s
    }

    /// The rows the listing shows: the synthetic `..` row first,
    /// always, then the loaded tree, if any.
    pub fn visible_rows(&self) -> (r: Vec<FileData>)
        ensures
            r@.len() >= 1,
            r@[0].name@ == seq!['.', '.'],
            r@[0].is_dir,
            r@[0].path@ == match parent_of_path(self.current_path@) {
                Some(p) => p,
                None => self.fallback_root@,
            },
            match self.snapshot().tree {
                Some(entries) => r@.len() == 1 + entries.len() && r@.subrange(1, r@.len() as int)
                    =~= entries,
                None => r@.len() == 1,
            },
    {
        let mut rows: Vec<FileData> = Vec::new();
        rows.push(FileData::parent(self.current_path.as_str(), self.fallback_root.as_str()));
        match &self.tree {
            None => {},
            Some(entries) => {
                let n: usize = entries.len();
                let mut i: usize = 0;
                while i < n
                    invariant
                        i <= n == entries@.len(),
                        rows@.len() == 1 + i,
                        rows@[0].name@ == seq!['.', '.'],
                        rows@[0].is_dir,
                        rows@[0].path@ == match parent_of_path(self.current_path@) {
                            Some(p) => p,
                            None => self.fallback_root@,
                        },
                        rows@.subrange(1, rows@.len() as int) =~= entries@.take(i as int),
                    decreases n - i,
                {
                    rows.push(entries[i].clone());
                    proof {
                        assert(rows@.subrange(1, rows@.len() as int) =~= entries@.take(i + 1));
                    }
                    i = i + 1;
                }
                proof {
                    assert(entries@.take(n as int) =~= entries@);
                }
            },
        }
        rows
    }
}

/// How the navigation state evolves under a run of completed
/// navigations.
pub open spec fn snap_opens(s: NavSnapshot, targets: Seq<Seq<char>>) -> NavSnapshot
    decreases targets.len(),
{
    if targets.len() == 0 {
        s
    } else {
        snap_opens(snap_open(s, targets[0]), targets.drop_first())
    }
}

/// How the navigation state evolves under `n` steps back.
pub open spec fn snap_backs(s: NavSnapshot, n: nat) -> NavSnapshot
    decreases n,
{
    if n == 0 {
        s
    } else {
        snap_backs(snap_back(s), (n - 1) as nat)
    }
}

proof fn lemma_snap_backs(s: NavSnapshot, n: nat)
    requires
        snap_wf(s),
        n <= s.cursor,
    ensures
        snap_wf(snap_backs(s, n)),
        snap_backs(s, n).entries == s.entries,
        snap_backs(s, n).cursor == s.cursor - n,
        snap_backs(s, n).current_path == s.entries[s.cursor - n],
    decreases n,
{
    if n > 0 {
        lemma_snap_backs(snap_back(s), (n - 1) as nat);
    }
}

proof fn lemma_snap_opens(s: NavSnapshot, targets: Seq<Seq<char>>)
    requires
        snap_wf(s),
    ensures
        snap_wf(snap_opens(s, targets)),
        snap_opens(s, targets).cursor == s.cursor + targets.len(),
        snap_opens(s, targets).entries.take(s.cursor + 1) == s.entries.take(s.cursor + 1),
    decreases targets.len(),
{
    if targets.len() > 0 {
        let s1 = snap_open(s, targets[0]);
        let x = snap_opens(s1, targets.drop_first());
        lemma_snap_opens(s1, targets.drop_first());
        assert(s1.entries.take(s.cursor + 1) =~= s.entries.take(s.cursor + 1));
        assert(x.entries.take(s.cursor + 1) =~= x.entries.take(s1.cursor + 1).take(s.cursor + 1));
        assert(x.entries.take(s.cursor + 1) =~= s.entries.take(s.cursor + 1));
    }
}

/// The round-trip law of the history: any run of completed
/// navigations followed by as many steps back returns the current
/// path and the cursor to their starting values.
pub proof fn lemma_opens_then_backs(s: NavSnapshot, targets: Seq<Seq<char>>)
    requires
        snap_wf(s),
    ensures
        snap_backs(snap_opens(s, targets), targets.len()).current_path == s.current_path,
        snap_backs(snap_opens(s, targets), targets.len()).cursor == s.cursor,
    decreases targets.len(),
{
    lemma_snap_opens(s, targets);
    let x = snap_opens(s, targets);
    lemma_snap_backs(x, targets.len());
    assert(x.entries[s.cursor] == x.entries.take(s.cursor + 1)[s.cursor]);
    assert(s.entries[s.cursor] == s.entries.take(s.cursor + 1)[s.cursor]);
}

/// The stale-response law: after opening one directory and then a
/// second before the first load lands, applying the second's result
/// and then the first's late result leaves the second's listing in
/// place — the late result changes nothing at all.
pub proof fn lemma_stale_load_discarded(
    s: NavSnapshot,
    target_a: Seq<char>,
    target_b: Seq<char>,
    result_a: Result<Seq<FileData>, LoadError>,
    result_b: Result<Seq<FileData>, LoadError>,
)
    ensures
        ({
            let after_a = snap_open(s, target_a);
            let after_b = snap_open(after_a, target_b);
            let with_b = snap_apply(after_b, result_b, after_b.generation);
            let with_late_a = snap_apply(with_b, result_a, after_a.generation);
            with_late_a == with_b && with_late_a.tree == applied_tree(result_b)
        }),
{
}

/// The root-parent law: opening the synthetic `..` row while the
/// current path has no parent navigates to the fallback root, never
/// to an empty or undefined path.
pub proof fn lemma_open_parent_at_root(pre: Explorer, post: Explorer, entry: FileData, eff: Effects)
    requires
        open_post(pre, post, entry, eff),
        opens_navigation(pre.current_path@, entry),
        entry.name@ == seq!['.', '.'],
        parent_of_path(pre.current_path@) is None,
    ensures
        post.current_path@ == pre.fallback_root@,
{
}

} // verus!
