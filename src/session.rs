use vstd::prelude::*;

use crate::config::Config;
use crate::entry::{dirs_ok, link_ok, unlink_ok, Entry};
use crate::error::{Failure, IoOutcome};
use crate::path::{parent_view, parse_spec, FsPath, PathView};
use crate::walk::{Walk, WalkItem};

verus! {

/// What a run does with each managed file.
#[derive(PartialEq, Eq, Structural, Clone, Copy, Debug)]
pub enum Mode {
    /// Make its link.
    Link,
    /// Remove whatever sits at its target.
    Clean,
    /// Tell whether its link is in place.
    Status,
    /// Only list it.
    List,
}

/// Where a run stands.
#[derive(PartialEq, Eq, Structural, Clone, Copy, Debug)]
pub enum Phase {
    /// Waiting for the walker's next path.
    Walking,
    /// Waiting for the directories above the current target.
    CreatingDirs,
    /// Waiting for the current link to be made.
    Linking,
    /// Waiting for the current target to be removed.
    Removing,
    /// Waiting for the current target to be read as a link.
    Reading,
    /// Done; nothing more is expected.
    Finished,
}

/// What the outside world reports to a run.
#[derive(Debug)]
pub enum Event {
    /// The walker's next path.
    Item(WalkItem),
    /// The walker failed.
    WalkFailed(ignore::Error),
    /// The walker has no more paths.
    WalkDone,
    /// How the last filesystem action ended.
    Io(IoOutcome),
    /// What reading the target as a link gave: its text, or none when it is
    /// not a link; and whether following the target reaches an existing file.
    LinkRead { link: Option<String>, resolves: bool },
}

/// What a run asks the outside world to do next.
#[derive(Debug)]
pub enum Action {
    /// Hand over the walker's next path.
    NextItem,
    /// Create this directory and those above it.
    CreateDirs(FsPath),
    /// Make a symbolic link at `target` that points at `source`.
    Symlink { source: FsPath, target: FsPath },
    /// Remove the file at this path.
    RemoveFile(FsPath),
    /// Read the symbolic link at this path.
    ReadLink(FsPath),
    /// The run is over, with its result.
    Finish(Result<(), Failure>),
}

pub open spec fn all_wf(es: Seq<Entry>) -> bool {
    forall|i: int| 0 <= i < es.len() ==> (#[trigger] es[i]).wf()
}

/// A run over the managed files of a repository: it decides, event by
/// event, what is done with each file, and stops at the first failure.
#[derive(Debug)]
pub struct Session {
    walk: Walk,
    mode: Mode,
    phase: Phase,
    visited: Vec<Entry>,
    linked: Vec<bool>,
}

impl Session {
    pub closed spec fn mode_spec(&self) -> Mode {
        self.mode
    }

    pub closed spec fn phase_spec(&self) -> Phase {
        self.phase
    }

    pub closed spec fn root_spec(&self) -> PathView {
        self.walk.root_spec()
    }

    pub closed spec fn home_spec(&self) -> PathView {
        self.walk.home_spec()
    }

    /// The managed files met so far, in the walker's order.
    pub closed spec fn visited_spec(&self) -> Seq<Entry> {
        self.visited@
    }

    /// For a status run, whether each file met so far is linked.
    pub closed spec fn linked_spec(&self) -> Seq<bool> {
        self.linked@
    }

    pub closed spec fn walk_spec(&self) -> Walk {
        self.walk
    }

    /// The file being worked on.
    pub open spec fn current(&self) -> Entry {
        self.visited_spec().last()
    }

    pub open spec fn inv(&self) -> bool {
        &&& self.walk_spec().wf()
        &&& self.walk_spec().root_spec() == self.root_spec()
        &&& self.walk_spec().home_spec() == self.home_spec()
        &&& all_wf(self.visited_spec())
        &&& (self.phase_spec() != Phase::Walking && self.phase_spec() != Phase::Finished) ==> self.visited_spec().len() > 0
        &&& self.phase_spec() == Phase::CreatingDirs ==> self.current().target_spec().parts.len() > 0
    }

    /// Whether the run waits for `e` now.
    pub open spec fn expects(&self, e: Event) -> bool {
        match self.phase_spec() {
            Phase::Walking => match e {
                Event::Item(it) => it.is_symlink || it.is_dir || self.walk_spec().holds(it.path@),
                Event::WalkFailed(_) => true,
                Event::WalkDone => true,
                _ => false,
            },
            Phase::CreatingDirs | Phase::Linking | Phase::Removing => e is Io,
            Phase::Reading => e is LinkRead,
            Phase::Finished => false,
        }
    }

    /// The state of a run that has just met `e`, the file at `it`.
    pub open spec fn met(&self, it: WalkItem, e: Entry) -> bool {
        &&& e.root_spec() == self.root_spec()
        &&& e.relative_spec() == self.walk_spec().relative_of(it.path@)
        &&& e.target_spec() == crate::path::join_spec(self.home_spec(), e.relative_spec())
    }

    fn start(walk: Walk, mode: Mode) -> (r: Session)
        requires
            walk.wf(),
        ensures
            r.walk_spec() == walk,
            r.mode_spec() == mode,
            r.phase_spec() == Phase::Walking,
            r.visited_spec().len() == 0,
            r.linked_spec().len() == 0,
            r.root_spec() == walk.root_spec(),
            r.home_spec() == walk.home_spec(),
            r.inv(),
    {
        Session { walk, mode, phase: Phase::Walking, visited: Vec::new(), linked: Vec::new() }
    }

    /// A run in `mode` over the repository of `config`.
    pub fn open(config: &Config, mode: Mode) -> (r: Result<Session, Failure>)
        ensures
            fresh(config, mode, r),
    {
        match Walk::new(config.root_path(), config.home_dir()) {
            Ok(w) => Ok(Self::start(w, mode)),
            Err(e) => Err(e),
        }
    }

    /// The walk that feeds the run.
    pub fn walk(&self) -> (r: &Walk)
        ensures
            r == self.walk_spec(),
    {
        &self.walk
    }

    pub fn mode(&self) -> (r: Mode)
        ensures
            r == self.mode_spec(),
    {
        self.mode
    }

    pub fn phase(&self) -> (r: Phase)
        ensures
            r == self.phase_spec(),
    {
        self.phase
    }

    /// The managed files met so far.
    pub fn visited(&self) -> (r: &Vec<Entry>)
        ensures
            r@ == self.visited_spec(),
    {
        &self.visited
    }

    /// For a status run, whether each file met so far is linked.
    pub fn linked(&self) -> (r: &Vec<bool>)
        ensures
            r@ == self.linked_spec(),
    {
        &self.linked
    }

    /// Whether the run waits for `e` now.
    pub fn accepts(&self, e: &Event) -> (r: bool)
        ensures
            r == self.expects(*e),
    {
        match self.phase {
            Phase::Walking => match e {
                Event::Item(it) => it.is_symlink || it.is_dir || self.walk.contains(it.path.as_str()),
                Event::WalkFailed(_) => true,
                Event::WalkDone => true,
                _ => false,
            },
            Phase::CreatingDirs | Phase::Linking | Phase::Removing => matches!(e, Event::Io(_)),
            Phase::Reading => matches!(e, Event::LinkRead { .. }),
            Phase::Finished => false,
        }
    }

    /// The action that makes the current link, and the phase that waits for it.
    pub open spec fn makes_link(&self, next: Session, a: Action) -> bool {
        &&& next.phase_spec() == Phase::Linking
        &&& match a {
            Action::Symlink { source, target } => source@ == self.current().source_spec() && target@
                == self.current().target_spec(),
            _ => false,
        }
    }

    /// Moving on to the walker's next path.
    pub open spec fn moves_on(next: Session, a: Action) -> bool {
        a is NextItem && next.phase_spec() == Phase::Walking
    }

    /// Ending the run with failure `f`.
    pub open spec fn fails_with(next: Session, a: Action, f: Failure) -> bool {
        a == Action::Finish(Err(f)) && next.phase_spec() == Phase::Finished
    }

    /// What taking the managed file `it` leads to: it is recorded, and what is
    /// done with it depends on the mode.
    pub open spec fn takes_file(&self, it: WalkItem, next: Session, a: Action) -> bool {
        &&& next.visited_spec().len() == self.visited_spec().len() + 1
        &&& next.visited_spec().drop_last() == self.visited_spec()
        &&& self.met(it, next.current())
        &&& next.linked_spec() == self.linked_spec()
        &&& match self.mode_spec() {
            Mode::Link => if next.current().target_spec().parts.len() > 0 {
                next.phase_spec() == Phase::CreatingDirs && match a {
                    Action::CreateDirs(p) => p@ == parent_view(next.current().target_spec()),
                    _ => false,
                }
            } else {
                next.makes_link(next, a)
            },
            Mode::Clean => next.phase_spec() == Phase::Removing && match a {
                Action::RemoveFile(p) => p@ == next.current().target_spec(),
                _ => false,
            },
            Mode::Status => next.phase_spec() == Phase::Reading && match a {
                Action::ReadLink(p) => p@ == next.current().target_spec(),
                _ => false,
            },
            Mode::List => Self::moves_on(next, a),
        }
    }

    /// What event `e` leads to: the run becomes `next` and asks for `a`.
    pub open spec fn leads_to(&self, e: Event, next: Session, a: Action) -> bool {
        &&& next.mode_spec() == self.mode_spec()
        &&& next.walk_spec() == self.walk_spec()
        &&& match e {
            Event::Item(it) => if it.is_symlink || it.is_dir {
                a is NextItem && next == *self
            } else {
                self.takes_file(it, next, a)
            },
            Event::WalkFailed(err) => Self::fails_with(next, a, Failure::Ignore(err)),
            Event::WalkDone => a == Action::Finish(Ok(())) && next.phase_spec() == Phase::Finished,
            Event::Io(o) => match self.phase_spec() {
                Phase::CreatingDirs => if dirs_ok(o) {
                    self.makes_link(next, a)
                } else {
                    match a {
                        Action::Finish(Err(f)) => self.current().dirs_failure(o, f) && Self::fails_with(next, a, f),
                        _ => false,
                    }
                },
                Phase::Linking => if link_ok(o) {
                    Self::moves_on(next, a)
                } else {
                    match a {
                        Action::Finish(Err(f)) => self.current().link_failure(o, f) && Self::fails_with(next, a, f),
                        _ => false,
                    }
                },
                _ => if unlink_ok(o) {
                    Self::moves_on(next, a)
                } else {
                    match a {
                        Action::Finish(Err(f)) => self.current().unlink_failure(o, f) && Self::fails_with(next, a, f),
                        _ => false,
                    }
                },
            },
            Event::LinkRead { link, resolves } => Self::moves_on(next, a) && next.linked_spec()
                == self.linked_spec().push(
                resolves && self.current().points_here(
                    match link {
                        Some(t) => Some(t@),
                        None => None,
                    },
                ),
            ),
        }
    }

    /// Takes the next event and says what to do next.
    pub fn step(&mut self, e: Event) -> (a: Action)
        requires
            old(self).inv(),
            old(self).expects(e),
        ensures
            final(self).inv(),
            final(self).mode_spec() == old(self).mode_spec(),
            final(self).walk_spec() == old(self).walk_spec(),
            final(self).root_spec() == old(self).root_spec(),
            final(self).home_spec() == old(self).home_spec(),
            old(self).leads_to(e, *final(self), a),
            old(self).phase_spec() != Phase::Walking ==> final(self).visited_spec() == old(self).visited_spec(),
            old(self).phase_spec() != Phase::Reading ==> final(self).linked_spec() == old(self).linked_spec(),
    {
        match e {
            Event::Item(it) => {
                if it.is_symlink || it.is_dir {
                    return Action::NextItem;
                }
                let entry = match self.walk.select(&it) {
                    Some(entry) => entry,
                    None => {
                        return Action::NextItem;
                    },
                };
                let action = match self.mode {
                    Mode::Link => match entry.target_parent() {
                        Some(p) => {
                            self.phase = Phase::CreatingDirs;
                            Action::CreateDirs(p)
                        },
                        None => {
                            self.phase = Phase::Linking;
                            Action::Symlink { source: entry.absolute_path(), target: entry.target_path().duplicate() }
                        },
                    },
                    Mode::Clean => {
                        self.phase = Phase::Removing;
                        Action::RemoveFile(entry.target_path().duplicate())
                    },
                    Mode::Status => {
                        self.phase = Phase::Reading;
                        Action::ReadLink(entry.target_path().duplicate())
                    },
                    Mode::List => Action::NextItem,
                };
                self.visited.push(entry);
                proof {
                    assert(self.visited@.drop_last() =~= old(self).visited@);
                    assert(old(self).visited_spec() == old(self).visited@);
                    assert forall|i: int| 0 <= i < self.visited@.len() implies (#[trigger] self.visited@[i]).wf() by {
                        if i < old(self).visited@.len() {
                            assert(self.visited@[i] == old(self).visited_spec()[i]);
                        }
                    }
                    assert(all_wf(self.visited@));
                }
                action
            },
            Event::WalkFailed(err) => {
                self.phase = Phase::Finished;
                Action::Finish(Err(Failure::Ignore(err)))
            },
            Event::WalkDone => {
                self.phase = Phase::Finished;
                Action::Finish(Ok(()))
            },
            Event::Io(o) => {
                let n = self.visited.len();
                let current = &self.visited[n - 1];
                match self.phase {
                    Phase::CreatingDirs => match current.dirs_created(o) {
                        Ok(()) => {
                            let source = current.absolute_path();
                            let target = current.target_path().duplicate();
                            self.phase = Phase::Linking;
                            Action::Symlink { source, target }
                        },
                        Err(f) => {
                            self.phase = Phase::Finished;
                            Action::Finish(Err(f))
                        },
                    },
                    Phase::Linking => match current.link_created(o) {
                        Ok(()) => {
                            self.phase = Phase::Walking;
                            Action::NextItem
                        },
                        Err(f) => {
                            self.phase = Phase::Finished;
                            Action::Finish(Err(f))
                        },
                    },
                    _ => match current.unlinked(o) {
                        Ok(()) => {
                            self.phase = Phase::Walking;
                            Action::NextItem
                        },
                        Err(f) => {
                            self.phase = Phase::Finished;
                            Action::Finish(Err(f))
                        },
                    },
                }
            },
            Event::LinkRead { link, resolves } => {
                let n = self.visited.len();
                let linked = match &link {
                    Some(t) => self.visited[n - 1].is_linked(Some(t.as_str()), resolves),
                    None => self.visited[n - 1].is_linked(None, resolves),
                };
                self.linked.push(linked);
                self.phase = Phase::Walking;

                Action::NextItem
            },
        }
    }
}

/// A fresh run in `mode` over the repository of `config`: opening one
/// always succeeds.
pub open spec fn fresh(config: &Config, mode: Mode, r: Result<Session, Failure>) -> bool {
    match r {
        Ok(s) => s.mode_spec() == mode && s.phase_spec() == Phase::Walking && s.visited_spec().len() == 0
            && s.linked_spec().len() == 0 && s.root_spec() == parse_spec(config.root_spec()) && s.home_spec()
            == parse_spec(config.home_spec()) && s.inv() && s.walk_spec().configured(config.root_spec()),
        Err(_) => false,
    }
}

/// A run that links every managed file into the home directory.
pub fn do_link(config: &Config) -> (r: Result<Session, Failure>)
    ensures
        fresh(config, Mode::Link, r),
{
    Session::open(config, Mode::Link)
}

/// A run that removes what sits at the target of every managed file.
pub fn do_clean(config: &Config) -> (r: Result<Session, Failure>)
    ensures
        fresh(config, Mode::Clean, r),
{
    Session::open(config, Mode::Clean)
}

/// A run that tells, for every managed file, whether its link is in place.
pub fn do_status(config: &Config) -> (r: Result<Session, Failure>)
    ensures
        fresh(config, Mode::Status, r),
{
    Session::open(config, Mode::Status)
}

/// A run that lists the managed files.
pub fn do_list(config: &Config) -> (r: Result<Session, Failure>)
    ensures
        fresh(config, Mode::List, r),
{
    Session::open(config, Mode::List)
}

/// The relative paths of entries, in order.
pub open spec fn relatives(es: Seq<Entry>) -> Seq<PathView> {
    es.map_values(|e: Entry| e.relative_spec())
}

/// What a listing over the walker's `items` gives: the relative paths of
/// the items that are neither directories nor symbolic links, in the
/// walker's order.
pub open spec fn listing(w: Walk, items: Seq<WalkItem>) -> Seq<PathView>
    decreases items.len(),
{
    if items.len() == 0 {
        seq![]
    } else {
        let rest = listing(w, items.drop_last());
        let it = items.last();
        if it.is_symlink || it.is_dir {
            rest
        } else {
            rest.push(w.relative_of(it.path@))
        }
    }
}

/// `runs[i + 1]` is what `runs[i]` became on the walker's `items[i]`.
pub open spec fn fed(runs: Seq<Session>, items: Seq<WalkItem>, acts: Seq<Action>) -> bool {
    &&& runs.len() == items.len() + 1
    &&& acts.len() == items.len()
    &&& forall|i: int| 0 <= i < items.len() ==> #[trigger] runs[i].leads_to(Event::Item(items[i]), runs[i + 1], acts[i])
}

/// A fresh listing run.
pub open spec fn fresh_listing(s: Session) -> bool {
    s.mode_spec() == Mode::List && s.phase_spec() == Phase::Walking && s.visited_spec().len() == 0
}

proof fn lemma_listing_prefix(runs: Seq<Session>, items: Seq<WalkItem>, acts: Seq<Action>, n: int)
    requires
        fed(runs, items, acts),
        fresh_listing(runs[0]),
        0 <= n <= items.len(),
    ensures
        runs[n].mode_spec() == Mode::List,
        runs[n].phase_spec() == Phase::Walking,
        runs[n].walk_spec() == runs[0].walk_spec(),
        relatives(runs[n].visited_spec()) == listing(runs[0].walk_spec(), items.take(n)),
    decreases n,
{
    if n == 0 {
        assert(items.take(0) =~= Seq::<WalkItem>::empty());
        assert(relatives(runs[0].visited_spec()) =~= Seq::<PathView>::empty());
    } else {
        lemma_listing_prefix(runs, items, acts, n - 1);
        let j = n - 1;
        assert(runs[j].leads_to(Event::Item(items[j]), runs[j + 1], acts[j]));
        let s = runs[j];
        let t = runs[j + 1];
        let it = items[j];
        assert(items.take(n).drop_last() =~= items.take(n - 1));
        assert(items.take(n).last() == it);
        if !(it.is_symlink || it.is_dir) {
            assert(t.visited_spec() == t.visited_spec().drop_last().push(t.current()));
            assert(relatives(t.visited_spec()) =~= relatives(s.visited_spec()).push(t.current().relative_spec()));
        }
    }
}

/// A listing run lists exactly the walker's files, in the walker's order:
/// fed the same walker output, two listing runs of the same repository give
/// the same relative paths in the same order.
pub proof fn lemma_listing_follows_walker(
    runs: Seq<Session>,
    other: Seq<Session>,
    items: Seq<WalkItem>,
    acts: Seq<Action>,
    other_acts: Seq<Action>,
)
    requires
        fed(runs, items, acts),
        fed(other, items, other_acts),
        fresh_listing(runs[0]),
        fresh_listing(other[0]),
        runs[0].walk_spec() == other[0].walk_spec(),
    ensures
        relatives(runs.last().visited_spec()) == listing(runs[0].walk_spec(), items),
        relatives(runs.last().visited_spec()) == relatives(other.last().visited_spec()),
{
    lemma_listing_prefix(runs, items, acts, items.len() as int);
    lemma_listing_prefix(other, items, other_acts, items.len() as int);
    assert(items.take(items.len() as int) =~= items);
}

} // verus!
