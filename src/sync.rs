use vstd::prelude::*;

use crate::config::Config;
use crate::error::Failure;

verus! {

/// How a git command ended.
#[derive(Debug)]
pub enum GitOutput {
    /// It ran, and exited with success or not; `stdout` is what it printed.
    Exited { success: bool, stdout: String },
    /// It could not be started.
    NotStarted { reason: String },
}

/// The arguments joined by single spaces.
pub open spec fn spaced(args: Seq<Seq<char>>) -> Seq<char>
    decreases args.len(),
{
    if args.len() == 0 {
        seq![]
    } else if args.len() == 1 {
        args[0]
    } else {
        spaced(args.drop_last()) + seq![' '] + args.last()
    }
}

/// The command line `git <args>`.
pub open spec fn command_line(args: Seq<Seq<char>>) -> Seq<char> {
    seq!['g', 'i', 't', ' '] + spaced(args)
}

pub open spec fn arg_views(args: Seq<String>) -> Seq<Seq<char>> {
    args.map_values(|s: String| s@)
}

/// Whether `pat` occurs in `text`.
pub open spec fn has_infix(text: Seq<char>, pat: Seq<char>) -> bool {
    exists|i: int| 0 <= i && i + pat.len() <= text.len() && #[trigger] text.subrange(i, i + pat.len()) == pat
}

/// Whether `pat` occurs in `text`.
pub fn contains_text(text: &str, pat: &str) -> (r: bool)
    ensures
        r == has_infix(text@, pat@),
{
    let n = text.unicode_len();
    let m = pat.unicode_len();
    if m > n {
        return false;
    }
    let mut i: usize = 0;
    while i <= n - m
        invariant
            n == text@.len(),
            m == pat@.len(),
            m <= n,
            i <= n - m + 1,
            forall|j: int| 0 <= j < i ==> #[trigger] text@.subrange(j, j + m) != pat@,
        decreases n - m + 1 - i,
    {
        let mut k: usize = 0;
        let mut same = true;
        while k < m && same
            invariant
                n == text@.len(),
                m == pat@.len(),
                i + m <= n,
                k <= m,
                same ==> forall|t: int| 0 <= t < k ==> text@[i + t] == #[trigger] pat@[t],
                !same ==> k > 0 && text@[i + k - 1] != pat@[k - 1],
            decreases m - k + (if same { 1int } else { 0int }),
        {
            if text.get_char(i + k) != pat.get_char(k) {
                same = false;
            }
            k = k + 1;
        }
        if same {
            assert(text@.subrange(i as int, i + m) =~= pat@);
            return true;
        }
        assert(text@.subrange(i as int, i + m)[k - 1] != pat@[k - 1]);
        i = i + 1;
    }
    false
}

/// The text of a git command that ended: its output when it exited with
/// success, else the failure, which names the whole command line.
pub fn run_and_check_git(args: &Vec<String>, out: GitOutput) -> (r: Result<String, Failure>)
    ensures
        match out {
            GitOutput::NotStarted { reason } => r == Err::<String, Failure>(Failure::GitSpawn { reason }),
            GitOutput::Exited { success, stdout } => if success {
                r == Ok::<String, Failure>(stdout)
            } else {
                match r {
                    Err(Failure::GitStatus { command }) => command@ == command_line(arg_views(args@)),
                    _ => false,
                }
            },
        },
{
    match out {
        GitOutput::NotStarted { reason } => Err(Failure::GitSpawn { reason }),
        GitOutput::Exited { success, stdout } => {
            if success {
                Ok(stdout)
            } else {
                Err(Failure::GitStatus { command: git_command_line(args) })
            }
        },
    }
}

/// `git` followed by the arguments, separated by spaces.
fn git_command_line(args: &Vec<String>) -> (r: String)
    ensures
        r@ == command_line(arg_views(args@)),
{
    proof {
        reveal_strlit("git ");
        reveal_strlit(" ");
    }
    let mut out = String::from_str("git ");
    let ghost lead = out@;
    assert(lead == seq!['g', 'i', 't', ' ']);
    let ghost views = arg_views(args@);
    let mut i: usize = 0;
    while i < args.len()
        invariant
            views == arg_views(args@),
            lead == seq!['g', 'i', 't', ' '],
            i <= args.len(),
            out@ == lead + spaced(views.take(i as int)),
        decreases args.len() - i,
    {
        let ghost prev = out@;
        let ghost t = views.take(i + 1);
        assert(t.drop_last() == views.take(i as int));
        assert(t.last() == args@[i as int]@);
        if i > 0 {
            out.append(" ");
            assert(out@ =~= prev + seq![' ']) by {
                reveal_strlit(" ");
            }
        } else {
            assert(t =~= seq![views[0]]);
        }
        let ghost mid = out@;
        let piece = args[i].as_str();
        out.append(piece);
        proof {
            if i > 0 {
                assert(spaced(t) == spaced(t.drop_last()) + seq![' '] + t.last());
                assert(out@ =~= lead + spaced(t));
            } else {
                assert(spaced(t) == t[0]);
                assert(spaced(views.take(0)) == Seq::<char>::empty());
                assert(out@ =~= lead + spaced(t));
            }
        }
        i = i + 1;
    }
    assert(views.take(args.len() as int) == views);
    out
}

/// Where a sync stands: each phase waits for the git command it ran.
#[derive(PartialEq, Eq, Structural, Clone, Copy, Debug)]
pub enum SyncPhase {
    /// `git status`, to see whether the work tree is dirty.
    Status,
    /// `git stash`, to put local changes aside.
    Stash,
    /// `git checkout master`.
    Checkout,
    /// `git pull --rebase origin master`.
    Pull,
    /// `git push origin master`.
    Push,
    /// `git stash pop`, to bring the local changes back.
    Pop,
    /// Done.
    Finished,
}

/// The arguments of the git command that `p` runs.
pub open spec fn sync_args(p: SyncPhase) -> Seq<Seq<char>> {
    match p {
        SyncPhase::Status => seq!["status"@],
        SyncPhase::Stash => seq!["stash"@],
        SyncPhase::Checkout => seq!["checkout"@, "master"@],
        SyncPhase::Pull => seq!["pull"@, "--rebase"@, "origin"@, "master"@],
        SyncPhase::Push => seq!["push"@, "origin"@, "master"@],
        SyncPhase::Pop => seq!["stash"@, "pop"@],
        SyncPhase::Finished => seq![],
    }
}

/// The phase after `p` succeeded, when the work tree was found dirty or not:
/// local changes are stashed before the pull and popped after the push.
pub open spec fn next_phase(p: SyncPhase, dirty: bool) -> SyncPhase {
    match p {
        SyncPhase::Status => if dirty {
            SyncPhase::Stash
        } else {
            SyncPhase::Checkout
        },
        SyncPhase::Stash => SyncPhase::Checkout,
        SyncPhase::Checkout => SyncPhase::Pull,
        SyncPhase::Pull => SyncPhase::Push,
        SyncPhase::Push => if dirty {
            SyncPhase::Pop
        } else {
            SyncPhase::Finished
        },
        _ => SyncPhase::Finished,
    }
}

/// The word in `git status` output that marks a dirty work tree.
pub const DIRTY_MARK: &'static str = "modified";

/// What a sync asks for next.
#[derive(Debug)]
pub enum SyncAction {
    /// Run `git <args>` in directory `dir`.
    RunGit { args: Vec<String>, dir: String },
    /// The sync is over, with its result.
    Finish(Result<(), Failure>),
}

/// Syncs the repository with its remote: stash local changes if any, check
/// out master, pull with rebase, push, and pop the stash.
#[derive(Debug)]
pub struct SyncSession {
    dir: String,
    phase: SyncPhase,
    dirty: bool,
}

/// The arguments of the git command that `p` runs.
fn args_for(p: SyncPhase) -> (r: Vec<String>)
    ensures
        arg_views(r@) == sync_args(p),
{
    let words: Vec<&str> = match p {
        SyncPhase::Status => vec!["status"],
        SyncPhase::Stash => vec!["stash"],
        SyncPhase::Checkout => vec!["checkout", "master"],
        SyncPhase::Pull => vec!["pull", "--rebase", "origin", "master"],
        SyncPhase::Push => vec!["push", "origin", "master"],
        SyncPhase::Pop => vec!["stash", "pop"],
        SyncPhase::Finished => vec![],
    };
    let mut r: Vec<String> = Vec::new();
    let mut i: usize = 0;
    while i < words.len()
        invariant
            i <= words.len(),
            arg_views(r@) == words@.take(i as int).map_values(|w: &str| w@),
        decreases words.len() - i,
    {
        let ghost before = r@;
        let w = String::from_str(words[i]);
        r.push(w);
        proof {
            assert(arg_views(r@) =~= arg_views(before).push(w@));
            assert(words@.take(i + 1) == words@.take(i as int).push(words@[i as int]));
            assert(arg_views(r@) =~= words@.take(i + 1).map_values(|w: &str| w@));
        }
        i = i + 1;
    }
    proof {
        assert(words@.take(words.len() as int) == words@);
        assert(arg_views(r@) =~= sync_args(p));
    }
    r
}

impl SyncSession {
    pub closed spec fn dir_spec(&self) -> Seq<char> {
        self.dir@
    }

    pub closed spec fn phase_spec(&self) -> SyncPhase {
        self.phase
    }

    /// Whether `git status` found local changes.
    pub closed spec fn dirty_spec(&self) -> bool {
        self.dirty
    }

    pub fn phase(&self) -> (r: SyncPhase)
        ensures
            r == self.phase_spec(),
    {
        self.phase
    }

    /// Takes how the last git command ended and says what to do next.
    pub fn step(&mut self, out: GitOutput) -> (a: SyncAction)
        requires
            old(self).phase_spec() != SyncPhase::Finished,
        ensures
            final(self).dir_spec() == old(self).dir_spec(),
            match out {
                GitOutput::Exited { success: true, stdout } => {
                    let dirty = if old(self).phase_spec() == SyncPhase::Status {
                        has_infix(stdout@, DIRTY_MARK@)
                    } else {
                        old(self).dirty_spec()
                    };
                    let next = next_phase(old(self).phase_spec(), dirty);
                    &&& final(self).dirty_spec() == dirty
                    &&& final(self).phase_spec() == next
                    &&& if next == SyncPhase::Finished {
                        a == SyncAction::Finish(Ok(()))
                    } else {
                        match a {
                            SyncAction::RunGit { args, dir } => arg_views(args@) == sync_args(next) && dir@
                                == old(self).dir_spec(),
                            _ => false,
                        }
                    }
                },
                GitOutput::Exited { success: false, .. } => final(self).phase_spec() == SyncPhase::Finished
                    && match a {
                    SyncAction::Finish(Err(Failure::GitStatus { command })) => command@ == command_line(
                        sync_args(old(self).phase_spec()),
                    ),
                    _ => false,
                },
                GitOutput::NotStarted { reason } => final(self).phase_spec() == SyncPhase::Finished && a
                    == SyncAction::Finish(Err(Failure::GitSpawn { reason })),
            },
    {
        let args = args_for(self.phase);
        match run_and_check_git(&args, out) {
            Err(f) => {
                self.phase = SyncPhase::Finished;
                SyncAction::Finish(Err(f))
            },
            Ok(stdout) => {
                if self.phase == SyncPhase::Status {
                    self.dirty = contains_text(stdout.as_str(), DIRTY_MARK);
                }
                let next = match self.phase {
                    SyncPhase::Status => if self.dirty {
                        SyncPhase::Stash
                    } else {
                        SyncPhase::Checkout
                    },
                    SyncPhase::Stash => SyncPhase::Checkout,
                    SyncPhase::Checkout => SyncPhase::Pull,
                    SyncPhase::Pull => SyncPhase::Push,
                    SyncPhase::Push => if self.dirty {
                        SyncPhase::Pop
                    } else {
                        SyncPhase::Finished
                    },
                    _ => SyncPhase::Finished,
                };
                self.phase = next;
                if next == SyncPhase::Finished {
                    SyncAction::Finish(Ok(()))
                } else {
                    SyncAction::RunGit { args: args_for(next), dir: self.dir.clone() }
                }
            },
        }
    }
}

/// Starts a sync of the repository of `config`; its git commands run in the
/// repository's directory, beginning with `git status`.
pub fn do_sync(config: &Config) -> (r: (SyncSession, SyncAction))
    ensures
        r.0.phase_spec() == SyncPhase::Status,
        r.0.dir_spec() == config.root_spec(),
        match r.1 {
            SyncAction::RunGit { args, dir } => arg_views(args@) == sync_args(SyncPhase::Status) && dir@
                == config.root_spec(),
            _ => false,
        },
{
    let dir = String::from_str(config.root_path());
    let first = SyncAction::RunGit { args: args_for(SyncPhase::Status), dir: dir.clone() };
    (SyncSession { dir, phase: SyncPhase::Status, dirty: false }, first)
}

} // verus!
