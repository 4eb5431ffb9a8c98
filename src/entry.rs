use vstd::prelude::*;

use crate::error::{Failure, IoKind, IoOutcome};
use crate::path::{join_spec, parent_view, parse_spec, path_wf, render, FsPath, PathView};

verus! {

/// A managed file: where it lies in the repository and where its link goes.
#[derive(Debug)]
pub struct Entry {
    root: FsPath,
    relative: FsPath,
    target: FsPath,
}

/// The relative path of an entry, ready to be shown.
#[derive(Debug)]
pub struct DisplayRelative {
    text: String,
}

impl DisplayRelative {
    pub closed spec fn text_spec(&self) -> Seq<char> {
        self.text@
    }

    /// The text shown for the entry.
    pub fn to_string(&self) -> (r: String)
        ensures
            r@ == self.text_spec(),
    {
        self.text.clone()
    }
}

/// The outcome of creating the directories above a target is a success when
/// they were created or were already there.
pub open spec fn dirs_ok(o: IoOutcome) -> bool {
    match o {
        IoOutcome::Done => true,
        IoOutcome::Failed { kind, .. } => kind == IoKind::AlreadyExists,
    }
}

/// Creating a link succeeds when the link was made or the target path is
/// already taken.
pub open spec fn link_ok(o: IoOutcome) -> bool {
    match o {
        IoOutcome::Done => true,
        IoOutcome::Failed { kind, .. } => kind == IoKind::AlreadyExists,
    }
}

/// Removing a target succeeds when it was removed or was not there.
pub open spec fn unlink_ok(o: IoOutcome) -> bool {
    match o {
        IoOutcome::Done => true,
        IoOutcome::Failed { kind, .. } => kind == IoKind::NotFound,
    }
}

/// The system's description carried by a failed outcome.
pub open spec fn reason_of(o: IoOutcome) -> Seq<char> {
    match o {
        IoOutcome::Done => seq![],
        IoOutcome::Failed { reason, .. } => reason@,
    }
}

impl Entry {
    pub closed spec fn root_spec(&self) -> PathView {
        self.root@
    }

    pub closed spec fn relative_spec(&self) -> PathView {
        self.relative@
    }

    /// Where the link goes.
    pub closed spec fn target_spec(&self) -> PathView {
        self.target@
    }

    /// The managed file itself: the root joined with the relative path.
    pub open spec fn source_spec(&self) -> PathView {
        join_spec(self.root_spec(), self.relative_spec())
    }

    pub open spec fn wf(&self) -> bool {
        &&& path_wf(self.root_spec())
        &&& path_wf(self.relative_spec())
        &&& path_wf(self.target_spec())
    }

    /// Whether a link whose text is `link` (none when the target is not a
    /// link) points at the managed file, component by component.
    pub open spec fn points_here(&self, link: Option<Seq<char>>) -> bool {
        match link {
            Some(t) => parse_spec(t) == self.source_spec(),
            None => false,
        }
    }

    pub fn new(root: FsPath, relative: FsPath, target: FsPath) -> (r: Entry)
        ensures
            r.root_spec() == root@,
            r.relative_spec() == relative@,
            r.target_spec() == target@,
    {
        Entry { root, relative, target }
    }

    /// A copy of the entry.
    pub fn duplicate(&self) -> (r: Entry)
        ensures
            r.root_spec() == self.root_spec(),
            r.relative_spec() == self.relative_spec(),
            r.target_spec() == self.target_spec(),
    {
        Entry {
            root: self.root.duplicate(),
            relative: self.relative.duplicate(),
            target: self.target.duplicate(),
        }
    }

    /// The managed file's own path.
    pub fn absolute_path(&self) -> (r: FsPath)
        ensures
            r@ == self.source_spec(),
            self.wf() ==> r.wf(),
    {
        self.root.join(&self.relative)
    }

    pub fn relative_path(&self) -> (r: &FsPath)
        ensures
            r@ == self.relative_spec(),
    {
        &self.relative
    }

    pub fn target_path(&self) -> (r: &FsPath)
        ensures
            r@ == self.target_spec(),
    {
        &self.target
    }

    /// The relative path, for listings.
    pub fn display_relative(&self) -> (r: DisplayRelative)
        ensures
            r.text_spec() == render(self.relative_spec()),
    {
        DisplayRelative { text: self.relative.text() }
    }

    /// The link target, for listings.
    pub fn display_target(&self) -> (r: String)
        ensures
            r@ == render(self.target_spec()),
    {
        self.target.text()
    }

    /// The directory that must exist before the link can be made, if the
    /// target has one.
    pub fn target_parent(&self) -> (r: Option<FsPath>)
        ensures
            r is Some <==> self.target_spec().parts.len() > 0,
            r matches Some(p) ==> p@ == parent_view(self.target_spec()),
    {
        self.target.parent()
    }

    /// Whether the target is a working link to the managed file, given what
    /// reading the target as a link gave (`None` when it could not be read as
    /// one) and whether following the target reaches an existing file. A
    /// broken link is not linked.
    pub fn is_linked(&self, link: Option<&str>, resolves: bool) -> (r: bool)
        ensures
            r == (resolves && self.points_here(
                match link {
                    Some(t) => Some(t@),
                    None => None,
                },
            )),
    {
        if !resolves {
            return false;
        }
        match link {
            None => false,
            Some(t) => {
                let read = FsPath::parse(t);
                let source = self.absolute_path();
                read.same_as(&source)
            },
        }
    }

    /// The directory above the target, as text.
    pub open spec fn parent_text(&self) -> Seq<char> {
        render(parent_view(self.target_spec()))
    }

    /// The failure reported when making the directories above the target
    /// ended as `o`: it names the directory.
    pub open spec fn dirs_failure(&self, o: IoOutcome, e: Failure) -> bool {
        e matches Failure::CreateDirs { path, reason } && path@ == self.parent_text() && reason@ == reason_of(o)
    }

    /// The failure reported when making the link ended as `o`: it names the
    /// managed file and the target.
    pub open spec fn link_failure(&self, o: IoOutcome, e: Failure) -> bool {
        e matches Failure::Link { source, target, reason } && source@ == render(self.source_spec()) && target@
            == render(self.target_spec()) && reason@ == reason_of(o)
    }

    /// The failure reported when removing the target ended as `o`: it names
    /// the target.
    pub open spec fn unlink_failure(&self, o: IoOutcome, e: Failure) -> bool {
        e matches Failure::Unlink { target, reason } && target@ == render(self.target_spec()) && reason@
            == reason_of(o)
    }

    /// The result of making the directories above the target: their
    /// existing already is no failure.
    pub fn dirs_created(&self, outcome: IoOutcome) -> (r: Result<(), Failure>)
        requires
            self.target_spec().parts.len() > 0,
        ensures
            r is Ok <==> dirs_ok(outcome),
            r matches Err(e) ==> self.dirs_failure(outcome, e),
    {
        match outcome {
            IoOutcome::Failed { kind, reason } => {
                if kind == IoKind::AlreadyExists {
                    Ok(())
                } else {
                    let mut parent = self.target.duplicate();
                    parent.parts.pop();
                    proof {
                        assert(parent@.parts =~= self.target_spec().parts.drop_last());
                    }
                    Err(Failure::CreateDirs { path: parent.text(), reason })
                }
            },
            IoOutcome::Done => Ok(()),
        }
    }

    /// The result of making the link: a target path that is already taken
    /// is no failure, so linking twice is harmless.
    pub fn link_created(&self, outcome: IoOutcome) -> (r: Result<(), Failure>)
        ensures
            r is Ok <==> link_ok(outcome),
            r matches Err(e) ==> self.link_failure(outcome, e),
    {
        match outcome {
            IoOutcome::Failed { kind, reason } => {
                if kind == IoKind::AlreadyExists {
                    Ok(())
                } else {
                    let source = self.absolute_path().text();
                    Err(Failure::Link { source, target: self.target.text(), reason })
                }
            },
            IoOutcome::Done => Ok(()),
        }
    }

    /// The result of removing the target: a target that is not there is no
    /// failure, so unlinking twice is harmless.
    pub fn unlinked(&self, outcome: IoOutcome) -> (r: Result<(), Failure>)
        ensures
            r is Ok <==> unlink_ok(outcome),
            r matches Err(e) ==> self.unlink_failure(outcome, e),
    {
        match outcome {
            IoOutcome::Failed { kind, reason } => {
                if kind == IoKind::NotFound {
                    Ok(())
                } else {
                    Err(Failure::Unlink { target: self.target.text(), reason })
                }
            },
            IoOutcome::Done => Ok(()),
        }
    }
}

} // verus!
