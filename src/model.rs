use vstd::prelude::*;

use crate::entry::{dirs_ok, link_ok, unlink_ok, Entry};
use crate::error::{IoKind, IoOutcome};
use crate::path::{lemma_parse_render, parent_view, parse_spec, parts_wf, path_wf, render, PathView};

verus! {

/// What sits at a path of the model filesystem.
pub ghost enum Node {
    File,
    Dir,
    /// A symbolic link, with the text it holds.
    Link(Seq<char>),
}

/// A filesystem as the link operations see it: what sits at each path.
pub type Disk = Map<PathView, Node>;

/// How a call ended: with success, or a failure of some kind (whatever
/// the system said about it).
pub open spec fn outcome(k: Option<IoKind>) -> IoOutcome {
    match k {
        None => IoOutcome::Done,
        Some(kind) => IoOutcome::Failed { kind, reason: arbitrary() },
    }
}

pub open spec fn parent_of(p: PathView) -> PathView {
    parent_view(p)
}

/// Creating a directory and those above it: a directory that is there
/// already is kept, and anything else in the way is reported as existing.
pub open spec fn create_dirs(d: Disk, p: PathView) -> (Option<IoKind>, Disk) {
    if !d.contains_key(p) {
        (None, d.insert(p, Node::Dir))
    } else if d[p] == Node::Dir {
        (None, d)
    } else {
        (Some(IoKind::AlreadyExists), d)
    }
}

/// Making a symbolic link at `p` that holds `text`: refused when something
/// is there already, or when the directory above is missing or is no
/// directory.
pub open spec fn symlink(d: Disk, text: Seq<char>, p: PathView) -> (Option<IoKind>, Disk) {
    if d.contains_key(p) {
        (Some(IoKind::AlreadyExists), d)
    } else if p.parts.len() > 0 && !d.contains_key(parent_of(p)) {
        (Some(IoKind::NotFound), d)
    } else if p.parts.len() > 0 && d[parent_of(p)] != Node::Dir {
        (Some(IoKind::Other), d)
    } else {
        (None, d.insert(p, Node::Link(text)))
    }
}

/// Removing the file or link at `p`; a directory is refused.
pub open spec fn remove_file(d: Disk, p: PathView) -> (Option<IoKind>, Disk) {
    if !d.contains_key(p) {
        (Some(IoKind::NotFound), d)
    } else if d[p] == Node::Dir {
        (Some(IoKind::Other), d)
    } else {
        (None, d.remove(p))
    }
}

/// Reading `p` as a symbolic link.
pub open spec fn read_link(d: Disk, p: PathView) -> Option<Seq<char>> {
    if d.contains_key(p) {
        match d[p] {
            Node::Link(t) => Some(t),
            _ => None,
        }
    } else {
        None
    }
}

/// Linking `e` on `d` as a link run does it: the directories above the
/// target, then the link, which holds the text of the managed file's path.
/// Gives whether it succeeded and the filesystem after it.
pub open spec fn link_on(e: Entry, d: Disk) -> (bool, Disk) {
    let t = e.target_spec();
    let (dirs, d1) = if t.parts.len() > 0 {
        create_dirs(d, parent_of(t))
    } else {
        (None, d)
    };
    if !dirs_ok(outcome(dirs)) {
        (false, d1)
    } else {
        let (made, d2) = symlink(d1, render(e.source_spec()), t);
        (link_ok(outcome(made)), d2)
    }
}

/// Unlinking `e` on `d` as a clean run does it.
pub open spec fn unlink_on(e: Entry, d: Disk) -> (bool, Disk) {
    let (gone, d1) = remove_file(d, e.target_spec());
    (unlink_ok(outcome(gone)), d1)
}

/// Whether following the link at `p` reaches something that exists.
pub open spec fn resolves(d: Disk, p: PathView) -> bool {
    match read_link(d, p) {
        Some(t) => d.contains_key(parse_spec(t)),
        None => false,
    }
}

/// Whether `e` is linked on `d`, as a status run tells it.
pub open spec fn linked_on(e: Entry, d: Disk) -> bool {
    resolves(d, e.target_spec()) && e.points_here(read_link(d, e.target_spec()))
}

/// Nothing but a directory sits where the directory above the target goes.
pub open spec fn parent_clear(e: Entry, d: Disk) -> bool {
    let t = e.target_spec();
    t.parts.len() > 0 ==> (d.contains_key(parent_of(t)) ==> d[parent_of(t)] == Node::Dir)
}

/// Linking twice leaves the filesystem as linking once does, and the second
/// call fails only when the first did; neither fails when nothing but a
/// directory sits above the target.
pub proof fn lemma_link_idempotent(e: Entry, d: Disk)
    ensures
        link_on(e, link_on(e, d).1) == link_on(e, d),
        parent_clear(e, d) ==> link_on(e, d).0,
{
    let t = e.target_spec();
    let d1 = link_on(e, d).1;
    if t.parts.len() > 0 {
        assert(parent_of(t) != t) by {
            assert(parent_of(t).parts.len() != t.parts.len());
        }
    }
    if t.parts.len() > 0 && !d.contains_key(parent_of(t)) {
        let dd = d.insert(parent_of(t), Node::Dir);
        assert(dd.contains_key(parent_of(t)) && dd[parent_of(t)] == Node::Dir);
        if !dd.contains_key(t) {
            assert(d1 == dd.insert(t, Node::Link(render(e.source_spec()))));
            assert(d1[parent_of(t)] == Node::Dir);
            assert(d1.contains_key(t));
        }
    }
}

/// Unlinking a file whose target is not there succeeds and changes nothing.
pub proof fn lemma_unlink_absent(e: Entry, d: Disk)
    requires
        !d.contains_key(e.target_spec()),
    ensures
        unlink_on(e, d) == (true, d),
{
}

/// The link of a file whose target was free is in place after linking, and
/// gone after unlinking; both succeed.
pub proof fn lemma_round_trip(e: Entry, d: Disk)
    requires
        e.wf(),
        d.contains_key(e.source_spec()),
        !d.contains_key(e.target_spec()),
        parent_clear(e, d),
    ensures
        link_on(e, d).0,
        linked_on(e, link_on(e, d).1),
        unlink_on(e, link_on(e, d).1).0,
        !linked_on(e, unlink_on(e, link_on(e, d).1).1),
{
    let t = e.target_spec();
    let s = e.source_spec();
    lemma_link_idempotent(e, d);
    assert(parts_wf(s.parts)) by {
        if !e.relative_spec().absolute {
            let ps = e.root_spec().parts + e.relative_spec().parts;
            assert forall|i: int| 0 <= i < ps.len() implies crate::path::is_part(#[trigger] ps[i]) by {
                if i < e.root_spec().parts.len() {
                    assert(ps[i] == e.root_spec().parts[i]);
                } else {
                    assert(ps[i] == e.relative_spec().parts[i - e.root_spec().parts.len()]);
                }
            }
        }
    }
    lemma_parse_render(s);
    if t.parts.len() > 0 {
        assert(parent_of(t) != t) by {
            assert(parent_of(t).parts.len() != t.parts.len());
        }
    }
    let d1 = link_on(e, d).1;
    assert(d1.contains_key(t) && d1[t] == Node::Link(render(s)));
    assert(s != t);
    assert(d1.contains_key(s));
}

/// Linking and then unlinking leaves the managed file where it was, as long
/// as it is not the target itself.
pub proof fn lemma_source_kept(e: Entry, d: Disk)
    requires
        d.contains_key(e.source_spec()),
        e.source_spec() != e.target_spec(),
    ensures
        unlink_on(e, link_on(e, d).1).1.contains_key(e.source_spec()),
        unlink_on(e, link_on(e, d).1).1[e.source_spec()] == d[e.source_spec()],
{
    let t = e.target_spec();
    let s = e.source_spec();
    if t.parts.len() > 0 && !d.contains_key(parent_of(t)) {
        assert(parent_of(t) != s);
    }
}

} // verus!
