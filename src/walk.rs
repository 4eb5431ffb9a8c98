use vstd::prelude::*;

use crate::entry::Entry;
use crate::error::Failure;
use crate::path::{join_spec, parse_spec, path_wf, strip_prefix_spec, FsPath, PathView};

verus! {

#[verifier::external_type_specification]
#[verifier::external_body]
pub struct ExOverrideBuilder(ignore::overrides::OverrideBuilder);

#[verifier::external_type_specification]
#[verifier::external_body]
pub struct ExOverride(ignore::overrides::Override);

#[verifier::external_type_specification]
#[verifier::external_body]
pub struct ExWalkBuilder(ignore::WalkBuilder);

/// The glob lines that an override builder has taken so far, in order.
pub uninterp spec fn builder_globs(b: ignore::overrides::OverrideBuilder) -> Seq<Seq<char>>;

/// Whether the globs that an override builder has taken, and those it will
/// take, match case-sensitively.
pub uninterp spec fn builder_case_sensitive(b: ignore::overrides::OverrideBuilder) -> bool;

/// The glob lines that a built override set holds, in order.
pub uninterp spec fn override_globs(o: ignore::overrides::Override) -> Seq<Seq<char>>;

/// The directories that a walk starts from.
pub uninterp spec fn walk_roots(b: ignore::WalkBuilder) -> Seq<Seq<char>>;

/// Whether a walk leaves hidden files out.
pub uninterp spec fn walk_skips_hidden(b: ignore::WalkBuilder) -> bool;

/// The names of the files that hold ignore rules for their directory.
pub uninterp spec fn walk_ignore_files(b: ignore::WalkBuilder) -> Seq<Seq<char>>;

/// The glob lines of the override set that a walk applies.
pub uninterp spec fn walk_override_globs(b: ignore::WalkBuilder) -> Seq<Seq<char>>;

/// Whether a walk visits the entries of each directory in the order of
/// their paths.
pub uninterp spec fn walk_sorted_by_path(b: ignore::WalkBuilder) -> bool;

/// The name of the ignore file that each directory of the repository may hold.
pub const IGNORE_FILE_NAME: &'static str = ".dotfmignore";

/// The override that keeps git's metadata directory at the root out.
pub const EXCLUDE_GIT_DIR: &'static str = "!/.git";

/// The override that keeps the root's ignore file out.
pub const EXCLUDE_IGNORE_FILE: &'static str = "!/.dotfmignore";

/// A glob line that the gitignore parser keeps exactly as given: visible
/// ASCII only, so nothing is trimmed, and not a comment.
pub open spec fn plain_glob(g: Seq<char>) -> bool {
    &&& g.len() > 0
    &&& g[0] != '#'
    &&& forall|i: int| 0 <= i < g.len() ==> '!' <= #[trigger] g[i] <= '~'
}

/// A character with a meaning of its own in a glob.
pub open spec fn glob_meta(c: char) -> bool {
    c == '*' || c == '?' || c == '[' || c == ']' || c == '{' || c == '}' || c == '\\'
}

/// A plain glob line that names paths literally: no glob metacharacter, and
/// something left besides the leading `!` and `/` markers.
pub open spec fn literal_glob(g: Seq<char>) -> bool {
    &&& plain_glob(g)
    &&& forall|i: int| 0 <= i < g.len() ==> !glob_meta(#[trigger] g[i])
    &&& exists|i: int| 0 <= i < g.len() && #[trigger] g[i] != '!' && g[i] != '/'
}

/// Relies on ignore::overrides::OverrideBuilder::new: a builder with no
/// globs, matching case-sensitively relative to `root`.
#[verifier::external_body]
fn override_builder(root: &str) -> (r: ignore::overrides::OverrideBuilder)
    ensures
        builder_globs(r) == Seq::<Seq<char>>::empty(),
        builder_case_sensitive(r),
{
    ignore::overrides::OverrideBuilder::new(root)
}

/// Relies on ignore::overrides::OverrideBuilder::add: a line that is neither
/// blank nor a comment and has no trailing whitespace is parsed as a glob and
/// kept when it parses; on an error nothing is kept. The glob parser only
/// fails on metacharacters (unbalanced classes, alternates, escapes), so a
/// literal line always parses.
#[verifier::external_body]
fn add_override(b: &mut ignore::overrides::OverrideBuilder, glob: &str) -> (r: Result<(), ignore::Error>)
    requires
        plain_glob(glob@),
    ensures
        r is Ok ==> builder_globs(*final(b)) == builder_globs(*old(b)).push(glob@),
        r is Err ==> builder_globs(*final(b)) == builder_globs(*old(b)),
        literal_glob(glob@) ==> r is Ok,
        builder_case_sensitive(*final(b)) == builder_case_sensitive(*old(b)),
{
    b.add(glob).map(|_| ())
}

/// Relies on ignore::overrides::OverrideBuilder::build: the set holds the
/// globs added to the builder. Case-sensitive literal globs are matched as
/// literal strings or base names, which cannot fail to build (only regular
/// expressions can).
#[verifier::external_body]
fn build_override(b: &ignore::overrides::OverrideBuilder) -> (r: Result<ignore::overrides::Override, ignore::Error>)
    ensures
        r matches Ok(o) ==> override_globs(o) == builder_globs(*b),
        builder_case_sensitive(*b) && (forall|i: int|
            0 <= i < builder_globs(*b).len() ==> literal_glob(#[trigger] builder_globs(*b)[i])) ==> r is Ok,
{
    b.build()
}

/// Relies on ignore::WalkBuilder::new: a walk of the tree under `root` that
/// skips hidden files, reads no extra ignore files, has no overrides and
/// does not sort.
#[verifier::external_body]
fn walk_builder(root: &str) -> (r: ignore::WalkBuilder)
    ensures
        walk_roots(r) == seq![root@],
        walk_skips_hidden(r),
        walk_ignore_files(r) == Seq::<Seq<char>>::empty(),
        walk_override_globs(r) == Seq::<Seq<char>>::empty(),
        !walk_sorted_by_path(r),
{
    ignore::WalkBuilder::new(root)
}

/// Relies on ignore::WalkBuilder::hidden: with `false`, hidden files are
/// walked.
#[verifier::external_body]
fn walk_hidden(b: &mut ignore::WalkBuilder, yes: bool)
    ensures
        walk_skips_hidden(*final(b)) == yes,
        walk_roots(*final(b)) == walk_roots(*old(b)),
        walk_ignore_files(*final(b)) == walk_ignore_files(*old(b)),
        walk_override_globs(*final(b)) == walk_override_globs(*old(b)),
        walk_sorted_by_path(*final(b)) == walk_sorted_by_path(*old(b)),
{
    b.hidden(yes);
}

/// Relies on ignore::WalkBuilder::add_custom_ignore_filename: files of this
/// name hold ignore rules for their directory and the ones below it.
#[verifier::external_body]
fn walk_ignore_file(b: &mut ignore::WalkBuilder, name: &str)
    ensures
        walk_ignore_files(*final(b)) == walk_ignore_files(*old(b)).push(name@),
        walk_roots(*final(b)) == walk_roots(*old(b)),
        walk_skips_hidden(*final(b)) == walk_skips_hidden(*old(b)),
        walk_override_globs(*final(b)) == walk_override_globs(*old(b)),
        walk_sorted_by_path(*final(b)) == walk_sorted_by_path(*old(b)),
{
    b.add_custom_ignore_filename(name);
}

/// Relies on ignore::WalkBuilder::overrides: the override set replaces any
/// earlier one and wins over the ignore files.
#[verifier::external_body]
fn walk_overrides(b: &mut ignore::WalkBuilder, o: ignore::overrides::Override)
    ensures
        walk_override_globs(*final(b)) == override_globs(o),
        walk_roots(*final(b)) == walk_roots(*old(b)),
        walk_skips_hidden(*final(b)) == walk_skips_hidden(*old(b)),
        walk_ignore_files(*final(b)) == walk_ignore_files(*old(b)),
        walk_sorted_by_path(*final(b)) == walk_sorted_by_path(*old(b)),
{
    b.overrides(o);
}

/// Relies on ignore::WalkBuilder::sort_by_file_path with `Path::cmp`: the
/// entries of each directory are visited in the order of their paths.
#[verifier::external_body]
fn walk_sorted(b: &mut ignore::WalkBuilder)
    ensures
        walk_sorted_by_path(*final(b)),
        walk_roots(*final(b)) == walk_roots(*old(b)),
        walk_skips_hidden(*final(b)) == walk_skips_hidden(*old(b)),
        walk_ignore_files(*final(b)) == walk_ignore_files(*old(b)),
        walk_override_globs(*final(b)) == walk_override_globs(*old(b)),
{
    b.sort_by_file_path(std::path::Path::cmp);
}

/// The built-in exclusions: git's metadata directory and the ignore file,
/// both at the root.
pub open spec fn builtin_globs() -> Seq<Seq<char>> {
    seq![EXCLUDE_GIT_DIR@, EXCLUDE_IGNORE_FILE@]
}

/// The built-in exclusions for a repository at `root`; their globs are
/// literal, so building them always succeeds.
pub fn builtin_overrides(root: &str) -> (r: Result<ignore::overrides::Override, Failure>)
    ensures
        r matches Ok(o) && override_globs(o) == builtin_globs(),
{
    proof {
        reveal_strlit("!/.git");
        reveal_strlit("!/.dotfmignore");
        assert(literal_glob(EXCLUDE_GIT_DIR@)) by {
            assert(EXCLUDE_GIT_DIR@[2] != '!' && EXCLUDE_GIT_DIR@[2] != '/');
        }
        assert(literal_glob(EXCLUDE_IGNORE_FILE@)) by {
            assert(EXCLUDE_IGNORE_FILE@[2] != '!' && EXCLUDE_IGNORE_FILE@[2] != '/');
        }
    }
    let mut b = override_builder(root);
    match add_override(&mut b, EXCLUDE_GIT_DIR) {
        Ok(()) => {},
        Err(e) => {
            return Err(Failure::Ignore(e));
        },
    }
    match add_override(&mut b, EXCLUDE_IGNORE_FILE) {
        Ok(()) => {},
        Err(e) => {
            return Err(Failure::Ignore(e));
        },
    }
    assert(builder_globs(b) =~= builtin_globs());
    match build_override(&b) {
        Ok(o) => Ok(o),
        Err(e) => Err(Failure::Ignore(e)),
    }
}

/// One path that the walker reported.
#[derive(Debug)]
pub struct WalkItem {
    pub path: String,
    /// The path itself is a symbolic link.
    pub is_symlink: bool,
    /// The path is a directory.
    pub is_dir: bool,
}

/// The traversal of a repository, with the home directory that receives the
/// links.
#[derive(Debug)]
pub struct Walk {
    root: FsPath,
    home: FsPath,
    walker: ignore::WalkBuilder,
}

impl Walk {
    pub closed spec fn root_spec(&self) -> PathView {
        self.root@
    }

    pub closed spec fn home_spec(&self) -> PathView {
        self.home@
    }

    pub open spec fn wf(&self) -> bool {
        path_wf(self.root_spec()) && path_wf(self.home_spec())
    }

    /// The walker that reads the repository.
    pub closed spec fn walker_spec(&self) -> ignore::WalkBuilder {
        self.walker
    }

    /// The walker starts at `root`, walks hidden files, reads the ignore
    /// file of each directory, keeps the built-in exclusions out and visits
    /// siblings in the order of their paths.
    pub open spec fn configured(&self, root: Seq<char>) -> bool {
        let b = self.walker_spec();
        &&& walk_roots(b) == seq![root]
        &&& !walk_skips_hidden(b)
        &&& walk_ignore_files(b) == seq![IGNORE_FILE_NAME@]
        &&& walk_override_globs(b) == builtin_globs()
        &&& walk_sorted_by_path(b)
    }

    /// Whether the walker's `path` lies under the root.
    pub open spec fn holds(&self, path: Seq<char>) -> bool {
        strip_prefix_spec(parse_spec(path), self.root_spec()) is Some
    }

    /// The path of `path` relative to the root.
    pub open spec fn relative_of(&self, path: Seq<char>) -> PathView {
        strip_prefix_spec(parse_spec(path), self.root_spec()).unwrap()
    }

    /// A walk of the repository at `root` that keeps git's metadata and the
    /// root's ignore file out, walks hidden files, reads the ignore file of
    /// each directory and visits siblings in the order of their paths.
    pub fn new(root: &str, home: &str) -> (r: Result<Walk, Failure>)
        ensures
            r matches Ok(w) && w.root_spec() == parse_spec(root@) && w.home_spec() == parse_spec(home@)
                && w.wf() && w.configured(root@),
    {
        let overrides = match builtin_overrides(root) {
            Ok(o) => o,
            Err(e) => {
                return Err(e);
            },
        };
        let mut walker = walk_builder(root);
        walk_hidden(&mut walker, false);
        walk_ignore_file(&mut walker, IGNORE_FILE_NAME);
        walk_overrides(&mut walker, overrides);
        walk_sorted(&mut walker);
        proof {
            reveal_strlit(".dotfmignore");
        }
        assert(walk_ignore_files(walker) =~= seq![IGNORE_FILE_NAME@]);
        Ok(Walk { root: FsPath::parse(root), home: FsPath::parse(home), walker })
    }

    /// The configured walker; building it reads the repository.
    pub fn walker(&self) -> (r: &ignore::WalkBuilder)
        ensures
            *r == self.walker_spec(),
    {
        &self.walker
    }

    pub fn root(&self) -> (r: &FsPath)
        ensures
            r@ == self.root_spec(),
    {
        &self.root
    }

    pub fn home(&self) -> (r: &FsPath)
        ensures
            r@ == self.home_spec(),
    {
        &self.home
    }

    /// Whether the walker's `path` lies under the root.
    pub fn contains(&self, path: &str) -> (r: bool)
        ensures
            r == self.holds(path@),
    {
        FsPath::parse(path).strip_prefix(&self.root).is_some()
    }

    /// The entry for a path that the walker reported, or none for a
    /// directory or a symbolic link, which are never managed.
    pub fn select(&self, item: &WalkItem) -> (r: Option<Entry>)
        requires
            !item.is_symlink && !item.is_dir ==> self.holds(item.path@),
        ensures
            r is None <==> item.is_symlink || item.is_dir,
            r matches Some(e) ==> e.root_spec() == self.root_spec() && e.relative_spec() == self.relative_of(
                item.path@,
            ) && e.target_spec() == join_spec(self.home_spec(), e.relative_spec()),
            self.wf() && r is Some ==> r.unwrap().wf(),
    {
        if item.is_symlink || item.is_dir {
            return None;
        }
        let full = FsPath::parse(item.path.as_str());
        let relative = match full.strip_prefix(&self.root) {
            Some(p) => p,
            None => {
                return None;
            },
        };
        let target = self.home.join(&relative);
        Some(Entry::new(self.root.duplicate(), relative, target))
    }
}

} // verus!
