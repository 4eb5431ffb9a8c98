use vstd::prelude::*;

use crate::path::{join_spec, parse_spec, render, FsPath};

verus! {

/// Where the dotfiles repository lies.
#[derive(Debug)]
pub struct DotfilesPath {
    path: String,
}

/// The name of the repository directory in the home directory.
pub const REPO_DIR: &'static str = "dotfiles";

/// Where the repository lies when nothing else is said.
pub const FALLBACK_REPO: &'static str = "/dotfiles";

impl DotfilesPath {
    pub closed spec fn view_text(&self) -> Seq<char> {
        self.path@
    }

    pub fn new(path: String) -> (r: DotfilesPath)
        ensures
            r.view_text() == path@,
    {
        DotfilesPath { path }
    }

    /// The default place: `dotfiles` in the home directory, or `/dotfiles`
    /// when there is no home directory.
    pub fn from_home(home: Option<&str>) -> (r: DotfilesPath)
        ensures
            r.view_text() == match home {
                Some(h) => render(join_spec(parse_spec(h@), parse_spec(REPO_DIR@))),
                None => FALLBACK_REPO@,
            },
    {
        match home {
            Some(h) => {
                let base = FsPath::parse(h);
                let path = base.join(&FsPath::parse(REPO_DIR)).text();
                DotfilesPath { path }
            },
            None => DotfilesPath { path: String::from_str(FALLBACK_REPO) },
        }
    }

    pub fn as_str(&self) -> (r: &str)
        ensures
            r@ == self.view_text(),
    {
        self.path.as_str()
    }
}

pub open spec fn views(args: Seq<String>) -> Seq<Seq<char>> {
    args.map_values(|s: String| s@)
}

/// The repository's address on GitHub for `user` and `repo`.
pub open spec fn github_url(user: Seq<char>, repo: Seq<char>) -> Seq<char> {
    "git@github.com:"@ + user + seq!['/'] + repo
}

/// The arguments of `git clone` for the repository `repo` of `user` into
/// `dest`, with only the last commit when `shallow`.
pub fn clone_args(user: &str, repo: &str, dest: &str, shallow: bool) -> (r: Vec<String>)
    ensures
        views(r@) == if shallow {
            seq!["clone"@, github_url(user@, repo@), dest@, "--depth=1"@]
        } else {
            seq!["clone"@, github_url(user@, repo@), dest@]
        },
{
    let mut url = String::from_str("git@github.com:");
    url.append(user);
    url.append("/");
    assert("/"@ =~= seq!['/']) by {
        reveal_strlit("/");
    }
    url.append(repo);
    assert(url@ =~= github_url(user@, repo@));
    let mut r: Vec<String> = Vec::new();
    r.push(String::from_str("clone"));
    r.push(url);
    r.push(String::from_str(dest));
    if shallow {
        r.push(String::from_str("--depth=1"));
    }
    proof {
        assert(views(r@) =~= if shallow {
            seq!["clone"@, github_url(user@, repo@), dest@, "--depth=1"@]
        } else {
            seq!["clone"@, github_url(user@, repo@), dest@]
        });
    }
    r
}

/// The arguments of `git commit` over all changes, with `message` when one
/// is given.
pub fn commit_args(message: Option<&str>) -> (r: Vec<String>)
    ensures
        views(r@) == match message {
            Some(m) => seq!["commit"@, "-A"@, "-m"@, m@],
            None => seq!["commit"@, "-A"@],
        },
{
    let mut r: Vec<String> = Vec::new();
    r.push(String::from_str("commit"));
    r.push(String::from_str("-A"));
    match message {
        Some(m) => {
            r.push(String::from_str("-m"));
            r.push(String::from_str(m));
        },
        None => {},
    }
    proof {
        assert(views(r@) =~= match message {
            Some(m) => seq!["commit"@, "-A"@, "-m"@, m@],
            None => seq!["commit"@, "-A"@],
        });
    }
    r
}

} // verus!
