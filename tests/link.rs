use std::path::Path;

use std::collections::BTreeMap;
use std::path::PathBuf;

use assert_fs::fixture::{
    ChildPath, FileTouch, FileWriteStr, FixtureError, PathChild, PathCreateDir, SymlinkToFile,
};
use assert_fs::TempDir;

use dotfm::config::Config;
use dotfm::error::{Failure, IoKind, IoOutcome};
use dotfm::session::{do_clean, do_link, do_status, Action, Event, Session};
use dotfm::walk::WalkItem;

/// The kind of a failed fixture call, read from the system's error code
/// that its message ends with.
fn outcome(r: Result<(), FixtureError>) -> IoOutcome {
    match r {
        Ok(()) => IoOutcome::Done,
        Err(e) => {
            let reason = e.to_string();
            let kind = if reason.contains("(os error 17)") {
                IoKind::AlreadyExists
            } else if reason.contains("(os error 2)") {
                IoKind::NotFound
            } else {
                IoKind::Other
            };
            IoOutcome::Failed { kind, reason }
        }
    }
}

fn item(d: &ignore::DirEntry) -> WalkItem {
    WalkItem {
        path: d.path().to_string_lossy().into_owned(),
        is_symlink: d.path_is_symlink(),
        is_dir: d.path().is_dir(),
    }
}

/// Runs a link or status session against the real filesystem.
fn run(mut session: Session) -> (Session, Result<(), Failure>) {
    let mut walker = session.walk().walker().build();
    let mut action = Action::NextItem;
    loop {
        let event = match action {
            Action::NextItem => match walker.next() {
                None => Event::WalkDone,
                Some(Err(e)) => Event::WalkFailed(e),
                Some(Ok(d)) => Event::Item(item(&d)),
            },
            Action::CreateDirs(p) => Event::Io(outcome(ChildPath::new(p.text()).create_dir_all())),
            Action::Symlink { source, target } => Event::Io(outcome(
                ChildPath::new(target.text()).symlink_to_file(source.text()),
            )),
            Action::RemoveFile(_) => panic!("removal runs on the simulated disk"),
            Action::ReadLink(p) => Event::LinkRead {
                link: Path::new(&p.text())
                    .read_link()
                    .ok()
                    .map(|l| l.to_string_lossy().into_owned()),
                resolves: Path::new(&p.text()).exists(),
            },
            Action::Finish(r) => return (session, r),
        };
        assert!(session.accepts(&event));
        action = session.step(event);
    }
}

/// What sits at a path of the simulated home directory.
#[derive(Clone, Debug, PartialEq)]
enum Node {
    File,
    Dir,
    Link(String),
}

/// A home directory held in memory, with the usual semantics of the
/// filesystem calls; the repository is still walked on disk.
struct Disk {
    nodes: BTreeMap<PathBuf, Node>,
}

fn failure(kind: IoKind) -> IoOutcome {
    IoOutcome::Failed { kind, reason: format!("{:?}", kind) }
}

impl Disk {
    fn new(home: &Path) -> Disk {
        let mut nodes = BTreeMap::new();
        for a in home.ancestors() {
            nodes.insert(a.to_path_buf(), Node::Dir);
        }
        Disk { nodes }
    }

    fn create_dirs(&mut self, p: &Path) -> IoOutcome {
        let mut chain: Vec<&Path> = p.ancestors().collect();
        chain.reverse();
        for a in chain {
            match self.nodes.get(a) {
                None => {
                    self.nodes.insert(a.to_path_buf(), Node::Dir);
                }
                Some(Node::Dir) => {}
                Some(_) => return failure(IoKind::AlreadyExists),
            }
        }
        IoOutcome::Done
    }

    fn symlink(&mut self, source: &str, target: &Path) -> IoOutcome {
        if self.nodes.contains_key(target) {
            return failure(IoKind::AlreadyExists);
        }
        match target.parent().and_then(|p| self.nodes.get(p)) {
            Some(Node::Dir) => {
                self.nodes.insert(target.to_path_buf(), Node::Link(source.to_string()));
                IoOutcome::Done
            }
            Some(_) => failure(IoKind::Other),
            None => failure(IoKind::NotFound),
        }
    }

    fn remove_file(&mut self, p: &Path) -> IoOutcome {
        match self.nodes.get(p) {
            None => failure(IoKind::NotFound),
            Some(Node::Dir) => failure(IoKind::Other),
            Some(_) => {
                self.nodes.remove(p);
                IoOutcome::Done
            }
        }
    }

    fn read_link(&self, p: &Path) -> Option<String> {
        match self.nodes.get(p) {
            Some(Node::Link(t)) => Some(t.clone()),
            _ => None,
        }
    }

    /// Runs a session whose actions land on this disk.
    fn run(&mut self, mut session: Session) -> (Session, Result<(), Failure>) {
        let mut walker = session.walk().walker().build();
        let mut action = Action::NextItem;
        loop {
            let event = match action {
                Action::NextItem => match walker.next() {
                    None => Event::WalkDone,
                    Some(Err(e)) => Event::WalkFailed(e),
                    Some(Ok(d)) => Event::Item(item(&d)),
                },
                Action::CreateDirs(p) => Event::Io(self.create_dirs(Path::new(&p.text()))),
                Action::Symlink { source, target } => {
                    Event::Io(self.symlink(&source.text(), Path::new(&target.text())))
                }
                Action::RemoveFile(p) => Event::Io(self.remove_file(Path::new(&p.text()))),
                Action::ReadLink(p) => {
                    let link = self.read_link(Path::new(&p.text()));
                    let resolves = match &link {
                        Some(l) => self.nodes.contains_key(Path::new(l)) || Path::new(l).exists(),
                        None => false,
                    };
                    Event::LinkRead { link, resolves }
                }
                Action::Finish(r) => return (session, r),
            };
            assert!(session.accepts(&event));
            action = session.step(event);
        }
    }

    fn at(&self, p: &Path) -> Option<Node> {
        self.nodes.get(p).cloned()
    }
}

fn config(root: &Path, home: &Path) -> Config {
    Config::new(root.to_str().unwrap(), home.to_string_lossy().into_owned())
}

fn link(c: &Config) -> Result<(), Failure> {
    run(do_link(c).unwrap()).1
}

fn status(c: &Config) -> Vec<(String, String, bool)> {
    let (s, r) = run(do_status(c).unwrap());
    assert!(r.is_ok());
    rows(&s)
}

fn rows(s: &Session) -> Vec<(String, String, bool)> {
    s.visited()
        .iter()
        .zip(s.linked().iter())
        .map(|(e, l)| (e.display_relative().to_string(), e.display_target(), *l))
        .collect()
}

#[test]
fn test_do_link() {
    let homedir = TempDir::new().unwrap();
    let tempdir = TempDir::new().unwrap();
    tempdir.child(".vimrc").touch().unwrap();
    let config = config(tempdir.path(), homedir.path());
    link(&config).unwrap();
    assert_eq!(
        homedir.child(".vimrc").path().read_link().unwrap(),
        tempdir.child(".vimrc").path(),
    );
}

#[test]
fn test_clean() {
    let homedir = TempDir::new().unwrap();
    let tempdir = TempDir::new().unwrap();
    tempdir.child(".vimrc").touch().unwrap();
    let config = config(tempdir.path(), homedir.path());
    let mut home = Disk::new(homedir.path());
    let target = homedir.child(".vimrc").path().to_path_buf();

    // Link .vimrc
    assert!(home.run(do_link(&config).unwrap()).1.is_ok());
    assert!(home.at(&target).is_some());

    // Clean .vimrc
    assert!(home.run(do_clean(&config).unwrap()).1.is_ok());
    assert!(home.at(&target).is_none());

    // Ensure the repository's .vimrc is not deleted
    assert!(tempdir.child(".vimrc").path().exists());
}

#[test]
fn link_twice_is_harmless() {
    let home = TempDir::new().unwrap();
    let repo = TempDir::new().unwrap();
    repo.child(".config").child("app").child("rc").touch().unwrap();
    let c = config(repo.path(), home.path());
    link(&c).unwrap();
    let once = home.child(".config/app/rc").path().read_link().unwrap();
    link(&c).unwrap();
    let twice = home.child(".config/app/rc").path().read_link().unwrap();
    assert_eq!(once, twice);
    assert_eq!(once, repo.child(".config/app/rc").path());
}

#[test]
fn link_twice_keeps_the_simulated_disk() {
    let homedir = TempDir::new().unwrap();
    let repo = TempDir::new().unwrap();
    repo.child(".config").child("app").child("rc").touch().unwrap();
    repo.child(".vimrc").touch().unwrap();
    let c = config(repo.path(), homedir.path());
    let mut home = Disk::new(homedir.path());
    assert!(home.run(do_link(&c).unwrap()).1.is_ok());
    let once = home.nodes.clone();
    assert!(home.run(do_link(&c).unwrap()).1.is_ok());
    assert_eq!(home.nodes, once);
}

#[test]
fn clean_without_links_is_harmless() {
    let homedir = TempDir::new().unwrap();
    let repo = TempDir::new().unwrap();
    repo.child(".vimrc").touch().unwrap();
    let c = config(repo.path(), homedir.path());
    let mut home = Disk::new(homedir.path());
    let before = home.nodes.clone();
    assert!(home.run(do_clean(&c).unwrap()).1.is_ok());
    assert!(home.run(do_clean(&c).unwrap()).1.is_ok());
    assert_eq!(home.nodes, before);
    assert!(repo.child(".vimrc").path().exists());
}

#[test]
fn status_round_trip() {
    let homedir = TempDir::new().unwrap();
    let repo = TempDir::new().unwrap();
    repo.child(".vimrc").write_str("set number").unwrap();
    let c = config(repo.path(), homedir.path());
    let target = homedir.child(".vimrc").path().to_string_lossy().into_owned();
    let mut home = Disk::new(homedir.path());
    let (s, _) = home.run(do_status(&c).unwrap());
    assert_eq!(rows(&s), vec![(".vimrc".to_string(), target.clone(), false)]);
    assert!(home.run(do_link(&c).unwrap()).1.is_ok());
    let (s, _) = home.run(do_status(&c).unwrap());
    assert_eq!(rows(&s), vec![(".vimrc".to_string(), target.clone(), true)]);
    assert!(home.run(do_clean(&c).unwrap()).1.is_ok());
    let (s, _) = home.run(do_status(&c).unwrap());
    assert_eq!(rows(&s), vec![(".vimrc".to_string(), target, false)]);
    assert!(repo.child(".vimrc").path().exists());
}

#[test]
fn status_on_disk_after_link() {
    let home = TempDir::new().unwrap();
    let repo = TempDir::new().unwrap();
    repo.child(".vimrc").touch().unwrap();
    let c = config(repo.path(), home.path());
    assert_eq!(status(&c)[0].2, false);
    link(&c).unwrap();
    assert_eq!(status(&c)[0].2, true);
}

#[test]
fn foreign_file_is_not_linked_and_link_keeps_it() {
    let home = TempDir::new().unwrap();
    let repo = TempDir::new().unwrap();
    repo.child(".vimrc").touch().unwrap();
    home.child(".vimrc").write_str("mine").unwrap();
    let c = config(repo.path(), home.path());
    link(&c).unwrap();
    assert_eq!(status(&c)[0].2, false);
    assert!(home.child(".vimrc").path().read_link().is_err());
}

#[test]
fn link_fails_where_a_file_blocks_the_directory() {
    let home = TempDir::new().unwrap();
    let repo = TempDir::new().unwrap();
    repo.child(".config").child("rc").touch().unwrap();
    home.child(".config").write_str("in the way").unwrap();
    let c = config(repo.path(), home.path());
    match link(&c) {
        Err(Failure::Link { source, target, .. }) => {
            assert_eq!(source, repo.child(".config/rc").path().to_string_lossy());
            assert_eq!(target, home.child(".config/rc").path().to_string_lossy());
        }
        _ => panic!("expected a link failure"),
    }
}

#[test]
fn clean_fails_on_a_directory_target() {
    let homedir = TempDir::new().unwrap();
    let repo = TempDir::new().unwrap();
    repo.child("thing").touch().unwrap();
    let c = config(repo.path(), homedir.path());
    let mut home = Disk::new(homedir.path());
    let target = homedir.child("thing").path().to_path_buf();
    home.nodes.insert(target.clone(), Node::Dir);
    match home.run(do_clean(&c).unwrap()).1 {
        Err(Failure::Unlink { target: t, .. }) => {
            assert_eq!(t, target.to_string_lossy());
        }
        _ => panic!("expected an unlink failure"),
    }
    assert_eq!(home.at(&target), Some(Node::Dir));
}

#[test]
fn clean_removes_a_foreign_file() {
    let homedir = TempDir::new().unwrap();
    let repo = TempDir::new().unwrap();
    repo.child(".vimrc").touch().unwrap();
    let c = config(repo.path(), homedir.path());
    let mut home = Disk::new(homedir.path());
    let target = homedir.child(".vimrc").path().to_path_buf();
    home.nodes.insert(target.clone(), Node::File);
    assert!(home.run(do_clean(&c).unwrap()).1.is_ok());
    assert_eq!(home.at(&target), None);
}
