use dotfm::config::Config;
use dotfm::entry::Entry;
use dotfm::error::{Failure, IoKind, IoOutcome};
use dotfm::path::FsPath;
use dotfm::repo::{clone_args, commit_args, DotfilesPath};
use dotfm::session::{do_clean, do_link, do_list, do_status, Action, Event, Mode, Phase};
use dotfm::sync::{contains_text, do_sync, run_and_check_git, GitOutput, SyncAction, SyncPhase};
use dotfm::walk::WalkItem;

fn failed(kind: IoKind) -> IoOutcome {
    IoOutcome::Failed { kind, reason: "boom".to_string() }
}

fn entry() -> Entry {
    Entry::new(
        FsPath::parse("/repo"),
        FsPath::parse(".config/app/rc"),
        FsPath::parse("/home/me/.config/app/rc"),
    )
}

fn file(path: &str) -> Event {
    Event::Item(WalkItem { path: path.to_string(), is_symlink: false, is_dir: false })
}

fn text(p: &FsPath) -> String {
    p.text()
}

#[test]
fn path_parse_drops_empty_and_dot_components() {
    let p = FsPath::parse("/a//b/./c/");
    assert!(p.absolute);
    assert_eq!(p.parts, vec!["a", "b", "c"]);
    assert_eq!(p.text(), "/a/b/c");
    let r = FsPath::parse("x/../y");
    assert!(!r.absolute);
    assert_eq!(r.parts, vec!["x", "..", "y"]);
    assert_eq!(r.text(), "x/../y");
    let e = FsPath::parse("");
    assert!(!e.absolute);
    assert!(e.parts.is_empty());
    assert_eq!(e.text(), "");
    assert_eq!(FsPath::parse("/").text(), "/");
}

#[test]
fn path_join_strip_parent_compare() {
    let base = FsPath::parse("/home/me");
    assert_eq!(base.join(&FsPath::parse("a/b")).text(), "/home/me/a/b");
    assert_eq!(base.join(&FsPath::parse("/abs")).text(), "/abs");
    let full = FsPath::parse("/home/me/a/b");
    assert_eq!(full.strip_prefix(&base).unwrap().text(), "a/b");
    assert!(full.strip_prefix(&FsPath::parse("/home/you")).is_none());
    assert!(full.strip_prefix(&FsPath::parse("home/me")).is_none());
    assert_eq!(full.parent().unwrap().text(), "/home/me/a");
    assert!(FsPath::parse("/").parent().is_none());
    assert!(FsPath::parse("/a/b/").same_as(&FsPath::parse("/a//b")));
    assert!(!FsPath::parse("/a/b").same_as(&FsPath::parse("a/b")));
}

#[test]
fn entry_paths() {
    let e = entry();
    assert_eq!(e.absolute_path().text(), "/repo/.config/app/rc");
    assert_eq!(e.display_relative().to_string(), ".config/app/rc");
    assert_eq!(e.display_target(), "/home/me/.config/app/rc");
    assert_eq!(text(&e.target_parent().unwrap()), "/home/me/.config/app");
    assert_eq!(text(e.relative_path()), ".config/app/rc");
    assert_eq!(text(e.target_path()), "/home/me/.config/app/rc");
}

#[test]
fn entry_is_linked_compares_components() {
    let e = entry();
    assert!(e.is_linked(Some("/repo/.config/app/rc"), true));
    assert!(e.is_linked(Some("/repo//.config/./app/rc"), true));
    assert!(!e.is_linked(Some("/other/.config/app/rc"), true));
    assert!(!e.is_linked(Some("repo/.config/app/rc"), true));
    assert!(!e.is_linked(None, false));
    // a broken link to the right place is not linked
    assert!(!e.is_linked(Some("/repo/.config/app/rc"), false));
}

#[test]
fn entry_outcomes() {
    let e = entry();
    assert!(e.dirs_created(IoOutcome::Done).is_ok());
    assert!(e.dirs_created(failed(IoKind::AlreadyExists)).is_ok());
    match e.dirs_created(failed(IoKind::Other)) {
        Err(Failure::CreateDirs { path, reason }) => {
            assert_eq!(path, "/home/me/.config/app");
            assert_eq!(reason, "boom");
        }
        _ => panic!("expected a directory failure"),
    }
    assert!(e.link_created(IoOutcome::Done).is_ok());
    assert!(e.link_created(failed(IoKind::AlreadyExists)).is_ok());
    match e.link_created(failed(IoKind::NotFound)) {
        Err(Failure::Link { source, target, reason }) => {
            assert_eq!(source, "/repo/.config/app/rc");
            assert_eq!(target, "/home/me/.config/app/rc");
            assert_eq!(reason, "boom");
        }
        _ => panic!("expected a link failure"),
    }
    assert!(e.unlinked(IoOutcome::Done).is_ok());
    assert!(e.unlinked(failed(IoKind::NotFound)).is_ok());
    match e.unlinked(failed(IoKind::AlreadyExists)) {
        Err(Failure::Unlink { target, reason }) => {
            assert_eq!(target, "/home/me/.config/app/rc");
            assert_eq!(reason, "boom");
        }
        _ => panic!("expected an unlink failure"),
    }
}

#[test]
fn config_keeps_paths() {
    let c = Config::new("/repo", "/home/me".to_string());
    assert_eq!(c.root_path(), "/repo");
    assert_eq!(c.home_dir(), "/home/me");
}

#[test]
fn link_session_steps() {
    let c = Config::new("/repo", "/home/me".to_string());
    let mut s = do_link(&c).unwrap();
    assert_eq!(s.mode(), Mode::Link);
    let dir = Event::Item(WalkItem { path: "/repo/sub".to_string(), is_symlink: false, is_dir: true });
    assert!(matches!(s.step(dir), Action::NextItem));
    match s.step(file("/repo/sub/rc")) {
        Action::CreateDirs(p) => assert_eq!(p.text(), "/home/me/sub"),
        _ => panic!("expected the directories first"),
    }
    assert_eq!(s.phase(), Phase::CreatingDirs);
    assert!(!s.accepts(&Event::WalkDone));
    match s.step(Event::Io(failed(IoKind::AlreadyExists))) {
        Action::Symlink { source, target } => {
            assert_eq!(source.text(), "/repo/sub/rc");
            assert_eq!(target.text(), "/home/me/sub/rc");
        }
        _ => panic!("expected the link"),
    }
    assert!(matches!(s.step(Event::Io(failed(IoKind::AlreadyExists))), Action::NextItem));
    assert!(matches!(s.step(Event::WalkDone), Action::Finish(Ok(()))));
    assert_eq!(s.phase(), Phase::Finished);
    assert_eq!(s.visited().len(), 1);
}

#[test]
fn link_session_stops_at_first_failure() {
    let c = Config::new("/repo", "/home/me".to_string());
    let mut s = do_link(&c).unwrap();
    s.step(file("/repo/a"));
    s.step(Event::Io(IoOutcome::Done));
    match s.step(Event::Io(failed(IoKind::Other))) {
        Action::Finish(Err(Failure::Link { target, .. })) => assert_eq!(target, "/home/me/a"),
        _ => panic!("expected the run to fail"),
    }
    assert!(!s.accepts(&file("/repo/b")));
}

#[test]
fn clean_and_status_sessions() {
    let c = Config::new("/repo", "/home/me".to_string());
    let mut s = do_clean(&c).unwrap();
    match s.step(file("/repo/a")) {
        Action::RemoveFile(p) => assert_eq!(p.text(), "/home/me/a"),
        _ => panic!("expected a removal"),
    }
    assert!(matches!(s.step(Event::Io(failed(IoKind::NotFound))), Action::NextItem));
    s.step(file("/repo/b"));
    match s.step(Event::Io(failed(IoKind::Other))) {
        Action::Finish(Err(Failure::Unlink { target, .. })) => assert_eq!(target, "/home/me/b"),
        _ => panic!("expected the run to fail"),
    }

    let mut st = do_status(&c).unwrap();
    match st.step(file("/repo/a")) {
        Action::ReadLink(p) => assert_eq!(p.text(), "/home/me/a"),
        _ => panic!("expected a read"),
    }
    st.step(Event::LinkRead { link: Some("/repo/a".to_string()), resolves: true });
    st.step(file("/repo/b"));
    st.step(Event::LinkRead { link: Some("/repo/elsewhere".to_string()), resolves: true });
    st.step(file("/repo/c"));
    st.step(Event::LinkRead { link: None, resolves: false });
    st.step(file("/repo/d"));
    st.step(Event::LinkRead { link: Some("/repo/d".to_string()), resolves: false });
    assert!(matches!(st.step(Event::WalkDone), Action::Finish(Ok(()))));
    assert_eq!(st.linked(), &vec![true, false, false, false]);

    let mut l = do_list(&c).unwrap();
    assert!(!l.accepts(&file("/other/a")));
    assert!(matches!(l.step(file("/repo/x")), Action::NextItem));
    assert_eq!(l.visited()[0].display_relative().to_string(), "x");
}

fn args(a: &SyncAction) -> Vec<String> {
    match a {
        SyncAction::RunGit { args, dir } => {
            assert_eq!(dir, "/repo");
            args.clone()
        }
        SyncAction::Finish(_) => panic!("expected a git command"),
    }
}

fn ok(out: &str) -> GitOutput {
    GitOutput::Exited { success: true, stdout: out.to_string() }
}

#[test]
fn sync_clean_tree() {
    let c = Config::new("/repo", "/home/me".to_string());
    let (mut s, first) = do_sync(&c);
    assert_eq!(args(&first), vec!["status"]);
    assert_eq!(args(&s.step(ok("nothing to commit"))), vec!["checkout", "master"]);
    assert_eq!(args(&s.step(ok(""))), vec!["pull", "--rebase", "origin", "master"]);
    assert_eq!(args(&s.step(ok(""))), vec!["push", "origin", "master"]);
    assert!(matches!(s.step(ok("")), SyncAction::Finish(Ok(()))));
    assert_eq!(s.phase(), SyncPhase::Finished);
}

#[test]
fn sync_dirty_tree_stashes() {
    let c = Config::new("/repo", "/home/me".to_string());
    let (mut s, _) = do_sync(&c);
    assert_eq!(args(&s.step(ok("\tmodified:   .vimrc\n"))), vec!["stash"]);
    assert_eq!(args(&s.step(ok(""))), vec!["checkout", "master"]);
    assert_eq!(args(&s.step(ok(""))), vec!["pull", "--rebase", "origin", "master"]);
    assert_eq!(args(&s.step(ok(""))), vec!["push", "origin", "master"]);
    assert_eq!(args(&s.step(ok(""))), vec!["stash", "pop"]);
    assert!(matches!(s.step(ok("")), SyncAction::Finish(Ok(()))));
}

#[test]
fn sync_stops_on_failure() {
    let c = Config::new("/repo", "/home/me".to_string());
    let (mut s, _) = do_sync(&c);
    s.step(ok(""));
    s.step(ok(""));
    match s.step(GitOutput::Exited { success: false, stdout: String::new() }) {
        SyncAction::Finish(Err(Failure::GitStatus { command })) => {
            assert_eq!(command, "git pull --rebase origin master")
        }
        _ => panic!("expected a failure"),
    }
    let (mut s2, _) = do_sync(&c);
    match s2.step(GitOutput::NotStarted { reason: "no git".to_string() }) {
        SyncAction::Finish(Err(Failure::GitSpawn { reason })) => assert_eq!(reason, "no git"),
        _ => panic!("expected a failure"),
    }
}

#[test]
fn git_output_checks() {
    let a = vec!["stash".to_string(), "pop".to_string()];
    assert_eq!(run_and_check_git(&a, ok("out")).unwrap(), "out");
    match run_and_check_git(&a, GitOutput::Exited { success: false, stdout: "x".to_string() }) {
        Err(Failure::GitStatus { command }) => assert_eq!(command, "git stash pop"),
        _ => panic!("expected a failure"),
    }
    assert!(contains_text("a modified file", "modified"));
    assert!(contains_text("modified", "modified"));
    assert!(!contains_text("modifie", "modified"));
    assert!(contains_text("anything", ""));
    assert!(!contains_text("", "x"));
}

#[test]
fn repository_helpers() {
    assert_eq!(DotfilesPath::from_home(Some("/home/me/")).as_str(), "/home/me/dotfiles");
    assert_eq!(DotfilesPath::from_home(None).as_str(), "/dotfiles");
    assert_eq!(DotfilesPath::new("/x".to_string()).as_str(), "/x");
    assert_eq!(
        clone_args("alice", "dotfiles", "/home/alice/dotfiles", false),
        vec!["clone", "git@github.com:alice/dotfiles", "/home/alice/dotfiles"]
    );
    assert_eq!(
        clone_args("bob", "cfg", "/d", true),
        vec!["clone", "git@github.com:bob/cfg", "/d", "--depth=1"]
    );
    assert_eq!(commit_args(Some("msg")), vec!["commit", "-A", "-m", "msg"]);
    assert_eq!(commit_args(None), vec!["commit", "-A"]);
}

#[test]
fn path_keeps_a_leading_dot() {
    let p = FsPath::parse("./x/./y");
    assert!(p.here);
    assert!(!p.absolute);
    assert_eq!(p.parts, vec!["x", "y"]);
    assert_eq!(p.text(), "./x/y");
    assert!(!p.same_as(&FsPath::parse("x/y")));
    assert!(p.same_as(&FsPath::parse("././x/y/")));
    let dot = FsPath::parse(".");
    assert!(dot.here);
    assert_eq!(dot.text(), ".");
    assert!(!FsPath::parse(".x").here);
    assert!(!FsPath::parse("/./a").here);
    assert_eq!(FsPath::parse("/./a").text(), "/a");
    assert_eq!(FsPath::parse("").join(&FsPath::parse("./b")).text(), "./b");
    assert_eq!(FsPath::parse("a").join(&FsPath::parse("./b")).text(), "a/b");
    assert_eq!(FsPath::parse("./x/y").strip_prefix(&FsPath::parse("./x")).unwrap().text(), "y");
    assert!(FsPath::parse("./x/y").strip_prefix(&FsPath::parse("x")).is_none());
    assert_eq!(FsPath::parse("/a").strip_prefix(&FsPath::parse("")).unwrap().text(), "/a");
}

#[test]
fn relative_link_text_keeps_its_leading_dot() {
    let e = Entry::new(FsPath::parse("repo"), FsPath::parse("rc"), FsPath::parse("/home/me/rc"));
    assert!(e.is_linked(Some("repo/rc"), true));
    assert!(!e.is_linked(Some("./repo/rc"), true));
}
