use run_that::cache::CacheMeta;
use run_that::config::GitSourceConfig;
use run_that::errors::SourceError;
use run_that::source::{MetaReadResult, ReifyAction, ReifyEvent, ReifySession, RepoSource};
use run_that::strutil::{count_nonempty_lines, find_char, has_suffix, rfind_char, trim_blank};

fn demo_conf() -> GitSourceConfig {
    GitSourceConfig {
        url: "https://example.com/repos/demo.git".to_string(),
        reference: "main".to_string(),
    }
}

fn now_ts() -> i64 {
    chrono::Utc::now().timestamp()
}

/// Opens a session and returns it with its cache directory.
fn opened_session() -> (ReifySession, String) {
    let conf = demo_conf();
    let (session, action) = conf.begin_reify();
    let cache_path = match action {
        ReifyAction::EnsureCacheDir { path } => path,
        other => panic!("expected EnsureCacheDir, got {:?}", other),
    };
    (session, cache_path)
}

#[test]
fn repo_name_strips_git_suffix_after_last_slash() {
    let conf = GitSourceConfig {
        url: "git@gitlab.com:dghilardi/demo-1.git".to_string(),
        reference: "12345".to_string(),
    };
    assert_eq!(conf.repo_name(), "demo-1");
    let plain = GitSourceConfig { url: "hello".to_string(), reference: "r".to_string() };
    assert_eq!(plain.repo_name(), "hello");
    let no_suffix = GitSourceConfig {
        url: "https://example.com/tools".to_string(),
        reference: "r".to_string(),
    };
    assert_eq!(no_suffix.repo_name(), "tools");
}

#[test]
fn repo_hash_is_the_sha256_hex_of_the_url() {
    let conf = GitSourceConfig { url: "hello".to_string(), reference: "r".to_string() };
    assert_eq!(
        conf.repo_hash(),
        "2cf24dba5fb0a30e26e83b2ac5b9e29e1b161e5c1fa7425e73043362938b9824"
    );
}

#[test]
fn cache_dir_is_deterministic_in_root_name_and_hash() {
    let conf = GitSourceConfig { url: "hello".to_string(), reference: "r".to_string() };
    assert_eq!(
        conf.cache_dir_under("/cache"),
        "/cache/run-that/git/hello-2cf24dba5fb0a30e26e83b2ac5b9e29e1b161e5c1fa7425e73043362938b9824"
    );
}

#[test]
fn cold_cache_runs_one_clone_then_adds_worktree() {
    let (mut session, cache_path) = opened_session();
    let head_dir = format!("{cache_path}/HEAD");
    let worktree = format!("{cache_path}/main");

    let a = session.step(ReifyEvent::DirEnsured { ok: true });
    match a {
        ReifyAction::LoadMeta { path } => assert_eq!(path, format!("{cache_path}/meta.toml")),
        other => panic!("expected LoadMeta, got {:?}", other),
    }
    let a = session.step(ReifyEvent::MetaLoaded { result: MetaReadResult::Absent });
    match a {
        ReifyAction::ProbeHeadDir { path } => assert_eq!(path, head_dir),
        other => panic!("expected ProbeHeadDir, got {:?}", other),
    }
    let a = session.step(ReifyEvent::Probed { exists: false });
    match a {
        ReifyAction::CloneHead { url, dest } => {
            assert_eq!(url, "https://example.com/repos/demo.git");
            assert_eq!(dest, head_dir);
        },
        other => panic!("expected CloneHead, got {:?}", other),
    }
    let a = session.step(ReifyEvent::GitFinished { success: true, status: Some(0) });
    match a {
        ReifyAction::StoreMeta { path, .. } => assert_eq!(path, format!("{cache_path}/meta.toml")),
        other => panic!("expected StoreMeta, got {:?}", other),
    }
    let a = session.step(ReifyEvent::MetaStored { ok: true });
    match a {
        ReifyAction::ProbeWorktree { path } => assert_eq!(path, worktree),
        other => panic!("expected ProbeWorktree, got {:?}", other),
    }
    let a = session.step(ReifyEvent::Probed { exists: false });
    match a {
        ReifyAction::AddWorktree { head_dir: h, worktree_dir, reference } => {
            assert_eq!(h, head_dir);
            assert_eq!(worktree_dir, worktree);
            assert_eq!(reference, "main");
        },
        other => panic!("expected AddWorktree, got {:?}", other),
    }
    let a = session.step(ReifyEvent::GitFinished { success: true, status: Some(0) });
    match a {
        ReifyAction::RevParse { dir, commit_ref } => {
            assert_eq!(dir, worktree);
            assert_eq!(commit_ref, "HEAD");
        },
        other => panic!("expected RevParse, got {:?}", other),
    }
    let a = session.step(ReifyEvent::RevParsed { output: Some("abc123\n".to_string()), status: Some(0) });
    match a {
        ReifyAction::RevParse { dir, commit_ref } => {
            assert_eq!(dir, worktree);
            assert_eq!(commit_ref, "origin/HEAD");
        },
        other => panic!("expected RevParse, got {:?}", other),
    }
    let a = session.step(ReifyEvent::RevParsed { output: Some("def456\n".to_string()), status: Some(0) });
    match a {
        ReifyAction::RevList { dir, range } => {
            assert_eq!(dir, worktree);
            assert_eq!(range, "abc123...def456");
        },
        other => panic!("expected RevList, got {:?}", other),
    }
    let a = session.step(ReifyEvent::RevListed {
        output: Some("c1\nc2\nc3\n".to_string()),
        status: Some(0),
    });
    match a {
        ReifyAction::Finish { path, drift_behind } => {
            assert_eq!(path, worktree);
            assert_eq!(drift_behind, Some(3));
        },
        other => panic!("expected Finish, got {:?}", other),
    }
}

#[test]
fn fresh_cache_with_worktree_skips_network_update() {
    let (mut session, cache_path) = opened_session();
    let worktree = format!("{cache_path}/main");

    session.step(ReifyEvent::DirEnsured { ok: true });
    let a = session.step(ReifyEvent::MetaLoaded {
        result: MetaReadResult::Present { meta: CacheMeta { last_update: now_ts() } },
    });
    match a {
        ReifyAction::ProbeWorktree { path } => assert_eq!(path, worktree),
        other => panic!("expected ProbeWorktree, got {:?}", other),
    }
    let a = session.step(ReifyEvent::Probed { exists: true });
    match a {
        ReifyAction::ShowSkipNotice { repo_name } => assert_eq!(repo_name, "demo"),
        other => panic!("expected ShowSkipNotice, got {:?}", other),
    }
    let a = session.step(ReifyEvent::NoticeShown);
    match a {
        ReifyAction::RevParse { commit_ref, .. } => assert_eq!(commit_ref, "HEAD"),
        other => panic!("expected RevParse, got {:?}", other),
    }
    // Equal commits either side, up to surrounding blanks: no drift warning.
    session.step(ReifyEvent::RevParsed { output: Some("abc123\n".to_string()), status: Some(0) });
    let a = session.step(ReifyEvent::RevParsed { output: Some("abc123".to_string()), status: Some(0) });
    match a {
        ReifyAction::Finish { path, drift_behind } => {
            assert_eq!(path, worktree);
            assert_eq!(drift_behind, None);
        },
        other => panic!("expected Finish, got {:?}", other),
    }
}

#[test]
fn stale_cache_pulls_existing_head() {
    let (mut session, _cache_path) = opened_session();
    session.step(ReifyEvent::DirEnsured { ok: true });
    let two_days_ago = now_ts() - 2 * 86400;
    let a = session.step(ReifyEvent::MetaLoaded {
        result: MetaReadResult::Present { meta: CacheMeta { last_update: two_days_ago } },
    });
    assert!(matches!(a, ReifyAction::ProbeWorktree { .. }));
    let a = session.step(ReifyEvent::Probed { exists: true });
    assert!(matches!(a, ReifyAction::ProbeHeadDir { .. }));
    let a = session.step(ReifyEvent::Probed { exists: true });
    assert!(matches!(a, ReifyAction::PullHead { .. }));
}

#[test]
fn fresh_cache_with_missing_worktree_still_updates() {
    let (mut session, _cache_path) = opened_session();
    session.step(ReifyEvent::DirEnsured { ok: true });
    let a = session.step(ReifyEvent::MetaLoaded {
        result: MetaReadResult::Present { meta: CacheMeta { last_update: now_ts() } },
    });
    assert!(matches!(a, ReifyAction::ProbeWorktree { .. }));
    let a = session.step(ReifyEvent::Probed { exists: false });
    assert!(matches!(a, ReifyAction::ProbeHeadDir { .. }));
}

#[test]
fn each_failure_aborts_with_its_source_error() {
    let (mut session, _) = opened_session();
    let a = session.step(ReifyEvent::DirEnsured { ok: false });
    assert!(matches!(a, ReifyAction::Fail { error: SourceError::CacheDirCreation }));

    let (mut session, _) = opened_session();
    session.step(ReifyEvent::DirEnsured { ok: true });
    let a = session.step(ReifyEvent::MetaLoaded { result: MetaReadResult::Unreadable });
    assert!(matches!(a, ReifyAction::Fail { error: SourceError::MetadataRead }));

    let (mut session, _) = opened_session();
    session.step(ReifyEvent::DirEnsured { ok: true });
    session.step(ReifyEvent::MetaLoaded { result: MetaReadResult::Absent });
    session.step(ReifyEvent::Probed { exists: false });
    let a = session.step(ReifyEvent::GitFinished { success: false, status: Some(128) });
    assert!(
        matches!(a, ReifyAction::Fail { error: SourceError::CloneFailed { status: Some(128) } })
    );

    let (mut session, _) = opened_session();
    session.step(ReifyEvent::DirEnsured { ok: true });
    session.step(ReifyEvent::MetaLoaded { result: MetaReadResult::Absent });
    session.step(ReifyEvent::Probed { exists: true });
    let a = session.step(ReifyEvent::GitFinished { success: false, status: None });
    assert!(matches!(a, ReifyAction::Fail { error: SourceError::PullFailed { status: None } }));

    let (mut session, _) = opened_session();
    session.step(ReifyEvent::DirEnsured { ok: true });
    session.step(ReifyEvent::MetaLoaded { result: MetaReadResult::Absent });
    session.step(ReifyEvent::Probed { exists: true });
    session.step(ReifyEvent::GitFinished { success: true, status: Some(0) });
    let a = session.step(ReifyEvent::MetaStored { ok: false });
    assert!(matches!(a, ReifyAction::Fail { error: SourceError::MetadataWrite }));

    let (mut session, _) = opened_session();
    session.step(ReifyEvent::DirEnsured { ok: true });
    session.step(ReifyEvent::MetaLoaded { result: MetaReadResult::Absent });
    session.step(ReifyEvent::Probed { exists: true });
    session.step(ReifyEvent::GitFinished { success: true, status: Some(0) });
    session.step(ReifyEvent::MetaStored { ok: true });
    session.step(ReifyEvent::Probed { exists: false });
    let a = session.step(ReifyEvent::GitFinished { success: false, status: Some(1) });
    assert!(
        matches!(
            a,
            ReifyAction::Fail { error: SourceError::WorktreeAddFailed { status: Some(1) } }
        )
    );

    let (mut session, _) = opened_session();
    session.step(ReifyEvent::DirEnsured { ok: true });
    session.step(ReifyEvent::MetaLoaded { result: MetaReadResult::Absent });
    session.step(ReifyEvent::Probed { exists: true });
    session.step(ReifyEvent::GitFinished { success: true, status: Some(0) });
    session.step(ReifyEvent::MetaStored { ok: true });
    session.step(ReifyEvent::Probed { exists: true });
    let a = session.step(ReifyEvent::RevParsed { output: None, status: Some(2) });
    assert!(
        matches!(a, ReifyAction::Fail { error: SourceError::RevParseFailed { status: Some(2) } })
    );

    let (mut session, _) = opened_session();
    session.step(ReifyEvent::DirEnsured { ok: true });
    session.step(ReifyEvent::MetaLoaded { result: MetaReadResult::Absent });
    session.step(ReifyEvent::Probed { exists: true });
    session.step(ReifyEvent::GitFinished { success: true, status: Some(0) });
    session.step(ReifyEvent::MetaStored { ok: true });
    session.step(ReifyEvent::Probed { exists: true });
    session.step(ReifyEvent::RevParsed { output: Some("a1\n".to_string()), status: Some(0) });
    session.step(ReifyEvent::RevParsed { output: Some("b2\n".to_string()), status: Some(0) });
    let a = session.step(ReifyEvent::RevListed { output: None, status: Some(3) });
    assert!(
        matches!(a, ReifyAction::Fail { error: SourceError::RevListFailed { status: Some(3) } })
    );
}

#[test]
fn empty_rev_list_output_means_no_drift() {
    let (mut session, _) = opened_session();
    session.step(ReifyEvent::DirEnsured { ok: true });
    session.step(ReifyEvent::MetaLoaded { result: MetaReadResult::Absent });
    session.step(ReifyEvent::Probed { exists: true });
    session.step(ReifyEvent::GitFinished { success: true, status: Some(0) });
    session.step(ReifyEvent::MetaStored { ok: true });
    session.step(ReifyEvent::Probed { exists: true });
    session.step(ReifyEvent::RevParsed { output: Some("a1\n".to_string()), status: Some(0) });
    session.step(ReifyEvent::RevParsed { output: Some("b2\n".to_string()), status: Some(0) });
    let a = session.step(ReifyEvent::RevListed { output: Some("\n\n".to_string()), status: Some(0) });
    match a {
        ReifyAction::Finish { drift_behind, .. } => assert_eq!(drift_behind, None),
        other => panic!("expected Finish, got {:?}", other),
    }
}

#[test]
fn two_sessions_for_one_url_share_cache_and_differ_per_reference() {
    let conf_main = demo_conf();
    let conf_dev = GitSourceConfig {
        url: "https://example.com/repos/demo.git".to_string(),
        reference: "dev".to_string(),
    };
    let (_s1, a1) = conf_main.reify();
    let (_s2, a2) = conf_dev.reify();
    let (p1, p2) = match (a1, a2) {
        (ReifyAction::EnsureCacheDir { path: p1 }, ReifyAction::EnsureCacheDir { path: p2 }) => {
            (p1, p2)
        },
        other => panic!("expected two EnsureCacheDir actions, got {:?}", other),
    };
    // One cache directory, hence one HEAD clone; distinct worktrees below it.
    assert_eq!(p1, p2);
    assert_ne!(format!("{p1}/main"), format!("{p2}/dev"));
}

#[test]
fn repeated_reification_is_deterministic_in_the_path() {
    let conf = demo_conf();
    let (_s1, a1) = conf.begin_reify();
    let (_s2, a2) = conf.begin_reify();
    match (a1, a2) {
        (ReifyAction::EnsureCacheDir { path: p1 }, ReifyAction::EnsureCacheDir { path: p2 }) => {
            assert_eq!(p1, p2);
        },
        other => panic!("expected two EnsureCacheDir actions, got {:?}", other),
    }
}

#[test]
fn string_helpers_find_trim_and_count() {
    assert_eq!(find_char("git:rest", ':'), Some(3));
    assert_eq!(find_char("abc", ':'), None);
    assert_eq!(rfind_char("a/b/c", '/'), Some(3));
    assert_eq!(rfind_char("abc", '/'), None);
    assert!(has_suffix("demo.git", ".git"));
    assert!(!has_suffix("demo.gitx", ".git"));
    assert!(!has_suffix("git", ".git"));
    assert_eq!(trim_blank("  abc123\n"), "abc123");
    assert_eq!(trim_blank("\t\n \r"), "");
    assert_eq!(trim_blank("x"), "x");
    assert_eq!(count_nonempty_lines("c1\nc2\nc3\n"), 3);
    assert_eq!(count_nonempty_lines(""), 0);
    assert_eq!(count_nonempty_lines("\n\n"), 0);
    assert_eq!(count_nonempty_lines("one"), 1);
    assert_eq!(count_nonempty_lines("a\n\nb"), 2);
}

#[test]
fn freshness_window_is_one_day() {
    let now = 1_700_000_000_i64;
    assert!(!CacheMeta { last_update: now }.is_stale(now));
    assert!(!CacheMeta { last_update: now - 86400 }.is_stale(now));
    assert!(CacheMeta { last_update: now - 86401 }.is_stale(now));
}
