use codex_scout::home::{
    credential_path, home_name, Creation, CredentialBase, HomeSearch, HomeStep, LinkMethod,
    LinkStep, CREDENTIALS_FILE, HOME_MODE,
};

#[test]
fn homes_are_named_by_process_and_number() {
    assert_eq!(home_name(4711, 0), "repotracer-codex-home-4711-0");
    assert_eq!(home_name(1, 23), "repotracer-codex-home-1-23");
    assert_ne!(home_name(1, 23), home_name(12, 3));
}

#[test]
fn ten_names_are_tried() {
    let mut search = HomeSearch::new();
    for _ in 0..9 {
        search = match search.tried(Creation::AlreadyExists) {
            HomeStep::Retry(search) => search,
            _ => panic!("no retry"),
        };
    }
    assert!(matches!(search.tried(Creation::AlreadyExists), HomeStep::GiveUp));
    assert!(matches!(HomeSearch::new().tried(Creation::Created), HomeStep::Settle));
    assert!(matches!(HomeSearch::new().tried(Creation::Failed), HomeStep::Fail));
}

#[test]
fn the_configured_home_comes_before_the_users() {
    let configured = Some((CredentialBase::CodexHome, vec!["auth.json".to_string()]));
    assert_eq!(credential_path(true, true), configured);
    assert_eq!(credential_path(true, false), configured);
    assert_eq!(
        credential_path(false, true),
        Some((
            CredentialBase::UserHome,
            vec![".codex".to_string(), "auth.json".to_string()]
        ))
    );
    assert_eq!(credential_path(false, false), None);
}

#[test]
fn links_fall_back_to_a_copy() {
    assert_eq!(LinkMethod::first(true), LinkMethod::SymbolicLink);
    assert_eq!(LinkMethod::first(false), LinkMethod::HardLink);
    assert_eq!(LinkMethod::SymbolicLink.tried(false), LinkStep::Try(LinkMethod::HardLink));
    assert_eq!(LinkMethod::HardLink.tried(false), LinkStep::Try(LinkMethod::Copy));
    assert_eq!(LinkMethod::Copy.tried(false), LinkStep::Fail);
    for method in [LinkMethod::SymbolicLink, LinkMethod::HardLink, LinkMethod::Copy] {
        assert_eq!(method.tried(true), LinkStep::Linked);
    }
}

#[test]
fn only_a_file_is_linked() {
    assert_eq!(LinkStep::start(false, true), LinkStep::NotNeeded);
    assert_eq!(LinkStep::start(false, false), LinkStep::NotNeeded);
    assert_eq!(LinkStep::start(true, true), LinkStep::Try(LinkMethod::SymbolicLink));
    assert_eq!(LinkStep::start(true, false), LinkStep::Try(LinkMethod::HardLink));
    let mut step = LinkStep::start(true, true);
    for linked in [false, false, true] {
        step = match step {
            LinkStep::Try(method) => method.tried(linked),
            _ => panic!("no more ways"),
        };
    }
    assert_eq!(step, LinkStep::Linked);
}

#[test]
fn a_home_is_the_first_directory_that_is_free() {
    let search = match HomeSearch::new().tried(Creation::AlreadyExists) {
        HomeStep::Retry(search) => search,
        _ => panic!("no retry"),
    };
    assert!(matches!(search.tried(Creation::Created), HomeStep::Settle));
}

#[test]
fn a_home_is_private() {
    assert_eq!(HOME_MODE & 0o777, 0o700);
    assert_eq!(CREDENTIALS_FILE, "auth.json");
}
