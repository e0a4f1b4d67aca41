use crabby::{Action, Config, ErrorKind, Event, Failure, Phase, Poller, PullSummary, RepoPulls};

fn config() -> Config {
    Config {
        username: "me".to_string(),
        repos: vec!["a/b".to_string(), "nope".to_string(), "c/d".to_string()],
        token: "SECRET-REDACTED".to_string(),
    }
}

fn failure(kind: ErrorKind, detail: &str) -> Failure {
    Failure { kind, detail: detail.to_string() }
}

fn started() -> Poller {
    let mut p = Poller::new();
    assert!(matches!(p.handle(Event::ConfigLoaded(Ok(config()))), Action::BuildClient { .. }));
    assert!(matches!(p.handle(Event::ClientBuilt(Ok(()))), Action::StartNotifier));
    assert!(matches!(p.handle(Event::NotifierStarted(Ok(()))), Action::Wait));
    assert_eq!(p.phase, Phase::Idle);
    p
}

fn pages() -> Vec<RepoPulls> {
    let refs = started().repos().clone();
    vec![
        RepoPulls {
            repo: refs[0].clone(),
            pulls: vec![PullSummary { number: 1, title: Some("Fix bug".to_string()), requested_reviewers: Some(vec!["me".to_string()]) }],
        },
        RepoPulls {
            repo: refs[1].clone(),
            pulls: vec![PullSummary { number: 2, title: Some("Add feature".to_string()), requested_reviewers: None }],
        },
    ]
}

#[test]
fn startup_hands_over_token_and_repositories() {
    let mut p = Poller::new();
    match p.handle(Event::ConfigLoaded(Ok(config()))) {
        Action::BuildClient { token } => assert_eq!(token, "SECRET-REDACTED"),
        _ => panic!("expected client construction"),
    }
    assert_eq!(p.phase, Phase::BuildingClient);
    assert_eq!(p.username, "me");
    assert_eq!(p.repos().len(), 2);
    assert_eq!(p.repos()[1].repo, "d");
}

#[test]
fn config_parse_error_exits_without_client() {
    let mut p = Poller::new();
    match p.handle(Event::ConfigLoaded(Err(failure(ErrorKind::ConfigParse, "missing field `token`")))) {
        Action::Exit { status, failure: Some(f) } => {
            assert_eq!(status, 1);
            assert_eq!(f.kind, ErrorKind::ConfigParse);
        },
        _ => panic!("expected exit"),
    }
    assert_eq!(p.phase, Phase::Exited { status: 1 });
    assert!(matches!(p.handle(Event::ClientBuilt(Ok(()))), Action::Nothing));
    assert_eq!(p.phase, Phase::Exited { status: 1 });
}

#[test]
fn tick_fetches_then_notifies() {
    let mut p = started();
    assert!(matches!(p.handle(Event::Tick), Action::Fetch));
    assert_eq!(p.phase, Phase::Fetching);
    match p.handle(Event::Fetched(Ok(pages()))) {
        Action::Notify { title, body } => {
            assert_eq!(title, "Pending PR reviews");
            assert_eq!(body, "Review requested\n--------\n[b] #1 Fix bug\n[d] #2 Add feature");
        },
        _ => panic!("expected a notification"),
    }
    assert_eq!(p.phase, Phase::Notifying);
    assert!(matches!(p.handle(Event::Shown(Ok(()))), Action::Wait));
    assert_eq!(p.phase, Phase::Idle);
}

#[test]
fn cancel_between_ticks_exits_zero() {
    let mut p = started();
    assert!(matches!(p.handle(Event::Tick), Action::Fetch));
    assert!(matches!(p.handle(Event::Fetched(Ok(pages()))), Action::Notify { .. }));
    assert!(matches!(p.handle(Event::Shown(Ok(()))), Action::Wait));
    assert!(matches!(p.handle(Event::Cancel), Action::Exit { status: 0, failure: None }));
    assert_eq!(p.phase, Phase::Exited { status: 0 });
    assert!(matches!(p.handle(Event::Tick), Action::Nothing));
    assert_eq!(p.phase, Phase::Exited { status: 0 });
}

#[test]
fn cancel_during_fetch_is_not_observed() {
    let mut p = started();
    assert!(matches!(p.handle(Event::Tick), Action::Fetch));
    assert!(matches!(p.handle(Event::Cancel), Action::Nothing));
    assert_eq!(p.phase, Phase::Fetching);
}

#[test]
fn fetch_failure_exits_nonzero() {
    let mut p = started();
    p.handle(Event::Tick);
    match p.handle(Event::Fetched(Err(failure(ErrorKind::Fetch, "a/b: bad credentials")))) {
        Action::Exit { status, failure: Some(f) } => {
            assert_eq!(status, 1);
            assert_eq!(f.message(), "failed to get blocked: a/b: bad credentials");
        },
        _ => panic!("expected exit"),
    }
}

#[test]
fn notify_failure_exits_nonzero() {
    let mut p = started();
    p.handle(Event::Tick);
    p.handle(Event::Fetched(Ok(vec![])));
    assert!(matches!(p.handle(Event::Shown(Err(failure(ErrorKind::Notify, "no daemon")))), Action::Exit { status: 1, .. }));
    assert_eq!(p.phase, Phase::Exited { status: 1 });
}

#[test]
fn startup_failures_exit_nonzero() {
    let mut p = Poller::new();
    p.handle(Event::ConfigLoaded(Ok(config())));
    assert!(matches!(p.handle(Event::ClientBuilt(Err(failure(ErrorKind::ClientBuild, "tls")))), Action::Exit { status: 1, .. }));
    let mut p = Poller::new();
    p.handle(Event::ConfigLoaded(Ok(config())));
    p.handle(Event::ClientBuilt(Ok(())));
    assert!(matches!(p.handle(Event::NotifierStarted(Err(failure(ErrorKind::Notify, "init")))), Action::Exit { status: 1, .. }));
}

#[test]
fn events_out_of_phase_do_nothing() {
    let mut p = Poller::new();
    assert!(matches!(p.handle(Event::Tick), Action::Nothing));
    assert!(matches!(p.handle(Event::Cancel), Action::Nothing));
    assert_eq!(p.phase, Phase::LoadingConfig);
    let mut p = started();
    assert!(matches!(p.handle(Event::Shown(Ok(()))), Action::Nothing));
    assert_eq!(p.phase, Phase::Idle);
}

#[test]
fn failure_messages() {
    assert_eq!(failure(ErrorKind::Environment, "HOME").message(), "failed to get home dir: HOME");
    assert_eq!(failure(ErrorKind::ConfigRead, "/h/.config/crabby/config.toml").message(), "failed to get config file: /h/.config/crabby/config.toml");
    assert_eq!(failure(ErrorKind::ConfigParse, "x").message(), "failed to parse config: x");
    assert_eq!(failure(ErrorKind::ClientBuild, "x").message(), "failed to build client: x");
    assert_eq!(failure(ErrorKind::Notify, "x").message(), "failed to show notification: x");
}
