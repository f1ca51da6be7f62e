use login_flow::attempt::{Effect, LoginAttemptStatus, LoginMachine, Request};
use login_flow::cookies::{search_for_cookie, AUTH_TOKEN_COOKIE_NAME};
use login_flow::identity::{identity_from_cookie, UserData};
use login_flow::session::{reconcile_fetched, reconcile_stored, ReconcileStep};

fn user(name: &str, admin: bool) -> UserData {
    UserData { username: name.to_string(), admin }
}

fn machine_in(state: &str) -> LoginMachine {
    let mut m = LoginMachine::new();
    match state {
        "initial" => {}
        "no_user" => m.reconciled(None),
        "needs_login" => {
            m.reconciled(None);
            m.request_login();
        }
        "failed" => {
            m.reconciled(None);
            m.request_login();
            m.login_settled(Err("nope".to_string()));
        }
        "succeeded" => m.reconciled(Some(user("alice", false))),
        "needs_logout" => {
            m.reconciled(Some(user("alice", false)));
            m.request_logout();
        }
        _ => unreachable!(),
    }
    m
}

const STATES: [&str; 6] = ["initial", "no_user", "needs_login", "failed", "succeeded", "needs_logout"];

fn allowed(state: &str, r: Request) -> bool {
    matches!(
        (state, r),
        ("no_user", Request::Login) | ("failed", Request::Login) | ("succeeded", Request::Logout) | ("failed", Request::Reset)
    )
}

#[test]
fn unlisted_requests_change_nothing() {
    for state in STATES {
        for r in [Request::Login, Request::Logout, Request::Reset] {
            if allowed(state, r) {
                continue;
            }
            let mut m = machine_in(state);
            let before = m.status().duplicate();
            let published = m.published().as_ref().map(|u| u.duplicate());
            assert_eq!(m.request(r), Effect::Nothing);
            assert_eq!(*m.status(), before);
            assert_eq!(*m.published(), published);
        }
    }
}

#[test]
fn stale_results_change_nothing() {
    for state in STATES {
        let mut m = machine_in(state);
        let before = m.status().duplicate();
        if state != "needs_login" {
            m.login_settled(Ok(user("mallory", true)));
            assert_eq!(*m.status(), before);
        }
        if state != "needs_logout" {
            m.logout_settled(Ok(()));
            assert_eq!(*m.status(), before);
        }
        if state != "initial" {
            m.reconciled(Some(user("mallory", true)));
            assert_eq!(*m.status(), before);
        }
    }
}

#[test]
fn login_resolves_to_succeeded_or_failed() {
    let mut ok = machine_in("needs_login");
    ok.login_settled(Ok(user("bob", true)));
    assert_eq!(*ok.status(), LoginAttemptStatus::Succeeded(user("bob", true)));
    assert_eq!(*ok.published(), Some(user("bob", true)));

    let mut err = machine_in("needs_login");
    err.login_settled(Err("server down".to_string()));
    assert_eq!(*err.status(), LoginAttemptStatus::Failed("server down".to_string()));
    assert_eq!(*err.published(), None);
}

#[test]
fn logout_resolves_to_no_user_either_way() {
    let mut ok = machine_in("needs_logout");
    ok.logout_settled(Ok(()));
    assert_eq!(*ok.status(), LoginAttemptStatus::NoUser);
    let mut err = machine_in("needs_logout");
    err.logout_settled(Err("offline".to_string()));
    assert_eq!(*err.status(), LoginAttemptStatus::NoUser);
    assert_eq!(*err.published(), None);
}

#[test]
fn published_identity_follows_state() {
    for state in STATES {
        let m = machine_in(state);
        match m.status() {
            LoginAttemptStatus::Succeeded(u) => assert_eq!(*m.published(), Some(u.duplicate())),
            _ => assert_eq!(*m.published(), None),
        }
    }
}

#[test]
fn second_login_request_starts_nothing() {
    let mut m = machine_in("no_user");
    assert_eq!(m.request_login(), Effect::CallLogin);
    assert_eq!(m.request_login(), Effect::Nothing);
    assert_eq!(*m.status(), LoginAttemptStatus::NeedsLogin);
}

#[test]
fn login_from_failed_is_allowed() {
    let mut m = machine_in("failed");
    assert_eq!(m.request_login(), Effect::CallLogin);
    assert_eq!(*m.status(), LoginAttemptStatus::NeedsLogin);
}

#[test]
fn login_then_logout_round_trip() {
    let mut m = machine_in("no_user");
    assert_eq!(m.request_login(), Effect::CallLogin);
    m.login_settled(Ok(user("ida", false)));
    assert_eq!(*m.published(), Some(user("ida", false)));
    assert_eq!(m.request_logout(), Effect::CallLogout);
    assert_eq!(*m.status(), LoginAttemptStatus::NeedsLogout);
    m.logout_settled(Err("timeout".to_string()));
    assert_eq!(*m.status(), LoginAttemptStatus::NoUser);
    assert_eq!(*m.published(), None);
}

#[test]
fn startup_without_credential_is_no_user() {
    let mut m = LoginMachine::new();
    match reconcile_stored(&Ok(None)) {
        ReconcileStep::Settled(found) => m.reconciled(found),
        ReconcileStep::FetchIdentity => panic!("no credential is stored"),
    }
    assert_eq!(*m.status(), LoginAttemptStatus::NoUser);
    assert_eq!(*m.published(), None);
}

#[test]
fn startup_storage_error_is_no_user() {
    assert!(matches!(reconcile_stored(&Err("no storage".to_string())), ReconcileStep::Settled(None)));
}

#[test]
fn startup_with_stored_credential() {
    let mut m = LoginMachine::new();
    let stored = search_for_cookie("AUTH_TOKEN=bananas", AUTH_TOKEN_COOKIE_NAME);
    assert_eq!(stored, Some("bananas".to_string()));
    assert!(matches!(reconcile_stored(&Ok(stored.clone())), ReconcileStep::FetchIdentity));
    let fetched = identity_from_cookie(stored);
    m.reconciled(reconcile_fetched(Ok(fetched)));
    let expected = user("bananas", false);
    assert_eq!(*m.status(), LoginAttemptStatus::Succeeded(expected.duplicate()));
    assert_eq!(*m.published(), Some(expected));
}

#[test]
fn startup_identity_error_is_no_user() {
    let mut m = LoginMachine::new();
    m.reconciled(reconcile_fetched(Err("network".to_string())));
    assert_eq!(*m.status(), LoginAttemptStatus::NoUser);
    assert_eq!(reconcile_fetched(Ok(None)), None);
}

#[test]
fn failed_login_then_reset() {
    let mut m = machine_in("no_user");
    m.request_login();
    m.login_settled(Err("Bad username".to_string()));
    assert_eq!(*m.status(), LoginAttemptStatus::Failed("Bad username".to_string()));
    assert_eq!(*m.published(), None);
    m.reset();
    assert_eq!(*m.status(), LoginAttemptStatus::NoUser);
}

#[test]
fn failed_logout_still_logs_out() {
    let mut m = LoginMachine::new();
    m.reconciled(Some(user("alice", false)));
    assert_eq!(m.request_logout(), Effect::CallLogout);
    m.logout_settled(Err("network error".to_string()));
    assert_eq!(*m.status(), LoginAttemptStatus::NoUser);
    assert_eq!(*m.published(), None);
}

#[test]
fn late_reconciliation_does_not_clobber() {
    let mut m = LoginMachine::new();
    m.reconciled(None);
    m.request_login();
    m.reconciled(Some(user("ghost", false)));
    assert_eq!(*m.status(), LoginAttemptStatus::NeedsLogin);
}

#[test]
fn state_labels() {
    assert_eq!(LoginAttemptStatus::Initial.label(), "No status? But why!?");
    assert_eq!(LoginAttemptStatus::NoUser.label(), "Nothing to do");
    assert_eq!(LoginAttemptStatus::NeedsLogin.label(), "Waiting to trigger login...");
    assert_eq!(LoginAttemptStatus::NeedsLogout.label(), "Waiting to trigger logout...");
    assert_eq!(LoginAttemptStatus::Failed("Bad username".to_string()).label(), "Failed with 'Bad username'");
    assert_eq!(LoginAttemptStatus::Succeeded(user("alice", false)).label(), "Succeeded for 'alice'");
}
