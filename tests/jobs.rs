use jobflow::control::{relay_step, startup_step, ConnectOutcome, RelayAction, RelayEvent, StartupAction};
use jobflow::error::AppError;
use jobflow::job::JobStatus;
use jobflow::registry::JobRegistry;
use jobflow::users::{LoginOutcome, SignupOutcome, UserStore};
use jobflow::worker::{created_message, done_message, processing_message};

fn s(x: &str) -> String {
    x.to_string()
}

#[test]
fn created_job_is_queued() {
    let mut reg = JobRegistry::new();
    let id = reg.create().expect("fresh identifier");
    assert_eq!(id.len(), 36);
    let r = reg.get(&id);
    assert_eq!(r.id, id);
    assert_eq!(r.status, "queued");
    assert_eq!(reg.lookup(&id), Some(JobStatus::Queued));
}

#[test]
fn unknown_id_is_not_found() {
    let reg = JobRegistry::new();
    let r = reg.get(&s("nonexistent-id"));
    assert_eq!(r.id, "nonexistent-id");
    assert_eq!(r.status, "not_found");
    assert_eq!(reg.lookup(&s("nonexistent-id")), None);
}

#[test]
fn job_runs_through_processing_to_done() {
    let mut reg = JobRegistry::new();
    let id = reg.create().unwrap();
    assert_eq!(reg.get(&id).status, "queued");
    let first = reg.begin_processing(&id).expect("processing event");
    assert_eq!(reg.get(&id).status, "processing");
    let second = reg.complete(&id).expect("done event");
    assert_eq!(reg.get(&id).status, "done");
    assert!(first.contains(&id) && first.contains("processing"));
    assert!(second.contains(&id) && second.contains("done"));
    assert_eq!(first, format!("Job {} is processing", id));
    assert_eq!(second, format!("Job {} is done", id));
}

#[test]
fn two_jobs_complete_independently() {
    let mut reg = JobRegistry::new();
    let a = reg.create().unwrap();
    let b = reg.create().unwrap();
    assert_ne!(a, b);
    assert!(reg.begin_processing(&b).is_some());
    assert!(reg.begin_processing(&a).is_some());
    assert_eq!(reg.get(&a).status, "processing");
    assert!(reg.complete(&b).is_some());
    assert_eq!(reg.get(&a).status, "processing");
    assert_eq!(reg.get(&b).status, "done");
    assert!(reg.complete(&a).is_some());
    assert_eq!(reg.get(&a).status, "done");
    assert_eq!(reg.get(&b).status, "done");
}

#[test]
fn statuses_seen_by_polling_never_regress() {
    let mut reg = JobRegistry::new();
    let id = reg.create().unwrap();
    let order = ["queued", "processing", "done"];
    let mut seen = vec![reg.get(&id).status];
    reg.begin_processing(&id);
    seen.push(reg.get(&id).status);
    seen.push(reg.get(&id).status);
    reg.complete(&id);
    seen.push(reg.get(&id).status);
    let ranks: Vec<usize> = seen.iter().map(|x| order.iter().position(|o| o == x).unwrap()).collect();
    assert!(ranks.windows(2).all(|w| w[0] <= w[1]));
}

#[test]
fn redelivered_id_never_moves_a_job_back() {
    let mut reg = JobRegistry::new();
    let id = reg.create().unwrap();
    assert!(reg.begin_processing(&id).is_some());
    assert_eq!(reg.begin_processing(&id), None);
    assert_eq!(reg.get(&id).status, "processing");
    assert!(reg.complete(&id).is_some());
    assert_eq!(reg.begin_processing(&id), None);
    assert_eq!(reg.get(&id).status, "done");
    assert_eq!(reg.complete(&id), None);
    assert_eq!(reg.get(&id).status, "done");
}

#[test]
fn completing_a_queued_job_changes_nothing() {
    let mut reg = JobRegistry::new();
    let id = reg.create().unwrap();
    assert_eq!(reg.complete(&id), None);
    assert_eq!(reg.get(&id).status, "queued");
}

#[test]
fn message_for_unknown_job_is_discarded() {
    let mut reg = JobRegistry::new();
    assert_eq!(reg.begin_processing(&s("ghost")), None);
    assert_eq!(reg.complete(&s("ghost")), None);
    assert_eq!(reg.get(&s("ghost")).status, "not_found");
}

#[test]
fn insert_never_duplicates_an_identifier() {
    let mut reg = JobRegistry::new();
    assert!(reg.insert_queued(s("j1")));
    assert!(reg.transition(&s("j1"), JobStatus::Done));
    assert!(!reg.insert_queued(s("j1")));
    assert_eq!(reg.get(&s("j1")).status, "done");
    assert!(!reg.transition(&s("j2"), JobStatus::Done));
    assert_eq!(reg.get(&s("j2")).status, "not_found");
}

#[test]
fn status_names() {
    assert_eq!(JobStatus::Queued.name(), "queued");
    assert_eq!(JobStatus::Processing.name(), "processing");
    assert_eq!(JobStatus::Done.name(), "done");
}

#[test]
fn event_and_reply_texts() {
    let id = s("abc");
    assert_eq!(processing_message(&id), "Job abc is processing");
    assert_eq!(done_message(&id), "Job abc is done");
    assert_eq!(created_message(&id), "Job created with id abc");
}

#[test]
fn signup_twice_reports_already_exists() {
    let mut users = UserStore::new();
    assert_eq!(users.signup(s("alice"), s("pw1")), SignupOutcome::Created);
    let again = users.signup(s("alice"), s("pw2"));
    assert_eq!(again, SignupOutcome::AlreadyExists);
    assert_eq!(again.message(), "User already exists");
    assert_eq!(SignupOutcome::Created.message(), "Signup successful");
    assert_eq!(users.login(&s("alice"), &s("pw1")), LoginOutcome::Accepted);
    assert_eq!(users.login(&s("alice"), &s("pw2")), LoginOutcome::Invalid);
}

#[test]
fn login_outcomes() {
    let mut users = UserStore::new();
    assert_eq!(users.login(&s("bob"), &s("x")), LoginOutcome::Invalid);
    users.signup(s("bob"), s("x"));
    assert_eq!(users.login(&s("bob"), &s("x")), LoginOutcome::Accepted);
    assert_eq!(users.login(&s("bob"), &s("y")), LoginOutcome::Invalid);
    assert_eq!(LoginOutcome::Accepted.message(), "Login Successful");
    assert_eq!(LoginOutcome::Invalid.message(), "Invalid credentials");
}

#[test]
fn error_messages() {
    assert_eq!(AppError::Redis(s("connection refused")).message(), "Redis Error: connection refused");
    assert_eq!(AppError::LockError.message(), "Internal System Lock Error");
    assert_eq!(AppError::IdCollision.message(), "Job identifier already in use");
}

#[test]
fn startup_retries_then_gives_up() {
    assert_eq!(startup_step(0, ConnectOutcome::Connected), StartupAction::Listen);
    assert_eq!(startup_step(0, ConnectOutcome::Failed), StartupAction::RetryAfter(1000));
    assert_eq!(startup_step(1, ConnectOutcome::Failed), StartupAction::RetryAfter(2000));
    assert_eq!(startup_step(3, ConnectOutcome::Failed), StartupAction::RetryAfter(4000));
    assert_eq!(startup_step(4, ConnectOutcome::Failed), StartupAction::GiveUp);
    assert_eq!(startup_step(u32::MAX, ConnectOutcome::Failed), StartupAction::GiveUp);
    assert_eq!(startup_step(4, ConnectOutcome::Connected), StartupAction::Listen);
}

#[test]
fn relay_forwards_until_failure() {
    match relay_step(RelayEvent::Received(s("Job x is done"))) {
        RelayAction::Send(m) => assert_eq!(m, "Job x is done"),
        RelayAction::Stop => panic!("expected a send"),
    }
    assert!(matches!(relay_step(RelayEvent::Lagged(3)), RelayAction::Stop));
    assert!(matches!(relay_step(RelayEvent::Closed), RelayAction::Stop));
    assert!(matches!(relay_step(RelayEvent::SendFailed), RelayAction::Stop));
}
