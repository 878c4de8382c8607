use cyberguardian::auth::{bearer_token, role_allowed, role_for_credentials, Role};
use cyberguardian::config::{parse_allowlist, AppConfig};
use cyberguardian::jobs::{JobStatus, Phase, QueuedJob, Worker, WorkerAction, WorkerEvent};
use cyberguardian::normalize::{normalize_nmap, NmapHost, NmapPort, NmapRun};
use cyberguardian::rate::RateLimiter;
use cyberguardian::sandbox::ToolError;
use cyberguardian::submit::{check_submission, create_job_audit, CreateJobRequest, SubmitError};

fn allowlist() -> Vec<String> {
    vec!["127.0.0.1/32".to_string(), "localhost".to_string()]
}

fn job(id: i64, target: &str, tool: &str) -> QueuedJob {
    QueuedJob { id, target: target.into(), tool: tool.into(), profile: "safe".into() }
}

fn one_port_scan(ip: &str) -> cyberguardian::models::NormalizedScan {
    normalize_nmap(&NmapRun {
        hosts: vec![NmapHost {
            addr: ip.into(),
            hostnames: vec!["demo.local".into()],
            ports: vec![NmapPort { portid: 80, protocol: "tcp".into(), state: "open".into(), service: Some("http".into()) }],
        }],
    })
}

#[test]
fn out_of_scope_job_is_rejected_directly() {
    let mut w = Worker::new(allowlist());
    match w.step(WorkerEvent::Dequeued(job(1, "10.0.0.5", "nmap"))) {
        WorkerAction::Conclude { job_id, status, scan, audit } => {
            assert_eq!(job_id, 1);
            assert_eq!(status, JobStatus::RejectedScope);
            assert_eq!(status.as_str(), "rejected_scope");
            assert!(scan.is_none());
            assert_eq!(audit.action, "launch_tool");
            assert_eq!(audit.actor, "system");
            assert_eq!(audit.details, "tool=nmap target=10.0.0.5");
        }
        other => panic!("unexpected {:?}", other),
    }
    assert_eq!(w.in_flight(), 1);
    assert!(matches!(w.step(WorkerEvent::Recorded), WorkerAction::Release));
    assert_eq!(w.in_flight(), 0);
    assert_eq!(w.phase(), Phase::Idle);
}

#[test]
fn in_scope_job_runs_to_done() {
    let mut w = Worker::new(allowlist());
    assert!(matches!(w.step(WorkerEvent::Dequeued(job(2, "127.0.0.1", "nmap"))), WorkerAction::MarkRunning { job_id: 2 }));
    assert_eq!(w.status(), JobStatus::Running);
    match w.step(WorkerEvent::RunningWritten(true)) {
        WorkerAction::RunTool { plan } => assert_eq!(plan.program(), "echo"),
        other => panic!("unexpected {:?}", other),
    }
    match w.step(WorkerEvent::ToolFinished(Ok(one_port_scan("127.0.0.1")))) {
        WorkerAction::Conclude { job_id, status, scan: Some(scan), audit } => {
            assert_eq!(job_id, 2);
            assert_eq!(audit.action, "launch_tool");
            assert_eq!(audit.details, "tool=nmap target=127.0.0.1");
            assert_eq!(status.as_str(), "done");
            assert_eq!(scan.assets.len(), 1);
            assert_eq!(scan.services.len(), 1);
            assert_eq!(scan.findings.len(), 1);
            assert_eq!(scan.evidence.len(), 1);
            assert_eq!(scan.findings[0].key, "127.0.0.1:80");
        }
        other => panic!("unexpected {:?}", other),
    }
    assert!(matches!(w.step(WorkerEvent::Recorded), WorkerAction::Release));
    assert_eq!(w.in_flight(), 0);
    let negative = create_job_audit(-17, "x", "me");
    assert_eq!(negative.details, "job_id=-17 target=x");
    assert_eq!(negative.actor, "me");
    let created = create_job_audit(2, "127.0.0.1", "api");
    assert_eq!(created.action, "create_job");
    assert_eq!(created.details, "job_id=2 target=127.0.0.1");
}

#[test]
fn failures_conclude_as_failed() {
    let mut w = Worker::new(allowlist());
    w.step(WorkerEvent::Dequeued(job(3, "localhost", "nmap")));
    match w.step(WorkerEvent::RunningWritten(false)) {
        WorkerAction::Conclude { status, scan: None, .. } => assert_eq!(status, JobStatus::Failed),
        other => panic!("unexpected {:?}", other),
    }
    w.step(WorkerEvent::Recorded);

    w.step(WorkerEvent::Dequeued(job(4, "localhost", "zap")));
    match w.step(WorkerEvent::RunningWritten(true)) {
        WorkerAction::Conclude { status, .. } => assert_eq!(status, JobStatus::Failed),
        other => panic!("unexpected {:?}", other),
    }
    w.step(WorkerEvent::Recorded);

    w.step(WorkerEvent::Dequeued(job(5, "localhost", "unknown")));
    assert!(matches!(w.step(WorkerEvent::RunningWritten(true)), WorkerAction::Conclude { status: JobStatus::Failed, .. }));
    w.step(WorkerEvent::Recorded);

    w.step(WorkerEvent::Dequeued(job(6, "localhost", "nmap")));
    w.step(WorkerEvent::RunningWritten(true));
    match w.step(WorkerEvent::ToolFinished(Err(ToolError::Timeout))) {
        WorkerAction::Conclude { status, scan, .. } => {
            assert_eq!(status.as_str(), "failed");
            assert!(scan.is_none());
        }
        other => panic!("unexpected {:?}", other),
    }
    assert_eq!(w.in_flight(), 1);
    w.step(WorkerEvent::Recorded);
    assert_eq!(w.in_flight(), 0);
}

#[test]
fn out_of_order_events_are_ignored() {
    let mut w = Worker::new(allowlist());
    assert!(matches!(w.step(WorkerEvent::Recorded), WorkerAction::Ignore));
    assert!(matches!(w.step(WorkerEvent::RunningWritten(true)), WorkerAction::Ignore));
    w.step(WorkerEvent::Dequeued(job(7, "localhost", "nmap")));
    assert!(matches!(w.step(WorkerEvent::Dequeued(job(8, "localhost", "nmap"))), WorkerAction::Ignore));
    assert_eq!(w.in_flight(), 1);
}

#[test]
fn request_becomes_queued_job() {
    let req = CreateJobRequest { target: "localhost".into(), tool: "nmap".into(), profile: "safe".into() };
    let job = req.into_job(42);
    assert_eq!(job.id, 42);
    assert_eq!(job.target, "localhost");
    assert_eq!(job.tool, "nmap");
    assert_eq!(job.profile, "safe");
}

#[test]
fn status_names() {
    assert_eq!(JobStatus::Queued.as_str(), "queued");
    assert_eq!(JobStatus::Running.as_str(), "running");
    assert_eq!(JobStatus::Done.as_str(), "done");
    assert_eq!(JobStatus::Failed.as_str(), "failed");
    assert_eq!(JobStatus::RejectedScope.as_str(), "rejected_scope");
}

#[test]
fn submission_checks_in_order() {
    let allow = allowlist();
    let mut lim = RateLimiter::new(1);
    assert_eq!(check_submission(None, "127.0.0.1", &allow, &mut lim), Err(SubmitError::Unauthorized));
    assert_eq!(check_submission(Some(Role::Viewer), "127.0.0.1", &allow, &mut lim), Err(SubmitError::Forbidden));
    assert_eq!(check_submission(Some(Role::Operator), "10.0.0.5", &allow, &mut lim), Err(SubmitError::OutOfScope));
    assert_eq!(lim.recorded(), 0);
    assert_eq!(check_submission(Some(Role::Admin), "127.0.0.1", &allow, &mut lim), Ok(()));
    assert_eq!(check_submission(Some(Role::Admin), "localhost", &allow, &mut lim), Err(SubmitError::RateLimited));
}

#[test]
fn credentials_and_roles() {
    assert_eq!(role_for_credentials("admin", "admin123"), Some(Role::Admin));
    assert_eq!(role_for_credentials("operator", "operator123"), Some(Role::Operator));
    assert_eq!(role_for_credentials("viewer", "viewer123"), Some(Role::Viewer));
    assert_eq!(role_for_credentials("admin", "operator123"), None);
    assert!(role_allowed(Role::Operator, &vec![Role::Admin, Role::Operator]));
    assert!(!role_allowed(Role::Viewer, &vec![Role::Admin, Role::Operator]));
    assert_eq!(Role::Viewer.as_str(), "viewer");
    assert_eq!(bearer_token("Bearer abc"), Some("abc".to_string()));
    assert_eq!(bearer_token("Basic abc"), None);
    assert_eq!(bearer_token("Bearer"), None);
}

#[test]
fn default_config() {
    let cfg = AppConfig::default();
    assert_eq!(cfg.host, "127.0.0.1");
    assert_eq!(cfg.port, 8080);
    assert_eq!(cfg.scope_allowlist, allowlist());
    assert_eq!(cfg.profile_default_timeout_secs, 60);
    assert!(!cfg.feature_zap);
}

#[test]
fn allowlist_text_is_split_and_trimmed() {
    assert_eq!(parse_allowlist(" 127.0.0.1/32 , localhost,10.0.0.0/8 "), vec!["127.0.0.1/32", "localhost", "10.0.0.0/8"]);
    assert_eq!(parse_allowlist(""), vec![""]);
    assert_eq!(parse_allowlist("a,,b,"), vec!["a", "", "b", ""]);
    assert_eq!(parse_allowlist("\tsolo\n"), vec!["solo"]);
}
