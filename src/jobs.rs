//! The job dispatcher: the per-job state machine that a single worker runs
//! over the queue, and the in-flight counter it keeps.
use crate::adapters::{sample_nmap_xml, tool_named, ScanRequest, Tool};
use crate::models::NormalizedScan;
use crate::sandbox::{CommandPlan, ToolError};
use crate::scope::{in_scope, in_scope_spec, views};
use vstd::prelude::*;
use vstd::string::StringExecFns;

verus! {

/// A job as submitted: immutable once queued.
#[derive(Clone, Debug)]
pub struct QueuedJob {
    pub id: i64,
    pub target: String,
    pub tool: String,
    pub profile: String,
}

/// Where a job stands. Statuses only move forward: `Queued`, then either
/// `RejectedScope`, or `Running` and then `Done` or `Failed`; or `Failed`
/// straight from `Queued` when the job never got to run.
#[derive(Clone, Copy, Debug, PartialEq, Eq, Structural)]
pub enum JobStatus {
    Queued,
    Running,
    Done,
    Failed,
    RejectedScope,
}

impl JobStatus {
    pub open spec fn text(self) -> Seq<char> {
        match self {
            JobStatus::Queued => "queued"@,
            JobStatus::Running => "running"@,
            JobStatus::Done => "done"@,
            JobStatus::Failed => "failed"@,
            JobStatus::RejectedScope => "rejected_scope"@,
        }
    }

    pub open spec fn is_terminal(self) -> bool {
        self == JobStatus::Done || self == JobStatus::Failed || self == JobStatus::RejectedScope
    }

    /// A job may go from `self` to `next`.
    pub open spec fn may_become(self, next: JobStatus) -> bool {
        match (self, next) {
            (JobStatus::Queued, JobStatus::Running) => true,
            (JobStatus::Queued, JobStatus::RejectedScope) => true,
            (JobStatus::Queued, JobStatus::Failed) => true,
            (JobStatus::Running, JobStatus::Done) => true,
            (JobStatus::Running, JobStatus::Failed) => true,
            _ => false,
        }
    }

    /// The name under which the status is stored and shown.
    pub fn as_str(&self) -> (r: &'static str)
        ensures
            r@ == self.text(),
    {
        match self {
            JobStatus::Queued => "queued",
            JobStatus::Running => "running",
            JobStatus::Done => "done",
            JobStatus::Failed => "failed",
            JobStatus::RejectedScope => "rejected_scope",
        }
    }
}

/// The number of jobs the dispatcher has taken and not yet released.
#[derive(Clone, Copy, Debug, Default)]
pub struct JobRunnerState {
    pub running: usize,
}

/// An entry of the audit log.
#[derive(Clone, Debug)]
pub struct AuditRecord {
    pub action: String,
    pub actor: String,
    pub details: String,
}

/// The audit record of a dispatch: action `launch_tool` by `system`, with
/// details `tool=<tool> target=<target>`.
pub open spec fn launch_audit_spec(tool: Seq<char>, target: Seq<char>) -> (Seq<char>, Seq<char>, Seq<char>) {
    ("launch_tool"@, "system"@, "tool="@ + tool + " target="@ + target)
}

impl AuditRecord {
    pub open spec fn parts(&self) -> (Seq<char>, Seq<char>, Seq<char>) {
        (self.action@, self.actor@, self.details@)
    }
}

/// Builds the audit record of the dispatch of `job`.
pub fn launch_audit(job: &QueuedJob) -> (r: AuditRecord)
    ensures
        r.parts() == launch_audit_spec(job.tool@, job.target@),
{
    let mut details = String::from_str("tool=");
    details.append(job.tool.as_str());
    details.append(" target=");
    details.append(job.target.as_str());
    AuditRecord { action: String::from_str("launch_tool"), actor: String::from_str("system"), details }
}

/// What the worker is waiting for.
#[derive(Clone, Copy, Debug, PartialEq, Eq, Structural)]
pub enum Phase {
    /// No job: ready for the next one from the queue.
    Idle,
    /// The `Running` status is being written.
    Starting,
    /// The tool is running.
    Scanning,
    /// The job has its terminal status; results and audit are being recorded.
    Recording,
}

/// What happened since the worker's last step.
#[derive(Debug)]
pub enum WorkerEvent {
    /// The next job was taken from the queue.
    Dequeued(QueuedJob),
    /// Writing the `Running` status finished; `true` if it succeeded.
    RunningWritten(bool),
    /// The tool run and the normalization of its output finished.
    ToolFinished(Result<NormalizedScan, ToolError>),
    /// The terminal status, results and audit record were written, each on a
    /// best-effort basis: their failures are logged, not reported here.
    Recorded,
}

/// What the worker asks its runtime to do next.
#[derive(Debug)]
pub enum WorkerAction {
    /// Write status `running` for the job, then report `RunningWritten`.
    MarkRunning { job_id: i64 },
    /// Run the cleared command, normalize its output, then report `ToolFinished`.
    RunTool { plan: CommandPlan },
    /// The job is over: persist `scan` if present, write `status`, emit
    /// `audit`, all best-effort; then report `Recorded`.
    Conclude { job_id: i64, status: JobStatus, scan: Option<NormalizedScan>, audit: AuditRecord },
    /// The job is released; the worker is ready for the next one.
    Release,
    /// The event does not fit the worker's phase and was ignored.
    Ignore,
}

/// An event as the state machine sees it.
pub enum EventKind {
    Dequeued { admitted: bool },
    RunningWritten { ok: bool, runnable: bool },
    ToolFinished { ok: bool },
    Recorded,
}

/// The abstract state of a worker: its phase, the status of its current
/// (or last) job, and its in-flight count.
pub struct WorkerModel {
    pub phase: Phase,
    pub status: JobStatus,
    pub in_flight: nat,
}

/// The tool named `name` exists and has a working adapter.
pub open spec fn runnable(name: Seq<char>) -> bool {
    tool_named(name) matches Some(t) && t.supported()
}

/// One step of the state machine.
pub open spec fn model_step(m: WorkerModel, e: EventKind) -> WorkerModel {
    match (m.phase, e) {
        (Phase::Idle, EventKind::Dequeued { admitted }) => if admitted {
            WorkerModel { phase: Phase::Starting, status: JobStatus::Running, in_flight: m.in_flight + 1 }
        } else {
            WorkerModel { phase: Phase::Recording, status: JobStatus::RejectedScope, in_flight: m.in_flight + 1 }
        },
        (Phase::Starting, EventKind::RunningWritten { ok, runnable }) => if ok && runnable {
            WorkerModel { phase: Phase::Scanning, ..m }
        } else {
            WorkerModel { phase: Phase::Recording, status: JobStatus::Failed, ..m }
        },
        (Phase::Scanning, EventKind::ToolFinished { ok }) => WorkerModel {
            phase: Phase::Recording,
            status: if ok { JobStatus::Done } else { JobStatus::Failed },
            ..m
        },
        (Phase::Recording, EventKind::Recorded) => WorkerModel {
            phase: Phase::Idle,
            in_flight: (m.in_flight - 1) as nat,
            ..m
        },
        _ => m,
    }
}

/// The in-flight count is one while a job is held and zero otherwise, and
/// the phase agrees with the status.
pub open spec fn model_wf(m: WorkerModel) -> bool {
    &&& m.in_flight == if m.phase == Phase::Idle { 0nat } else { 1nat }
    &&& m.phase == Phase::Starting ==> m.status == JobStatus::Running
    &&& m.phase == Phase::Scanning ==> m.status == JobStatus::Running
    &&& m.phase == Phase::Recording ==> m.status.is_terminal()
}

/// The state after the events `es`, in order.
pub open spec fn model_run(m: WorkerModel, es: Seq<EventKind>) -> WorkerModel
    decreases es.len(),
{
    if es.len() == 0 {
        m
    } else {
        model_run(model_step(m, es[0]), es.drop_first())
    }
}

/// Every step keeps the state machine well formed.
pub proof fn lemma_step_wf(m: WorkerModel, e: EventKind)
    requires
        model_wf(m),
    ensures
        model_wf(model_step(m, e)),
{
}

/// Whatever mix of jobs is dispatched (rejected, succeeded or failed), the
/// in-flight count never exceeds one and is back to zero whenever the worker
/// is idle again, that is once every job taken has been concluded.
pub proof fn lemma_in_flight_returns_to_zero(m: WorkerModel, es: Seq<EventKind>)
    requires
        model_wf(m),
    ensures
        model_wf(model_run(m, es)),
        model_run(m, es).in_flight <= 1,
        model_run(m, es).phase == Phase::Idle ==> model_run(m, es).in_flight == 0,
    decreases es.len(),
{
    if es.len() > 0 {
        lemma_step_wf(m, es[0]);
        lemma_in_flight_returns_to_zero(model_step(m, es[0]), es.drop_first());
    }
}

/// Within one job the status only moves forward.
pub proof fn lemma_status_forward(m: WorkerModel, e: EventKind)
    requires
        model_wf(m),
        m.phase != Phase::Idle,
    ensures
        model_step(m, e).status == m.status || m.status.may_become(model_step(m, e).status),
{
}

/// A job that fails the scope check at dispatch goes from `Queued` straight
/// to `RejectedScope`, never `Running`, and is then only recorded and released.
pub proof fn lemma_rejected_directly(m: WorkerModel)
    requires
        model_wf(m),
        m.phase == Phase::Idle,
    ensures
        model_step(m, EventKind::Dequeued { admitted: false }).status == JobStatus::RejectedScope,
        JobStatus::Queued.may_become(JobStatus::RejectedScope),
        model_step(m, EventKind::Dequeued { admitted: false }).phase == Phase::Recording,
        forall|e: EventKind| #[trigger] model_step(model_step(m, EventKind::Dequeued { admitted: false }), e).status
            == JobStatus::RejectedScope,
{
}

} // verus!

verus! {

/// A single consumer of the job queue. It holds at most one job at a time
/// and tells its runtime, step by step, what to do with it.
#[derive(Debug)]
pub struct Worker {
    scope_allowlist: Vec<String>,
    state: JobRunnerState,
    phase: Phase,
    status: JobStatus,
    current: Option<QueuedJob>,
}

impl Worker {
    pub closed spec fn model(&self) -> WorkerModel {
        WorkerModel { phase: self.phase, status: self.status, in_flight: self.state.running as nat }
    }

    /// The scope allowlist checked at dispatch.
    pub closed spec fn allowlist(&self) -> Seq<Seq<char>> {
        views(self.scope_allowlist@)
    }

    /// The job held, if any.
    pub closed spec fn job(&self) -> Option<QueuedJob> {
        self.current
    }

    pub open spec fn wf(&self) -> bool {
        &&& model_wf(self.model())
        &&& (self.model().phase == Phase::Idle <==> self.job() is None)
    }

    /// How the state machine sees `e` in the current state.
    pub open spec fn kind_of(&self, e: &WorkerEvent) -> EventKind {
        match e {
            WorkerEvent::Dequeued(job) => EventKind::Dequeued {
                admitted: in_scope_spec(job.target@, self.allowlist()),
            },
            WorkerEvent::RunningWritten(ok) => EventKind::RunningWritten {
                ok: *ok,
                runnable: self.job() matches Some(j) && runnable(j.tool@),
            },
            WorkerEvent::ToolFinished(r) => EventKind::ToolFinished { ok: r is Ok },
            WorkerEvent::Recorded => EventKind::Recorded,
        }
    }

    /// The action that answers `e` in the current state: the one that the
    /// state machine's step calls for, concerning the job held (or taken).
    pub open spec fn answers(&self, e: &WorkerEvent, a: &WorkerAction) -> bool {
        let next = model_step(self.model(), self.kind_of(e));
        match (self.model().phase, e) {
            (Phase::Idle, WorkerEvent::Dequeued(job)) => if next.phase == Phase::Starting {
                a matches WorkerAction::MarkRunning { job_id } && job_id == job.id
            } else {
                concludes(a, job, JobStatus::RejectedScope)
            },
            (Phase::Starting, WorkerEvent::RunningWritten(_)) => match self.job() {
                Some(job) => if next.phase == Phase::Scanning {
                    a matches WorkerAction::RunTool { plan } && plan.wf()
                        && plan.program_spec() == "echo"@
                        && plan.args_spec() == seq![sample_nmap_xml(job.target@)]
                } else {
                    concludes(a, &job, JobStatus::Failed)
                },
                None => false,
            },
            (Phase::Scanning, WorkerEvent::ToolFinished(r)) => match self.job() {
                Some(job) => match r {
                    Ok(scan) => a matches WorkerAction::Conclude { job_id, status, scan: Some(s), audit }
                        && job_id == job.id && status == JobStatus::Done && s@ == scan@
                        && audit.parts() == launch_audit_spec(job.tool@, job.target@),
                    Err(_) => concludes(a, &job, JobStatus::Failed),
                },
                None => false,
            },
            (Phase::Recording, WorkerEvent::Recorded) => a is Release,
            _ => a is Ignore,
        }
    }

    pub fn new(scope_allowlist: Vec<String>) -> (r: Worker)
        ensures
            r.wf(),
            r.model() == (WorkerModel { phase: Phase::Idle, status: JobStatus::Queued, in_flight: 0 }),
            r.allowlist() == views(scope_allowlist@),
    {
        Worker {
            scope_allowlist,
            state: JobRunnerState { running: 0 },
            phase: Phase::Idle,
            status: JobStatus::Queued,
            current: None,
        }
    }

    /// The number of jobs taken and not yet released.
    pub fn in_flight(&self) -> (r: usize)
        ensures
            r == self.model().in_flight,
    {
        self.state.running
    }

    pub fn phase(&self) -> (r: Phase)
        ensures
            r == self.model().phase,
    {
        self.phase
    }

    /// The status of the job held, or of the last one released.
    pub fn status(&self) -> (r: JobStatus)
        ensures
            r == self.model().status,
    {
        self.status
    }

    /// Advances the worker by one event and returns what to do next.
    ///
    /// A dequeued job is counted in flight and checked against the scope
    /// allowlist: out of scope it concludes as `RejectedScope` at once;
    /// otherwise it is marked `Running`. Once that write succeeds, the job's
    /// tool is looked up by name and its adapter's command is cleared to run;
    /// a failed write, an unknown tool or a tool without a working adapter
    /// concludes the job as `Failed`. A finished run concludes it as `Done`
    /// with its results, or as `Failed`. Every conclusion carries the audit
    /// record of the dispatch, and once it is recorded the job is released
    /// and the count goes down by one.
    pub fn step(&mut self, event: WorkerEvent) -> (a: WorkerAction)
        requires
            old(self).wf(),
        ensures
            final(self).wf(),
            final(self).allowlist() == old(self).allowlist(),
            final(self).model() == model_step(old(self).model(), old(self).kind_of(&event)),
            old(self).answers(&event, &a),
    {
        match event {
            WorkerEvent::Dequeued(job) => {
                if self.phase != Phase::Idle {
                    return WorkerAction::Ignore;
                }
                self.state.running = self.state.running + 1;
                if in_scope(job.target.as_str(), &self.scope_allowlist) {
                    self.phase = Phase::Starting;
                    self.status = JobStatus::Running;
                    let job_id = job.id;
                    self.current = Some(job);
                    WorkerAction::MarkRunning { job_id }
                } else {
                    self.phase = Phase::Recording;
                    self.status = JobStatus::RejectedScope;
                    let a = conclusion(&job, JobStatus::RejectedScope);
                    self.current = Some(job);
                    a
                }
            },
            WorkerEvent::RunningWritten(ok) => {
                if self.phase != Phase::Starting {
                    return WorkerAction::Ignore;
                }
                let job = match &self.current {
                    Some(j) => j,
                    None => return WorkerAction::Ignore,
                };
                if ok {
                    match Tool::from_name(job.tool.as_str()) {
                        Some(t) => {
                            let req = ScanRequest { target: job.target.clone(), profile: job.profile.clone() };
                            match t.invocation(&req) {
                                Ok(plan) => {
                                    self.phase = Phase::Scanning;
                                    return WorkerAction::RunTool { plan };
                                },
                                Err(_) => {},
                            }
                        },
                        None => {},
                    }
                }
                let a = conclusion(job, JobStatus::Failed);
                self.phase = Phase::Recording;
                self.status = JobStatus::Failed;
                a
            },
            WorkerEvent::ToolFinished(r) => {
                if self.phase != Phase::Scanning {
                    return WorkerAction::Ignore;
                }
                let job = match &self.current {
                    Some(j) => j,
                    None => return WorkerAction::Ignore,
                };
                self.phase = Phase::Recording;
                match r {
                    Ok(scan) => {
                        self.status = JobStatus::Done;
                        WorkerAction::Conclude {
                            job_id: job.id,
                            status: JobStatus::Done,
                            scan: Some(scan),
                            audit: launch_audit(job),
                        }
                    },
                    Err(_) => {
                        self.status = JobStatus::Failed;
                        conclusion(job, JobStatus::Failed)
                    },
                }
            },
            WorkerEvent::Recorded => {
                if self.phase != Phase::Recording {
                    return WorkerAction::Ignore;
                }
                self.phase = Phase::Idle;
                self.current = None;
                self.state.running = self.state.running - 1;
                WorkerAction::Release
            },
        }
    }
}

/// `a` concludes `job` with `status`, no results, and its dispatch audit record.
pub open spec fn concludes(a: &WorkerAction, job: &QueuedJob, status: JobStatus) -> bool {
    a matches WorkerAction::Conclude { job_id, status: s, scan: None, audit } && job_id == job.id
        && s == status && audit.parts() == launch_audit_spec(job.tool@, job.target@)
}

fn conclusion(job: &QueuedJob, status: JobStatus) -> (a: WorkerAction)
    ensures
        concludes(&a, job, status),
{
    WorkerAction::Conclude { job_id: job.id, status, scan: None, audit: launch_audit(job) }
}

} // verus!
