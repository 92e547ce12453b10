//! The development server: how it reacts to changes of the watched files.
use vstd::prelude::*;

verus! {

/// A failure reported by the file watcher: its kind and the paths involved.
#[derive(Debug, Clone)]
pub struct WatchError {
    pub kind: String,
    pub paths: Vec<String>,
}

/// What the file watcher reports.
#[derive(Debug, Clone)]
pub enum WatchEvent {
    /// Watched files changed.
    Changed,
    /// The watcher failed.
    Failed(Vec<WatchError>),
}

/// A notice printed while the worker reloads.
#[derive(Debug, Clone, Copy, PartialEq, Eq, Structural)]
pub enum Notice {
    Reloading,
    Reloaded,
}

impl Notice {
    pub fn text(&self) -> (r: &'static str)
        ensures
            *self == Notice::Reloading ==> r@ == "Reloading..."@,
            *self == Notice::Reloaded ==> r@ == "Reloaded"@,
    {
        match self {
            Notice::Reloading => "Reloading...",
            Notice::Reloaded => "Reloaded",
        }
    }
}

/// What the development server does, in order.
#[derive(Debug, Clone)]
pub enum DevAction {
    /// Report the kind of a watcher failure.
    ReportKind(String),
    /// Report a path involved in a watcher failure.
    ReportPath(String),
    /// Stop the running worker and wait until it is over.
    StopWorker,
    /// Print a notice.
    Announce(Notice),
    /// Run the build command of the project.
    Build,
    /// Start a worker on the freshly built bundle.
    StartWorker,
}

/// The report of one watcher failure: its kind, then each of its paths.
pub open spec fn error_report(e: WatchError) -> Seq<DevAction> {
    seq![DevAction::ReportKind(e.kind)] + e.paths@.map_values(|p: String| DevAction::ReportPath(p))
}

/// The reports of watcher failures, one after another.
pub open spec fn errors_report(errors: Seq<WatchError>) -> Seq<DevAction>
    decreases errors.len(),
{
    if errors.len() == 0 {
        seq![]
    } else {
        errors_report(errors.drop_last()) + error_report(errors.last())
    }
}

/// Where the report of the `k`-th failure starts in the report of all of
/// them: each earlier failure takes its kind and one line per path.
pub open spec fn report_offset(errors: Seq<WatchError>, k: int) -> int
    decreases k,
{
    if k <= 0 || k > errors.len() {
        0
    } else {
        report_offset(errors, k - 1) + 1 + errors[k - 1].paths@.len()
    }
}

/// The report of one watcher failure is its kind, then each of its paths in
/// order, one per line, and nothing else.
pub proof fn lemma_error_report_layout(e: WatchError)
    ensures
        error_report(e).len() == 1 + e.paths@.len(),
        error_report(e)[0] == DevAction::ReportKind(e.kind),
        forall|i: int|
            0 <= i < e.paths@.len() ==> #[trigger] error_report(e)[1 + i] == DevAction::ReportPath(
                e.paths@[i],
            ),
{
}

proof fn lemma_report_offset_prefix(errors: Seq<WatchError>, k: int)
    requires
        0 <= k < errors.len(),
    ensures
        report_offset(errors, k) == report_offset(errors.drop_last(), k),
    decreases k,
{
    if k > 0 {
        lemma_report_offset_prefix(errors, k - 1);
    }
}

proof fn lemma_report_offset_nonneg(errors: Seq<WatchError>, k: int)
    ensures
        0 <= report_offset(errors, k),
    decreases k,
{
    if k > 0 {
        lemma_report_offset_nonneg(errors, k - 1);
    }
}

proof fn lemma_report_offset_grows(errors: Seq<WatchError>, k: int, j: int)
    requires
        0 <= k < j <= errors.len(),
    ensures
        0 <= report_offset(errors, k),
        report_offset(errors, k) + 1 + errors[k].paths@.len() <= report_offset(errors, j),
    decreases j - k,
{
    lemma_report_offset_nonneg(errors, k);
    if k + 1 < j {
        lemma_report_offset_grows(errors, k, j - 1);
    }
}

/// The report of several watcher failures gives, for each failure in order,
/// its kind at the failure's offset and then each of its paths, and holds
/// nothing else.
pub proof fn lemma_errors_report_layout(errors: Seq<WatchError>)
    ensures
        errors_report(errors).len() == report_offset(errors, errors.len() as int),
        forall|k: int|
            0 <= k < errors.len() ==> errors_report(errors)[#[trigger] report_offset(errors, k)]
                == DevAction::ReportKind(errors[k].kind),
        forall|k: int, i: int|
            0 <= k < errors.len() && 0 <= i < errors[k].paths@.len() ==> errors_report(errors)[
                report_offset(errors, k) + 1 + i] == DevAction::ReportPath(
                #[trigger] errors[k].paths@[i],
            ),
    decreases errors.len(),
{
    if errors.len() > 0 {
        let front = errors.drop_last();
        let last = errors.last();
        let m = errors.len() - 1;
        lemma_errors_report_layout(front);
        lemma_error_report_layout(last);
        assert forall|k: int| 0 <= k < m implies report_offset(errors, k) == report_offset(front, k) by {
            lemma_report_offset_prefix(errors, k);
        }
        lemma_report_offset_prefix(errors, m);
        assert(report_offset(errors, m) == report_offset(front, m));
        let all = errors_report(errors);
        assert(all == errors_report(front) + error_report(last));
        let front_len = errors_report(front).len() as int;
        assert forall|k: int|
            0 <= k < errors.len() implies all[#[trigger] report_offset(errors, k)]
                == DevAction::ReportKind(errors[k].kind) by {
            if k < m {
                assert(front[k] == errors[k]);
                lemma_report_offset_prefix(errors, k);
                lemma_report_offset_grows(front, k, m);
                assert(report_offset(errors, k) < front_len);
                assert(all[report_offset(errors, k)] == errors_report(front)[report_offset(front, k)]);
            } else {
                assert(all[front_len] == error_report(last)[0]);
            }
        }
        assert forall|k: int, i: int|
            0 <= k < errors.len() && 0 <= i < errors[k].paths@.len() implies all[report_offset(
                errors,
                k,
            ) + 1 + i] == DevAction::ReportPath(#[trigger] errors[k].paths@[i]) by {
            if k < m {
                assert(front[k] == errors[k]);
                lemma_report_offset_prefix(errors, k);
                lemma_report_offset_grows(front, k, m);
                assert(report_offset(errors, k) + 1 + i < front_len);
                assert(all[report_offset(errors, k) + 1 + i] == errors_report(front)[report_offset(
                    front,
                    k,
                ) + 1 + i]);
            } else {
                assert(error_report(last)[1 + i] == DevAction::ReportPath(last.paths@[i]));
                assert(all[front_len + 1 + i] == error_report(last)[1 + i]);
            }
        }
    }
}

/// What a reload does: stop the worker if one runs, announce, build,
/// announce, start a new worker.
pub open spec fn reload_actions(worker_running: bool) -> Seq<DevAction> {
    (if worker_running {
        seq![DevAction::StopWorker]
    } else {
        seq![]
    }) + seq![
        DevAction::Announce(Notice::Reloading),
        DevAction::Build,
        DevAction::Announce(Notice::Reloaded),
        DevAction::StartWorker,
    ]
}

/// The state of the development server: whether a worker runs.
#[derive(Debug)]
pub struct DevSession {
    worker_running: bool,
}

impl DevSession {
    pub closed spec fn running(&self) -> bool {
        self.worker_running
    }

    /// The session once the first worker has been started.
    pub fn started() -> (r: DevSession)
        ensures
            r.running(),
    {
        DevSession { worker_running: true }
    }

    /// The actions taken on a report of the watcher.
    ///
    /// A change reloads the worker; a failure is reported, kind then paths,
    /// and leaves the worker as it is.
    pub fn on_event(&mut self, event: WatchEvent) -> (r: Vec<DevAction>)
        ensures
            match event {
                WatchEvent::Changed => r@ == reload_actions(old(self).running())
                    && final(self).running(),
                WatchEvent::Failed(errors) => r@ == errors_report(errors@)
                    && final(self).running() == old(self).running()
                    && r@.len() == report_offset(errors@, errors@.len() as int)
                    && (forall|k: int|
                    0 <= k < errors@.len() ==> r@[#[trigger] report_offset(errors@, k)]
                        == DevAction::ReportKind(errors@[k].kind))
                    && (forall|k: int, i: int|
                    0 <= k < errors@.len() && 0 <= i < errors@[k].paths@.len() ==> r@[report_offset(
                        errors@,
                        k,
                    ) + 1 + i] == DevAction::ReportPath(#[trigger] errors@[k].paths@[i])),
            },
    {
        match event {
            WatchEvent::Changed => {
                let mut actions: Vec<DevAction> = Vec::new();
                if self.worker_running {
                    actions.push(DevAction::StopWorker);
                    self.worker_running = false;
                }
                actions.push(DevAction::Announce(Notice::Reloading));
                actions.push(DevAction::Build);
                actions.push(DevAction::Announce(Notice::Reloaded));
                actions.push(DevAction::StartWorker);
                self.worker_running = true;
                assert(actions@ =~= reload_actions(old(self).running()));
                actions
            },
            WatchEvent::Failed(errors) => {
                proof {
                    lemma_errors_report_layout(errors@);
                }
                report_errors(&errors)
            },
        }
    }
}

/// The report of one watcher failure.
fn report_error(e: &WatchError) -> (r: Vec<DevAction>)
    ensures
        r@ == error_report(*e),
        r@.len() == 1 + e.paths@.len(),
        r@[0] == DevAction::ReportKind(e.kind),
        forall|i: int| 0 <= i < e.paths@.len() ==> #[trigger] r@[1 + i] == DevAction::ReportPath(e.paths@[i]),
{
    proof {
        lemma_error_report_layout(*e);
    }
    let mut r: Vec<DevAction> = Vec::new();
    r.push(DevAction::ReportKind(e.kind.clone()));
    let n = e.paths.len();
    let mut i: usize = 0;
    while i < n
        invariant
            n == e.paths@.len(),
            i <= n,
            r@ == seq![DevAction::ReportKind(e.kind)] + e.paths@.take(i as int).map_values(
                |p: String| DevAction::ReportPath(p),
            ),
        decreases n - i,
    {
        r.push(DevAction::ReportPath(e.paths[i].clone()));
        assert(e.paths@.take(i + 1) =~= e.paths@.take(i as int).push(e.paths@[i as int]));
        i = i + 1;
    }
    assert(e.paths@.take(n as int) =~= e.paths@);
    r
}

/// The reports of watcher failures.
fn report_errors(errors: &Vec<WatchError>) -> (r: Vec<DevAction>)
    ensures
        r@ == errors_report(errors@),
{
    let mut r: Vec<DevAction> = Vec::new();
    let n = errors.len();
    let mut i: usize = 0;
    while i < n
        invariant
            n == errors@.len(),
            i <= n,
            r@ == errors_report(errors@.take(i as int)),
        decreases n - i,
    {
        let mut one = report_error(&errors[i]);
        r.append(&mut one);
        assert(errors@.take(i + 1).drop_last() =~= errors@.take(i as int));
        i = i + 1;
    }
    assert(errors@.take(n as int) =~= errors@);
    r
}

/// A reload stops the worker first exactly when one runs, and always ends by
/// starting a new one.
pub proof fn lemma_reload_restarts_worker(worker_running: bool)
    ensures
        reload_actions(worker_running).last() == DevAction::StartWorker,
        worker_running <==> reload_actions(worker_running)[0] == DevAction::StopWorker,
{
}

} // verus!
