//! The staged launch pipeline, as a machine from state and event to next
//! state and action. The host runs the callbacks and emits the events; every
//! decision on what happens next is made here.
use vstd::prelude::*;
use vstd::string::StringExecFns;

verus! {

/// The outcome record of one launch.
pub struct LaunchOutcome {
    pub status: String,
    pub message: String,
    pub url: String,
    pub version: String,
}

pub ghost struct OutcomeView {
    pub status: Seq<char>,
    pub message: Seq<char>,
    pub url: Seq<char>,
    pub version: Seq<char>,
}

impl View for LaunchOutcome {
    type V = OutcomeView;

    open spec fn view(&self) -> OutcomeView {
        OutcomeView {
            status: self.status@,
            message: self.message@,
            url: self.url@,
            version: self.version@,
        }
    }
}

/// Whether `version` is one that the engine knows how to start.
pub open spec fn known_version(version: Seq<char>) -> bool {
    version == "1.8"@ || version == "1.12"@
}

/// The status that the engine start reports for `version`.
pub open spec fn start_status(version: Seq<char>) -> Seq<char> {
    if known_version(version) {
        "ok"@
    } else {
        "error"@
    }
}

/// The message that the engine start reports for `version`.
pub open spec fn start_message(version: Seq<char>) -> Seq<char> {
    if version == "1.8"@ {
        "mc18 engine started (stub)"@
    } else if version == "1.12"@ {
        "mc1.12 engine started (stub)"@
    } else {
        "unknown version: "@ + version
    }
}

/// The outcome of the engine start stage.
pub open spec fn started_outcome(version: Seq<char>, url: Seq<char>) -> OutcomeView {
    OutcomeView { status: start_status(version), message: start_message(version), url, version }
}

/// The outcome that replaces the pipeline's result when a hook fails.
pub open spec fn failed_outcome(version: Seq<char>, url: Seq<char>, message: Seq<char>) -> OutcomeView {
    OutcomeView { status: "error"@, message, url, version }
}

/// Starts the engine for `version`: a fixed status and message per known
/// version, and an error status naming any other.
pub fn internal_start_engine_stub(version: &str) -> (r: (String, String))
    ensures
        r.0@ == start_status(version@),
        r.1@ == start_message(version@),
{
    let v = version.to_owned();
    if v == "1.8".to_owned() {
        ("ok".to_owned(), "mc18 engine started (stub)".to_owned())
    } else if v == "1.12".to_owned() {
        ("ok".to_owned(), "mc1.12 engine started (stub)".to_owned())
    } else {
        ("error".to_owned(), "unknown version: ".to_owned().concat(version))
    }
}

/// The hook that a launch in progress waits on.
pub enum Waiting {
    /// The pack loader has been invoked.
    PackLoader,
    /// The engine has started with outcome `started`, and the launch notifier
    /// has been invoked.
    Notifier { started: LaunchOutcome },
}

pub ghost enum WaitingView {
    PackLoader,
    Notifier { started: OutcomeView },
}

impl View for Waiting {
    type V = WaitingView;

    open spec fn view(&self) -> WaitingView {
        match self {
            Waiting::PackLoader => WaitingView::PackLoader,
            Waiting::Notifier { started } => WaitingView::Notifier { started: started@ },
        }
    }
}

/// A launch in progress: its version id, the target resolved for it once at
/// the start, and the hook it waits on.
pub struct LaunchRun {
    pub version: String,
    pub url: String,
    pub waiting: Waiting,
}

pub ghost struct RunView {
    pub version: Seq<char>,
    pub url: Seq<char>,
    pub waiting: WaitingView,
}

impl View for LaunchRun {
    type V = RunView;

    open spec fn view(&self) -> RunView {
        RunView { version: self.version@, url: self.url@, waiting: self.waiting@ }
    }
}

/// How the invoked hook's result settled, whether it came at once or later.
pub enum Settled {
    Succeeded,
    /// The hook raised, or its deferred result was rejected, with this value.
    Failed(String),
}

pub ghost enum SettledView {
    Succeeded,
    Failed(Seq<char>),
}

impl View for Settled {
    type V = SettledView;

    open spec fn view(&self) -> SettledView {
        match self {
            Settled::Succeeded => SettledView::Succeeded,
            Settled::Failed(m) => SettledView::Failed(m@),
        }
    }
}

/// An event to hand to its listener.
pub enum Emission {
    /// "pack_load_failed", with the pack loader's failure value.
    PackLoadFailed(String),
    /// "engine_started", with the outcome of the engine start.
    EngineStarted(LaunchOutcome),
    /// "launcher_failed", with the launch notifier's failure value.
    LauncherFailed(String),
}

pub ghost enum EmissionView {
    PackLoadFailed(Seq<char>),
    EngineStarted(OutcomeView),
    LauncherFailed(Seq<char>),
}

impl View for Emission {
    type V = EmissionView;

    open spec fn view(&self) -> EmissionView {
        match self {
            Emission::PackLoadFailed(m) => EmissionView::PackLoadFailed(m@),
            Emission::EngineStarted(o) => EmissionView::EngineStarted(o@),
            Emission::LauncherFailed(m) => EmissionView::LauncherFailed(m@),
        }
    }
}

/// The event name under which an emission is dispatched.
pub open spec fn event_name(e: EmissionView) -> Seq<char> {
    match e {
        EmissionView::PackLoadFailed(_) => "pack_load_failed"@,
        EmissionView::EngineStarted(_) => "engine_started"@,
        EmissionView::LauncherFailed(_) => "launcher_failed"@,
    }
}

impl Emission {
    pub fn event_name(&self) -> (r: String)
        ensures
            r@ == event_name(self@),
    {
        match self {
            Emission::PackLoadFailed(_) => "pack_load_failed".to_owned(),
            Emission::EngineStarted(_) => "engine_started".to_owned(),
            Emission::LauncherFailed(_) => "launcher_failed".to_owned(),
        }
    }
}

/// What the host does after a step.
pub enum Next {
    /// Invoke the hook that the run waits on with (version, url), and feed
    /// how its result settled back in.
    Invoke(LaunchRun),
    /// The launch is over with this outcome.
    Finish(LaunchOutcome),
}

pub ghost enum NextView {
    Invoke(RunView),
    Finish(OutcomeView),
}

impl View for Next {
    type V = NextView;

    open spec fn view(&self) -> NextView {
        match self {
            Next::Invoke(run) => NextView::Invoke(run@),
            Next::Finish(o) => NextView::Finish(o@),
        }
    }
}

/// One step of a launch: at most one event to emit first, then what follows.
pub struct Step {
    pub emission: Option<Emission>,
    pub next: Next,
}

pub ghost struct StepView {
    pub emission: Option<EmissionView>,
    pub next: NextView,
}

impl View for Step {
    type V = StepView;

    open spec fn view(&self) -> StepView {
        StepView {
            emission: match self.emission {
                Some(e) => Some(e@),
                None => None,
            },
            next: self.next@,
        }
    }
}

/// The pack-loading stage has passed or was skipped: the engine starts,
/// "engine_started" goes out with its outcome, and the launch notifier runs
/// if there is one.
pub open spec fn engine_step(version: Seq<char>, url: Seq<char>, notifier_set: bool) -> StepView {
    let o = started_outcome(version, url);
    StepView {
        emission: Some(EmissionView::EngineStarted(o)),
        next: if notifier_set {
            NextView::Invoke(RunView { version, url, waiting: WaitingView::Notifier { started: o } })
        } else {
            NextView::Finish(o)
        },
    }
}

/// The first step of a launch of `version`: resolve its target, then invoke
/// the pack loader if there is one, else start the engine.
pub open spec fn begin_step(
    targets: Map<Seq<char>, Seq<char>>,
    loader_set: bool,
    notifier_set: bool,
    version: Seq<char>,
) -> StepView {
    let url = crate::registry::resolve(targets, version);
    if loader_set {
        StepView {
            emission: None,
            next: NextView::Invoke(RunView { version, url, waiting: WaitingView::PackLoader }),
        }
    } else {
        engine_step(version, url, notifier_set)
    }
}

/// The step after the hook that `run` waits on has settled.
pub open spec fn resume_step(run: RunView, settled: SettledView, notifier_set: bool) -> StepView {
    match settled {
        SettledView::Failed(m) => StepView {
            emission: Some(
                match run.waiting {
                    WaitingView::PackLoader => EmissionView::PackLoadFailed(m),
                    WaitingView::Notifier { .. } => EmissionView::LauncherFailed(m),
                },
            ),
            next: NextView::Finish(failed_outcome(run.version, run.url, m)),
        },
        SettledView::Succeeded => match run.waiting {
            WaitingView::PackLoader => engine_step(run.version, run.url, notifier_set),
            WaitingView::Notifier { started } => StepView {
                emission: None,
                next: NextView::Finish(started),
            },
        },
    }
}

/// `run` belongs to the launch of `version` with target `url`, and so does
/// the engine start outcome it carries.
pub open spec fn run_carries(run: RunView, version: Seq<char>, url: Seq<char>) -> bool {
    &&& run.version == version
    &&& run.url == url
    &&& match run.waiting {
        WaitingView::Notifier { started } => started.version == version && started.url == url,
        WaitingView::PackLoader => true,
    }
}

/// Every run and outcome in `step` belongs to the launch of `version` with
/// target `url`.
pub open spec fn step_carries(step: StepView, version: Seq<char>, url: Seq<char>) -> bool {
    &&& match step.next {
        NextView::Invoke(run) => run_carries(run, version, url),
        NextView::Finish(o) => o.version == version && o.url == url,
    }
    &&& match step.emission {
        Some(EmissionView::EngineStarted(o)) => o.version == version && o.url == url,
        _ => true,
    }
}

/// A pack loader whose result is rejected with `m` ends the launch: the
/// first step only invokes the loader, and the next emits "pack_load_failed"
/// with `m`, once, and finishes with an error outcome for the launch's own
/// version and target. "engine_started" is emitted by neither step.
pub proof fn lemma_pack_load_failure(
    targets: Map<Seq<char>, Seq<char>>,
    notifier_at_start: bool,
    notifier_later: bool,
    version: Seq<char>,
    m: Seq<char>,
)
    ensures
        ({
            let url = crate::registry::resolve(targets, version);
            let run = RunView { version, url, waiting: WaitingView::PackLoader };
            &&& begin_step(targets, true, notifier_at_start, version) == (StepView {
                emission: None,
                next: NextView::Invoke(run),
            })
            &&& resume_step(run, SettledView::Failed(m), notifier_later) == (StepView {
                emission: Some(EmissionView::PackLoadFailed(m)),
                next: NextView::Finish(failed_outcome(version, url, m)),
            })
            &&& failed_outcome(version, url, m).status == "error"@
        }),
{
}

/// When the pack loader succeeds and the launch notifier's result is
/// rejected with `m`, "engine_started" is emitted once with the engine's
/// outcome, then "launcher_failed" once with `m`, and the launch finishes
/// with the notifier's error outcome, not the engine's.
pub proof fn lemma_notifier_failure(
    targets: Map<Seq<char>, Seq<char>>,
    notifier_at_start: bool,
    notifier_later: bool,
    version: Seq<char>,
    m: Seq<char>,
)
    ensures
        ({
            let url = crate::registry::resolve(targets, version);
            let started = started_outcome(version, url);
            let loading = RunView { version, url, waiting: WaitingView::PackLoader };
            let notifying = RunView { version, url, waiting: WaitingView::Notifier { started } };
            &&& begin_step(targets, true, notifier_at_start, version) == (StepView {
                emission: None,
                next: NextView::Invoke(loading),
            })
            &&& resume_step(loading, SettledView::Succeeded, true) == (StepView {
                emission: Some(EmissionView::EngineStarted(started)),
                next: NextView::Invoke(notifying),
            })
            &&& resume_step(notifying, SettledView::Failed(m), notifier_later) == (StepView {
                emission: Some(EmissionView::LauncherFailed(m)),
                next: NextView::Finish(failed_outcome(version, url, m)),
            })
        }),
{
}

/// Launches never mix: a launch's first step carries only its own version
/// and resolved target, and every later step carries only those of the run
/// it continues, whatever other launches do in between.
pub proof fn lemma_launches_keep_apart(
    targets: Map<Seq<char>, Seq<char>>,
    loader_set: bool,
    notifier_set: bool,
    version: Seq<char>,
    run: RunView,
    settled: SettledView,
    notifier_later: bool,
)
    requires
        run_carries(run, run.version, run.url),
    ensures
        step_carries(
            begin_step(targets, loader_set, notifier_set, version),
            version,
            crate::registry::resolve(targets, version),
        ),
        step_carries(resume_step(run, settled, notifier_later), run.version, run.url),
{
}

/// The engine start stage, from `version` and its resolved target.
pub fn engine_stage(version: String, url: String, notifier_set: bool) -> (r: Step)
    ensures
        r@ == engine_step(version@, url@, notifier_set),
{
    let (status, message) = internal_start_engine_stub(version.as_str());
    let started = LaunchOutcome {
        status,
        message,
        url: url.clone(),
        version: version.clone(),
    };
    let shown = LaunchOutcome {
        status: started.status.clone(),
        message: started.message.clone(),
        url: started.url.clone(),
        version: started.version.clone(),
    };
    let next = if notifier_set {
        Next::Invoke(LaunchRun { version, url, waiting: Waiting::Notifier { started } })
    } else {
        Next::Finish(started)
    };
    Step { emission: Some(Emission::EngineStarted(shown)), next }
}

/// The step after the hook that `run` waits on has settled as `settled`;
/// `notifier_set` tells whether a launch notifier is registered now.
pub fn resume(run: LaunchRun, settled: Settled, notifier_set: bool) -> (r: Step)
    ensures
        r@ == resume_step(run@, settled@, notifier_set),
{
    match settled {
        Settled::Failed(m) => {
            let emission = match run.waiting {
                Waiting::PackLoader => Emission::PackLoadFailed(m.clone()),
                Waiting::Notifier { .. } => Emission::LauncherFailed(m.clone()),
            };
            let failed = LaunchOutcome {
                status: "error".to_owned(),
                message: m,
                url: run.url,
                version: run.version,
            };
            Step { emission: Some(emission), next: Next::Finish(failed) }
        },
        Settled::Succeeded => match run.waiting {
            Waiting::PackLoader => engine_stage(run.version, run.url, notifier_set),
            Waiting::Notifier { started } => Step { emission: None, next: Next::Finish(started) },
        },
    }
}

} // verus!
