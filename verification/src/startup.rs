//! The start-up decisions: attach to a dsh that already serves, wait a while
//! for a foreign program on the port to turn into dsh, or start dsh (through
//! `PATH`, then through `node` as a fallback) and wait until it answers.
//! The caller performs each action and reports back what it found.

use vstd::prelude::*;
use vstd::string::*;

use crate::text::{decimal, decimal_string};

verus! {

/// What the caller found when waiting for a started dsh.
#[derive(Debug)]
pub enum WaitStep {
    /// dsh answers.
    Ready,
    /// Give up with this message.
    Failed(String),
    /// Sleep a little and look again.
    KeepWaiting,
}

/// The message when a started dsh exited early with `status`.
pub open spec fn early_exit_message(status: Seq<char>) -> Seq<char> {
    "dsh 进程提前退出（"@ + status
        + "）。请确认已全局安装 dsh（npm i -g @deepseek-ai/dsh）且 PATH 可用"@
}

/// The message when a started dsh did not answer within `secs` seconds.
pub open spec fn start_timeout_message(secs: u64) -> Seq<char> {
    "等待 dsh 就绪超时（"@ + decimal(secs as nat) + " 秒）"@
}

/// One look at a started dsh: `serving` says whether it answered, `exited`
/// holds its exit status if it has exited, and `past_deadline` whether its
/// `timeout_secs` have run out. An answer wins over an exit, an exit over
/// the deadline.
pub fn wait_step(serving: bool, exited: Option<&str>, past_deadline: bool, timeout_secs: u64) -> (r: WaitStep)
    ensures
        serving ==> r is Ready,
        !serving && exited is Some ==> (r matches WaitStep::Failed(m) && m@ == early_exit_message(
            exited->0@,
        ) && m@ == "dsh 进程提前退出（"@ + exited->0@
            + "）。请确认已全局安装 dsh（npm i -g @deepseek-ai/dsh）且 PATH 可用"@),
        !serving && exited is None && past_deadline ==> (r matches WaitStep::Failed(m) && m@
            == start_timeout_message(timeout_secs) && m@ == "等待 dsh 就绪超时（"@ + decimal(
            timeout_secs as nat,
        ) + " 秒）"@),
        !serving && exited is None && !past_deadline ==> r is KeepWaiting,
{
    if serving {
        WaitStep::Ready
    } else {
        match exited {
            Some(status) => {
                let mut m = String::from_str("dsh 进程提前退出（");
                m.append(status);
                m.append("）。请确认已全局安装 dsh（npm i -g @deepseek-ai/dsh）且 PATH 可用");
                WaitStep::Failed(m)
            },
            None => {
                if past_deadline {
                    let mut m = String::from_str("等待 dsh 就绪超时（");
                    m.append(decimal_string(timeout_secs).as_str());
                    m.append(" 秒）");
                    WaitStep::Failed(m)
                } else {
                    WaitStep::KeepWaiting
                }
            },
        }
    }
}

/// Where start-up stands. `T` is the text type: `String` when running,
/// `Seq<char>` in specifications.
#[derive(Debug)]
pub enum Startup<T> {
    /// The first probe of the port is under way.
    Probing,
    /// Checking whether anything listens on the port.
    CheckingPort,
    /// Something else listens; polling until it serves dsh or time runs out.
    WaitingForeign,
    /// dsh is being started through `PATH`.
    SpawningPrimary,
    /// Waiting for the dsh started through `PATH`.
    WaitingPrimary,
    /// The first start failed for `reason`; dsh is being started through `node`.
    SpawningFallback { reason: T },
    /// Waiting for the dsh started through `node`.
    WaitingFallback,
    /// Start-up is over, attached, started or failed.
    Done,
}

/// What the caller found.
#[derive(Debug)]
pub enum StartupEvent<T> {
    /// Whether dsh serves on the port.
    Probed { serving: bool },
    /// Whether anything listens on the port.
    PortChecked { busy: bool },
    /// One poll of a foreign listener: whether its grace period has run out
    /// (checked first) and, if not, whether it now serves dsh.
    ForeignPolled { deadline_passed: bool, serving: bool },
    /// Starting dsh through `PATH`: done, or the error text.
    Spawned(Result<(), T>),
    /// Starting dsh through `node`: no `bin.js` found, or the start's outcome.
    FallbackSpawned(Option<Result<(), T>>),
    /// Waiting for the started dsh: it answers, or the reason it will not.
    Waited(Result<(), T>),
}

/// What the caller does next.
#[derive(Debug)]
pub enum StartupAction<T> {
    /// Check whether anything listens on the port.
    CheckPort,
    /// Poll the foreign listener again, after a short pause when `pause`.
    PollForeign { pause: bool },
    /// Start dsh through `PATH`.
    SpawnPrimary,
    /// Wait for the started dsh to answer.
    WaitForChild,
    /// End the started dsh's process tree, then start dsh through `node`.
    StopChildThenSpawnFallback,
    /// Keep the started dsh (it is ended on exit) and open the web UI.
    AdoptChildAndFinish,
    /// Open the web UI of a dsh this app did not start (it is left running on exit).
    FinishAttached,
    /// End the started dsh's process tree, then report this message and quit.
    StopChildThenFail(T),
    /// Report this message and quit.
    Fail(T),
    /// The event does not belong to this state: do nothing.
    Nothing,
}

/// The message when the port is held by something that never serves dsh.
pub open spec fn port_busy_message(port: u16) -> Seq<char> {
    "端口 "@ + decimal(port as nat)
        + " 已被其它程序占用，且不是 dsh。\n\n可设置环境变量 DSH_WEB_PORT 换一个端口后重启。"@
}

/// A failure reason followed by where the server log is.
pub open spec fn with_log_hint(reason: Seq<char>, log_dir: Seq<char>) -> Seq<char> {
    reason + "\n\n日志："@ + log_dir + "\\dsh-server.log"@
}

/// One step of start-up for `port`, with the server log in `log_dir`.
pub open spec fn startup_next(
    port: u16,
    log_dir: Seq<char>,
    state: Startup<Seq<char>>,
    event: StartupEvent<Seq<char>>,
) -> (Startup<Seq<char>>, StartupAction<Seq<char>>) {
    match (state, event) {
        (Startup::Probing, StartupEvent::Probed { serving }) => if serving {
            (Startup::Done, StartupAction::FinishAttached)
        } else {
            (Startup::CheckingPort, StartupAction::CheckPort)
        },
        (Startup::CheckingPort, StartupEvent::PortChecked { busy }) => if busy {
            (Startup::WaitingForeign, StartupAction::PollForeign { pause: false })
        } else {
            (Startup::SpawningPrimary, StartupAction::SpawnPrimary)
        },
        (Startup::WaitingForeign, StartupEvent::ForeignPolled { deadline_passed, serving }) => {
            if deadline_passed {
                (Startup::Done, StartupAction::Fail(port_busy_message(port)))
            } else if serving {
                (Startup::Done, StartupAction::FinishAttached)
            } else {
                (Startup::WaitingForeign, StartupAction::PollForeign { pause: true })
            }
        },
        (Startup::SpawningPrimary, StartupEvent::Spawned(outcome)) => match outcome {
            Ok(()) => (Startup::WaitingPrimary, StartupAction::WaitForChild),
            Err(e) => (Startup::Done, StartupAction::Fail("无法启动 dsh："@ + e)),
        },
        (Startup::WaitingPrimary, StartupEvent::Waited(outcome)) => match outcome {
            Ok(()) => (Startup::Done, StartupAction::AdoptChildAndFinish),
            Err(reason) => (
                Startup::SpawningFallback { reason },
                StartupAction::StopChildThenSpawnFallback,
            ),
        },
        (Startup::SpawningFallback { reason }, StartupEvent::FallbackSpawned(found)) => match found {
            None => (Startup::Done, StartupAction::Fail(with_log_hint(reason, log_dir))),
            Some(Err(e)) => (
                Startup::Done,
                StartupAction::Fail(with_log_hint(reason + "；node 直启也失败："@ + e, log_dir)),
            ),
            Some(Ok(())) => (Startup::WaitingFallback, StartupAction::WaitForChild),
        },
        (Startup::WaitingFallback, StartupEvent::Waited(outcome)) => match outcome {
            Ok(()) => (Startup::Done, StartupAction::AdoptChildAndFinish),
            Err(reason) => (
                Startup::Done,
                StartupAction::StopChildThenFail(with_log_hint(reason, log_dir)),
            ),
        },
        _ => (state, StartupAction::Nothing),
    }
}

/// The view of a result that carries text on failure.
pub open spec fn outcome_view(o: Result<(), String>) -> Result<(), Seq<char>> {
    match o {
        Ok(()) => Ok(()),
        Err(e) => Err(e@),
    }
}

impl View for Startup<String> {
    type V = Startup<Seq<char>>;

    open spec fn view(&self) -> Startup<Seq<char>> {
        match *self {
            Startup::Probing => Startup::Probing,
            Startup::CheckingPort => Startup::CheckingPort,
            Startup::WaitingForeign => Startup::WaitingForeign,
            Startup::SpawningPrimary => Startup::SpawningPrimary,
            Startup::WaitingPrimary => Startup::WaitingPrimary,
            Startup::SpawningFallback { reason } => Startup::SpawningFallback { reason: reason@ },
            Startup::WaitingFallback => Startup::WaitingFallback,
            Startup::Done => Startup::Done,
        }
    }
}

impl View for StartupEvent<String> {
    type V = StartupEvent<Seq<char>>;

    open spec fn view(&self) -> StartupEvent<Seq<char>> {
        match *self {
            StartupEvent::Probed { serving } => StartupEvent::Probed { serving },
            StartupEvent::PortChecked { busy } => StartupEvent::PortChecked { busy },
            StartupEvent::ForeignPolled { deadline_passed, serving } => StartupEvent::ForeignPolled {
                deadline_passed,
                serving,
            },
            StartupEvent::Spawned(o) => StartupEvent::Spawned(outcome_view(o)),
            StartupEvent::FallbackSpawned(f) => StartupEvent::FallbackSpawned(
                match f {
                    None => None,
                    Some(o) => Some(outcome_view(o)),
                },
            ),
            StartupEvent::Waited(o) => StartupEvent::Waited(outcome_view(o)),
        }
    }
}

impl View for StartupAction<String> {
    type V = StartupAction<Seq<char>>;

    open spec fn view(&self) -> StartupAction<Seq<char>> {
        match *self {
            StartupAction::CheckPort => StartupAction::CheckPort,
            StartupAction::PollForeign { pause } => StartupAction::PollForeign { pause },
            StartupAction::SpawnPrimary => StartupAction::SpawnPrimary,
            StartupAction::WaitForChild => StartupAction::WaitForChild,
            StartupAction::StopChildThenSpawnFallback => StartupAction::StopChildThenSpawnFallback,
            StartupAction::AdoptChildAndFinish => StartupAction::AdoptChildAndFinish,
            StartupAction::FinishAttached => StartupAction::FinishAttached,
            StartupAction::StopChildThenFail(m) => StartupAction::StopChildThenFail(m@),
            StartupAction::Fail(m) => StartupAction::Fail(m@),
            StartupAction::Nothing => StartupAction::Nothing,
        }
    }
}

fn log_hint(reason: String, log_dir: &str) -> (r: String)
    ensures
        r@ == with_log_hint(reason@, log_dir@),
{
    let mut m = reason;
    m.append("\n\n日志：");
    m.append(log_dir);
    m.append("\\dsh-server.log");
    m
}

/// The state in which start-up begins: the caller first probes the port.
pub fn startup_begin() -> (r: Startup<String>)
    ensures
        r@ == Startup::<Seq<char>>::Probing,
{
    Startup::Probing
}

/// One step of start-up on `port`, with the server log in `log_dir`.
pub fn startup_step(port: u16, log_dir: &str, state: Startup<String>, event: StartupEvent<String>) -> (r: (
    Startup<String>,
    StartupAction<String>,
))
    ensures
        (r.0@, r.1@) == startup_next(port, log_dir@, state@, event@),
{
    match (state, event) {
        (Startup::Probing, StartupEvent::Probed { serving }) => {
            if serving {
                (Startup::Done, StartupAction::FinishAttached)
            } else {
                (Startup::CheckingPort, StartupAction::CheckPort)
            }
        },
        (Startup::CheckingPort, StartupEvent::PortChecked { busy }) => {
            if busy {
                (Startup::WaitingForeign, StartupAction::PollForeign { pause: false })
            } else {
                (Startup::SpawningPrimary, StartupAction::SpawnPrimary)
            }
        },
        (Startup::WaitingForeign, StartupEvent::ForeignPolled { deadline_passed, serving }) => {
            if deadline_passed {
                let mut m = String::from_str("端口 ");
                m.append(decimal_string(port as u64).as_str());
                m.append(" 已被其它程序占用，且不是 dsh。\n\n可设置环境变量 DSH_WEB_PORT 换一个端口后重启。");
                (Startup::Done, StartupAction::Fail(m))
            } else if serving {
                (Startup::Done, StartupAction::FinishAttached)
            } else {
                (Startup::WaitingForeign, StartupAction::PollForeign { pause: true })
            }
        },
        (Startup::SpawningPrimary, StartupEvent::Spawned(outcome)) => match outcome {
            Ok(()) => (Startup::WaitingPrimary, StartupAction::WaitForChild),
            Err(e) => (
                Startup::Done,
                StartupAction::Fail(String::from_str("无法启动 dsh：").concat(e.as_str())),
            ),
        },
        (Startup::WaitingPrimary, StartupEvent::Waited(outcome)) => match outcome {
            Ok(()) => (Startup::Done, StartupAction::AdoptChildAndFinish),
            Err(reason) => (
                Startup::SpawningFallback { reason },
                StartupAction::StopChildThenSpawnFallback,
            ),
        },
        (Startup::SpawningFallback { reason }, StartupEvent::FallbackSpawned(found)) => match found {
            None => (Startup::Done, StartupAction::Fail(log_hint(reason, log_dir))),
            Some(Err(e)) => {
                let mut m = reason;
                m.append("；node 直启也失败：");
                m.append(e.as_str());
                (Startup::Done, StartupAction::Fail(log_hint(m, log_dir)))
            },
            Some(Ok(())) => (Startup::WaitingFallback, StartupAction::WaitForChild),
        },
        (Startup::WaitingFallback, StartupEvent::Waited(outcome)) => match outcome {
            Ok(()) => (Startup::Done, StartupAction::AdoptChildAndFinish),
            Err(reason) => (Startup::Done, StartupAction::StopChildThenFail(log_hint(reason, log_dir))),
        },
        (state, _) => (state, StartupAction::Nothing),
    }
}

/// A started dsh is kept (and so ended when the app exits) only when this app
/// started it and it then answered.
pub proof fn lemma_adopts_only_ready_children(
    port: u16,
    log_dir: Seq<char>,
    state: Startup<Seq<char>>,
    event: StartupEvent<Seq<char>>,
)
    ensures
        startup_next(port, log_dir, state, event).1 is AdoptChildAndFinish ==> {
            &&& (state is WaitingPrimary || state is WaitingFallback)
            &&& event matches StartupEvent::Waited(Ok(_))
        },
{
}

/// The web UI of a dsh that this app did not start is opened only after dsh
/// was seen serving on the port; such a dsh is never ended by the app.
pub proof fn lemma_attaches_only_to_serving_dsh(
    port: u16,
    log_dir: Seq<char>,
    state: Startup<Seq<char>>,
    event: StartupEvent<Seq<char>>,
)
    ensures
        startup_next(port, log_dir, state, event).1 is FinishAttached ==> {
            ||| event == StartupEvent::<Seq<char>>::Probed { serving: true }
            ||| event == StartupEvent::<Seq<char>>::ForeignPolled { deadline_passed: false, serving: true }
        },
{
}

/// A dsh that this app started but that did not answer is always ended
/// before anything else happens.
pub proof fn lemma_stops_children_that_fail(
    port: u16,
    log_dir: Seq<char>,
    state: Startup<Seq<char>>,
    reason: Seq<char>,
)
    requires
        state is WaitingPrimary || state is WaitingFallback,
    ensures
        ({
            let action = startup_next(port, log_dir, state, StartupEvent::Waited(Err(reason))).1;
            action is StopChildThenSpawnFallback || action is StopChildThenFail
        }),
{
}

/// Once start-up is over nothing more happens, and every action that ends it
/// (opening the UI or failing) leaves it over.
pub proof fn lemma_done_is_final(
    port: u16,
    log_dir: Seq<char>,
    state: Startup<Seq<char>>,
    event: StartupEvent<Seq<char>>,
)
    ensures
        state is Done ==> startup_next(port, log_dir, state, event) == (
            Startup::<Seq<char>>::Done,
            StartupAction::<Seq<char>>::Nothing,
        ),
        ({
            let (next, action) = startup_next(port, log_dir, state, event);
            (action is Fail || action is StopChildThenFail || action is FinishAttached
                || action is AdoptChildAndFinish) ==> next is Done
        }),
{
}

/// When the primary start fails, the fallback is tried, and its failure
/// message keeps the first reason.
pub proof fn lemma_fallback_keeps_first_reason(port: u16, log_dir: Seq<char>, reason: Seq<char>, err: Seq<char>)
    ensures
        startup_next(port, log_dir, Startup::WaitingPrimary, StartupEvent::Waited(Err(reason)))
            == (Startup::SpawningFallback { reason }, StartupAction::<Seq<char>>::StopChildThenSpawnFallback),
        startup_next(
            port,
            log_dir,
            Startup::SpawningFallback { reason },
            StartupEvent::FallbackSpawned(Some(Err(err))),
        ).1 == StartupAction::Fail(with_log_hint(reason + "；node 直启也失败："@ + err, log_dir)),
{
}

/// A dsh seen serving is attached to: at the first probe, and on any poll of
/// a foreign listener that comes before its grace period runs out.
pub proof fn lemma_serving_dsh_is_attached(port: u16, log_dir: Seq<char>)
    ensures
        startup_next(port, log_dir, Startup::Probing, StartupEvent::Probed { serving: true }) == (
            Startup::<Seq<char>>::Done,
            StartupAction::<Seq<char>>::FinishAttached,
        ),
        startup_next(
            port,
            log_dir,
            Startup::WaitingForeign,
            StartupEvent::ForeignPolled { deadline_passed: false, serving: true },
        ) == (Startup::<Seq<char>>::Done, StartupAction::<Seq<char>>::FinishAttached),
{
}

/// A started dsh that answers is kept and its web UI opened, whether it was
/// started through `PATH` or through `node`.
pub proof fn lemma_answering_child_is_adopted(port: u16, log_dir: Seq<char>, state: Startup<Seq<char>>)
    requires
        state is WaitingPrimary || state is WaitingFallback,
    ensures
        startup_next(port, log_dir, state, StartupEvent::Waited(Ok(()))) == (
            Startup::<Seq<char>>::Done,
            StartupAction::<Seq<char>>::AdoptChildAndFinish,
        ),
{
}

/// Without a serving dsh, start-up looks at the port: a free port gets dsh
/// started through `PATH`, a taken one is polled (first at once, then after
/// pauses) until it serves dsh or its grace period runs out, which fails with
/// a message naming the port; a started dsh is waited for.
pub proof fn lemma_startup_finds_its_way(port: u16, log_dir: Seq<char>, serving: bool, reason: Seq<char>)
    ensures
        startup_next(port, log_dir, Startup::Probing, StartupEvent::Probed { serving: false }) == (
            Startup::<Seq<char>>::CheckingPort,
            StartupAction::<Seq<char>>::CheckPort,
        ),
        startup_next(port, log_dir, Startup::CheckingPort, StartupEvent::PortChecked { busy: false }) == (
            Startup::<Seq<char>>::SpawningPrimary,
            StartupAction::<Seq<char>>::SpawnPrimary,
        ),
        startup_next(port, log_dir, Startup::CheckingPort, StartupEvent::PortChecked { busy: true }) == (
            Startup::<Seq<char>>::WaitingForeign,
            StartupAction::<Seq<char>>::PollForeign { pause: false },
        ),
        startup_next(
            port,
            log_dir,
            Startup::WaitingForeign,
            StartupEvent::ForeignPolled { deadline_passed: false, serving: false },
        ) == (Startup::<Seq<char>>::WaitingForeign, StartupAction::<Seq<char>>::PollForeign { pause: true }),
        startup_next(
            port,
            log_dir,
            Startup::WaitingForeign,
            StartupEvent::ForeignPolled { deadline_passed: true, serving },
        ) == (
            Startup::<Seq<char>>::Done,
            StartupAction::Fail(
                "端口 "@ + decimal(port as nat)
                    + " 已被其它程序占用，且不是 dsh。\n\n可设置环境变量 DSH_WEB_PORT 换一个端口后重启。"@,
            ),
        ),
        startup_next(port, log_dir, Startup::SpawningPrimary, StartupEvent::Spawned(Ok(()))) == (
            Startup::<Seq<char>>::WaitingPrimary,
            StartupAction::<Seq<char>>::WaitForChild,
        ),
        startup_next(
            port,
            log_dir,
            Startup::SpawningFallback { reason },
            StartupEvent::FallbackSpawned(Some(Ok(()))),
        ) == (Startup::<Seq<char>>::WaitingFallback, StartupAction::<Seq<char>>::WaitForChild),
{
}

/// Every failure after dsh was started reports the reason and then where the
/// server log is; a start that fails outright reports its error.
pub proof fn lemma_failures_point_to_the_log(port: u16, log_dir: Seq<char>, reason: Seq<char>, err: Seq<char>)
    ensures
        startup_next(port, log_dir, Startup::SpawningPrimary, StartupEvent::Spawned(Err(err))) == (
            Startup::<Seq<char>>::Done,
            StartupAction::Fail("无法启动 dsh："@ + err),
        ),
        startup_next(
            port,
            log_dir,
            Startup::SpawningFallback { reason },
            StartupEvent::FallbackSpawned(None),
        ) == (
            Startup::<Seq<char>>::Done,
            StartupAction::Fail(reason + "\n\n日志："@ + log_dir + "\\dsh-server.log"@),
        ),
        startup_next(port, log_dir, Startup::WaitingFallback, StartupEvent::Waited(Err(err))) == (
            Startup::<Seq<char>>::Done,
            StartupAction::StopChildThenFail(err + "\n\n日志："@ + log_dir + "\\dsh-server.log"@),
        ),
{
}

} // verus!
