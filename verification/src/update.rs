//! The dsh update check: at most one runs at a time; it reads the installed
//! and the newest published version, offers an upgrade when the published one
//! is newer, and after an upgrade the app restarts. A check started by the
//! user reports every outcome; the silent one at start-up reports nothing
//! unless an upgrade was agreed to. The caller performs each action and
//! reports back what it found.

use vstd::prelude::*;
use vstd::string::*;

use crate::version::{semver_precedes, update_available, version_text, DshVersion, VersionView};

verus! {

/// The title of every dialog of the update check.
pub const UPDATE_TITLE: &'static str = "dsh 更新";

/// What asking to start an update check leads to.
#[derive(Debug, PartialEq, Eq, Structural)]
pub enum UpdateBegin {
    /// A check is already running: nothing starts; when `notify`, tell the
    /// user so with an information dialog.
    Busy { notify: bool },
    /// The check starts: show the checking status and run it in the background.
    Started,
}

/// The message when a check is asked for while one runs.
pub open spec fn busy_message() -> Seq<char> {
    "已有更新任务在进行中，请稍候。"@
}

/// `已有更新任务在进行中，请稍候。`
pub fn busy_notice() -> (r: &'static str)
    ensures
        r@ == busy_message(),
{
    "已有更新任务在进行中，请稍候。"
}

/// Takes the update lock, which `running` says is held or free. A check that
/// the user asked for (`manual`) and that finds the lock held is told so.
pub fn begin_update_check(running: bool, manual: bool) -> (r: (bool, UpdateBegin))
    ensures
        r.0,
        running ==> (r.1 == (UpdateBegin::Busy { notify: manual })),
        !running ==> (r.1 == UpdateBegin::Started),
{
    if running {
        (true, UpdateBegin::Busy { notify: manual })
    } else {
        (true, UpdateBegin::Started)
    }
}

/// Whether the silent check runs at start-up: not when `DSH_NO_UPDATE_CHECK`
/// is set (`opted_out`). A check asked for from the title bar is not
/// affected: `begin_update_check` takes no such setting.
pub fn check_at_startup(opted_out: bool) -> (r: bool)
    ensures
        r == !opted_out,
{
    !opted_out
}

/// A dialog with one button.
#[derive(Debug)]
pub struct Notice<T> {
    /// The text shown.
    pub message: T,
    /// Whether it is shown as an error rather than as information.
    pub is_error: bool,
}

/// Where an update check stands. `V` is the version type and the views use
/// `VersionView`.
#[derive(Debug)]
pub enum UpdateFlow<V> {
    /// Reading the installed version.
    QueryingInstalled,
    /// Asking npm for the newest published version.
    QueryingLatest { installed: V },
    /// Waiting for the user to agree to upgrading to `latest`.
    Confirming { latest: V },
    /// Switching the content view to the bundled update page.
    OpeningUpdatePage { latest: V },
    /// npm is upgrading dsh.
    Upgrading,
    /// The check is over.
    Over,
}

/// What the caller found.
#[derive(Debug)]
pub enum UpdateEvent<V, T> {
    /// The installed version, or why it could not be read.
    Installed(Result<V, T>),
    /// The newest published version, or why it could not be found.
    Latest(Result<V, T>),
    /// Whether the user agreed to upgrade.
    Confirmed(bool),
    /// Whether the update page opened, or the error text.
    PageOpened(Result<(), T>),
    /// The version installed by the upgrade, or why the upgrade failed.
    Upgraded(Result<V, T>),
}

/// What the caller does next.
#[derive(Debug)]
pub enum UpdateAction<V, T> {
    /// Ask npm for the newest published version.
    QueryLatest,
    /// Show the "update available" status and ask the user, with OK and
    /// Cancel, whether to upgrade.
    Offer { message: T },
    /// Show the "updating" status and switch the content view to the bundled
    /// update page.
    OpenUpdatePage,
    /// Retitle the window, end the dsh this app started (if any), and run the
    /// npm upgrade, which must install at least `expected`.
    Upgrade { expected: V },
    /// Show the notice (if any), release the update lock, show the "ready" status.
    Finish { notice: Option<Notice<T>> },
    /// Release the update lock, show the message with one OK button, restart the app.
    FinishAndRestart { message: T },
    /// The event does not belong to this state: do nothing.
    Nothing,
}

/// A notice shown only to a user who asked for the check.
pub open spec fn if_manual(manual: bool, message: Seq<char>, is_error: bool) -> Option<Notice<Seq<char>>> {
    if manual {
        Some(Notice { message, is_error })
    } else {
        None
    }
}

/// The message that offers upgrading from `installed` to `latest`.
pub open spec fn offer_message(latest: VersionView, installed: VersionView) -> Seq<char> {
    "发现 dsh 新版本 v"@ + version_text(latest) + "（当前 v"@ + version_text(installed)
        + "）。\n\n更新期间 dsh 服务将暂时停止，约需 1-2 分钟，请勿关闭应用。"@
}

/// Whether a step finds a published version newer than the installed one.
pub open spec fn finds_newer(state: UpdateFlow<VersionView>, event: UpdateEvent<VersionView, Seq<char>>) -> bool {
    match (state, event) {
        (UpdateFlow::QueryingLatest { installed }, UpdateEvent::Latest(Ok(latest))) => semver_precedes(
            installed,
            latest,
        ),
        _ => false,
    }
}

/// One step of an update check that the user asked for when `manual`.
pub open spec fn update_next(
    manual: bool,
    state: UpdateFlow<VersionView>,
    event: UpdateEvent<VersionView, Seq<char>>,
) -> (UpdateFlow<VersionView>, UpdateAction<VersionView, Seq<char>>) {
    update_next_with(manual, state, event, finds_newer(state, event))
}

/// One step of an update check that the user asked for when `manual`, where
/// `newer` says whether the published version just found (if any) is newer
/// than the installed one.
pub open spec fn update_next_with(
    manual: bool,
    state: UpdateFlow<VersionView>,
    event: UpdateEvent<VersionView, Seq<char>>,
    newer: bool,
) -> (UpdateFlow<VersionView>, UpdateAction<VersionView, Seq<char>>) {
    match (state, event) {
        (UpdateFlow::QueryingInstalled, UpdateEvent::Installed(found)) => match found {
            Err(reason) => (UpdateFlow::Over, UpdateAction::Finish { notice: if_manual(manual, reason, true) }),
            Ok(installed) => (UpdateFlow::QueryingLatest { installed }, UpdateAction::QueryLatest),
        },
        (UpdateFlow::QueryingLatest { installed }, UpdateEvent::Latest(found)) => match found {
            Err(reason) => (
                UpdateFlow::Over,
                UpdateAction::Finish {
                    notice: if_manual(
                        manual,
                        "无法查询 npm registry，请检查网络或代理后重试。\n\n"@ + reason,
                        true,
                    ),
                },
            ),
            Ok(latest) => if newer {
                (
                    UpdateFlow::Confirming { latest },
                    UpdateAction::Offer { message: offer_message(latest, installed) },
                )
            } else {
                (
                    UpdateFlow::Over,
                    UpdateAction::Finish {
                        notice: if_manual(
                            manual,
                            "当前已是最新版本 v"@ + version_text(installed) + "。"@,
                            false,
                        ),
                    },
                )
            },
        },
        (UpdateFlow::Confirming { latest }, UpdateEvent::Confirmed(agreed)) => if agreed {
            (UpdateFlow::OpeningUpdatePage { latest }, UpdateAction::OpenUpdatePage)
        } else {
            (UpdateFlow::Over, UpdateAction::Finish { notice: None })
        },
        (UpdateFlow::OpeningUpdatePage { latest }, UpdateEvent::PageOpened(opened)) => match opened {
            Ok(()) => (UpdateFlow::Upgrading, UpdateAction::Upgrade { expected: latest }),
            Err(e) => (
                UpdateFlow::Over,
                UpdateAction::Finish {
                    notice: Some(
                        Notice { message: "无法打开本地更新页面，更新尚未开始："@ + e, is_error: true },
                    ),
                },
            ),
        },
        (UpdateFlow::Upgrading, UpdateEvent::Upgraded(outcome)) => match outcome {
            Ok(v) => (
                UpdateFlow::Over,
                UpdateAction::FinishAndRestart {
                    message: "dsh 已更新到 v"@ + version_text(v)
                        + "。\n\n点击确定重启应用后生效；你终端里手动运行的 dsh 需要自行重启。"@,
                },
            ),
            Err(reason) => (
                UpdateFlow::Over,
                UpdateAction::FinishAndRestart {
                    message: "dsh 更新失败："@ + reason + "\n\n点击确定重启应用以恢复。"@,
                },
            ),
        },
        _ => (state, UpdateAction::Nothing),
    }
}

/// The view of a result that carries a version or text.
pub open spec fn found_view(r: Result<DshVersion, String>) -> Result<VersionView, Seq<char>> {
    match r {
        Ok(v) => Ok(v@),
        Err(e) => Err(e@),
    }
}

impl View for UpdateFlow<DshVersion> {
    type V = UpdateFlow<VersionView>;

    open spec fn view(&self) -> UpdateFlow<VersionView> {
        match *self {
            UpdateFlow::QueryingInstalled => UpdateFlow::QueryingInstalled,
            UpdateFlow::QueryingLatest { installed } => UpdateFlow::QueryingLatest { installed: installed@ },
            UpdateFlow::Confirming { latest } => UpdateFlow::Confirming { latest: latest@ },
            UpdateFlow::OpeningUpdatePage { latest } => UpdateFlow::OpeningUpdatePage { latest: latest@ },
            UpdateFlow::Upgrading => UpdateFlow::Upgrading,
            UpdateFlow::Over => UpdateFlow::Over,
        }
    }
}

impl View for UpdateEvent<DshVersion, String> {
    type V = UpdateEvent<VersionView, Seq<char>>;

    open spec fn view(&self) -> UpdateEvent<VersionView, Seq<char>> {
        match *self {
            UpdateEvent::Installed(r) => UpdateEvent::Installed(found_view(r)),
            UpdateEvent::Latest(r) => UpdateEvent::Latest(found_view(r)),
            UpdateEvent::Confirmed(b) => UpdateEvent::Confirmed(b),
            UpdateEvent::PageOpened(r) => UpdateEvent::PageOpened(
                match r {
                    Ok(()) => Ok(()),
                    Err(e) => Err(e@),
                },
            ),
            UpdateEvent::Upgraded(r) => UpdateEvent::Upgraded(found_view(r)),
        }
    }
}

/// The view of an optional notice.
pub open spec fn notice_view(n: Option<Notice<String>>) -> Option<Notice<Seq<char>>> {
    match n {
        Some(n) => Some(Notice { message: n.message@, is_error: n.is_error }),
        None => None,
    }
}

impl View for UpdateAction<DshVersion, String> {
    type V = UpdateAction<VersionView, Seq<char>>;

    open spec fn view(&self) -> UpdateAction<VersionView, Seq<char>> {
        match *self {
            UpdateAction::QueryLatest => UpdateAction::QueryLatest,
            UpdateAction::Offer { message } => UpdateAction::Offer { message: message@ },
            UpdateAction::OpenUpdatePage => UpdateAction::OpenUpdatePage,
            UpdateAction::Upgrade { expected } => UpdateAction::Upgrade { expected: expected@ },
            UpdateAction::Finish { notice } => UpdateAction::Finish { notice: notice_view(notice) },
            UpdateAction::FinishAndRestart { message } => UpdateAction::FinishAndRestart {
                message: message@,
            },
            UpdateAction::Nothing => UpdateAction::Nothing,
        }
    }
}

fn notice_if(manual: bool, message: String, is_error: bool) -> (r: Option<Notice<String>>)
    ensures
        notice_view(r) == if_manual(manual, message@, is_error),
{
    if manual {
        Some(Notice { message, is_error })
    } else {
        None
    }
}

/// The state in which an update check begins: the caller first reads the
/// installed version.
pub fn update_flow_begin() -> (r: UpdateFlow<DshVersion>)
    ensures
        r@ == UpdateFlow::<VersionView>::QueryingInstalled,
{
    UpdateFlow::QueryingInstalled
}

/// One step of an update check that the user asked for when `manual`.
pub fn update_step(manual: bool, state: UpdateFlow<DshVersion>, event: UpdateEvent<DshVersion, String>) -> (r: (
    UpdateFlow<DshVersion>,
    UpdateAction<DshVersion, String>,
))
    ensures
        (r.0@, r.1@) == update_next(manual, state@, event@),
{
    let newer = match (&state, &event) {
        (UpdateFlow::QueryingLatest { installed }, UpdateEvent::Latest(Ok(latest))) => update_available(
            latest,
            installed,
        ),
        _ => false,
    };
    update_step_with(manual, state, event, newer)
}

/// One step of an update check that the user asked for when `manual`, where
/// `newer` says whether the published version just found (if any) is newer
/// than the installed one.
pub fn update_step_with(
    manual: bool,
    state: UpdateFlow<DshVersion>,
    event: UpdateEvent<DshVersion, String>,
    newer: bool,
) -> (r: (UpdateFlow<DshVersion>, UpdateAction<DshVersion, String>))
    ensures
        (r.0@, r.1@) == update_next_with(manual, state@, event@, newer),
{
    match (state, event) {
        (UpdateFlow::QueryingInstalled, UpdateEvent::Installed(found)) => match found {
            Err(reason) => (UpdateFlow::Over, UpdateAction::Finish { notice: notice_if(manual, reason, true) }),
            Ok(installed) => (UpdateFlow::QueryingLatest { installed }, UpdateAction::QueryLatest),
        },
        (UpdateFlow::QueryingLatest { installed }, UpdateEvent::Latest(found)) => match found {
            Err(reason) => {
                let message = String::from_str("无法查询 npm registry，请检查网络或代理后重试。\n\n").concat(
                    reason.as_str(),
                );
                (UpdateFlow::Over, UpdateAction::Finish { notice: notice_if(manual, message, true) })
            },
            Ok(latest) => {
                if newer {
                    let mut message = String::from_str("发现 dsh 新版本 v");
                    message.append(latest.to_string().as_str());
                    message.append("（当前 v");
                    message.append(installed.to_string().as_str());
                    message.append("）。\n\n更新期间 dsh 服务将暂时停止，约需 1-2 分钟，请勿关闭应用。");
                    (UpdateFlow::Confirming { latest }, UpdateAction::Offer { message })
                } else {
                    let mut message = String::from_str("当前已是最新版本 v");
                    message.append(installed.to_string().as_str());
                    message.append("。");
                    (UpdateFlow::Over, UpdateAction::Finish { notice: notice_if(manual, message, false) })
                }
            },
        },
        (UpdateFlow::Confirming { latest }, UpdateEvent::Confirmed(agreed)) => {
            if agreed {
                (UpdateFlow::OpeningUpdatePage { latest }, UpdateAction::OpenUpdatePage)
            } else {
                (UpdateFlow::Over, UpdateAction::Finish { notice: None })
            }
        },
        (UpdateFlow::OpeningUpdatePage { latest }, UpdateEvent::PageOpened(opened)) => match opened {
            Ok(()) => (UpdateFlow::Upgrading, UpdateAction::Upgrade { expected: latest }),
            Err(e) => {
                let message = String::from_str("无法打开本地更新页面，更新尚未开始：").concat(e.as_str());
                (UpdateFlow::Over, UpdateAction::Finish { notice: Some(Notice { message, is_error: true }) })
            },
        },
        (UpdateFlow::Upgrading, UpdateEvent::Upgraded(outcome)) => match outcome {
            Ok(v) => {
                let mut message = String::from_str("dsh 已更新到 v");
                message.append(v.to_string().as_str());
                message.append("。\n\n点击确定重启应用后生效；你终端里手动运行的 dsh 需要自行重启。");
                (UpdateFlow::Over, UpdateAction::FinishAndRestart { message })
            },
            Err(reason) => {
                let mut message = String::from_str("dsh 更新失败：");
                message.append(reason.as_str());
                message.append("\n\n点击确定重启应用以恢复。");
                (UpdateFlow::Over, UpdateAction::FinishAndRestart { message })
            },
        },
        (state, _) => (state, UpdateAction::Nothing),
    }
}

/// The silent check (not asked for by the user) shows no dialog of its own
/// except when, after the user agreed to an upgrade, the update page cannot
/// be opened.
pub proof fn lemma_silent_check_stays_silent(
    state: UpdateFlow<VersionView>,
    event: UpdateEvent<VersionView, Seq<char>>,
)
    ensures
        update_next(false, state, event).1 matches UpdateAction::Finish { notice: Some(_) }
            ==> state is OpeningUpdatePage,
{
}

/// A check that the user asked for reports how it ended, whether the version
/// could not be read, could not be queried, or is already the newest.
pub proof fn lemma_manual_check_reports(
    state: UpdateFlow<VersionView>,
    event: UpdateEvent<VersionView, Seq<char>>,
)
    requires
        state is QueryingInstalled || state is QueryingLatest,
    ensures
        update_next(true, state, event).1 matches UpdateAction::Finish { notice } ==> notice is Some,
{
}

/// An upgrade is offered only when the published version is newer than the
/// installed one.
pub proof fn lemma_offers_only_newer(
    state: UpdateFlow<VersionView>,
    event: UpdateEvent<VersionView, Seq<char>>,
    manual: bool,
)
    ensures
        update_next(manual, state, event).1 is Offer ==> {
            &&& state is QueryingLatest
            &&& event matches UpdateEvent::Latest(Ok(latest))
            &&& semver_precedes(state->installed, latest)
        },
{
}

/// The upgrade runs only after the user agreed, and it must install the
/// version that was offered.
pub proof fn lemma_upgrade_needs_consent(
    state: UpdateFlow<VersionView>,
    event: UpdateEvent<VersionView, Seq<char>>,
    manual: bool,
)
    ensures
        !(state is OpeningUpdatePage) && update_next(manual, state, event).0 is OpeningUpdatePage
            ==> event == UpdateEvent::<
            VersionView,
            Seq<char>,
        >::Confirmed(true),
        update_next(manual, state, event).1 matches UpdateAction::Upgrade { expected } ==> (
        state == UpdateFlow::OpeningUpdatePage { latest: expected }),
{
}

/// Offered, agreed and shown, an upgrade expects exactly the version offered.
pub proof fn lemma_upgrades_to_offered_version(
    manual: bool,
    installed: VersionView,
    latest: VersionView,
)
    requires
        semver_precedes(installed, latest),
    ensures
        ({
            let (s1, a1) = update_next(
                manual,
                UpdateFlow::QueryingLatest { installed },
                UpdateEvent::Latest(Ok(latest)),
            );
            let (s2, a2) = update_next(manual, s1, UpdateEvent::Confirmed(true));
            let (s3, a3) = update_next(manual, s2, UpdateEvent::PageOpened(Ok(())));
            &&& a1 == UpdateAction::<VersionView, Seq<char>>::Offer {
                message: offer_message(latest, installed),
            }
            &&& a2 is OpenUpdatePage
            &&& a3 == UpdateAction::<VersionView, Seq<char>>::Upgrade { expected: latest }
            &&& s3 is Upgrading
        }),
{
}

/// Every way a check ends releases the update lock (`Finish` and
/// `FinishAndRestart` both do), an ended check does nothing more, and an
/// upgrade, whatever its outcome, ends with a restart.
pub proof fn lemma_every_end_releases_lock(
    state: UpdateFlow<VersionView>,
    event: UpdateEvent<VersionView, Seq<char>>,
    manual: bool,
)
    ensures
        ({
            let (next, action) = update_next(manual, state, event);
            &&& (!(state is Over) && next is Over) ==> (action is Finish || action is FinishAndRestart)
            &&& state is Over ==> (next is Over && action is Nothing)
            &&& (action is Finish || action is FinishAndRestart) ==> next is Over
            &&& (state is Upgrading && event is Upgraded) ==> action is FinishAndRestart
        }),
{
}

/// A declined offer ends the check quietly, whoever started it: no dialog,
/// no restart; the lock is released and the status returns to ready.
pub proof fn lemma_declined_offer_ends_quietly(manual: bool, latest: VersionView)
    ensures
        update_next(manual, UpdateFlow::Confirming { latest }, UpdateEvent::Confirmed(false)) == (
            UpdateFlow::<VersionView>::Over,
            UpdateAction::<VersionView, Seq<char>>::Finish { notice: None },
        ),
        update_next(manual, UpdateFlow::Confirming { latest }, UpdateEvent::Confirmed(true)) == (
            UpdateFlow::<VersionView>::OpeningUpdatePage { latest },
            UpdateAction::<VersionView, Seq<char>>::OpenUpdatePage,
        ),
{
}

/// The app restarts only when an upgrade that ran reports back.
pub proof fn lemma_restart_only_after_upgrade(
    manual: bool,
    state: UpdateFlow<VersionView>,
    event: UpdateEvent<VersionView, Seq<char>>,
)
    ensures
        update_next(manual, state, event).1 is FinishAndRestart ==> (state is Upgrading
            && event is Upgraded),
{
}

/// The check reads the installed version, then the published one; a
/// published version that is not newer ends the check, telling only a user
/// who asked that the installed version is the newest; one that is newer is
/// offered, naming both versions.
pub proof fn lemma_check_progress(
    manual: bool,
    installed: VersionView,
    latest: VersionView,
    reason: Seq<char>,
)
    ensures
        update_next(manual, UpdateFlow::QueryingInstalled, UpdateEvent::Installed(Ok(installed))) == (
            UpdateFlow::<VersionView>::QueryingLatest { installed },
            UpdateAction::<VersionView, Seq<char>>::QueryLatest,
        ),
        !semver_precedes(installed, latest) ==> update_next(
            manual,
            UpdateFlow::QueryingLatest { installed },
            UpdateEvent::Latest(Ok(latest)),
        ) == (
            UpdateFlow::<VersionView>::Over,
            UpdateAction::<VersionView, Seq<char>>::Finish {
                notice: if manual {
                    Some(
                        Notice {
                            message: "当前已是最新版本 v"@ + version_text(installed) + "。"@,
                            is_error: false,
                        },
                    )
                } else {
                    None
                },
            },
        ),
        semver_precedes(installed, latest) ==> update_next(
            manual,
            UpdateFlow::QueryingLatest { installed },
            UpdateEvent::Latest(Ok(latest)),
        ) == (
            UpdateFlow::<VersionView>::Confirming { latest },
            UpdateAction::<VersionView, Seq<char>>::Offer {
                message: "发现 dsh 新版本 v"@ + version_text(latest) + "（当前 v"@ + version_text(
                    installed,
                ) + "）。\n\n更新期间 dsh 服务将暂时停止，约需 1-2 分钟，请勿关闭应用。"@,
            },
        ),
        update_next(manual, UpdateFlow::QueryingInstalled, UpdateEvent::Installed(Err(reason))) == (
            UpdateFlow::<VersionView>::Over,
            UpdateAction::<VersionView, Seq<char>>::Finish {
                notice: if manual {
                    Some(Notice { message: reason, is_error: true })
                } else {
                    None
                },
            },
        ),
{
}

/// How a check that went wrong, or an upgrade, is reported: a failed query
/// of the published version (told only to a user who asked), an update page
/// that cannot be opened (always told), and the outcome of an upgrade, which
/// is shown before the restart.
pub proof fn lemma_check_reports(manual: bool, installed: VersionView, latest: VersionView, v: VersionView, reason: Seq<char>)
    ensures
        update_next(manual, UpdateFlow::QueryingLatest { installed }, UpdateEvent::Latest(Err(reason))) == (
            UpdateFlow::<VersionView>::Over,
            UpdateAction::<VersionView, Seq<char>>::Finish {
                notice: if manual {
                    Some(
                        Notice {
                            message: "无法查询 npm registry，请检查网络或代理后重试。\n\n"@ + reason,
                            is_error: true,
                        },
                    )
                } else {
                    None
                },
            },
        ),
        update_next(manual, UpdateFlow::OpeningUpdatePage { latest }, UpdateEvent::PageOpened(Err(reason)))
            == (
            UpdateFlow::<VersionView>::Over,
            UpdateAction::<VersionView, Seq<char>>::Finish {
                notice: Some(
                    Notice { message: "无法打开本地更新页面，更新尚未开始："@ + reason, is_error: true },
                ),
            },
        ),
        update_next(manual, UpdateFlow::Upgrading, UpdateEvent::Upgraded(Ok(v))) == (
            UpdateFlow::<VersionView>::Over,
            UpdateAction::<VersionView, Seq<char>>::FinishAndRestart {
                message: "dsh 已更新到 v"@ + version_text(v)
                    + "。\n\n点击确定重启应用后生效；你终端里手动运行的 dsh 需要自行重启。"@,
            },
        ),
        update_next(manual, UpdateFlow::Upgrading, UpdateEvent::Upgraded(Err(reason))) == (
            UpdateFlow::<VersionView>::Over,
            UpdateAction::<VersionView, Seq<char>>::FinishAndRestart {
                message: "dsh 更新失败："@ + reason + "\n\n点击确定重启应用以恢复。"@,
            },
        ),
{
}

} // verus!
