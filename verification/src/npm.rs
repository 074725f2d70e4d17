//! The dsh npm package: locating its global install, reading installed and
//! published versions, and judging the `npm` child processes that query and
//! upgrade it.

use vstd::prelude::*;
use vstd::string::*;

use crate::text::{decimal, decimal_string, join_strs, join_with, lines, text_lines, trim, trim_ws, views_of};
use crate::version::{
    dsh_version_of, parse_dsh_version, semver_precedes, version_less, version_text, DshVersion,
    VersionView,
};

verus! {

/// The npm package that provides dsh.
pub const DSH_PACKAGE: &'static str = "@deepseek-ai/dsh";

/// The npm spec that installs the newest dsh.
pub const DSH_LATEST_PACKAGE: &'static str = "@deepseek-ai/dsh@latest";

/// Seconds that an npm query may take.
pub const NPM_QUERY_TIMEOUT_SECS: u64 = 60;

/// Seconds that an npm upgrade may take.
pub const NPM_UPDATE_TIMEOUT_SECS: u64 = 600;

/// Milliseconds between two looks at a running npm query.
pub const NPM_QUERY_POLL_MS: u64 = 250;

/// Milliseconds between two looks at a running npm upgrade.
pub const NPM_UPDATE_POLL_MS: u64 = 500;

/// The command line shown for (and, on Windows, run as) an npm invocation.
pub open spec fn npm_line(args: Seq<Seq<char>>) -> Seq<char> {
    "npm "@ + join_with(args, " "@)
}

/// `npm <args joined by spaces>`.
pub fn npm_command_line(args: &[&str]) -> (r: String)
    ensures
        r@ == npm_line(views_of(args@)),
        r@ == "npm "@ + join_with(views_of(args@), " "@),
{
    let joined = join_strs(args, " ");
    String::from_str("npm ").concat(joined.as_str())
}

/// The first line of `ls` that is not blank, with its white space trimmed.
pub open spec fn first_nonblank(ls: Seq<Seq<char>>) -> Option<Seq<char>>
    decreases ls.len(),
{
    if ls.len() == 0 {
        None
    } else if trim_ws(ls[0]).len() > 0 {
        Some(trim_ws(ls[0]))
    } else {
        first_nonblank(ls.drop_first())
    }
}

/// The first non-blank line is the one found, trimmed and otherwise whole.
pub proof fn lemma_first_nonblank_at(ls: Seq<Seq<char>>, i: int)
    requires
        0 <= i < ls.len(),
        trim_ws(ls[i]).len() > 0,
        forall|j: int| 0 <= j < i ==> trim_ws(#[trigger] ls[j]).len() == 0,
    ensures
        first_nonblank(ls) == Some(trim_ws(ls[i])),
    decreases i,
{
    if i > 0 {
        assert forall|j: int| 0 <= j < i - 1 implies trim_ws(#[trigger] ls.drop_first()[j]).len() == 0 by {
            assert(ls.drop_first()[j] == ls[j + 1]);
        }
        assert(trim_ws(ls[0]).len() == 0);
        lemma_first_nonblank_at(ls.drop_first(), i - 1);
    }
}

/// No line is found exactly when every line is blank.
pub proof fn lemma_first_nonblank_none(ls: Seq<Seq<char>>)
    ensures
        first_nonblank(ls) is None <==> (forall|i: int| 0 <= i < ls.len() ==> trim_ws(#[trigger] ls[i]).len() == 0),
    decreases ls.len(),
{
    if ls.len() > 0 {
        lemma_first_nonblank_none(ls.drop_first());
        if trim_ws(ls[0]).len() == 0 {
            assert forall|i: int| 0 <= i < ls.len() && (forall|k: int| 0 <= k < ls.drop_first().len() ==> trim_ws(#[trigger] ls.drop_first()[k]).len() == 0) implies trim_ws(#[trigger] ls[i]).len() == 0 by {
                if i > 0 {
                    assert(ls[i] == ls.drop_first()[i - 1]);
                }
            }
            assert forall|k: int| 0 <= k < ls.drop_first().len() && (forall|i: int| 0 <= i < ls.len() ==> trim_ws(#[trigger] ls[i]).len() == 0) implies trim_ws(#[trigger] ls.drop_first()[k]).len() == 0 by {
                assert(ls.drop_first()[k] == ls[k + 1]);
            }
        }
    }
}

/// The global npm root printed by `npm root -g`: its first non-blank line,
/// with surrounding white space removed and nothing else.
pub fn npm_global_root(output: &str) -> (r: Option<String>)
    ensures
        r matches Some(root) ==> first_nonblank(text_lines(output@)) == Some(root@),
        r is None ==> first_nonblank(text_lines(output@)) is None,
        forall|i: int|
            0 <= i < text_lines(output@).len() && trim_ws(#[trigger] text_lines(output@)[i]).len() > 0
                && (forall|j: int| 0 <= j < i ==> trim_ws(#[trigger] text_lines(output@)[j]).len() == 0)
                ==> (r matches Some(root) && root@ == trim_ws(text_lines(output@)[i])),
        r is None <==> (forall|i: int|
            0 <= i < text_lines(output@).len() ==> trim_ws(#[trigger] text_lines(output@)[i]).len() == 0),
{
    let r = npm_root_line(output);
    proof {
        let ls = text_lines(output@);
        lemma_first_nonblank_none(ls);
        assert forall|i: int|
            0 <= i < ls.len() && trim_ws(#[trigger] ls[i]).len() > 0 && (forall|j: int|
                0 <= j < i ==> trim_ws(#[trigger] ls[j]).len() == 0) implies (r matches Some(root)
            && root@ == trim_ws(ls[i])) by {
            lemma_first_nonblank_at(ls, i);
        }
    }
    r
}

fn npm_root_line(output: &str) -> (r: Option<String>)
    ensures
        r matches Some(root) ==> first_nonblank(text_lines(output@)) == Some(root@),
        r is None ==> first_nonblank(text_lines(output@)) is None,
{
    let ls = lines(output);
    let ghost all = views_of(ls@);
    let n = ls.len();
    let mut i: usize = 0;
    assert(all.skip(0) =~= all);
    while i < n
        invariant
            n == ls@.len(),
            all == views_of(ls@),
            all == text_lines(output@),
            i <= n,
            first_nonblank(all) == first_nonblank(all.skip(i as int)),
        decreases n - i,
    {
        let t = trim(ls[i]);
        proof {
            assert(all.skip(i as int)[0] == ls@[i as int]@);
            assert(all.skip(i as int).drop_first() =~= all.skip(i + 1));
        }
        if t.unicode_len() > 0 {
            return Some(String::from_str(t));
        }
        i = i + 1;
    }
    proof {
        assert(all.skip(i as int).len() == 0);
    }
    None
}

/// The candidate manifests of the global dsh install, in the order they are
/// tried: the one under npm's global root, then the fallback location unless
/// `fallback_is_primary` says it is the same path as the first. Paths are
/// compared by the caller, so the list holds no path twice exactly when that
/// flag is true whenever the two paths are equal.
pub fn manifest_candidates<T>(primary: Option<T>, fallback: Option<T>, fallback_is_primary: bool) -> (r: Vec<T>)
    ensures
        r@ == (match (primary, fallback) {
            (Some(p), Some(f)) => if fallback_is_primary {
                seq![p]
            } else {
                seq![p, f]
            },
            (Some(p), None) => seq![p],
            (None, Some(f)) => seq![f],
            (None, None) => Seq::<T>::empty(),
        }),
{
    let mut out: Vec<T> = Vec::new();
    let had_primary = primary.is_some();
    match primary {
        Some(p) => out.push(p),
        None => {},
    }
    match fallback {
        Some(f) => {
            if !(had_primary && fallback_is_primary) {
                out.push(f);
            }
        },
        None => {},
    }
    proof {
        assert(out@ =~= (match (primary, fallback) {
            (Some(p), Some(f)) => if fallback_is_primary {
                seq![p]
            } else {
                seq![p, f]
            },
            (Some(p), None) => seq![p],
            (None, Some(f)) => seq![f],
            (None, None) => Seq::<T>::empty(),
        }));
    }
    out
}

/// What `serde_json` finds in a package manifest: the error text when the
/// text is not JSON, else the `version` member when it is a string.
pub uninterp spec fn json_version_field(text: Seq<char>) -> Result<Option<Seq<char>>, Seq<char>>;

/// The views of an optional owned string.
pub open spec fn opt_text(o: Option<String>) -> Option<Seq<char>> {
    match o {
        Some(s) => Some(s@),
        None => None,
    }
}

/// Calls `serde_json::from_str::<serde_json::Value>` on `text` and takes the
/// `version` member as a string slice (`Value::get`, `Value::as_str`). Claimed:
/// the result is what the name `json_version_field` gives for `text`, the
/// error carried as its `Display` text.
#[verifier::external_body]
fn json_version(text: &str) -> (r: Result<Option<String>, String>)
    ensures
        match r {
            Ok(v) => json_version_field(text@) == Ok::<Option<Seq<char>>, Seq<char>>(opt_text(v)),
            Err(e) => json_version_field(text@) == Err::<Option<Seq<char>>, Seq<char>>(e@),
        },
{
    match serde_json::from_str::<serde_json::Value>(text) {
        Ok(value) => Ok(value.get("version").and_then(serde_json::Value::as_str).map(str::to_string)),
        Err(e) => Err(e.to_string()),
    }
}

/// A manifest file that exists on disk: its displayed path and what reading it gave.
#[derive(Debug)]
pub struct ManifestRead {
    pub path: String,
    pub contents: Result<String, String>,
}

/// Message when no manifest of a global dsh install exists.
pub open spec fn not_installed_message() -> Seq<char> {
    "未找到全局安装的 @deepseek-ai/dsh（已检查 npm root -g 与 APPDATA 兜底路径）"@
}

/// What the installed version is, given the first existing manifest (if any).
pub open spec fn installed_version_of(
    found: Option<(Seq<char>, Result<Seq<char>, Seq<char>>)>,
) -> Result<VersionView, Seq<char>> {
    match found {
        None => Err(not_installed_message()),
        Some((path, Err(e))) => Err("读取 "@ + path + " 失败："@ + e),
        Some((path, Ok(text))) => match json_version_field(text) {
            Err(e) => Err("解析 "@ + path + " 失败："@ + e),
            Ok(None) => Err(path + " 缺少 version 字段"@),
            Ok(Some(raw)) => dsh_version_of(raw),
        },
    }
}

/// The view of a manifest read.
pub open spec fn manifest_view(m: Option<ManifestRead>) -> Option<(Seq<char>, Result<Seq<char>, Seq<char>>)> {
    match m {
        None => None,
        Some(m) => Some(
            (
                m.path@,
                match m.contents {
                    Ok(t) => Ok::<Seq<char>, Seq<char>>(t@),
                    Err(e) => Err::<Seq<char>, Seq<char>>(e@),
                },
            ),
        ),
    }
}

/// The raw version text of a manifest at `path`, given what `serde_json`
/// found in it: the `version` string, or the message for a manifest that is
/// not JSON or has no string `version`.
pub fn manifest_version_text(path: &str, field: Result<Option<String>, String>) -> (r: Result<String, String>)
    ensures
        match field {
            Err(e) => r matches Err(m) && m@ == "解析 "@ + path@ + " 失败："@ + e@,
            Ok(None) => r matches Err(m) && m@ == path@ + " 缺少 version 字段"@,
            Ok(Some(raw)) => r matches Ok(t) && t@ == raw@,
        },
{
    match field {
        Err(e) => {
            let mut msg = String::from_str("解析 ");
            msg.append(path);
            msg.append(" 失败：");
            msg.append(e.as_str());
            Err(msg)
        },
        Ok(None) => Err(String::from_str(path).concat(" 缺少 version 字段")),
        Ok(Some(raw)) => Ok(raw),
    }
}

/// The installed dsh version, read from the first manifest that exists.
pub fn installed_version(found: Option<ManifestRead>) -> (r: Result<DshVersion, String>)
    ensures
        match r {
            Ok(v) => installed_version_of(manifest_view(found)) == Ok::<VersionView, Seq<char>>(v@),
            Err(e) => installed_version_of(manifest_view(found)) == Err::<VersionView, Seq<char>>(e@),
        },
        match found {
            None => r matches Err(x) && x@
                == "未找到全局安装的 @deepseek-ai/dsh（已检查 npm root -g 与 APPDATA 兜底路径）"@,
            Some(m) => match m.contents {
                Err(e) => r matches Err(x) && x@ == "读取 "@ + m.path@ + " 失败："@ + e@,
                Ok(t) => match json_version_field(t@) {
                    Err(e) => r matches Err(x) && x@ == "解析 "@ + m.path@ + " 失败："@ + e,
                    Ok(None) => r matches Err(x) && x@ == m.path@ + " 缺少 version 字段"@,
                    Ok(Some(raw)) => match dsh_version_of(raw) {
                        Ok(v) => r matches Ok(w) && w@ == v,
                        Err(e) => r matches Err(x) && x@ == e,
                    },
                },
            },
        },
{
    match found {
        None => Err(String::from_str("未找到全局安装的 @deepseek-ai/dsh（已检查 npm root -g 与 APPDATA 兜底路径）")),
        Some(m) => match m.contents {
            Err(e) => {
                let mut msg = String::from_str("读取 ");
                msg.append(m.path.as_str());
                msg.append(" 失败：");
                msg.append(e.as_str());
                Err(msg)
            },
            Ok(text) => match manifest_version_text(m.path.as_str(), json_version(text.as_str())) {
                Err(msg) => Err(msg),
                Ok(raw) => parse_dsh_version(raw.as_str()),
            },
        },
    }
}

/// The first version among the outcomes of reading several texts.
pub open spec fn first_ok(outcomes: Seq<Result<VersionView, Seq<char>>>) -> Option<VersionView>
    decreases outcomes.len(),
{
    if outcomes.len() == 0 {
        None
    } else {
        match outcomes[0] {
            Ok(v) => Some(v),
            Err(_) => first_ok(outcomes.drop_first()),
        }
    }
}

/// The first line of `ls` that reads as a dsh version.
pub open spec fn first_version(ls: Seq<Seq<char>>) -> Option<VersionView> {
    first_ok(ls.map_values(|l: Seq<char>| dsh_version_of(l)))
}

/// Message when `npm view` printed no version.
pub open spec fn no_published_version_message() -> Seq<char> {
    "npm 返回结果里没有有效的 dsh 版本号"@
}

/// The views of reading outcomes.
pub open spec fn outcome_views(v: Seq<Result<DshVersion, String>>) -> Seq<Result<VersionView, Seq<char>>> {
    v.map_values(
        |o: Result<DshVersion, String>|
            match o {
                Ok(x) => Ok::<VersionView, Seq<char>>(x@),
                Err(e) => Err::<VersionView, Seq<char>>(e@),
            },
    )
}

/// The first version among the outcomes of reading the lines of `npm view`,
/// or the message that none was a version.
pub fn pick_first_version(outcomes: Vec<Result<DshVersion, String>>) -> (r: Result<DshVersion, String>)
    ensures
        match r {
            Ok(v) => first_ok(outcome_views(outcomes@)) == Some(v@),
            Err(e) => first_ok(outcome_views(outcomes@)) is None && e@ == no_published_version_message(),
        },
{
    let ghost all = outcome_views(outcomes@);
    let n = outcomes.len();
    let mut i: usize = 0;
    assert(all.skip(0) =~= all);
    while i < n
        invariant
            n == outcomes@.len(),
            all == outcome_views(outcomes@),
            i <= n,
            first_ok(all) == first_ok(all.skip(i as int)),
        decreases n - i,
    {
        proof {
            assert(all.skip(i as int).drop_first() =~= all.skip(i + 1));
        }
        match &outcomes[i] {
            Ok(v) => {
                return Ok(v.duplicate());
            },
            Err(_) => {},
        }
        i = i + 1;
    }
    proof {
        assert(all.skip(i as int).len() == 0);
    }
    Err(String::from_str("npm 返回结果里没有有效的 dsh 版本号"))
}

/// The first line that reads as a version is the one found.
pub proof fn lemma_first_version_at(ls: Seq<Seq<char>>, i: int, v: VersionView)
    requires
        0 <= i < ls.len(),
        dsh_version_of(ls[i]) == Ok::<VersionView, Seq<char>>(v),
        forall|j: int| 0 <= j < i ==> (#[trigger] dsh_version_of(ls[j])) is Err,
    ensures
        first_version(ls) == Some(v),
    decreases i,
{
    let m = ls.map_values(|l: Seq<char>| dsh_version_of(l));
    assert(m[0] == dsh_version_of(ls[0]));
    if i > 0 {
        assert(dsh_version_of(ls[0]) is Err);
        assert(m.drop_first() =~= ls.drop_first().map_values(|l: Seq<char>| dsh_version_of(l)));
        assert forall|j: int| 0 <= j < i - 1 implies (#[trigger] dsh_version_of(ls.drop_first()[j])) is Err by {
            assert(ls.drop_first()[j] == ls[j + 1]);
        }
        assert(ls.drop_first()[i - 1] == ls[i]);
        lemma_first_version_at(ls.drop_first(), i - 1, v);
    }
}

/// No version is found exactly when no line reads as one.
pub proof fn lemma_first_version_none(ls: Seq<Seq<char>>)
    ensures
        first_version(ls) is None <==> (forall|i: int| 0 <= i < ls.len() ==> (#[trigger] dsh_version_of(ls[i])) is Err),
    decreases ls.len(),
{
    let m = ls.map_values(|l: Seq<char>| dsh_version_of(l));
    if ls.len() > 0 {
        assert(m[0] == dsh_version_of(ls[0]));
        assert(m.drop_first() =~= ls.drop_first().map_values(|l: Seq<char>| dsh_version_of(l)));
        lemma_first_version_none(ls.drop_first());
        if dsh_version_of(ls[0]) is Err {
            assert forall|i: int| 0 <= i < ls.len() && (forall|k: int| 0 <= k < ls.drop_first().len() ==> (#[trigger] dsh_version_of(ls.drop_first()[k])) is Err) implies (#[trigger] dsh_version_of(ls[i])) is Err by {
                if i > 0 {
                    assert(ls[i] == ls.drop_first()[i - 1]);
                }
            }
            assert forall|k: int| 0 <= k < ls.drop_first().len() && (forall|i: int| 0 <= i < ls.len() ==> (#[trigger] dsh_version_of(ls[i])) is Err) implies (#[trigger] dsh_version_of(ls.drop_first()[k])) is Err by {
                assert(ls.drop_first()[k] == ls[k + 1]);
            }
        } else {
            assert(!(forall|i: int| 0 <= i < ls.len() ==> (#[trigger] dsh_version_of(ls[i])) is Err));
        }
    }
}

/// The newest published dsh version from the output of `npm view`: the first
/// line that reads as a version, whatever kind of version it is.
pub fn latest_version_from_output(output: &str) -> (r: Result<DshVersion, String>)
    ensures
        match r {
            Ok(v) => first_version(text_lines(output@)) == Some(v@),
            Err(e) => first_version(text_lines(output@)) is None && e@ == no_published_version_message(),
        },
        forall|i: int|
            0 <= i < text_lines(output@).len() && (#[trigger] dsh_version_of(text_lines(output@)[i])) is Ok
                && (forall|j: int|
                0 <= j < i ==> (#[trigger] dsh_version_of(text_lines(output@)[j])) is Err) ==> (r matches Ok(
                w,
            ) && dsh_version_of(text_lines(output@)[i]) == Ok::<VersionView, Seq<char>>(w@)),
        r is Err <==> (forall|i: int|
            0 <= i < text_lines(output@).len() ==> (#[trigger] dsh_version_of(text_lines(output@)[i])) is Err),
        r matches Err(e) ==> e@ == "npm 返回结果里没有有效的 dsh 版本号"@,
{
    let r = first_version_line(output);
    proof {
        let ls = text_lines(output@);
        lemma_first_version_none(ls);
        assert forall|i: int|
            0 <= i < ls.len() && (#[trigger] dsh_version_of(ls[i])) is Ok && (forall|j: int|
                0 <= j < i ==> (#[trigger] dsh_version_of(ls[j])) is Err) implies (r matches Ok(w)
            && dsh_version_of(ls[i]) == Ok::<VersionView, Seq<char>>(w@)) by {
            lemma_first_version_at(ls, i, dsh_version_of(ls[i])->Ok_0);
        }
    }
    r
}

fn first_version_line(output: &str) -> (r: Result<DshVersion, String>)
    ensures
        match r {
            Ok(v) => first_version(text_lines(output@)) == Some(v@),
            Err(e) => first_version(text_lines(output@)) is None && e@ == no_published_version_message(),
        },
{
    let ls = lines(output);
    let ghost all = views_of(ls@);
    let n = ls.len();
    let mut outcomes: Vec<Result<DshVersion, String>> = Vec::new();
    let mut i: usize = 0;
    while i < n
        invariant
            n == ls@.len(),
            all == views_of(ls@),
            all == text_lines(output@),
            i <= n,
            outcome_views(outcomes@) =~= all.take(i as int).map_values(
                |l: Seq<char>| dsh_version_of(l),
            ),
        decreases n - i,
    {
        let o = parse_dsh_version(ls[i]);
        proof {
            assert(all[i as int] == ls@[i as int]@);
            assert(all.take(i + 1) =~= all.take(i as int).push(all[i as int]));
        }
        let ghost prev = outcomes@;
        let ghost ov = outcome_views(seq![o])[0];
        assert(ov == dsh_version_of(all[i as int]));
        outcomes.push(o);
        proof {
            assert(outcomes@ =~= prev.push(o));
            assert(outcome_views(outcomes@) =~= outcome_views(prev).push(ov));
            assert(all.take(i + 1).map_values(|l: Seq<char>| dsh_version_of(l)) =~= all.take(
                i as int,
            ).map_values(|l: Seq<char>| dsh_version_of(l)).push(dsh_version_of(all[i as int])));
        }
        i = i + 1;
    }
    proof {
        assert(all.take(n as int) =~= all);
    }
    pick_first_version(outcomes)
}

/// What one look at a running child process found.
#[derive(Debug)]
pub enum ChildPoll {
    /// The process has exited; `status` is its exit status as displayed.
    Exited { success: bool, status: String },
    /// The process is still running.
    Running,
    /// Asking for the process's state failed with this error text.
    WaitFailed(String),
}

/// What to do after looking at a child process.
#[derive(Debug)]
pub enum PollStep {
    /// It exited successfully: go on with its result.
    Finished,
    /// Give up with this message; the process is no longer running.
    Failed(String),
    /// Stop the process tree, then give up with this message.
    Abandon(String),
    /// Sleep a little and look again.
    KeepWaiting,
}

/// The message when an npm query cannot start.
pub open spec fn capture_spawn_message(command: Seq<char>, err: Seq<char>) -> Seq<char> {
    "无法启动 "@ + command + "："@ + err
}

/// `无法启动 {command}：{err}`.
pub fn capture_spawn_error(command: &str, err: &str) -> (r: String)
    ensures
        r@ == capture_spawn_message(command@, err@),
        r@ == "无法启动 "@ + command@ + "："@ + err@,
{
    let mut m = String::from_str("无法启动 ");
    m.append(command);
    m.append("：");
    m.append(err);
    m
}

/// Judges one look at an npm query process (`command` as displayed), where
/// `past_deadline` says whether its time limit of `timeout_secs` has run out.
pub fn capture_step(command: &str, poll: &ChildPoll, past_deadline: bool, timeout_secs: u64) -> (r: PollStep)
    ensures
        match *poll {
            ChildPoll::Exited { success: true, .. } => r is Finished,
            ChildPoll::Exited { success: false, status } => r matches PollStep::Failed(m) && m@
                == command@ + " 执行失败（"@ + status@ + "）"@,
            ChildPoll::WaitFailed(e) => r matches PollStep::Abandon(m) && m@ == "等待 "@ + command@
                + " 失败："@ + e@,
            ChildPoll::Running => if past_deadline {
                r matches PollStep::Abandon(m) && m@ == command@ + " 超时（"@ + decimal(
                    timeout_secs as nat,
                ) + " 秒）"@
            } else {
                r is KeepWaiting
            },
        },
{
    match poll {
        ChildPoll::Exited { success, status } => {
            if *success {
                PollStep::Finished
            } else {
                let mut m = String::from_str(command);
                m.append(" 执行失败（");
                m.append(status.as_str());
                m.append("）");
                PollStep::Failed(m)
            }
        },
        ChildPoll::WaitFailed(e) => {
            let mut m = String::from_str("等待 ");
            m.append(command);
            m.append(" 失败：");
            m.append(e.as_str());
            PollStep::Abandon(m)
        },
        ChildPoll::Running => {
            if past_deadline {
                let mut m = String::from_str(command);
                m.append(" 超时（");
                m.append(decimal_string(timeout_secs).as_str());
                m.append(" 秒）");
                PollStep::Abandon(m)
            } else {
                PollStep::KeepWaiting
            }
        },
    }
}

/// The captured output of a finished npm query: `stdout` is `None` when the
/// pipe was not there to read, else the outcome of reading it to the end.
pub fn capture_output(command: &str, stdout: Option<Result<String, String>>) -> (r: Result<String, String>)
    ensures
        match stdout {
            None => r matches Err(m) && m@ == "无法读取 "@ + command@ + " 的输出"@,
            Some(Err(e)) => r matches Err(m) && m@ == "读取 "@ + command@ + " 输出失败："@ + e@,
            Some(Ok(out)) => r matches Ok(o) && o@ == out@,
        },
{
    match stdout {
        None => {
            let mut m = String::from_str("无法读取 ");
            m.append(command);
            m.append(" 的输出");
            Err(m)
        },
        Some(Err(e)) => {
            let mut m = String::from_str("读取 ");
            m.append(command);
            m.append(" 输出失败：");
            m.append(e.as_str());
            Err(m)
        },
        Some(Ok(out)) => Ok(out),
    }
}

/// The message when the npm upgrade cannot start.
pub fn update_spawn_error(err: &str) -> (r: String)
    ensures
        r@ == "无法启动 npm 更新："@ + err@,
{
    String::from_str("无法启动 npm 更新：").concat(err)
}

/// Judges one look at the npm upgrade process, whose log is in `log_dir`.
pub fn update_step(log_dir: &str, poll: &ChildPoll, past_deadline: bool) -> (r: PollStep)
    ensures
        match *poll {
            ChildPoll::Exited { success: true, .. } => r is Finished,
            ChildPoll::Exited { success: false, status } => r matches PollStep::Failed(m) && m@
                == "npm 退出码 "@ + status@ + "，详见 "@ + log_dir@ + "\\dsh-update.log"@,
            ChildPoll::WaitFailed(e) => r matches PollStep::Abandon(m) && m@ == "等待 npm 更新进程失败："@
                + e@,
            ChildPoll::Running => if past_deadline {
                r matches PollStep::Abandon(m) && m@ == "更新超时（10 分钟），详见 "@ + log_dir@
                    + "\\dsh-update.log"@
            } else {
                r is KeepWaiting
            },
        },
{
    match poll {
        ChildPoll::Exited { success, status } => {
            if *success {
                PollStep::Finished
            } else {
                let mut m = String::from_str("npm 退出码 ");
                m.append(status.as_str());
                m.append("，详见 ");
                m.append(log_dir);
                m.append("\\dsh-update.log");
                PollStep::Failed(m)
            }
        },
        ChildPoll::WaitFailed(e) => {
            PollStep::Abandon(String::from_str("等待 npm 更新进程失败：").concat(e.as_str()))
        },
        ChildPoll::Running => {
            if past_deadline {
                let mut m = String::from_str("更新超时（10 分钟），详见 ");
                m.append(log_dir);
                m.append("\\dsh-update.log");
                PollStep::Abandon(m)
            } else {
                PollStep::KeepWaiting
            }
        },
    }
}

/// The outcome of an upgrade that npm reported as done, given the version
/// read back (`actual`) and whether it is below `expected`.
pub fn upgrade_verdict(actual: Result<DshVersion, String>, expected: &DshVersion, below_expected: bool) -> (r: Result<DshVersion, String>)
    ensures
        match actual {
            Err(reason) => r matches Err(m) && m@ == "npm 已完成，但无法验证安装版本："@ + reason@,
            Ok(v) => if below_expected {
                r matches Err(m) && m@ == "npm 已完成，但实际版本仍为 v"@ + version_text(v@)
                    + "（期望至少 v"@ + version_text(expected@) + "）"@
            } else {
                r matches Ok(w) && w@ == v@
            },
        },
{
    match actual {
        Err(reason) => Err(String::from_str("npm 已完成，但无法验证安装版本：").concat(reason.as_str())),
        Ok(v) => {
            if below_expected {
                let mut m = String::from_str("npm 已完成，但实际版本仍为 v");
                m.append(v.to_string().as_str());
                m.append("（期望至少 v");
                m.append(expected.to_string().as_str());
                m.append("）");
                Err(m)
            } else {
                Ok(v)
            }
        },
    }
}

/// Whether an upgrade that npm reported as done really installed `expected`
/// or newer: `actual` is the version read back after npm finished.
pub fn check_installed_after_update(actual: Result<DshVersion, String>, expected: &DshVersion) -> (r: Result<DshVersion, String>)
    ensures
        match actual {
            Err(reason) => r matches Err(m) && m@ == "npm 已完成，但无法验证安装版本："@ + reason@,
            Ok(v) => if semver_precedes(v@, expected@) {
                r matches Err(m) && m@ == "npm 已完成，但实际版本仍为 v"@ + version_text(v@)
                    + "（期望至少 v"@ + version_text(expected@) + "）"@
            } else {
                r matches Ok(w) && w@ == v@
            },
        },
        r matches Ok(w) ==> !semver_precedes(w@, expected@),
{
    let below = match &actual {
        Ok(v) => version_less(v, expected),
        Err(_) => false,
    };
    upgrade_verdict(actual, expected, below)
}

} // verus!
