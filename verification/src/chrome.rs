//! The trusted title bar ("chrome") view: the dsh status it shows, the
//! scripts that keep it in sync with the window, the window actions it may
//! ask for, and how the window is shared between it and the content view.

use vstd::prelude::*;
use vstd::string::*;

use crate::text::same_text;

verus! {

/// The state of the dsh kernel that the title bar shows.
#[derive(Debug, Clone, Copy, PartialEq, Eq, Structural)]
pub enum KernelStatus {
    /// dsh is being found or started.
    Starting,
    /// dsh serves the web UI.
    Ready,
    /// An update check is running.
    Checking,
    /// A newer dsh was found and is being offered.
    Available,
    /// dsh is being upgraded.
    Updating,
}

impl Default for KernelStatus {
    fn default() -> (r: KernelStatus)
        ensures
            r == KernelStatus::Starting,
    {
        KernelStatus::Starting
    }
}

/// The name of a status as the title bar's script knows it.
pub open spec fn status_name(status: KernelStatus) -> Seq<char> {
    match status {
        KernelStatus::Starting => "starting"@,
        KernelStatus::Ready => "ready"@,
        KernelStatus::Checking => "checking"@,
        KernelStatus::Available => "available"@,
        KernelStatus::Updating => "updating"@,
    }
}

impl KernelStatus {
    /// The status's name: `starting`, `ready`, `checking`, `available` or `updating`.
    pub fn as_str(self) -> (r: &'static str)
        ensures
            r@ == status_name(self),
            r@ == (match self {
                KernelStatus::Starting => "starting"@,
                KernelStatus::Ready => "ready"@,
                KernelStatus::Checking => "checking"@,
                KernelStatus::Available => "available"@,
                KernelStatus::Updating => "updating"@,
            }),
    {
        match self {
            KernelStatus::Starting => "starting",
            KernelStatus::Ready => "ready",
            KernelStatus::Checking => "checking",
            KernelStatus::Available => "available",
            KernelStatus::Updating => "updating",
        }
    }
}

/// The script that shows `status` in the title bar.
pub open spec fn status_script_text(status: KernelStatus) -> Seq<char> {
    "window.setKernelState?.('"@ + status_name(status) + "');"@
}

/// `window.setKernelState?.('<name>');`.
pub fn status_script(status: KernelStatus) -> (r: String)
    ensures
        r@ == status_script_text(status),
        r@ == "window.setKernelState?.('"@ + status_name(status) + "');"@,
{
    let mut s = String::from_str("window.setKernelState?.('");
    s.append(status.as_str());
    s.append("');");
    s
}

/// The script that tells the title bar whether the window is maximized.
pub fn maximized_script(maximized: bool) -> (r: &'static str)
    ensures
        r@ == (if maximized {
            "window.setMaximized?.(true);"@
        } else {
            "window.setMaximized?.(false);"@
        }),
{
    if maximized {
        "window.setMaximized?.(true);"
    } else {
        "window.setMaximized?.(false);"
    }
}

/// The script that tells the title bar whether the window has the focus.
pub fn window_active_script(focused: bool) -> (r: &'static str)
    ensures
        r@ == (if focused {
            "window.setWindowActive?.(true);"@
        } else {
            "window.setWindowActive?.(false);"@
        }),
{
    if focused {
        "window.setWindowActive?.(true);"
    } else {
        "window.setWindowActive?.(false);"
    }
}

/// A window action that the title bar may ask for.
#[derive(Debug, Clone, Copy, PartialEq, Eq, Structural)]
pub enum WindowAction {
    /// Start moving the window with the pointer.
    StartDragging,
    /// Minimize the window.
    Minimize,
    /// Maximize the window, or restore it when it is maximized.
    ToggleMaximize,
    /// Close the window.
    Close,
}

/// The action a title-bar request names, if it names one.
pub open spec fn window_action_of(name: Seq<char>) -> Option<WindowAction> {
    if name == "start-dragging"@ {
        Some(WindowAction::StartDragging)
    } else if name == "minimize"@ {
        Some(WindowAction::Minimize)
    } else if name == "toggle-maximize"@ {
        Some(WindowAction::ToggleMaximize)
    } else if name == "close"@ {
        Some(WindowAction::Close)
    } else {
        None
    }
}

/// Reads a title-bar request; an unknown name is refused with a message.
pub fn parse_window_action(name: &str) -> (r: Result<WindowAction, String>)
    ensures
        match window_action_of(name@) {
            Some(a) => r == Ok::<WindowAction, String>(a),
            None => r matches Err(m) && m@ == "未知窗口操作："@ + name@,
        },
        name@ == "start-dragging"@ ==> r == Ok::<WindowAction, String>(WindowAction::StartDragging),
        name@ == "minimize"@ ==> r == Ok::<WindowAction, String>(WindowAction::Minimize),
        name@ == "toggle-maximize"@ ==> r == Ok::<WindowAction, String>(WindowAction::ToggleMaximize),
        name@ == "close"@ ==> r == Ok::<WindowAction, String>(WindowAction::Close),
        r is Err <==> !(name@ == "start-dragging"@ || name@ == "minimize"@ || name@
            == "toggle-maximize"@ || name@ == "close"@),
{
    proof {
        reveal_strlit("start-dragging");
        reveal_strlit("minimize");
        reveal_strlit("toggle-maximize");
        reveal_strlit("close");
        assert("start-dragging"@.len() == 14);
        assert("minimize"@.len() == 8);
        assert("toggle-maximize"@.len() == 15);
        assert("close"@.len() == 5);
    }
    if same_text(name, "start-dragging") {
        Ok(WindowAction::StartDragging)
    } else if same_text(name, "minimize") {
        Ok(WindowAction::Minimize)
    } else if same_text(name, "toggle-maximize") {
        Ok(WindowAction::ToggleMaximize)
    } else if same_text(name, "close") {
        Ok(WindowAction::Close)
    } else {
        Err(String::from_str("未知窗口操作：").concat(name))
    }
}

/// A window operation to perform.
#[derive(Debug, Clone, Copy, PartialEq, Eq, Structural)]
pub enum WindowOp {
    /// Start moving the window with the pointer.
    StartDragging,
    /// Minimize the window.
    Minimize,
    /// Maximize the window.
    Maximize,
    /// Restore the window from maximized.
    Unmaximize,
    /// Close the window.
    Close,
}

/// The operation that carries out `action` on a window that is maximized
/// when `maximized`: toggling restores a maximized window and maximizes any
/// other.
pub fn window_op(action: WindowAction, maximized: bool) -> (r: WindowOp)
    ensures
        r == (match action {
            WindowAction::StartDragging => WindowOp::StartDragging,
            WindowAction::Minimize => WindowOp::Minimize,
            WindowAction::ToggleMaximize => if maximized {
                WindowOp::Unmaximize
            } else {
                WindowOp::Maximize
            },
            WindowAction::Close => WindowOp::Close,
        }),
{
    match action {
        WindowAction::StartDragging => WindowOp::StartDragging,
        WindowAction::Minimize => WindowOp::Minimize,
        WindowAction::ToggleMaximize => {
            if maximized {
                WindowOp::Unmaximize
            } else {
                WindowOp::Maximize
            }
        },
        WindowAction::Close => WindowOp::Close,
    }
}

/// What a window action answers the title bar: whether the window is now
/// maximized (`maximized_after`), except after closing, which answers `false`.
pub fn window_action_reply(op: WindowOp, maximized_after: bool) -> (r: bool)
    ensures
        r == (op != WindowOp::Close && maximized_after),
{
    match op {
        WindowOp::Close => false,
        _ => maximized_after,
    }
}

/// Heights in physical pixels of the title bar and the content view for a
/// window `total` pixels high, when the title bar would like `wanted` pixels:
/// the title bar gets at most the whole window, the content view the rest.
pub fn split_heights(total: u32, wanted: u32) -> (r: (u32, u32))
    ensures
        r.0 == (if wanted < total {
            wanted
        } else {
            total
        }),
        r.0 + r.1 == total,
{
    let chrome = if wanted < total {
        wanted
    } else {
        total
    };
    (chrome, total - chrome)
}

} // verus!
