use dsh_desktop::chrome::{
    maximized_script, parse_window_action, split_heights, status_script, window_action_reply,
    window_active_script, window_op, KernelStatus, WindowAction, WindowOp,
};
use dsh_desktop::npm::{
    capture_output, capture_spawn_error, capture_step, manifest_candidates, npm_command_line,
    npm_global_root, update_spawn_error, update_step, ChildPoll, PollStep,
};
use dsh_desktop::startup::{
    startup_begin, startup_step, wait_step, Startup, StartupAction, StartupEvent, WaitStep,
};
use dsh_desktop::update::{
    begin_update_check, busy_notice, update_flow_begin, update_step as update_flow_step,
    UpdateAction, UpdateBegin, UpdateEvent, UpdateFlow,
};
use dsh_desktop::version::parse_dsh_version;

#[test]
fn kernel_status_names_and_scripts() {
    assert_eq!(KernelStatus::default().as_str(), "starting");
    assert_eq!(KernelStatus::Ready.as_str(), "ready");
    assert_eq!(KernelStatus::Checking.as_str(), "checking");
    assert_eq!(KernelStatus::Available.as_str(), "available");
    assert_eq!(KernelStatus::Updating.as_str(), "updating");
    assert_eq!(status_script(KernelStatus::Updating), "window.setKernelState?.('updating');");
    assert_eq!(maximized_script(true), "window.setMaximized?.(true);");
    assert_eq!(window_active_script(false), "window.setWindowActive?.(false);");
}

#[test]
fn window_actions() {
    assert!(matches!(parse_window_action("start-dragging"), Ok(WindowAction::StartDragging)));
    assert!(matches!(parse_window_action("minimize"), Ok(WindowAction::Minimize)));
    assert!(matches!(parse_window_action("toggle-maximize"), Ok(WindowAction::ToggleMaximize)));
    assert!(matches!(parse_window_action("close"), Ok(WindowAction::Close)));
    assert_eq!(parse_window_action("explode").unwrap_err(), "未知窗口操作：explode");
}

#[test]
fn webview_heights() {
    assert_eq!(split_heights(760, 65), (65, 695));
    assert_eq!(split_heights(40, 65), (40, 0));
}

#[test]
fn npm_lines_and_roots() {
    assert_eq!(npm_command_line(&["view", "@deepseek-ai/dsh", "version"]), "npm view @deepseek-ai/dsh version");
    assert_eq!(npm_global_root("\n  \r\n C:\\npm\\node_modules \r\n").unwrap(), "C:\\npm\\node_modules");
    assert!(npm_global_root(" \n\t\n").is_none());
    assert_eq!(manifest_candidates(Some(1), Some(2), false), vec![1, 2]);
    assert_eq!(manifest_candidates(Some(1), Some(1), true), vec![1]);
    assert_eq!(manifest_candidates(None, Some(2), true), vec![2]);
    assert!(manifest_candidates::<i32>(None, None, false).is_empty());
}

#[test]
fn npm_query_polling() {
    let cmd = "npm root -g";
    assert!(matches!(capture_step(cmd, &ChildPoll::Exited { success: true, status: "exit code: 0".into() }, true, 60), PollStep::Finished));
    match capture_step(cmd, &ChildPoll::Exited { success: false, status: "exit code: 1".into() }, false, 60) {
        PollStep::Failed(m) => assert_eq!(m, "npm root -g 执行失败（exit code: 1）"),
        _ => panic!("expected failure"),
    }
    match capture_step(cmd, &ChildPoll::WaitFailed("boom".into()), false, 60) {
        PollStep::Abandon(m) => assert_eq!(m, "等待 npm root -g 失败：boom"),
        _ => panic!("expected abandon"),
    }
    match capture_step(cmd, &ChildPoll::Running, true, 60) {
        PollStep::Abandon(m) => assert_eq!(m, "npm root -g 超时（60 秒）"),
        _ => panic!("expected timeout"),
    }
    assert!(matches!(capture_step(cmd, &ChildPoll::Running, false, 60), PollStep::KeepWaiting));
    assert_eq!(capture_spawn_error(cmd, "not found"), "无法启动 npm root -g：not found");
    assert_eq!(capture_output(cmd, None).unwrap_err(), "无法读取 npm root -g 的输出");
    assert_eq!(capture_output(cmd, Some(Err("eof".into()))).unwrap_err(), "读取 npm root -g 输出失败：eof");
    assert_eq!(capture_output(cmd, Some(Ok("out".into()))).unwrap(), "out");
}

#[test]
fn npm_update_polling() {
    let dir = "C:\\logs";
    match update_step(dir, &ChildPoll::Exited { success: false, status: "exit code: 1".into() }, false) {
        PollStep::Failed(m) => assert_eq!(m, "npm 退出码 exit code: 1，详见 C:\\logs\\dsh-update.log"),
        _ => panic!("expected failure"),
    }
    match update_step(dir, &ChildPoll::Running, true) {
        PollStep::Abandon(m) => assert_eq!(m, "更新超时（10 分钟），详见 C:\\logs\\dsh-update.log"),
        _ => panic!("expected timeout"),
    }
    match update_step(dir, &ChildPoll::WaitFailed("e".into()), false) {
        PollStep::Abandon(m) => assert_eq!(m, "等待 npm 更新进程失败：e"),
        _ => panic!("expected abandon"),
    }
    assert!(matches!(update_step(dir, &ChildPoll::Exited { success: true, status: String::new() }, true), PollStep::Finished));
    assert!(matches!(update_step(dir, &ChildPoll::Running, false), PollStep::KeepWaiting));
    assert_eq!(update_spawn_error("x"), "无法启动 npm 更新：x");
}

#[test]
fn waiting_for_started_dsh() {
    assert!(matches!(wait_step(true, Some("exit code: 1"), true, 120), WaitStep::Ready));
    match wait_step(false, Some("exit code: 1"), true, 120) {
        WaitStep::Failed(m) => assert_eq!(
            m,
            "dsh 进程提前退出（exit code: 1）。请确认已全局安装 dsh（npm i -g @deepseek-ai/dsh）且 PATH 可用"
        ),
        _ => panic!("expected failure"),
    }
    match wait_step(false, None, true, 120) {
        WaitStep::Failed(m) => assert_eq!(m, "等待 dsh 就绪超时（120 秒）"),
        _ => panic!("expected timeout"),
    }
    assert!(matches!(wait_step(false, None, false, 120), WaitStep::KeepWaiting));
}

#[test]
fn startup_attaches_to_running_dsh() {
    let (s, a) = startup_step(3080, "L", startup_begin(), StartupEvent::Probed { serving: true });
    assert!(matches!(s, Startup::Done));
    assert!(matches!(a, StartupAction::FinishAttached));
    let (s, a) = startup_step(3080, "L", s, StartupEvent::Probed { serving: true });
    assert!(matches!(s, Startup::Done));
    assert!(matches!(a, StartupAction::Nothing));
}

#[test]
fn startup_foreign_listener_times_out() {
    let (s, a) = startup_step(3081, "L", Startup::Probing, StartupEvent::Probed { serving: false });
    assert!(matches!(a, StartupAction::CheckPort));
    let (s, a) = startup_step(3081, "L", s, StartupEvent::PortChecked { busy: true });
    assert!(matches!(a, StartupAction::PollForeign { pause: false }));
    let (s, a) = startup_step(3081, "L", s, StartupEvent::ForeignPolled { deadline_passed: false, serving: false });
    assert!(matches!(a, StartupAction::PollForeign { pause: true }));
    let (s, a) = startup_step(3081, "L", s, StartupEvent::ForeignPolled { deadline_passed: true, serving: false });
    assert!(matches!(s, Startup::Done));
    match a {
        StartupAction::Fail(m) => assert_eq!(
            m,
            "端口 3081 已被其它程序占用，且不是 dsh。\n\n可设置环境变量 DSH_WEB_PORT 换一个端口后重启。"
        ),
        _ => panic!("expected failure"),
    }
}

#[test]
fn startup_spawns_and_falls_back() {
    let (s, a) = startup_step(3080, "C:\\logs", Startup::CheckingPort, StartupEvent::PortChecked { busy: false });
    assert!(matches!(a, StartupAction::SpawnPrimary));
    let (s, a) = startup_step(3080, "C:\\logs", s, StartupEvent::Spawned(Ok(())));
    assert!(matches!(a, StartupAction::WaitForChild));
    let (s, a) = startup_step(3080, "C:\\logs", s, StartupEvent::Waited(Err("first".into())));
    assert!(matches!(a, StartupAction::StopChildThenSpawnFallback));
    let (_, a) = startup_step(3080, "C:\\logs", s, StartupEvent::FallbackSpawned(Some(Err("enoent".into()))));
    match a {
        StartupAction::Fail(m) => assert_eq!(m, "first；node 直启也失败：enoent\n\n日志：C:\\logs\\dsh-server.log"),
        _ => panic!("expected failure"),
    }
    let (_, a) = startup_step(3080, "L", Startup::SpawningFallback { reason: "r".into() }, StartupEvent::FallbackSpawned(None));
    match a {
        StartupAction::Fail(m) => assert_eq!(m, "r\n\n日志：L\\dsh-server.log"),
        _ => panic!("expected failure"),
    }
    let (s, a) = startup_step(3080, "L", Startup::SpawningFallback { reason: "r".into() }, StartupEvent::FallbackSpawned(Some(Ok(()))));
    assert!(matches!(a, StartupAction::WaitForChild));
    let (_, a) = startup_step(3080, "L", s, StartupEvent::Waited(Ok(())));
    assert!(matches!(a, StartupAction::AdoptChildAndFinish));
    let (_, a) = startup_step(3080, "L", Startup::WaitingFallback, StartupEvent::Waited(Err("late".into())));
    match a {
        StartupAction::StopChildThenFail(m) => assert_eq!(m, "late\n\n日志：L\\dsh-server.log"),
        _ => panic!("expected failure"),
    }
    let (_, a) = startup_step(3080, "L", Startup::SpawningPrimary, StartupEvent::Spawned(Err("denied".into())));
    match a {
        StartupAction::Fail(m) => assert_eq!(m, "无法启动 dsh：denied"),
        _ => panic!("expected failure"),
    }
}

#[test]
fn update_lock_refuses_second_check() {
    assert_eq!(begin_update_check(false, true), (true, UpdateBegin::Started));
    assert_eq!(begin_update_check(true, true), (true, UpdateBegin::Busy { notify: true }));
    assert_eq!(begin_update_check(true, false), (true, UpdateBegin::Busy { notify: false }));
    assert_eq!(busy_notice(), "已有更新任务在进行中，请稍候。");
}

#[test]
fn manual_update_flow_to_restart() {
    let installed = parse_dsh_version("0.1.0").unwrap();
    let latest = parse_dsh_version("0.2.0").unwrap();
    let (s, a) = update_flow_step(true, update_flow_begin(), UpdateEvent::Installed(Ok(installed)));
    assert!(matches!(a, UpdateAction::QueryLatest));
    let (s, a) = update_flow_step(true, s, UpdateEvent::Latest(Ok(latest)));
    match a {
        UpdateAction::Offer { message } => assert_eq!(
            message,
            "发现 dsh 新版本 v0.2.0（当前 v0.1.0）。\n\n更新期间 dsh 服务将暂时停止，约需 1-2 分钟，请勿关闭应用。"
        ),
        _ => panic!("expected offer"),
    }
    let (s, a) = update_flow_step(true, s, UpdateEvent::Confirmed(true));
    assert!(matches!(a, UpdateAction::OpenUpdatePage));
    let (s, a) = update_flow_step(true, s, UpdateEvent::PageOpened(Ok(())));
    match a {
        UpdateAction::Upgrade { expected } => assert_eq!(expected.to_string(), "0.2.0"),
        _ => panic!("expected upgrade"),
    }
    let (s, a) = update_flow_step(true, s, UpdateEvent::Upgraded(Ok(parse_dsh_version("0.2.0").unwrap())));
    assert!(matches!(s, UpdateFlow::Over));
    match a {
        UpdateAction::FinishAndRestart { message } => assert_eq!(
            message,
            "dsh 已更新到 v0.2.0。\n\n点击确定重启应用后生效；你终端里手动运行的 dsh 需要自行重启。"
        ),
        _ => panic!("expected restart"),
    }
    let (_, a) = update_flow_step(true, UpdateFlow::Upgrading, UpdateEvent::Upgraded(Err("boom".into())));
    match a {
        UpdateAction::FinishAndRestart { message } => assert_eq!(message, "dsh 更新失败：boom\n\n点击确定重启应用以恢复。"),
        _ => panic!("expected restart"),
    }
}

#[test]
fn up_to_date_check_reports_only_when_manual() {
    let (s, _) = update_flow_step(true, UpdateFlow::QueryingInstalled, UpdateEvent::Installed(Ok(parse_dsh_version("0.1.1-rc.2").unwrap())));
    let (_, a) = update_flow_step(true, s, UpdateEvent::Latest(Ok(parse_dsh_version("0.1.1-rc.2").unwrap())));
    match a {
        UpdateAction::Finish { notice: Some(n) } => {
            assert_eq!(n.message, "当前已是最新版本 v0.1.1-rc.2。");
            assert!(!n.is_error);
        }
        _ => panic!("expected notice"),
    }
    let (s, _) = update_flow_step(false, UpdateFlow::QueryingInstalled, UpdateEvent::Installed(Ok(parse_dsh_version("0.1.1").unwrap())));
    let (_, a) = update_flow_step(false, s, UpdateEvent::Latest(Ok(parse_dsh_version("0.1.0").unwrap())));
    assert!(matches!(a, UpdateAction::Finish { notice: None }));
}

#[test]
fn update_check_errors() {
    let (_, a) = update_flow_step(true, UpdateFlow::QueryingInstalled, UpdateEvent::Installed(Err("none".into())));
    match a {
        UpdateAction::Finish { notice: Some(n) } => {
            assert_eq!(n.message, "none");
            assert!(n.is_error);
        }
        _ => panic!("expected notice"),
    }
    let (_, a) = update_flow_step(false, UpdateFlow::QueryingInstalled, UpdateEvent::Installed(Err("none".into())));
    assert!(matches!(a, UpdateAction::Finish { notice: None }));
    let (_, a) = update_flow_step(true, UpdateFlow::QueryingLatest { installed: parse_dsh_version("1.0.0").unwrap() }, UpdateEvent::Latest(Err("offline".into())));
    match a {
        UpdateAction::Finish { notice: Some(n) } => assert_eq!(n.message, "无法查询 npm registry，请检查网络或代理后重试。\n\noffline"),
        _ => panic!("expected notice"),
    }
    let (_, a) = update_flow_step(false, UpdateFlow::Confirming { latest: parse_dsh_version("1.0.0").unwrap() }, UpdateEvent::Confirmed(false));
    assert!(matches!(a, UpdateAction::Finish { notice: None }));
    let (_, a) = update_flow_step(false, UpdateFlow::OpeningUpdatePage { latest: parse_dsh_version("1.0.0").unwrap() }, UpdateEvent::PageOpened(Err("nav".into())));
    match a {
        UpdateAction::Finish { notice: Some(n) } => assert_eq!(n.message, "无法打开本地更新页面，更新尚未开始：nav"),
        _ => panic!("expected notice"),
    }
    let (s, a) = update_flow_step(true, UpdateFlow::Over, UpdateEvent::Confirmed(true));
    assert!(matches!(s, UpdateFlow::Over));
    assert!(matches!(a, UpdateAction::Nothing));
}

#[test]
fn window_operations() {
    assert_eq!(window_op(WindowAction::ToggleMaximize, true), WindowOp::Unmaximize);
    assert_eq!(window_op(WindowAction::ToggleMaximize, false), WindowOp::Maximize);
    assert_eq!(window_op(WindowAction::Minimize, true), WindowOp::Minimize);
    assert_eq!(window_op(WindowAction::StartDragging, false), WindowOp::StartDragging);
    assert_eq!(window_op(WindowAction::Close, true), WindowOp::Close);
    assert!(!window_action_reply(WindowOp::Close, true));
    assert!(window_action_reply(WindowOp::Maximize, true));
    assert!(!window_action_reply(WindowOp::Unmaximize, false));
}

#[test]
fn startup_check_opt_out() {
    assert!(dsh_desktop::update::check_at_startup(false));
    assert!(!dsh_desktop::update::check_at_startup(true));
}
