use idle_npu_shell::endpoint::{backend_host_port, backend_url, exit_request, parse_port, tray_page_url, DEFAULT_PORT};
use idle_npu_shell::exit_intent::{on_close_requested, on_prompt_result, CloseAction, ClosePolicy, ExitState, PromptOutcome};
use idle_npu_shell::readiness::{wait_until_reachable, PollVerdict, ReadinessWait, POLL_INTERVAL_MS, READINESS_TIMEOUT_MS};
use idle_npu_shell::supervisor::{decide_spawn, exit_app, spawn_plan, BackendSupervisor, SpawnDecision};
use idle_npu_shell::tray::{
    handle_tray_event, native_menu_items, popup_position, show_tray_menu, tray_icon_config,
    tray_menu_url, tray_window_config, TrayAction, TrayEvent, TrayLabels, TrayPage,
    TrayPopupState, TRAY_MENU_HEIGHT, TRAY_MENU_WIDTH,
};
use idle_npu_shell::window::{after_readiness_wait, close_prompt_script, navigation_script};

const EXIT_REQUEST: &str =
    "POST /api/app/exit HTTP/1.1\r\nHost: 127.0.0.1:8000\r\nContent-Length: 0\r\nConnection: close\r\n\r\n";

#[test]
fn exit_intent_starts_clear() {
    let state = ExitState::new();
    assert!(!state.is_exit_requested());
}

#[test]
fn exit_intent_is_monotonic() {
    let mut state = ExitState::new();
    state.request_exit();
    assert!(state.is_exit_requested());
    state.request_exit();
    assert!(state.is_exit_requested());
}

#[test]
fn close_is_suppressed_until_exit_requested() {
    let mut state = ExitState::new();
    assert_eq!(
        on_close_requested(&ClosePolicy::ConfirmFirst, &state),
        CloseAction::SuppressAndPrompt
    );
    state.request_exit();
    assert_eq!(
        on_close_requested(&ClosePolicy::ConfirmFirst, &state),
        CloseAction::ShutdownAndClose
    );
    assert_eq!(
        on_close_requested(&ClosePolicy::ConfirmFirst, &state),
        CloseAction::ShutdownAndClose
    );
}

#[test]
fn hide_only_policy_hides_instead_of_prompting() {
    let mut state = ExitState::new();
    assert_eq!(on_close_requested(&ClosePolicy::HideOnly, &state), CloseAction::HideWindow);
    state.request_exit();
    assert_eq!(
        on_close_requested(&ClosePolicy::HideOnly, &state),
        CloseAction::ShutdownAndClose
    );
}

#[test]
fn missing_prompt_forces_exit() {
    assert_eq!(on_prompt_result(false), PromptOutcome::ForceExit);
    assert_eq!(on_prompt_result(true), PromptOutcome::AwaitUi);
}

#[test]
fn shutdown_kills_owned_handle_once() {
    let mut supervisor = BackendSupervisor::new();
    supervisor.adopt(42);
    let first = supervisor.shutdown("127.0.0.1", 8000);
    assert_eq!(first.kill, Some(42));
    assert_eq!(first.cooperative_request, EXIT_REQUEST);
    let second = supervisor.shutdown("127.0.0.1", 8000);
    assert_eq!(second.kill, None);
    assert_eq!(second.cooperative_request, EXIT_REQUEST);
}

#[test]
fn external_backend_is_never_killed() {
    // A backend that was already listening at startup: nothing is adopted,
    // shutdown still sends the cooperative request but kills nothing.
    assert_eq!(decide_spawn(true), SpawnDecision::UseExisting);
    let mut supervisor = BackendSupervisor::new();
    let plan = supervisor.shutdown("127.0.0.1", 8000);
    assert_eq!(plan.kill, None);
    assert_eq!(plan.cooperative_request, EXIT_REQUEST);
}

#[test]
fn unreachable_backend_is_spawned() {
    assert_eq!(decide_spawn(false), SpawnDecision::SpawnNew);
}

#[test]
fn dev_spawn_plan_runs_interpreter_with_endpoint() {
    let plan = spawn_plan(true, None, "127.0.0.1", 8000);
    assert!(plan.dev_mode);
    assert_eq!(plan.program, "python");
    assert_eq!(plan.args.len(), 1);
    assert_eq!(plan.args[0], "main.py");
    assert_eq!(plan.env_host_var, "IDLE_NPU_HOST");
    assert_eq!(plan.env_host_val, "127.0.0.1");
    assert_eq!(plan.env_port_var, "IDLE_NPU_PORT");
    assert_eq!(plan.env_port_val, "8000");
    assert!(plan.redirect_stdio);
}

#[test]
fn dev_spawn_plan_honors_interpreter_override() {
    let plan = spawn_plan(true, Some(String::from("python3.11")), "0.0.0.0", 9001);
    assert_eq!(plan.program, "python3.11");
    assert_eq!(plan.env_host_val, "0.0.0.0");
    assert_eq!(plan.env_port_val, "9001");
}

#[test]
fn bundled_spawn_plan_names_sidecar() {
    let plan = spawn_plan(false, None, "127.0.0.1", 8000);
    assert!(!plan.dev_mode);
    assert_eq!(plan.program, "IdleNPUWaker");
    assert!(plan.args.is_empty());
    assert!(!plan.redirect_stdio);
}

#[test]
fn endpoint_defaults_to_loopback_8000() {
    let c = backend_host_port(None, None);
    assert_eq!(c.bind_host, "127.0.0.1");
    assert_eq!(c.ui_host, "127.0.0.1");
    assert_eq!(c.port, DEFAULT_PORT);
}

#[test]
fn all_interfaces_host_is_rewritten_for_clients() {
    let c = backend_host_port(Some(String::from("0.0.0.0")), Some(String::from("9001")));
    assert_eq!(c.bind_host, "0.0.0.0");
    assert_eq!(c.ui_host, "127.0.0.1");
    assert_eq!(c.port, 9001);
}

#[test]
fn named_host_passes_through() {
    let c = backend_host_port(Some(String::from("192.168.1.5")), None);
    assert_eq!(c.ui_host, "192.168.1.5");
    assert_eq!(c.port, 8000);
}

#[test]
fn unparsable_port_falls_back_to_default() {
    let c = backend_host_port(None, Some(String::from("not-a-port")));
    assert_eq!(c.port, DEFAULT_PORT);
}

#[test]
fn port_parsing_matches_std() {
    assert_eq!(parse_port("8000"), Some(8000));
    assert_eq!(parse_port("65535"), Some(65535));
    assert_eq!(parse_port("+80"), Some(80));
    assert_eq!(parse_port("0"), Some(0));
    assert_eq!(parse_port("65536"), None);
    assert_eq!(parse_port(""), None);
    assert_eq!(parse_port("+"), None);
    assert_eq!(parse_port(" 80"), None);
    assert_eq!(parse_port("80a"), None);
    assert_eq!(parse_port("-1"), None);
}

#[test]
fn urls_are_rendered_exactly() {
    assert_eq!(backend_url("127.0.0.1", 8000), "http://127.0.0.1:8000");
    assert_eq!(tray_page_url("127.0.0.1", 8000), "http://127.0.0.1:8000/tray.html");
    assert_eq!(exit_request("127.0.0.1", 8000), EXIT_REQUEST);
}

#[test]
fn wait_times_out_when_nothing_listens() {
    let probes = vec![false; 200];
    assert!(!wait_until_reachable(&probes, READINESS_TIMEOUT_MS, POLL_INTERVAL_MS));
}

#[test]
fn wait_with_no_observations_fails() {
    let probes: Vec<bool> = Vec::new();
    assert!(!wait_until_reachable(&probes, READINESS_TIMEOUT_MS, POLL_INTERVAL_MS));
}

#[test]
fn wait_succeeds_at_first_answering_probe() {
    let probes = vec![false, false, true];
    assert!(wait_until_reachable(&probes, READINESS_TIMEOUT_MS, POLL_INTERVAL_MS));
}

#[test]
fn wait_ignores_listener_past_deadline() {
    // A 400ms deadline at one probe per 200ms allows two probes in all: a
    // listener that answers only the third is past the deadline and never
    // probed.
    let probes = vec![false, false, true];
    assert!(!wait_until_reachable(&probes, 400, 200));
    let probes = vec![false, true];
    assert!(wait_until_reachable(&probes, 400, 200));
}

#[test]
fn zero_deadline_makes_no_probe() {
    // The deadline is checked before the first probe: a spent deadline
    // fails even when a listener would have answered.
    let probes = vec![true];
    assert!(!wait_until_reachable(&probes, 0, 200));
}

#[test]
fn readiness_machine_steps_through_verdicts() {
    let mut wait = ReadinessWait::new(400, 200);
    assert_eq!(wait.on_probe(false), PollVerdict::KeepWaiting);
    assert_eq!(wait.on_probe(false), PollVerdict::KeepWaiting);
    assert_eq!(wait.on_probe(true), PollVerdict::TimedOut);
    let mut wait = ReadinessWait::new(400, 200);
    assert_eq!(wait.on_probe(false), PollVerdict::KeepWaiting);
    assert_eq!(wait.on_probe(true), PollVerdict::Ready);
}

#[test]
fn ready_backend_redirects_and_shows_window() {
    let actions = after_readiness_wait(true, "127.0.0.1", 8000);
    assert_eq!(actions.navigate_to.as_deref(), Some("http://127.0.0.1:8000"));
    assert!(actions.show_main);
    assert!(actions.ensure_popup);
}

#[test]
fn unreachable_backend_still_shows_window() {
    let actions = after_readiness_wait(false, "127.0.0.1", 8000);
    assert_eq!(actions.navigate_to, None);
    assert!(actions.show_main);
    assert!(actions.ensure_popup);
}

#[test]
fn webview_scripts_render_exactly() {
    assert_eq!(
        navigation_script("http://127.0.0.1:8000"),
        "window.location.replace('http://127.0.0.1:8000')"
    );
    assert_eq!(
        close_prompt_script(),
        "if (!window.__idleNpuCloseRequested) { throw new Error('close handler missing'); } window.__idleNpuCloseRequested();"
    );
}

#[test]
fn startup_reaches_backend_within_deadline() {
    // Nothing listens at first: the backend is spawned, a listener appears
    // after two idle polls, and the window is redirected to it and shown.
    let config = backend_host_port(None, None);
    assert_eq!(decide_spawn(false), SpawnDecision::SpawnNew);
    let probes = vec![false, false, true];
    assert!(wait_until_reachable(&probes, READINESS_TIMEOUT_MS, POLL_INTERVAL_MS));
    let actions = after_readiness_wait(true, config.ui_host.as_str(), config.port);
    assert_eq!(actions.navigate_to.as_deref(), Some("http://127.0.0.1:8000"));
    assert!(actions.show_main);
}

#[test]
fn tray_labels_default_and_update() {
    let mut labels = TrayLabels::new();
    assert_eq!(labels.show_label, "Show");
    assert_eq!(labels.quit_label, "Quit");
    labels.update(String::from("Afficher"), String::from("Quitter"));
    assert_eq!(labels.show_label, "Afficher");
    assert_eq!(labels.quit_label, "Quitter");
}

#[test]
fn updated_labels_reach_the_popup() {
    let mut labels = TrayLabels::new();
    labels.update(String::from("Afficher"), String::from("Quitter"));
    let plan = show_tray_menu(&labels, 500, 800);
    assert_eq!(plan.show_label, "Afficher");
    assert_eq!(plan.quit_label, "Quitter");
    assert_eq!((plan.x, plan.y), (395, 692));
}

#[test]
fn tray_clicks_dispatch_to_actions() {
    assert_eq!(handle_tray_event(&TrayEvent::LeftClick), TrayAction::FocusMain);
    assert_eq!(handle_tray_event(&TrayEvent::LeftDoubleClick), TrayAction::FocusMain);
    assert_eq!(
        handle_tray_event(&TrayEvent::RightClick { x: 500, y: 800 }),
        TrayAction::OpenPopup { x: 500, y: 800 }
    );
    assert_eq!(handle_tray_event(&TrayEvent::Other), TrayAction::Ignore);
}

#[test]
fn native_menu_rebuilds_with_updated_labels() {
    let mut labels = TrayLabels::new();
    labels.update(String::from("Afficher"), String::from("Quitter"));
    let items = native_menu_items(&labels);
    assert_eq!(items, vec![String::from("Afficher"), String::from("Quitter")]);
}

#[test]
fn tray_icon_reserves_primary_clicks() {
    let icon = tray_icon_config();
    assert_eq!(icon.id, "main");
    assert_eq!(icon.tooltip, "Idle NPU Waker");
    assert!(!icon.show_menu_on_left_click);
}

#[test]
fn popup_window_is_frameless_hidden_and_pinned() {
    let config = tray_window_config("127.0.0.1", 8000, true);
    assert_eq!(config.label, "tray-menu");
    assert_eq!(config.title, "Tray Menu");
    assert_eq!((config.width, config.height), (TRAY_MENU_WIDTH, TRAY_MENU_HEIGHT));
    assert!(!config.resizable && !config.fullscreen && !config.visible);
    assert!(!config.decorations && config.transparent && !config.shadow);
    assert!(config.always_on_top && config.skip_taskbar);
    assert_eq!(
        config.page,
        TrayPage::External { url: String::from("http://127.0.0.1:8000/tray.html") }
    );
}

#[test]
fn unparsable_tray_url_falls_back_to_bundled_page() {
    assert_eq!(
        tray_menu_url(true, "127.0.0.1", 8000),
        TrayPage::External { url: String::from("http://127.0.0.1:8000/tray.html") }
    );
    assert_eq!(
        tray_menu_url(false, "127.0.0.1", 8000),
        TrayPage::Bundled { path: String::from("tray.html") }
    );
    let config = tray_window_config("127.0.0.1", 8000, false);
    assert_eq!(config.page, TrayPage::Bundled { path: String::from("tray.html") });
}

#[test]
fn popup_never_opens_at_negative_coordinates() {
    assert_eq!(popup_position(500, 800), (395, 692));
    assert_eq!(popup_position(50, 50), (0, 0));
    assert_eq!(popup_position(0, 0), (0, 0));
}

#[test]
fn popup_focus_loss_is_debounced() {
    let mut popup = TrayPopupState::new();
    assert!(popup.should_hide_on_focus_loss(1000));
    popup.record_shown(1000);
    assert!(!popup.should_hide_on_focus_loss(1100));
    assert!(popup.should_hide_on_focus_loss(1200));
    popup.record_hidden();
    assert!(popup.should_hide_on_focus_loss(1201));
}

#[test]
fn quit_path_sets_intent_and_shuts_down() {
    let mut exit = ExitState::new();
    let mut supervisor = BackendSupervisor::new();
    supervisor.adopt(7);
    let plan = exit_app(&mut exit, &mut supervisor, "127.0.0.1", 8000);
    assert!(exit.is_exit_requested());
    assert_eq!(plan.kill, Some(7));
    assert_eq!(plan.cooperative_request, EXIT_REQUEST);
}
