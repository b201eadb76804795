use cloudydesk_privacy::overlay::{
    corner_squares, keyboard_hook_proc, mouse_hook_proc, overlay_ex_style, HookVerdict,
    OverlayAction, OverlayController, OverlayFlags, OverlayThreadState, Rect,
    SYNTHETIC_INPUT_EXTRA_INFO, WS_EX_LAYERED, WS_EX_NOACTIVATE, WS_EX_TOOLWINDOW,
    WS_EX_TOPMOST, WS_EX_TRANSPARENT,
};
use cloudydesk_privacy::privacy_mode::{
    check_off_conn_id, check_on_conn_id, kind_from_impl_key, PrivacyError, PrivacyModeKind,
    PrivacyModeState, INVALID_PRIVACY_MODE_CONN_ID, PRIVACY_MODE_IMPL_WIN_DIRECT_OVERLAY,
    PRIVACY_MODE_IMPL_WIN_GIF_OVERLAY, PRIVACY_MODE_IMPL_WIN_SEPARATE_DESKTOP,
};
use cloudydesk_privacy::registry::{PrivacyModeRegistry, TurnOnStep};
use cloudydesk_privacy::win_direct_overlay;
use cloudydesk_privacy::win_gif_overlay;
use cloudydesk_privacy::win_separate_desktop::{
    self, AgentDesktopRegistry, SeparateDesktopPrivacyMode,
};

fn ready_worker(thread_id: u32) -> OverlayController {
    let mut c = OverlayController::new();
    c.set_state(OverlayThreadState { thread_id });
    c
}

#[test]
fn direct_overlay_turn_on_scenario() {
    let mut reg = PrivacyModeRegistry::new();
    let key = "privacy_mode_impl_direct_overlay";
    let conn = 436033839;
    assert_eq!(
        reg.plan_turn_on(key, conn),
        Some(TurnOnStep::Proceed { retire: None, activate: Some(PrivacyModeKind::DirectOverlay) })
    );
    assert_eq!(reg.turn_on_privacy(key, conn, Ok(ready_worker(42))), Some(Ok(true)));
    assert_eq!(reg.query_active(), Some((PrivacyModeKind::DirectOverlay, conn)));
    // injected key `A` passes, a physical one does not
    assert_eq!(keyboard_hook_proc(0, SYNTHETIC_INPUT_EXTRA_INFO, 0), HookVerdict::PassToNext);
    assert_eq!(keyboard_hook_proc(0, 0, 0), HookVerdict::Block);
}

#[test]
fn turn_on_twice_is_idempotent() {
    let mut reg = PrivacyModeRegistry::new();
    let key = PRIVACY_MODE_IMPL_WIN_DIRECT_OVERLAY;
    assert_eq!(reg.turn_on_privacy(key, 5, Ok(ready_worker(1))), Some(Ok(true)));
    // the second request asks for no OS work: no second window
    assert_eq!(
        reg.plan_turn_on(key, 5),
        Some(TurnOnStep::Proceed { retire: None, activate: None })
    );
    assert_eq!(
        reg.turn_on_privacy(key, 5, Err(PrivacyError::WindowCreation(5))),
        Some(Ok(true))
    );
    assert_eq!(reg.query_active(), Some((PrivacyModeKind::DirectOverlay, 5)));
}

#[test]
fn unknown_key_is_not_registered() {
    let mut reg = PrivacyModeRegistry::new();
    assert_eq!(reg.plan_turn_on("privacy_mode_impl_direct", 1), None);
    assert_eq!(reg.turn_on_privacy("nope", 1, Ok(ready_worker(1))), None);
    assert_eq!(reg.turn_off_privacy(1, None), None);
    assert_eq!(kind_from_impl_key(""), None);
    assert_eq!(
        kind_from_impl_key(PRIVACY_MODE_IMPL_WIN_GIF_OVERLAY),
        Some(PrivacyModeKind::GifOverlay)
    );
    assert_eq!(
        kind_from_impl_key(PRIVACY_MODE_IMPL_WIN_SEPARATE_DESKTOP),
        Some(PrivacyModeKind::SeparateDesktop)
    );
}

#[test]
fn turn_off_by_other_connection_is_refused() {
    let mut reg = PrivacyModeRegistry::new();
    let key = PRIVACY_MODE_IMPL_WIN_GIF_OVERLAY;
    assert_eq!(reg.turn_on_privacy(key, 3, Ok(ready_worker(9))), Some(Ok(true)));
    assert_eq!(reg.turn_off_privacy(4, None), Some(Err(PrivacyError::WrongConnection)));
    assert_eq!(reg.query_active(), Some((PrivacyModeKind::GifOverlay, 3)));
    // the invalid id forces it off
    let plan = reg.turn_off_privacy(INVALID_PRIVACY_MODE_CONN_ID, None).unwrap().unwrap();
    assert_eq!(plan.hide_worker, Some(9));
    assert_eq!(plan.publish, None);
    assert_eq!(reg.query_active(), None);
}

#[test]
fn turn_on_by_other_connection_is_refused() {
    let mut reg = PrivacyModeRegistry::new();
    let key = PRIVACY_MODE_IMPL_WIN_DIRECT_OVERLAY;
    assert_eq!(reg.turn_on_privacy(key, 3, Ok(ready_worker(9))), Some(Ok(true)));
    assert_eq!(
        reg.plan_turn_on(key, 4),
        Some(TurnOnStep::Refused(PrivacyError::ExceedMaxConnections))
    );
    assert_eq!(
        reg.turn_on_privacy(key, 4, Ok(ready_worker(10))),
        Some(Err(PrivacyError::ExceedMaxConnections))
    );
    assert_eq!(reg.query_active(), Some((PrivacyModeKind::DirectOverlay, 3)));
}

#[test]
fn second_back_end_is_refused_while_one_is_active() {
    let mut reg = PrivacyModeRegistry::new();
    assert_eq!(
        reg.turn_on_privacy(PRIVACY_MODE_IMPL_WIN_DIRECT_OVERLAY, 1, Ok(ready_worker(2))),
        Some(Ok(true))
    );
    assert_eq!(
        reg.plan_turn_on(PRIVACY_MODE_IMPL_WIN_SEPARATE_DESKTOP, 1),
        Some(TurnOnStep::Refused(PrivacyError::AnotherModeActive))
    );
    assert_eq!(
        reg.turn_on_privacy(PRIVACY_MODE_IMPL_WIN_SEPARATE_DESKTOP, 1, Ok(OverlayController::new())),
        Some(Err(PrivacyError::AnotherModeActive))
    );
    assert_eq!(reg.query_active(), Some((PrivacyModeKind::DirectOverlay, 1)));
}

#[test]
fn turn_on_after_turn_off_switches_back_end() {
    let mut reg = PrivacyModeRegistry::new();
    assert_eq!(
        reg.turn_on_privacy(PRIVACY_MODE_IMPL_WIN_DIRECT_OVERLAY, 1, Ok(ready_worker(2))),
        Some(Ok(true))
    );
    let plan = reg.turn_off_privacy(1, Some(PrivacyModeState::OffSucceeded)).unwrap().unwrap();
    let publication = plan.publish.unwrap();
    assert_eq!(publication.state, PrivacyModeState::OffSucceeded);
    assert_eq!(publication.kind, PrivacyModeKind::DirectOverlay);
    assert_eq!(publication.deadline_ms, 1000);
    assert_eq!(
        reg.plan_turn_on(PRIVACY_MODE_IMPL_WIN_GIF_OVERLAY, 8),
        Some(TurnOnStep::Proceed {
            retire: Some(PrivacyModeKind::DirectOverlay),
            activate: Some(PrivacyModeKind::GifOverlay)
        })
    );
    assert_eq!(
        reg.turn_on_privacy(PRIVACY_MODE_IMPL_WIN_GIF_OVERLAY, 8, Ok(ready_worker(3))),
        Some(Ok(true))
    );
    assert_eq!(reg.query_active(), Some((PrivacyModeKind::GifOverlay, 8)));
}

#[test]
fn failed_activation_leaves_mode_off() {
    let mut reg = PrivacyModeRegistry::new();
    assert_eq!(
        reg.turn_on_privacy(
            PRIVACY_MODE_IMPL_WIN_DIRECT_OVERLAY,
            1,
            Err(PrivacyError::WindowCreation(1410))
        ),
        Some(Err(PrivacyError::WindowCreation(1410)))
    );
    assert_eq!(reg.query_active(), None);
    assert_eq!(
        reg.turn_on_privacy(PRIVACY_MODE_IMPL_WIN_DIRECT_OVERLAY, 1, Ok(ready_worker(4))),
        Some(Ok(true))
    );
}

#[test]
fn conn_id_checks() {
    assert_eq!(check_on_conn_id(-1, 5), Ok(false));
    assert_eq!(check_on_conn_id(5, 5), Ok(true));
    assert_eq!(check_on_conn_id(5, 6), Err(PrivacyError::ExceedMaxConnections));
    assert_eq!(check_off_conn_id(5, 6), Err(PrivacyError::WrongConnection));
    assert_eq!(check_off_conn_id(5, -1), Ok(()));
    assert_eq!(check_off_conn_id(-1, 6), Ok(()));
    assert_eq!(check_off_conn_id(5, 5), Ok(()));
}

#[test]
fn hooks_pass_only_synthetic_input() {
    for code in [0, 1, -1] {
        for extra in [0usize, 1, 99, 100, 101, usize::MAX] {
            for flags in [0u32, 1, 2, 3, 0x10, 0x80] {
                let synthetic = extra == 100 || flags & 3 != 0;
                let expected = if code != 0 || synthetic {
                    HookVerdict::PassToNext
                } else {
                    HookVerdict::Block
                };
                assert_eq!(keyboard_hook_proc(code, extra, flags), expected);
                assert_eq!(mouse_hook_proc(code, extra, flags), (expected, code == 0));
            }
        }
    }
    assert_eq!(HookVerdict::Block.block_code(), Some(1));
    assert_eq!(HookVerdict::PassToNext.block_code(), None);
}

#[test]
fn overlay_style_has_required_bits() {
    let s = overlay_ex_style(0x100);
    for bit in [WS_EX_LAYERED, WS_EX_TOOLWINDOW, WS_EX_TOPMOST, WS_EX_NOACTIVATE, WS_EX_TRANSPARENT] {
        assert_eq!(s & bit, bit);
    }
    assert_eq!(s & 0x100, 0x100);
    assert_eq!(overlay_ex_style(0), 0x0808_00A8);
}

#[test]
fn corner_squares_are_in_the_corners() {
    let c = corner_squares(Rect { left: 0, top: 0, right: 1920, bottom: 1080 });
    assert_eq!(c[0], Rect { left: 0, top: 0, right: 100, bottom: 100 });
    assert_eq!(c[1], Rect { left: 1820, top: 0, right: 1920, bottom: 100 });
    assert_eq!(c[2], Rect { left: 0, top: 980, right: 100, bottom: 1080 });
    assert_eq!(c[3], Rect { left: 1820, top: 980, right: 1920, bottom: 1080 });
}

#[test]
fn show_then_hide_overlay() {
    let mut f = OverlayFlags::new();
    let show = f.show_overlay(false);
    assert_eq!(
        show,
        vec![
            OverlayAction::Cloak(false),
            OverlayAction::Repaint,
            OverlayAction::SetCaptureExclusion(true),
            OverlayAction::HideCursor,
            OverlayAction::ApplyBlankSystemCursors,
            OverlayAction::StartCursorEnforcer,
            OverlayAction::InstallHooks,
            OverlayAction::ShowWindow,
        ]
    );
    assert!(f.privacy_active);
    // a second SHOW does nothing
    assert!(f.show_overlay(false).is_empty());
    assert_eq!(f.hooks_installed_result(11, 12, 0), Ok(()));
    assert!(f.hooks_installed);
    let hide = f.hide_overlay();
    assert_eq!(
        hide,
        vec![
            OverlayAction::HideWindow,
            OverlayAction::Cloak(true),
            OverlayAction::SetCaptureExclusion(false),
            OverlayAction::RemoveHooks { keyboard: 11, mouse: 12 },
            OverlayAction::RestoreSystemCursors,
            OverlayAction::RestoreCursor,
        ]
    );
    assert_eq!(f, OverlayFlags::new());
    assert!(f.hide_overlay().is_empty());
}

#[test]
fn animated_show_starts_watchdog_and_timer() {
    let mut f = OverlayFlags::new();
    let show = f.show_overlay(true);
    assert!(show.contains(&OverlayAction::StartZOrderEnforcer));
    assert!(show.contains(&OverlayAction::StartAnimationTimer));
    assert!(f.zorder_enforcer_running);
    win_gif_overlay::stop_zorder_enforcer(&mut f);
    assert!(!f.zorder_enforcer_running);
    assert!(f.privacy_active);
}

#[test]
fn mouse_hook_failure_rolls_back_keyboard_hook() {
    let mut f = OverlayFlags::new();
    f.show_overlay(false);
    let (err, actions) = f.hooks_installed_result(11, 0, 5).unwrap_err();
    assert_eq!(err, PrivacyError::HookInstall(5));
    assert_eq!(actions[0], OverlayAction::RemoveHooks { keyboard: 11, mouse: 0 });
    assert!(actions.contains(&OverlayAction::RestoreSystemCursors));
    assert_eq!(f, OverlayFlags::new());

    let mut g = OverlayFlags::new();
    g.show_overlay(false);
    let (err, actions) = g.hooks_installed_result(0, 0, 7).unwrap_err();
    assert_eq!(err, PrivacyError::HookInstall(7));
    assert_eq!(actions[0], OverlayAction::HideWindow);
}

#[test]
fn emergency_cleanup_leaves_nothing_behind() {
    let mut f = OverlayFlags::new();
    f.show_overlay(true);
    f.hooks_installed_result(21, 22, 0).unwrap();
    let mut controller = Some(ready_worker(77));
    let (worker, actions) = win_direct_overlay::emergency_cleanup(&mut f, &mut controller);
    assert_eq!(worker, Some(77));
    assert_eq!(
        actions,
        vec![
            OverlayAction::RemoveHooks { keyboard: 21, mouse: 22 },
            OverlayAction::RestoreSystemCursors,
            OverlayAction::RestoreCursor,
        ]
    );
    assert_eq!(f, OverlayFlags::new());
    assert_eq!(controller, None);
    // the overlay can be shown again afterwards
    assert!(!f.show_overlay(false).is_empty());
}

#[test]
fn worker_panic_cleanup_then_turn_on_succeeds() {
    let mut reg = PrivacyModeRegistry::new();
    let key = PRIVACY_MODE_IMPL_WIN_GIF_OVERLAY;
    assert_eq!(reg.turn_on_privacy(key, 1, Ok(ready_worker(5))), Some(Ok(true)));
    let mut f = OverlayFlags::new();
    f.show_overlay(true);
    f.hooks_installed_result(1, 2, 0).unwrap();
    let mut controller = Some(ready_worker(5));
    let (_, actions) = win_gif_overlay::cleanup_on_session_close(&mut f, &mut controller);
    assert!(actions.contains(&OverlayAction::RemoveHooks { keyboard: 1, mouse: 2 }));
    assert!(actions.contains(&OverlayAction::RestoreSystemCursors));
    assert_eq!(f, OverlayFlags::new());
    reg.turn_off_privacy(INVALID_PRIVACY_MODE_CONN_ID, Some(PrivacyModeState::OffUnknown))
        .unwrap()
        .unwrap();
    assert_eq!(reg.turn_on_privacy(key, 1, Ok(ready_worker(6))), Some(Ok(true)));
}

#[test]
fn shutdown_destroys_window() {
    let mut f = OverlayFlags::new();
    f.show_overlay(false);
    let actions = f.shutdown_overlay();
    assert_eq!(actions.last(), Some(&OverlayAction::DestroyWindow));
    assert_eq!(f, OverlayFlags::new());
}

#[test]
fn controller_post_target() {
    let mut c = OverlayController::new();
    assert_eq!(c.post_target(), Err(PrivacyError::WorkerNotReady));
    c.set_state(OverlayThreadState { thread_id: 31 });
    assert_eq!(c.thread_id(), Some(31));
    assert_eq!(c.post_target(), Ok(31));
    c.clear_state();
    assert_eq!(c.thread_id(), None);
}

#[test]
fn separate_desktop_scenario() {
    let mut reg = PrivacyModeRegistry::new();
    let mut desktops = AgentDesktopRegistry::new();
    assert!(desktops.needs_creation());
    assert_eq!(desktops.create_agent_desktop(Ok(4242)), Ok(()));
    assert_eq!(desktops.switch_to_agent_desktop().unwrap(), "CloudyDeskAgent");
    assert_eq!(desktops.get_agent_desktop_name().unwrap(), "winsta0\\CloudyDeskAgent");
    // creating again is a no-op
    assert_eq!(desktops.create_agent_desktop(Err(PrivacyError::DesktopCreate(5))), Ok(()));
    assert_eq!(desktops.info.as_ref().unwrap().explorer_pid, Some(4242));
    assert_eq!(
        reg.turn_on_privacy(PRIVACY_MODE_IMPL_WIN_SEPARATE_DESKTOP, 7, Ok(OverlayController::new())),
        Some(Ok(true))
    );
    let plan = reg.turn_off_privacy(7, Some(PrivacyModeState::OffSucceeded)).unwrap().unwrap();
    assert!(plan.leave_desktop);
    assert_eq!(plan.hide_worker, None);
    let publication = plan.publish.unwrap();
    assert_eq!(publication.conn_id, 7);
    assert_eq!(publication.state, PrivacyModeState::OffSucceeded);
    assert_eq!(publication.kind, PrivacyModeKind::SeparateDesktop);
    assert_eq!(win_separate_desktop::switch_to_original_desktop(), "Default");
    let info = desktops.destroy_agent_desktop().unwrap();
    assert_eq!(info.desktop_name, "CloudyDeskAgent");
    assert_eq!(info.explorer_pid, Some(4242));
    assert!(desktops.needs_creation());
    assert_eq!(desktops.switch_to_agent_desktop().unwrap_err(), PrivacyError::DesktopMissing);
    assert_eq!(desktops.get_agent_desktop_name().unwrap_err(), PrivacyError::DesktopMissing);
}

#[test]
fn shell_launch_failure_records_no_desktop() {
    let mut desktops = AgentDesktopRegistry::new();
    assert_eq!(
        desktops.create_agent_desktop(Err(PrivacyError::ShellLaunch(2))),
        Err(PrivacyError::ShellLaunch(2))
    );
    assert!(desktops.needs_creation());
    assert!(win_separate_desktop::emergency_cleanup(&mut desktops).is_none());
    desktops.create_agent_desktop(Ok(1)).unwrap();
    assert!(win_separate_desktop::init_cleanup(&mut desktops).is_some());
    assert!(desktops.info.is_none());
}

#[test]
fn separate_desktop_mode_basics() {
    let mut m = SeparateDesktopPrivacyMode::new("privacy_mode_impl_separate_desktop");
    assert!(SeparateDesktopPrivacyMode::is_available());
    assert!(!m.is_async_privacy_mode());
    assert_eq!(m.get_impl_key(), "privacy_mode_impl_separate_desktop");
    assert_eq!(m.pre_conn_id(), -1);
    assert_eq!(m.turn_on_privacy(7, Ok(())), Ok(true));
    assert_eq!(m.pre_conn_id(), 7);
    assert_eq!(m.turn_on_privacy(8, Ok(())), Err(PrivacyError::ExceedMaxConnections));
    let plan = m.clear();
    assert!(plan.leave_desktop);
    assert_eq!(plan.publish, None);
    assert_eq!(m.pre_conn_id(), -1);
    assert!(win_separate_desktop::is_supported());
    assert!(win_direct_overlay::is_supported());
    assert!(win_gif_overlay::is_supported());
}

#[test]
fn direct_overlay_mode_basics() {
    let mut m = win_direct_overlay::DirectOverlayPrivacyMode::new("k");
    assert!(win_direct_overlay::DirectOverlayPrivacyMode::is_available());
    assert_eq!(m.get_impl_key(), "k");
    assert_eq!(m.turn_on_privacy(2, Err(PrivacyError::PostFailed(6))), Err(PrivacyError::PostFailed(6)));
    assert_eq!(m.pre_conn_id(), -1);
    assert_eq!(m.turn_on_privacy(2, Ok(ready_worker(3))), Ok(true));
    let plan = m.turn_off_privacy(2, Some(PrivacyModeState::OffByPeer)).unwrap();
    assert_eq!(plan.hide_worker, Some(3));
    assert!(!plan.leave_desktop);
    assert_eq!(plan.publish.unwrap().state, PrivacyModeState::OffByPeer);
}
