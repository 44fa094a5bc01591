//! The overlay: its mode, its frames, its renderer and its projector.

use stream_painter::canvas_actions::{ActionStep, EngineChange};
use stream_painter::frame::FrameGate;
use stream_painter::input::{
    attempts, drawing_cancellation, hotkey_id, pointer_flags, pointer_id, pointer_screen, Attempt,
    DrawingCancellation, Ownership, FLUSH_TIMER_ID, LAYER_CLEAR_ID, POINTER_MESSAGE_FLAG_CANCELED,
    POINTER_MESSAGE_FLAG_FIRSTBUTTON, POINTER_MESSAGE_FLAG_SECONDBUTTON, TRANSFORM_ESCAPE_ID,
    WM_CANCELMODE, WM_CAPTURECHANGED, WM_HOTKEY, WM_PAINT, WM_POINTERCAPTURECHANGED,
    WM_POINTERDOWN, WM_POINTERUP, WM_POINTERUPDATE, WM_TIMER,
};
use stream_painter::logging::log_directory_from_local_app_data;
use stream_painter::menu::{DrawTool, MenuAction};
use stream_painter::monitor::{arrange, describe, select_monitor, Monitor};
use stream_painter::overlay::{
    clear_confirmation_required, dispatch_engine_change, layer_clear_hotkey_allowed, request_start,
    style_with_transparency, Effect, Overlay, PollDisposition, RequestStart, RestoreProgress,
    WorkerDisposition,
};
use stream_painter::startup::{hotkey_warning, overlay_style, startup_monitor};
use std::path::{Path, PathBuf};

fn test_monitor(x: i32, primary: bool) -> Monitor {
    Monitor { x, y: 0, width: 1920, height: 1080, primary }
}

fn pointer_wparam(id: u32, flags: u32) -> usize {
    (id as usize) | ((flags as usize) << 16)
}

fn overlay(follow_projector: bool) -> Overlay {
    Overlay::new(
        "#ff4d6d".to_owned(),
        true,
        true,
        follow_projector,
        true,
        true,
        0,
        test_monitor(0, true),
    )
}

#[test]
fn layer_clear_hotkey_is_only_allowed_while_canvas_input_is_idle() {
    assert!(layer_clear_hotkey_allowed(true, false, false, false, false));
    assert!(!layer_clear_hotkey_allowed(false, false, false, false, false));
    assert!(!layer_clear_hotkey_allowed(true, true, false, false, false));
    assert!(!layer_clear_hotkey_allowed(true, false, true, false, false));
    assert!(!layer_clear_hotkey_allowed(true, false, false, true, false));
    assert!(!layer_clear_hotkey_allowed(true, false, false, false, true));
}

#[test]
fn monitor_selection_falls_back_to_the_first_monitor() {
    let monitors = [test_monitor(0, true), test_monitor(1920, false)];
    assert_eq!(select_monitor(&monitors, 1), Some((1, monitors[1])));
    assert_eq!(select_monitor(&monitors, 9), Some((0, monitors[0])));
    assert_eq!(select_monitor(&[], 0), None);
}

#[test]
fn frame_gate_coalesces_pointer_updates_until_the_frame_is_taken() {
    let mut gate = FrameGate::default();
    assert!(gate.request());
    for _ in 0..1_000 {
        assert!(!gate.request());
    }
    assert!(gate.take());
    assert!(!gate.take());
    assert!(gate.request());
    gate.cancel();
    assert!(!gate.take());
}

#[test]
fn clear_confirmation_policy_requires_both_setting_and_content() {
    assert!(clear_confirmation_required(true, true));
    assert!(!clear_confirmation_required(true, false));
    assert!(!clear_confirmation_required(false, true));
    assert!(!clear_confirmation_required(false, false));
}

#[test]
fn logs_are_stored_below_local_app_data() {
    let directory = log_directory_from_local_app_data(Path::new("LocalAppData"));
    let path: PathBuf = directory
        .folders
        .iter()
        .fold(directory.base.to_path_buf(), |path, folder| path.join(folder));
    assert_eq!(path, Path::new("LocalAppData").join("StreamPainter").join("logs"));
}

#[test]
fn win32_cancel_messages_preserve_pointer_scope() {
    let owner = 42;
    let canceled = pointer_wparam(owner, POINTER_MESSAGE_FLAG_CANCELED);
    let ordinary = pointer_wparam(owner, 0);

    assert_eq!(
        drawing_cancellation(WM_POINTERUPDATE, canceled),
        Some(DrawingCancellation::Pointer(owner))
    );
    assert_eq!(
        drawing_cancellation(WM_POINTERUP, canceled),
        Some(DrawingCancellation::Pointer(owner))
    );
    assert_eq!(drawing_cancellation(WM_POINTERUPDATE, ordinary), None);
    assert_eq!(drawing_cancellation(WM_POINTERUP, ordinary), None);
    assert_eq!(
        drawing_cancellation(WM_POINTERCAPTURECHANGED, ordinary),
        Some(DrawingCancellation::Pointer(owner))
    );
    assert_eq!(
        drawing_cancellation(WM_CAPTURECHANGED, ordinary),
        Some(DrawingCancellation::AnyPointer)
    );
    assert_eq!(
        drawing_cancellation(WM_CANCELMODE, ordinary),
        Some(DrawingCancellation::AnyPointer)
    );
}

#[test]
fn message_parameters_are_split_into_words() {
    assert_eq!(pointer_id(0x8000_002A), 0x2A);
    assert_eq!(pointer_flags(0x8000_002A), 0x8000);
    assert_eq!(pointer_screen(0x0010_0020), (0x20, 0x10));
    assert_eq!(pointer_screen(0xFFFE_FFFF), (-1, -2));
    assert_eq!(pointer_screen(-1), (-1, -1));
    assert_eq!(hotkey_id(0xFFFF_FFFF), -1);
    assert_eq!(hotkey_id(7), 7);
}

fn at_rest() -> Ownership {
    Ownership {
        draw_mode: true,
        radial_pinned: false,
        radial_owns: false,
        drag_owns: false,
        toggles: false,
        foreground_ui: false,
    }
}

#[test]
fn messages_are_tried_in_order() {
    let press = pointer_wparam(1, POINTER_MESSAGE_FLAG_FIRSTBUTTON);
    assert_eq!(attempts(WM_POINTERDOWN, press, at_rest()), vec![Attempt::PointerDown]);
    let second = pointer_wparam(1, POINTER_MESSAGE_FLAG_SECONDBUTTON);
    assert_eq!(attempts(WM_POINTERDOWN, second, at_rest()), vec![Attempt::OpenRadialMenu]);
    let passing = Ownership { draw_mode: false, ..at_rest() };
    assert!(attempts(WM_POINTERDOWN, press, passing).is_empty());
    let pinned = Ownership { radial_pinned: true, ..at_rest() };
    assert_eq!(attempts(WM_POINTERDOWN, press, pinned), vec![Attempt::RadialClick]);
    assert_eq!(attempts(WM_POINTERDOWN, second, pinned), vec![Attempt::RadialClick]);

    let canceled = pointer_wparam(1, POINTER_MESSAGE_FLAG_CANCELED);
    let owned = Ownership { radial_owns: true, ..at_rest() };
    assert_eq!(
        attempts(WM_POINTERUPDATE, canceled, owned),
        vec![Attempt::CancelRadial, Attempt::Ignore]
    );
    assert_eq!(
        attempts(WM_POINTERUP, canceled, at_rest()),
        vec![Attempt::CancelDrawing, Attempt::ReleaseRadial, Attempt::PointerUp]
    );
    assert_eq!(
        attempts(WM_CANCELMODE, 0, at_rest()),
        vec![Attempt::DismissRadial, Attempt::CancelDrag, Attempt::CancelDrawing]
    );
    assert_eq!(attempts(WM_TIMER, FLUSH_TIMER_ID, at_rest()), vec![Attempt::Flush]);
    assert_eq!(attempts(WM_PAINT, 0, at_rest()), vec![Attempt::Paint]);
    assert!(attempts(0x0400, 0, at_rest()).is_empty());
}

#[test]
fn hotkeys_are_told_apart() {
    let toggling = Ownership { toggles: true, ..at_rest() };
    assert_eq!(
        attempts(WM_HOTKEY, LAYER_CLEAR_ID as usize, toggling),
        vec![Attempt::ClearActiveLayer]
    );
    assert_eq!(
        attempts(WM_HOTKEY, TRANSFORM_ESCAPE_ID as usize, toggling),
        vec![Attempt::EscapeTransform]
    );
    let busy = Ownership { foreground_ui: true, ..toggling };
    assert_eq!(attempts(WM_HOTKEY, 1, busy), vec![Attempt::Ignore]);
    assert_eq!(attempts(WM_HOTKEY, 1, toggling), vec![Attempt::ToggleMode]);
    assert!(attempts(WM_HOTKEY, 1, at_rest()).is_empty());
}

#[test]
fn monitors_are_arranged_with_the_primary_first() {
    let left = test_monitor(-1920, false);
    let primary = test_monitor(0, true);
    let right = test_monitor(1920, false);
    let arranged = arrange(&[right, left, primary]);
    assert_eq!(arranged, vec![primary, left, right]);
    // Monitors at one place keep their order.
    let wide = Monitor { width: 2560, ..right };
    assert_eq!(arrange(&[right, wide]), vec![right, wide]);
    assert_eq!(arrange(&[wide, right]), vec![wide, right]);
    assert_eq!(describe(-1920, 10, 0, 1090, 1), Monitor { y: 10, primary: true, ..left });
    assert!(!describe(0, 0, 1, 1, 2).primary);
}

#[test]
fn transparency_is_one_bit_of_the_style() {
    assert_eq!(style_with_transparency(0x80008, true), 0x80028);
    assert_eq!(style_with_transparency(0x80028, false), 0x80008);
    assert_eq!(style_with_transparency(0x80028, true), 0x80028);
    assert_eq!(overlay_style(), 0x0828_0088);
}

#[test]
fn drawing_is_toggled_on_and_off() {
    let mut overlay = overlay(false);
    let mut effects = Vec::new();
    overlay.toggle_mode(false, false, &mut effects);
    assert!(overlay.draw_mode);
    assert_eq!(
        effects,
        vec![Effect::RegisterLayerClear, Effect::SetTransparent(false), Effect::Draw]
    );
    overlay.layer_clear_answer(true);
    assert!(overlay.layer_clear_registered);

    effects.clear();
    overlay.toggle_mode(false, true, &mut effects);
    assert!(!overlay.draw_mode);
    assert!(!overlay.layer_clear_registered);
    assert_eq!(
        effects,
        vec![
            Effect::UnregisterLayerClear,
            Effect::UnregisterTransformEscape,
            Effect::CancelInput,
            Effect::StopFlushTimer,
            Effect::SetTransparent(true),
            Effect::ClearFrame,
        ]
    );

    // With the settings open nothing happens.
    effects.clear();
    overlay.toggle_mode(true, false, &mut effects);
    assert!(!overlay.draw_mode);
    assert!(effects.is_empty());
}

#[test]
fn without_a_projector_one_is_asked_for() {
    let mut overlay = overlay(true);
    let mut effects = Vec::new();
    overlay.toggle_mode(false, false, &mut effects);
    assert!(!overlay.draw_mode);
    assert_eq!(effects, vec![Effect::RequestProjector]);

    effects.clear();
    overlay.poll_projector(true, false, false, &mut effects);
    assert!(overlay.projector_visible);
    assert_eq!(effects, vec![Effect::ShowOverlay, Effect::EnforceZOrder]);

    effects.clear();
    overlay.apply_pending_poll(PollDisposition::Ready, false, &mut effects);
    assert!(overlay.draw_mode && overlay.projector_opened_by_us);
    assert_eq!(
        effects,
        vec![
            Effect::StopPendingTimer,
            Effect::RegisterLayerClear,
            Effect::SetTransparent(false),
            Effect::Draw,
        ]
    );

    // A projector that was asked for is closed again.
    effects.clear();
    overlay.toggle_mode(false, false, &mut effects);
    assert_eq!(effects.last(), Some(&Effect::CloseProjector));
    overlay.close_answer(false);
    assert!(overlay.projector_opened_by_us);
    overlay.close_answer(true);
    assert!(!overlay.projector_opened_by_us);
}

#[test]
fn drawing_ends_when_the_projector_is_gone() {
    let mut overlay = overlay(true);
    let mut effects = Vec::new();
    overlay.poll_projector(true, false, false, &mut effects);
    overlay.toggle_mode(false, false, &mut effects);
    assert!(overlay.draw_mode);
    effects.clear();
    overlay.poll_projector(false, false, false, &mut effects);
    assert!(!overlay.draw_mode && !overlay.projector_visible);
    assert_eq!(
        effects,
        vec![
            Effect::UnregisterTransformEscape,
            Effect::CancelInput,
            Effect::SetTransparent(true),
            Effect::ClearFrame,
            Effect::HideOverlay,
            Effect::EnforceZOrder,
        ]
    );
    // Not while one of our own windows is open.
    effects.clear();
    overlay.poll_projector(true, true, false, &mut effects);
    assert!(!overlay.projector_visible);
    assert!(effects.is_empty());
}

#[test]
fn the_outcome_of_a_projector_request_is_followed_up() {
    let mut overlay = overlay(true);
    let mut effects = Vec::new();
    overlay.on_obs_worker_result(WorkerDisposition::Ignored, &mut effects);
    assert!(effects.is_empty());
    overlay.on_obs_worker_result(WorkerDisposition::AwaitingProjector, &mut effects);
    assert_eq!(effects, vec![Effect::PollProjector, Effect::CheckRequest]);
    for disposition in [WorkerDisposition::Failed, WorkerDisposition::TimedOut] {
        effects.clear();
        overlay.on_obs_worker_result(disposition, &mut effects);
        assert_eq!(effects, vec![Effect::StopPendingTimer]);
    }
    effects.clear();
    overlay.on_pending_timer(&mut effects);
    assert_eq!(
        effects,
        vec![Effect::TakeReports, Effect::PollProjector, Effect::CheckRequest]
    );
    effects.clear();
    overlay.apply_pending_poll(PollDisposition::Waiting, false, &mut effects);
    assert!(effects.is_empty());
    overlay.apply_pending_poll(PollDisposition::TimedOut, false, &mut effects);
    assert_eq!(effects, vec![Effect::StopPendingTimer]);
    assert!(!overlay.draw_mode);
}

#[test]
fn frames_are_scheduled_once_and_covered_by_drawing() {
    let mut overlay = overlay(false);
    let mut effects = Vec::new();
    overlay.request_render(&mut effects);
    assert!(effects.is_empty());
    overlay.toggle_mode(false, false, &mut effects);
    effects.clear();
    overlay.request_render(&mut effects);
    overlay.request_render(&mut effects);
    assert_eq!(effects, vec![Effect::Invalidate]);
    overlay.render(&mut effects);
    overlay.on_frame_request(&mut effects);
    assert_eq!(effects, vec![Effect::Invalidate, Effect::Draw]);
}

#[test]
fn a_failing_renderer_is_made_anew_but_not_too_often() {
    let second = 1_000_000_000;
    let mut overlay = overlay(false);
    let mut effects = Vec::new();
    overlay.recover_renderer(5 * second, &mut effects);
    assert_eq!(
        effects,
        vec![Effect::DropRenderer, Effect::RestoreRenderer { moved: false }]
    );
    effects.clear();
    overlay.recover_renderer(5 * second + 1, &mut effects);
    assert!(effects.is_empty());
    overlay.recover_renderer(60 * second, &mut effects);
    assert_eq!(effects.first(), Some(&Effect::DropRenderer));
}

#[test]
fn clearing_everything_asks_first() {
    let mut overlay = overlay(false);
    let mut effects = Vec::new();
    let step = overlay.apply_menu_action(MenuAction::Clear, true, false, &mut effects);
    assert!(matches!(step, ActionStep::ConfirmClear));
    assert!(matches!(overlay.clear_confirmed(false), ActionStep::Done));
    assert!(matches!(
        overlay.clear_confirmed(true),
        ActionStep::Engine { change: EngineChange::Clear, deselected: false }
    ));
    let step = overlay.apply_menu_action(MenuAction::Clear, false, false, &mut effects);
    assert!(matches!(step, ActionStep::Done));
    overlay.confirm_before_clear = false;
    let step = overlay.apply_menu_action(MenuAction::Clear, true, false, &mut effects);
    assert!(matches!(step, ActionStep::Engine { change: EngineChange::Clear, .. }));
    assert!(effects.is_empty());
}

#[test]
fn commands_choose_tools_and_colors() {
    let mut overlay = overlay(false);
    let mut effects = Vec::new();
    overlay.apply_menu_action(
        MenuAction::SelectTool(DrawTool::Eraser),
        false,
        false,
        &mut effects,
    );
    assert_eq!(overlay.tool, DrawTool::Eraser);
    // Whoever chooses a color wants to draw in it.
    overlay.apply_menu_action(MenuAction::SelectColor("#51cf66"), false, false, &mut effects);
    assert_eq!(overlay.tool, DrawTool::Pen);
    assert_eq!(overlay.color, "#51cf66");
    overlay.apply_menu_action(MenuAction::SelectTool(DrawTool::Arrow), false, false, &mut effects);
    overlay.apply_menu_action(MenuAction::SelectColor("#111111"), false, false, &mut effects);
    assert_eq!(overlay.tool, DrawTool::Arrow);
    let step = overlay.apply_menu_action(MenuAction::Exit, false, false, &mut effects);
    assert!(matches!(step, ActionStep::Exit));
}

#[test]
fn engine_changes_are_drawn() {
    let mut overlay = overlay(false);
    let mut effects = Vec::new();
    overlay.toggle_mode(false, false, &mut effects);
    effects.clear();
    let step = overlay.apply_menu_action(MenuAction::Undo, false, false, &mut effects);
    assert!(matches!(step, ActionStep::Engine { change: EngineChange::Undo, deselected: false }));
    overlay.engine_changed(&EngineChange::Undo, false, false, &mut effects);
    assert!(effects.is_empty());
    overlay.engine_changed(&EngineChange::Undo, false, true, &mut effects);
    assert_eq!(effects, vec![Effect::Rebuild, Effect::Draw]);
    effects.clear();
    let other = EngineChange::SelectLayer("layer-2".to_owned());
    overlay.engine_changed(&other, false, true, &mut effects);
    assert_eq!(effects, vec![Effect::Draw]);
}

#[test]
fn engine_reports_are_delivered_once() {
    assert_eq!(dispatch_engine_change(true, true), (true, Some(Effect::SendSnapshot)));
    assert_eq!(dispatch_engine_change(true, false), (true, Some(Effect::SendSnapshot)));
    assert_eq!(dispatch_engine_change(false, true), (true, Some(Effect::SendMessages)));
    assert_eq!(dispatch_engine_change(false, false), (false, None));
}

#[test]
fn displays_come_and_go() {
    let mut overlay = overlay(false);
    let mut effects = Vec::new();
    overlay.on_display_change(Some((0, test_monitor(0, true))), false, &mut effects);
    assert_eq!(effects, vec![Effect::PollProjector]);

    effects.clear();
    let other = test_monitor(1920, false);
    overlay.on_display_change(Some((1, other)), false, &mut effects);
    assert_eq!(effects, vec![Effect::CancelProjectorRequest, Effect::MoveTo(other)]);
    effects.clear();
    overlay.moved_answer(other, true, &mut effects);
    assert_eq!(overlay.monitor, other);
    assert_eq!(
        effects,
        vec![
            Effect::DropRenderer,
            Effect::RestoreRenderer { moved: true },
            Effect::PollProjector,
        ]
    );

    effects.clear();
    overlay.on_display_change(None, false, &mut effects);
    assert_eq!(
        effects,
        vec![Effect::CancelProjectorRequest, Effect::ReleaseZOrder, Effect::HideOverlay]
    );
}

/// Carries a restoration out whose step at `failing` fails, with a second for each step, and says
/// which steps were tried and whether there is a renderer in the end.
fn restore(overlay: &mut Overlay, moved: bool, failing: Option<usize>) -> (Vec<Effect>, bool) {
    let mut tried = Vec::new();
    let mut renderer = false;
    let mut restoration = overlay.create_renderer_from_history(moved);
    loop {
        let step = restoration.step();
        let succeeded = failing != Some(tried.len());
        tried.push(step);
        renderer |= step == Effect::CreateRenderer && succeeded;
        let mut effects = Vec::new();
        let now = tried.len() as u64 * 1_000_000_000;
        let progress = overlay.restore_answer(restoration, succeeded, now, &mut effects);
        for effect in effects {
            assert_eq!(effect, Effect::DropRenderer);
            renderer = false;
        }
        match progress {
            RestoreProgress::Continue(next) => restoration = next,
            RestoreProgress::Restored => return (tried, renderer),
            RestoreProgress::Failed => return (tried, renderer),
        }
    }
}

#[test]
fn no_renderer_is_kept_whose_restoration_failed() {
    let mut overlay = overlay(false);
    let steps = vec![Effect::CreateRenderer, Effect::Rebuild, Effect::ClearFrame];
    assert_eq!(restore(&mut overlay, false, None), (steps.clone(), true));
    assert_eq!(restore(&mut overlay, true, None), (steps.clone(), true));
    assert_eq!(overlay.last_recovery, None);
    for failing in 0..steps.len() {
        let tried = steps[..failing + 1].to_vec();
        assert_eq!(restore(&mut overlay, false, Some(failing)), (tried, false));
        assert_eq!(overlay.last_recovery, None);
    }
    // On a new display nothing is tried again before the interval has passed.
    assert_eq!(restore(&mut overlay, true, Some(1)).1, false);
    assert_eq!(overlay.last_recovery, Some(2_000_000_000));
    let mut effects = Vec::new();
    overlay.recover_renderer(3_999_999_999, &mut effects);
    assert!(effects.is_empty());
    overlay.recover_renderer(4_000_000_000, &mut effects);
    assert_eq!(effects.len(), 2);
    effects.clear();
    overlay.restore_failed(4_000_000_001, false, &mut effects);
    assert_eq!(effects, vec![Effect::DropRenderer]);
    assert_eq!(overlay.last_recovery, Some(4_000_000_000));
    overlay.toggle_mode(false, false, &mut effects);
    assert_eq!(
        restore(&mut overlay, false, None).0,
        vec![Effect::CreateRenderer, Effect::Rebuild, Effect::Draw]
    );
}

#[test]
fn a_request_needs_its_timer() {
    assert_eq!(request_start(true), RequestStart::Spawn);
    assert_eq!(request_start(false), RequestStart::Cancel);
}

#[test]
fn starting_shows_the_overlay_unless_it_follows_a_projector() {
    let mut effects = Vec::new();
    overlay(false).start(&mut effects);
    assert_eq!(
        effects,
        vec![Effect::SetTransparent(true), Effect::ShowOverlay, Effect::PollProjector]
    );
    effects.clear();
    overlay(true).start(&mut effects);
    assert_eq!(effects, vec![Effect::SetTransparent(true), Effect::PollProjector]);
}

#[test]
fn a_program_without_monitor_does_not_start() {
    let monitors = [test_monitor(0, true), test_monitor(1920, false)];
    assert_eq!(startup_monitor(&monitors, 1), Ok((1, monitors[1])));
    assert_eq!(startup_monitor(&monitors, 5), Ok((0, monitors[0])));
    assert_eq!(
        startup_monitor(&[], 0),
        Err("利用可能なモニターが見つかりません".to_owned())
    );
}

#[test]
fn a_missing_hotkey_is_announced() {
    assert_eq!(
        hotkey_warning("使用中"),
        "描画モード切替ホットキーを登録できませんでした。\n\n使用中\n\nStreamPainterは継続して動作します。タスクトレイの「描画モード切替」を使用するか、設定から別のキーを指定してください。"
    );
}
