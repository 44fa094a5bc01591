//! The clipboard, pointing devices, the projector's place, the one instance and the messages.

use stream_painter::clipboard::{byte_len, clipboard_units, copied, ClipboardError};
use stream_painter::dialogs::{
    choose_failure, is_yes, message_box_style, missing_control, open_failure, operation_error,
    MessageBoxKind, OpenTarget, IDYES,
};
use stream_painter::monitor::Monitor;
use stream_painter::pointer::{
    pointer_device, raw_pen_data, sampled_device, PointerDevice, RawPenData, PEN_MASK_PRESSURE,
    PEN_MASK_TILT_X, PEN_MASK_TILT_Y, PT_MOUSE, PT_PEN, PT_TOUCH, PT_TOUCHPAD,
};
use stream_painter::projector::{
    covered_monitors, covers, find_projector, foreground_ui_active, is_obs_image, may_be_projector,
    monitor_line, names_obs, window_line, worth_listing, ForegroundUi, ForegroundUiGuard,
    WindowFacts, WindowRect, ZOrderCall, ZOrderGuard,
};
use stream_painter::single_instance::{
    newly_created, Retry, RetryStep, ERROR_ALREADY_EXISTS, HANDOFF_RETRY_BUDGET_NS,
    HANDOFF_RETRY_INTERVAL_NS,
};
use stream_painter::update::{apply_failure, release_tag, AvailableUpdate};

/// A clipboard in memory.
#[derive(Default)]
struct RecordingClipboard {
    text: Vec<u16>,
    busy: bool,
}

impl RecordingClipboard {
    fn set_unicode_text(&mut self, text: &[u16]) -> Result<(), String> {
        if self.busy {
            return Err("clipboard is busy".to_owned());
        }
        self.text = text.to_vec();
        Ok(())
    }
}

fn copy_text_with(clipboard: &mut RecordingClipboard, text: &str) -> Result<(), ClipboardError> {
    let units = clipboard_units(text)?;
    copied(clipboard.set_unicode_text(&units))
}

#[test]
fn copy_encodes_unicode_as_nul_terminated_utf16() {
    let mut clipboard = RecordingClipboard::default();
    copy_text_with(&mut clipboard, "http://127.0.0.1:16873/overlay（配信用）").unwrap();

    assert_eq!(clipboard.text.last(), Some(&0));
    assert_eq!(
        String::from_utf16(&clipboard.text[..clipboard.text.len() - 1]).unwrap(),
        "http://127.0.0.1:16873/overlay（配信用）"
    );
}

#[test]
fn clipboard_failure_is_returned_with_actionable_context() {
    let mut clipboard = RecordingClipboard { busy: true, ..Default::default() };
    let error =
        copy_text_with(&mut clipboard, "http://127.0.0.1:16873/overlay").unwrap_err();

    let detail = error.message();
    assert!(detail.contains("クリップボードへコピーできません"));
    assert!(detail.contains("clipboard is busy"));
}

#[test]
fn embedded_nul_is_rejected_before_touching_clipboard() {
    let mut clipboard = RecordingClipboard::default();
    let error = copy_text_with(&mut clipboard, "safe\0hidden").unwrap_err();
    assert!(error.message().contains("NUL"));
    assert!(clipboard.text.is_empty());
}

#[test]
fn clipboard_memory_is_two_bytes_per_unit() {
    assert_eq!(byte_len(21), Some(42));
    assert_eq!(byte_len(usize::MAX), None);
    // A character beyond the basic plane takes two units.
    assert_eq!(clipboard_units("a😀").unwrap(), vec![0x61, 0xD83D, 0xDE00, 0]);
}

#[test]
fn windows_pointer_types_are_kept_distinct() {
    assert_eq!(pointer_device(PT_MOUSE), PointerDevice::Mouse);
    assert_eq!(pointer_device(PT_TOUCH), PointerDevice::Touch);
    assert_eq!(pointer_device(PT_PEN), PointerDevice::Pen);
    assert_eq!(pointer_device(PT_TOUCHPAD), PointerDevice::Touchpad);
    assert_eq!(pointer_device(999), PointerDevice::Unknown);
}

#[test]
fn pen_mask_is_the_only_authority_for_optional_fields() {
    assert_eq!(
        raw_pen_data(PEN_MASK_PRESSURE | PEN_MASK_TILT_Y, 768, 45, -30),
        RawPenData { pressure: Some(768), tilt_x: None, tilt_y: Some(-30) }
    );
    assert_eq!(
        raw_pen_data(PEN_MASK_TILT_X, 768, 45, -30),
        RawPenData { pressure: None, tilt_x: Some(45), tilt_y: None }
    );
}

#[test]
fn only_a_pen_is_asked_for_more() {
    assert_eq!(sampled_device(Some(PT_PEN)), (PointerDevice::Pen, true));
    assert_eq!(sampled_device(Some(PT_TOUCH)), (PointerDevice::Touch, false));
    assert_eq!(sampled_device(None), (PointerDevice::Unknown, false));
}

/// The windows of a desktop: those that stay on top, from the front to the back.
#[derive(Default)]
struct Desktop {
    top: Vec<isize>,
}

impl Desktop {
    fn set_topmost(&mut self, window: isize, topmost: bool) {
        self.top.retain(|other| *other != window);
        if topmost {
            self.top.insert(0, window);
        }
    }

    fn is_topmost(&self, window: isize) -> bool {
        self.top.contains(&window)
    }

    fn is_above(&self, upper: isize, lower: isize) -> bool {
        let place = |window: isize| self.top.iter().position(|other| *other == window);
        match (place(upper), place(lower)) {
            (Some(upper), Some(lower)) => upper < lower,
            (Some(_), None) => true,
            _ => false,
        }
    }

    fn make(&mut self, calls: &[ZOrderCall]) {
        for call in calls {
            match call {
                ZOrderCall::Raise(window) => self.set_topmost(*window, true),
                ZOrderCall::Lower(window) => self.set_topmost(*window, false),
            }
        }
    }

    fn enforce(
        &mut self,
        guard: &mut ZOrderGuard,
        projector: Option<isize>,
        overlay: isize,
        ui: &ForegroundUi,
    ) {
        let topmost = projector.is_some_and(|projector| self.is_topmost(projector));
        let calls = guard.enforce(projector, topmost, overlay, ui);
        self.make(&calls);
    }

    fn release(&mut self, mut guard: ZOrderGuard) {
        let calls = guard.restore();
        self.make(&calls);
    }
}

const PROJECTOR: isize = 10;
const OVERLAY: isize = 20;

#[test]
fn guard_stacks_overlay_and_restores_only_promoted_projector() {
    let mut desktop = Desktop { top: vec![OVERLAY] };
    let ui = ForegroundUi::default();

    let mut guard = ZOrderGuard::default();
    desktop.enforce(&mut guard, Some(PROJECTOR), OVERLAY, &ui);
    assert!(desktop.is_topmost(PROJECTOR));
    assert!(desktop.is_topmost(OVERLAY));
    assert!(desktop.is_above(OVERLAY, PROJECTOR));
    desktop.release(guard);
    assert!(!desktop.is_topmost(PROJECTOR));
    assert!(desktop.is_topmost(OVERLAY));

    desktop.set_topmost(PROJECTOR, true);
    let mut guard = ZOrderGuard::default();
    desktop.enforce(&mut guard, Some(PROJECTOR), OVERLAY, &ui);
    desktop.release(guard);
    assert!(desktop.is_topmost(PROJECTOR));
}

#[test]
fn foreground_ui_suspends_z_order_changes_until_it_closes() {
    let mut desktop = Desktop { top: vec![OVERLAY] };
    let mut ui = ForegroundUi::default();
    let mut z_order = ZOrderGuard::default();

    {
        let foreground_ui = ForegroundUiGuard::new(&mut ui);
        desktop.enforce(&mut z_order, Some(PROJECTOR), OVERLAY, &ui);
        assert!(!desktop.is_topmost(PROJECTOR));

        {
            let nested_ui = ForegroundUiGuard::new(&mut ui);
            assert!(foreground_ui_active(&ui));
            nested_ui.close(&mut ui);
        }
        assert!(foreground_ui_active(&ui));
        foreground_ui.close(&mut ui);
    }

    assert!(!foreground_ui_active(&ui));
    desktop.enforce(&mut z_order, Some(PROJECTOR), OVERLAY, &ui);
    assert!(desktop.is_topmost(PROJECTOR));
    desktop.release(z_order);
    assert!(!desktop.is_topmost(PROJECTOR));
}

#[test]
fn an_open_dialog_counts_whatever_others_come_and_go() {
    let mut ui = ForegroundUi::default();
    let before = ForegroundUiGuard::new(&mut ui);
    let own = ForegroundUiGuard::new(&mut ui);
    before.close(&mut ui);
    assert!(foreground_ui_active(&ui));
    let others: Vec<_> = (0..3).map(|_| ForegroundUiGuard::new(&mut ui)).collect();
    own.close(&mut ui);
    assert_eq!(ui.depth, 3);
    for other in others {
        assert!(foreground_ui_active(&ui));
        other.close(&mut ui);
    }
    assert!(!foreground_ui_active(&ui));
}

#[test]
fn another_projector_gives_the_place_of_the_first_back() {
    let ui = ForegroundUi::default();
    let mut guard = ZOrderGuard::default();
    assert_eq!(
        guard.enforce(Some(1), false, OVERLAY, &ui),
        vec![ZOrderCall::Raise(1), ZOrderCall::Raise(OVERLAY)]
    );
    assert_eq!(
        guard.enforce(Some(2), true, OVERLAY, &ui),
        vec![ZOrderCall::Lower(1), ZOrderCall::Raise(2), ZOrderCall::Raise(OVERLAY)]
    );
    assert!(guard.enforce(None, false, OVERLAY, &ui).is_empty());
    assert_eq!(guard, ZOrderGuard::default());
}

fn screen() -> Monitor {
    Monitor { x: 0, y: 0, width: 1920, height: 1080, primary: true }
}

fn rect(left: i32, top: i32, right: i32, bottom: i32) -> WindowRect {
    WindowRect { left, top, right, bottom }
}

fn full_screen(handle: isize) -> WindowFacts {
    WindowFacts {
        handle,
        visible: true,
        iconic: false,
        rect: Some(rect(0, 0, 1920, 1080)),
        obs: true,
    }
}

#[test]
fn the_projector_is_the_front_full_screen_obs_window() {
    let windows = [
        WindowFacts { obs: false, ..full_screen(1) },
        WindowFacts { rect: Some(rect(0, 0, 800, 600)), ..full_screen(2) },
        WindowFacts { visible: false, ..full_screen(3) },
        WindowFacts { iconic: true, ..full_screen(4) },
        WindowFacts { rect: None, ..full_screen(5) },
        full_screen(6),
        full_screen(7),
    ];
    assert_eq!(find_projector(&windows, &screen(), 99), Some(6));
    // Not the overlay itself.
    assert_eq!(find_projector(&windows, &screen(), 6), Some(7));
    assert_eq!(find_projector(&windows[..5], &screen(), 99), None);
    assert!(!may_be_projector(&windows[1], &screen(), 99));
}

#[test]
fn a_full_screen_window_may_miss_the_edges_a_little() {
    assert!(covers(&rect(2, 2, 1918, 1078), &screen()));
    assert!(covers(&rect(-8, -8, 1928, 1088), &screen()));
    assert!(!covers(&rect(3, 0, 1920, 1080), &screen()));
    assert!(!covers(&rect(0, 0, 1917, 1080), &screen()));
    // Positions at the ends of the number range are no problem.
    let far = Monitor { x: i32::MAX, y: i32::MIN, width: i32::MAX, height: 1, primary: false };
    assert!(!covers(&rect(0, 0, 1, 1), &far));
}

#[test]
fn obs_is_recognized_by_its_executable_in_any_case() {
    let path = |text: &str| text.encode_utf16().collect::<Vec<u16>>();
    assert!(is_obs_image(&path("C:\\Program Files\\obs-studio\\bin\\64bit\\OBS64.EXE")));
    assert!(is_obs_image(&path("d:/obs/obs32.exe")));
    assert!(is_obs_image(&path("obs.exe")));
    assert!(!is_obs_image(&path("C:\\obs64.exe\\other.exe")));
    assert!(!is_obs_image(&path("C:\\my-obs64.exe")));
    assert!(!is_obs_image(&path("")));
    assert!(names_obs("c:\\obs64.exe"));
    assert!(!names_obs("c:\\OBS64.exe"));
}

#[test]
fn a_diagnosis_lists_windows_and_monitors() {
    let monitors = [
        screen(),
        Monitor { x: -1280, y: -5, width: 1280, height: 1024, primary: false },
    ];
    assert_eq!(monitor_line(1, &monitors[1]), "monitor 1: 1280x1024 at (-1280,-5) primary=false");
    let all = rect(-1280, -5, 1920, 1080);
    assert_eq!(covered_monitors(&all, &monitors), "[0, 1]");
    assert_eq!(covered_monitors(&rect(0, 0, 10, 10), &monitors), "[]");
    assert_eq!(
        window_line("0x10", &all, &monitors, true, false, "\"OBS\""),
        "hwnd=0x10 rect=(-1280,-5)-(1920,1080) covers=[0, 1] obs=true topmost=false title=\"OBS\""
    );
    assert!(worth_listing(&rect(0, 0, 600, 400)));
    assert!(!worth_listing(&rect(0, 0, 599, 400)));
    assert!(!worth_listing(&rect(i32::MAX, 0, i32::MIN, 400)));
}

/// Attempts at a mutex that its holder releases at some time, on a clock of its own.
fn acquire_with_retry(released_at: Option<u64>, budget: u64, interval: u64) -> (bool, u64) {
    let mut now = 0;
    let retry = Retry::start(now, budget);
    loop {
        let acquired = released_at.is_some_and(|released| now >= released);
        match retry.after_attempt(acquired, now) {
            RetryStep::Acquired => return (true, now),
            RetryStep::GiveUp => return (false, now),
            RetryStep::Wait => now += interval,
        }
    }
}

#[test]
fn a_mutex_that_exists_already_is_not_acquired() {
    assert!(newly_created(0));
    assert!(!newly_created(ERROR_ALREADY_EXISTS));
    let retry = Retry::start(0, 0);
    assert_eq!(retry.after_attempt(newly_created(0), 0), RetryStep::Acquired);
    assert_eq!(retry.after_attempt(newly_created(ERROR_ALREADY_EXISTS), 0), RetryStep::GiveUp);
}

#[test]
fn retry_succeeds_once_the_holder_releases_within_the_budget() {
    let (acquired, elapsed) = acquire_with_retry(Some(120_000_000), 2_000_000_000, 10_000_000);
    assert!(acquired, "retry must observe the release");
    assert!(elapsed >= 50_000_000);
}

#[test]
fn retry_gives_up_after_the_budget_while_the_holder_keeps_it() {
    let (acquired, elapsed) = acquire_with_retry(None, 80_000_000, 10_000_000);
    assert!(!acquired, "budget must expire while still held");
    assert_eq!(elapsed, 80_000_000);
    let attempts = HANDOFF_RETRY_BUDGET_NS / HANDOFF_RETRY_INTERVAL_NS;
    assert_eq!(attempts, 40);
}

#[test]
fn releases_become_updates() {
    let update = AvailableUpdate::from_release("1.2.3", Some("\n  新機能 \u{3000}\n"));
    assert_eq!(update.version, "1.2.3");
    assert_eq!(update.notes, "新機能");
    assert_eq!(AvailableUpdate::from_release("1.2.3", None).notes, "");
    assert_eq!(release_tag("1.2.3"), "v1.2.3");
    assert_eq!(apply_failure("1.2.3"), "バージョン 1.2.3 の適用に失敗しました");
}

#[test]
fn message_boxes_and_failures() {
    assert_eq!(message_box_style(MessageBoxKind::Error), 0x10);
    assert_eq!(message_box_style(MessageBoxKind::Info), 0x40);
    assert_eq!(message_box_style(MessageBoxKind::Warning), 0x50030);
    assert_eq!(message_box_style(MessageBoxKind::Confirm), 0x134);
    assert!(is_yes(IDYES));
    assert!(!is_yes(7));
    assert_eq!(open_failure(OpenTarget::Url, 33), None);
    assert_eq!(
        open_failure(OpenTarget::Url, 2).unwrap(),
        "既定のWebブラウザを開けませんでした (ShellExecuteW: 2)"
    );
    assert_eq!(
        open_failure(OpenTarget::Folder, -5).unwrap(),
        "エクスプローラーを開けませんでした (ShellExecuteW: -5)"
    );
    assert_eq!(operation_error("保存", "失敗"), "保存:\n失敗");
    assert_eq!(choose_failure(0), None);
    assert_eq!(
        choose_failure(0x3002).unwrap(),
        "ファイル選択ダイアログでエラーが発生しました: 0x3002"
    );
    assert_eq!(
        choose_failure(0xABCDEF).unwrap(),
        "ファイル選択ダイアログでエラーが発生しました: 0xabcdef"
    );
    assert_eq!(missing_control(1004), "設定項目 1004 が見つかりません");
}
