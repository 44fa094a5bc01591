//! The settings window: its lines, its fields, its stamps and its saving.

use stream_painter::autostart::{RegistrationProblem, RegistrationStatus};
use stream_painter::hotkey::{HotkeyChord, HotkeyConfig, HotkeyError};
use stream_painter::monitor::Monitor;
use stream_painter::settings::{
    capture_hotkey, connection_status_labels, overlay_url, parse_u16, probe_needed,
    refused_key_text, saved_message, settings_command, AutostartUi, HeldKeys, KeyCapture,
    SettingsCommand, EN_CHANGE, LBN_SELCHANGE, VK_CONTROL, VK_ESCAPE, VK_TAB, WM_CLOSE, WM_COMMAND,
    WM_DIAGNOSTICS_CHANGED, WM_KEYDOWN, WM_KEYUP, WM_NCDESTROY, WM_SYSKEYDOWN,
};
use stream_painter::settings_form::{selected_index, wants_preview, FormError, FormFields};
use stream_painter::settings_layout::{
    effective_dpi, extended_style, monitor_items, offered_monitor, scale, settings_controls,
    view_item, window_class, window_origin, window_style, ControlKind, EditKind, SettingsForm,
    ID_COPY_OVERLAY_URL, ID_PORT, ID_SAVE, ID_STAMP_LIST, MAX_STAMPS, WINDOW_HEIGHT, WINDOW_WIDTH,
};
use stream_painter::settings_save::{
    SaveCall, SaveError, SaveFailure, SaveReport, SaveStage, SaveStep, SaveTransaction,
};
use stream_painter::stamps::{
    is_control_char, until_nul, PercentEntry, StampCatalog, StampDraft, StampError,
};
use stream_painter::tray::{
    command_for, diagnostics_labels, opens_menu, tip_units, tray_entries,
    LocalServerDiagnosticsSnapshot, LocalServerReachability, TrayCommand, TrayEntry, WM_LBUTTONUP,
    WM_RBUTTONUP,
};

fn diagnostics(
    reachability: LocalServerReachability,
    browser_subscribers: usize,
) -> LocalServerDiagnosticsSnapshot {
    LocalServerDiagnosticsSnapshot { port: 16_873, reachability, browser_subscribers }
}

#[test]
fn status_labels_distinguish_reachable_server_from_browser_connection() {
    let (server, browser) = connection_status_labels(
        "16873",
        Some(diagnostics(LocalServerReachability::Reachable, 0)),
    );
    assert!(server.contains("到達可能"));
    assert!(browser.contains("未接続"));

    let (server, browser) = connection_status_labels(
        "16873",
        Some(diagnostics(LocalServerReachability::Reachable, 1)),
    );
    assert!(server.contains("到達可能"));
    assert!(browser.contains("接続済み"));
}

#[test]
fn status_labels_explain_port_mismatch_and_server_stop() {
    let (server, _) = connection_status_labels(
        "16874",
        Some(diagnostics(LocalServerReachability::Reachable, 0)),
    );
    assert!(server.contains("入力中のURLとは不一致"));
    assert!(server.contains("16873"));

    let (server, browser) = connection_status_labels(
        "16873",
        Some(diagnostics(LocalServerReachability::Stopped, 0)),
    );
    assert!(server.contains("停止"));
    assert!(browser.contains("未接続"));
}

#[test]
fn standalone_settings_does_not_claim_a_browser_connection() {
    let (server, browser) = connection_status_labels("16873", None);
    assert!(server.contains("停止中"));
    assert!(browser.contains("未接続"));
}

#[test]
fn tray_labels_keep_server_and_browser_state_separate() {
    let (server, browser) = diagnostics_labels(LocalServerDiagnosticsSnapshot {
        port: 16_873,
        reachability: LocalServerReachability::Reachable,
        browser_subscribers: 0,
    });
    assert!(server.contains("到達可能"));
    assert!(browser.contains("未接続"));

    let (_, browser) = diagnostics_labels(LocalServerDiagnosticsSnapshot {
        port: 16_873,
        reachability: LocalServerReachability::Reachable,
        browser_subscribers: 2,
    });
    assert!(browser.contains("接続済み"));
    assert!(browser.contains("2接続"));

    let (server, browser) = diagnostics_labels(LocalServerDiagnosticsSnapshot {
        port: 16_873,
        reachability: LocalServerReachability::Stopped,
        browser_subscribers: 0,
    });
    assert!(server.contains("停止"));
    assert!(browser.contains("未接続"));
}

#[test]
fn labels_are_complete_sentences() {
    let running = diagnostics(LocalServerReachability::Starting, 3);
    assert_eq!(
        connection_status_labels(" 16873 ", Some(running)),
        (
            "ローカルサーバー: 起動中（ポート 16873）".to_owned(),
            "OBS Browser Source: 未接続（ローカルサーバー起動中）".to_owned()
        )
    );
    let reachable = diagnostics(LocalServerReachability::Reachable, 12);
    assert_eq!(
        connection_status_labels("+16873", Some(reachable)),
        (
            "ローカルサーバー: 到達可能（127.0.0.1:16873）".to_owned(),
            "OBS Browser Source: 接続済み（12接続）".to_owned()
        )
    );
    assert_eq!(
        diagnostics_labels(running),
        (
            "ローカルサーバー: 起動中 (16873)".to_owned(),
            "OBS Browser Source: 未接続".to_owned()
        )
    );
    assert_eq!(overlay_url(" 80\t"), "http://127.0.0.1:80/overlay");
}

#[test]
fn ports_are_read_as_the_standard_library_reads_them() {
    for text in
        ["0", "80", "65535", "65536", "+7", "++7", "-7", "", "+", "12a", "007", "99999999999", "７"]
    {
        assert_eq!(parse_u16(text), text.parse::<u16>().ok(), "{text}");
    }
}

#[test]
fn the_tray_menu_offers_its_commands() {
    let entries = tray_entries(Some("F9"), diagnostics(LocalServerReachability::Stopped, 0));
    assert_eq!(entries.len(), 10);
    let mut commands = Vec::new();
    for entry in &entries {
        if let TrayEntry::Item { id, label, enabled } = entry {
            assert_eq!(command_for(*id).is_some(), *enabled, "{label}");
            commands.extend(command_for(*id));
        }
    }
    assert_eq!(
        commands,
        vec![
            TrayCommand::ToggleMode,
            TrayCommand::CopyOverlayUrl,
            TrayCommand::Settings,
            TrayCommand::Logs,
            TrayCommand::Licenses,
            TrayCommand::Exit,
        ]
    );
    assert!(matches!(&entries[0], TrayEntry::Item { label, .. } if label == "描画モード切替 (F9)"));
    assert_eq!(command_for(0), None);
    assert!(opens_menu(WM_LBUTTONUP) && opens_menu(WM_RBUTTONUP) && !opens_menu(0x0200));
}

#[test]
fn the_tip_fits_its_buffer() {
    let tip = tip_units(Some("Ctrl+F9"));
    assert_eq!(tip.len(), 128);
    let text: Vec<u16> = "StreamPainter (Ctrl+F9: 描画モード切替)".encode_utf16().collect();
    assert_eq!(&tip[..text.len()], text.as_slice());
    assert!(tip[text.len()..].iter().all(|unit| *unit == 0));
    let long = tip_units(Some(&"x".repeat(500)));
    assert_eq!(long[126], u16::from(b'x'));
    assert_eq!(long[127], 0);
    assert_eq!(tip_units(None)[0], u16::from(b'S'));
}

#[test]
fn the_registration_is_shown_as_it_is() {
    let shown = |status| AutostartUi::load(Some(status));
    assert_eq!(
        shown(RegistrationStatus::Disabled).status_text(),
        "Windows自動起動: OFF（登録なし）"
    );
    assert_eq!(
        shown(RegistrationStatus::Enabled).status_text(),
        "Windows自動起動: ON（現在のexeを通常モードで起動）"
    );
    let broken = shown(RegistrationStatus::NeedsRepair(RegistrationProblem::MissingExecutable));
    assert_eq!(
        broken.status_text(),
        "Windows自動起動: 登録あり・修復が必要（登録先のexeが見つかりません）"
    );
    assert!(broken.is_registered() && broken.is_available());
    let unknown = AutostartUi::load(None);
    assert!(!unknown.is_registered() && !unknown.is_available());
    assert_eq!(
        unknown.status_text(),
        "Windows自動起動: 状態を取得できません（変更しません）"
    );
}

fn no_keys() -> HeldKeys {
    HeldKeys { control: false, alt: false, shift: false, left_windows: false, right_windows: false }
}

#[test]
fn keys_become_hotkeys() {
    let held = HeldKeys { control: true, right_windows: true, ..no_keys() };
    assert_eq!(held.modifiers(), 2 + 8);
    assert_eq!(
        capture_hotkey(WM_KEYDOWN, 0x78, held),
        KeyCapture::Take { key: 0x78, modifiers: 10 }
    );
    let all = HeldKeys { control: true, alt: true, shift: true, left_windows: true, ..no_keys() };
    assert_eq!(
        capture_hotkey(WM_SYSKEYDOWN, 0x41, all),
        KeyCapture::Take { key: 0x41, modifiers: 15 }
    );
    assert_eq!(capture_hotkey(WM_KEYUP, 0x78, held), KeyCapture::Swallow);
    assert_eq!(capture_hotkey(WM_KEYDOWN, VK_CONTROL, no_keys()), KeyCapture::Swallow);
    // Tab and Escape alone keep their meaning.
    assert_eq!(capture_hotkey(WM_KEYDOWN, VK_TAB, no_keys()), KeyCapture::Pass);
    assert_eq!(capture_hotkey(WM_KEYUP, VK_ESCAPE, no_keys()), KeyCapture::Pass);
    assert_eq!(
        capture_hotkey(WM_KEYDOWN, VK_TAB, held),
        KeyCapture::Take { key: VK_TAB, modifiers: 10 }
    );
    assert_eq!(capture_hotkey(WM_COMMAND, 0x78, held), KeyCapture::Pass);
    assert_eq!(refused_key_text("Print"), "使用できないキー: Print");
}

#[test]
fn messages_become_commands() {
    let notified = |id: i32, notification: u32| (id as usize) | ((notification as usize) << 16);
    let command = |wparam| settings_command(WM_COMMAND, wparam);
    assert_eq!(command(notified(ID_PORT, EN_CHANGE)), SettingsCommand::PortChanged);
    assert_eq!(command(notified(ID_PORT, 0)), SettingsCommand::Default);
    assert_eq!(command(notified(ID_COPY_OVERLAY_URL, 0)), SettingsCommand::CopyUrl);
    assert_eq!(
        command(notified(ID_STAMP_LIST, LBN_SELCHANGE)),
        SettingsCommand::StampSelected
    );
    assert_eq!(command(notified(ID_STAMP_LIST, 2)), SettingsCommand::Default);
    assert_eq!(command(ID_SAVE as usize), SettingsCommand::Save);
    assert_eq!(command(2), SettingsCommand::Close);
    assert_eq!(settings_command(WM_CLOSE, 0), SettingsCommand::Close);
    assert_eq!(settings_command(WM_NCDESTROY, 0), SettingsCommand::Destroyed);
    assert_eq!(
        settings_command(WM_DIAGNOSTICS_CHANGED, 0),
        SettingsCommand::DiagnosticsChanged
    );
    assert_eq!(settings_command(0x000F, 0), SettingsCommand::Default);
    assert!(saved_message(true, true).contains("ホットキーとWindows自動起動はすぐに"));
    assert!(saved_message(true, false).contains("--settings"));
    assert!(saved_message(false, true).contains("変更していません"));
}

fn hotkey(chord: Result<Option<HotkeyChord>, String>) -> HotkeyConfig {
    HotkeyConfig { chord, display_name: String::new() }
}

#[test]
fn only_a_different_hotkey_is_tried() {
    let f9 = HotkeyChord { modifiers: 0, virtual_key: 0x78 };
    let f8 = HotkeyChord { modifiers: 0, virtual_key: 0x77 };
    assert_eq!(probe_needed(&hotkey(Ok(Some(f9))), &hotkey(Ok(Some(f9)))).ok(), Some(false));
    assert_eq!(probe_needed(&hotkey(Ok(Some(f9))), &hotkey(Ok(Some(f8)))).ok(), Some(true));
    assert_eq!(probe_needed(&hotkey(Ok(Some(f9))), &hotkey(Ok(None))).ok(), Some(true));
    assert_eq!(probe_needed(&hotkey(Ok(None)), &hotkey(Ok(None))).ok(), Some(false));
    let broken = probe_needed(&hotkey(Err("bad".to_owned())), &hotkey(Ok(None)));
    assert!(matches!(broken, Err(HotkeyError::InvalidConfig { detail }) if detail == "bad"));
}

fn fields() -> FormFields {
    FormFields {
        port: " 16873".to_owned(),
        screen: 1,
        monitor_count: 2,
        view: 1,
        canvas_aspect: " 16:9 ".to_owned(),
        obs_websocket_url: " ws://127.0.0.1:4455\n".to_owned(),
        obs_websocket_password: " secret ".to_owned(),
        brush_color: " #FF4D6D ".to_owned(),
        brush_width_is_number: true,
    }
}

#[test]
fn fields_are_taken_over() {
    let values = fields().read().unwrap();
    assert_eq!(values.port, 16873);
    assert_eq!(values.screen, 1);
    assert_eq!(values.projector_view, "preview");
    assert_eq!(values.canvas_aspect, "16:9");
    assert_eq!(values.obs_websocket_url, "ws://127.0.0.1:4455");
    assert_eq!(values.obs_websocket_password, " secret ");
    assert_eq!(values.brush_color, "#ff4d6d");
    assert_eq!(FormFields { view: 0, ..fields() }.read().unwrap().projector_view, "program");
}

#[test]
fn wrong_fields_are_refused() {
    let error = |fields: FormFields| fields.read().err();
    assert_eq!(error(FormFields { port: "x".to_owned(), ..fields() }), Some(FormError::Port));
    assert_eq!(error(FormFields { screen: -1, ..fields() }), Some(FormError::NothingSelected));
    assert_eq!(error(FormFields { screen: 2, ..fields() }), Some(FormError::UnknownMonitor));
    assert_eq!(error(FormFields { view: -1, ..fields() }), Some(FormError::NothingSelected));
    assert_eq!(error(FormFields { view: 2, ..fields() }), Some(FormError::UnknownView));
    assert_eq!(
        error(FormFields { brush_width_is_number: false, ..fields() }),
        Some(FormError::BrushWidth)
    );
    assert_eq!(
        FormError::Port.message(),
        "ローカルサーバーのポートには 1〜65535 を指定してください"
    );
    assert_eq!(FormError::UnknownMonitor.message(), "選択したモニターが見つかりません");
    assert_eq!(FormError::BrushWidth.message(), "ブラシ幅には数値を指定してください");
    assert_eq!(selected_index(-1), None);
    assert_eq!(selected_index(3), Some(3));
    assert!(wants_preview(&"preview".to_owned()));
    assert!(!wants_preview(&"program".to_owned()));
}

fn form() -> SettingsForm {
    SettingsForm {
        overlay_url: "http://127.0.0.1:16873/overlay".to_owned(),
        port: 16873,
        screen: 0,
        canvas_aspect: "16:9".to_owned(),
        local_echo: true,
        follow_projector: false,
        obs_control: true,
        obs_websocket_url: "ws://127.0.0.1:4455".to_owned(),
        obs_websocket_password: String::new(),
        preview: false,
        close_projector: true,
        hotkey_name: "F9".to_owned(),
        brush_color: "#ff4d6d".to_owned(),
        brush_width: "0.004".to_owned(),
        confirm_before_clear: true,
        autostart_registered: false,
        autostart_available: true,
        autostart_status: "Windows自動起動: OFF（登録なし）".to_owned(),
    }
}

#[test]
fn controls_are_placed_and_scaled() {
    let controls = settings_controls(&form(), 96);
    assert_eq!(controls.len(), 45);
    let port = controls.iter().find(|control| control.id == Some(ID_PORT)).unwrap();
    assert_eq!(port.kind, ControlKind::Edit(EditKind::Number));
    assert_eq!(port.text, "16873");
    assert_eq!((port.x, port.y, port.width, port.height), (210, 50, 120, 24));
    let larger = settings_controls(&form(), 144);
    for (small, large) in controls.iter().zip(&larger) {
        assert_eq!(scale(small.x, 144), large.x);
        assert_eq!(scale(small.height, 144), large.height);
        assert!(large.x + large.width <= scale(WINDOW_WIDTH, 144));
        assert!(large.y + large.height <= scale(WINDOW_HEIGHT, 144));
    }
    let status = controls.iter().find(|control| control.id == Some(126)).unwrap();
    assert!(status.text.starts_with("Windows自動起動: OFF（登録なし）\n"));
    // Identifiers are given once.
    let mut ids: Vec<i32> = controls.iter().filter_map(|control| control.id).collect();
    let count = ids.len();
    ids.sort_unstable();
    ids.dedup();
    assert_eq!(ids.len(), count);
}

#[test]
fn lengths_are_rounded() {
    assert_eq!(scale(100, 96), 100);
    assert_eq!(scale(1, 144), 2);
    assert_eq!(scale(3, 112), 4);
    assert_eq!(scale(-1, 144), -1);
    assert_eq!(scale(680, 120), 850);
    assert_eq!(effective_dpi(72), 96);
    assert_eq!(effective_dpi(120), 120);
}

#[test]
fn controls_have_classes_and_styles() {
    assert_eq!(window_class(ControlKind::Label), "STATIC");
    assert_eq!(window_class(ControlKind::Combo), "COMBOBOX");
    assert_eq!(window_class(ControlKind::Button { default: true }), "BUTTON");
    assert_eq!(window_style(ControlKind::Label), 0x5000_0000);
    assert_eq!(window_style(ControlKind::Edit(EditKind::Number)), 0x5001_2080);
    assert_eq!(window_style(ControlKind::Button { default: true }), 0x5001_0001);
    assert_eq!(extended_style(ControlKind::ListBox), 0x200);
    assert_eq!(extended_style(ControlKind::Label), 0);
}

#[test]
fn monitors_and_views_are_offered() {
    let monitors = [
        Monitor { x: 0, y: 0, width: 1920, height: 1080, primary: true },
        Monitor { x: -1280, y: 56, width: 1280, height: 1024, primary: false },
    ];
    assert_eq!(
        monitor_items(&monitors),
        vec!["0: 1920×1080 (+0, +0) — プライマリ", "1: 1280×1024 (-1280, +56)"]
    );
    assert_eq!(offered_monitor(1, 2), 1);
    assert_eq!(offered_monitor(7, 2), 0);
    assert_eq!(view_item(0), Some("Program（配信映像）"));
    assert_eq!(view_item(1), Some("Preview（編集映像）"));
    assert_eq!(view_item(2), None);
    assert_eq!(window_origin(Some((0, 0, 1920, 1080)), 680, 900), (620, 90));
    assert_eq!(window_origin(Some((10, 20, 110, 120)), 201, 100), (-40, 20));
    assert_eq!(window_origin(None, 680, 900), (0, 0));
}

fn stamp(id: &str) -> StampDraft {
    StampDraft { id: id.to_owned(), name: id.to_owned(), width_px: 64, height_px: 32 }
}

#[test]
fn stamps_are_registered_and_removed() {
    let mut catalog = StampCatalog::new(vec![stamp("a"), stamp("b"), stamp("c")]);
    assert_eq!(catalog.selected, Some(0));
    assert_eq!(catalog.labels()[1], "b  (64×32)");
    catalog.select(Some(9));
    assert_eq!(catalog.selected, None);
    assert!(catalog.remove().is_none());
    catalog.select(Some(1));
    let removed = catalog.remove().unwrap();
    assert_eq!((removed.id.as_str(), removed.delete_file), ("b", false));
    assert_eq!(catalog.selected, Some(1));
    assert_eq!(catalog.stamps, vec![stamp("a"), stamp("c")]);

    catalog.add(stamp("new"));
    assert_eq!(catalog.selected, Some(2));
    assert_eq!(catalog.new_ids, vec!["new"]);
    let removed = catalog.remove().unwrap();
    assert!(removed.delete_file);
    assert!(catalog.new_ids.is_empty());
    assert_eq!(catalog.selected, Some(1));
    assert_eq!(catalog.stamps, vec![stamp("a"), stamp("c")]);
}

#[test]
fn the_files_of_new_stamps_go_when_nothing_is_saved() {
    let mut catalog = StampCatalog::new(vec![stamp("a")]);
    catalog.add(stamp("x"));
    catalog.add(stamp("y"));
    assert_eq!(catalog.abandoned(false), vec!["x".to_owned(), "y".to_owned()]);
    let mut saved = StampCatalog::new(vec![stamp("a")]);
    saved.add(stamp("x"));
    assert_eq!(saved.abandoned(true), Vec::<String>::new());
}

#[test]
fn stamp_fields_are_checked_in_order() {
    let mut catalog = StampCatalog::new(vec![stamp("a")]);
    use_fields(&mut catalog, " heart ", PercentEntry::InRange, PercentEntry::InRange, None);
    assert_eq!(catalog.stamps[0].name, "heart");
    let fine = PercentEntry::InRange;
    use_fields(&mut catalog, "  ", fine, fine, Some(StampError::Name));
    use_fields(&mut catalog, &"x".repeat(65), fine, fine, Some(StampError::Name));
    use_fields(&mut catalog, "a\u{7f}b", fine, fine, Some(StampError::Name));
    use_fields(
        &mut catalog,
        "x",
        PercentEntry::NotANumber,
        PercentEntry::OutOfRange,
        Some(StampError::SizeNotANumber),
    );
    use_fields(&mut catalog, "x", PercentEntry::OutOfRange, fine, Some(StampError::SizeOutOfRange));
    use_fields(
        &mut catalog,
        "x",
        fine,
        PercentEntry::NotANumber,
        Some(StampError::OpacityNotANumber),
    );
    use_fields(
        &mut catalog,
        "x",
        fine,
        PercentEntry::OutOfRange,
        Some(StampError::OpacityOutOfRange),
    );
    assert_eq!(catalog.stamps[0].name, "heart");
    assert_eq!(
        StampError::SizeOutOfRange.message(),
        "スタンプの表示サイズには 1〜100 を指定してください"
    );
    assert_eq!(
        StampError::OpacityNotANumber.message(),
        "スタンプの不透明度には 0〜100 の数値を指定してください"
    );
}

fn use_fields(
    catalog: &mut StampCatalog,
    name: &str,
    size: PercentEntry,
    opacity: PercentEntry,
    expected: Option<StampError>,
) {
    assert_eq!(catalog.commit_editor(name, size, opacity).err(), expected);
}

#[test]
fn no_more_stamps_than_fit() {
    let mut catalog = StampCatalog::new(Vec::new());
    for index in 0..MAX_STAMPS {
        assert!(catalog.check_room().is_ok());
        catalog.add(stamp(&format!("{index}")));
    }
    let error = catalog.check_room().unwrap_err();
    assert_eq!(error, StampError::TooMany);
    assert_eq!(error.message(), "登録できるスタンプは最大 32 個です");
}

#[test]
fn control_characters_are_those_of_unicode() {
    for code in 0..=0x10FFFF {
        if let Some(c) = char::from_u32(code) {
            assert_eq!(is_control_char(c), c.is_control(), "{code:x}");
        }
    }
    assert_eq!(until_nul(&[65, 66, 0, 67]), 2);
    assert_eq!(until_nul(&[65, 66]), 2);
}

/// Parties that fail where they are told to, and a record of what was asked of them.
fn save(autostart: bool, fails: &[(SaveCall, usize)]) -> (Result<(), SaveError>, Vec<SaveCall>) {
    let mut calls: Vec<SaveCall> = Vec::new();
    let (mut transaction, mut step) = SaveTransaction::start(autostart);
    loop {
        match step {
            SaveStep::Done(result) => {
                assert!(matches!(transaction.stage, SaveStage::Finished));
                return (result, calls);
            }
            SaveStep::Call(call) => {
                let nth = calls.iter().filter(|earlier| **earlier == call).count();
                calls.push(call);
                let answer = if fails.contains(&(call, nth)) {
                    Err(format!("{call:?} failed"))
                } else {
                    Ok(())
                };
                step = transaction.resume(answer);
            }
        }
    }
}

#[test]
fn saving_changes_everything() {
    let (result, calls) = save(true, &[]);
    assert!(result.is_ok());
    assert_eq!(
        calls,
        vec![
            SaveCall::PrepareHotkey,
            SaveCall::PrepareAutostart,
            SaveCall::SaveConfig,
            SaveCall::CommitHotkey,
        ]
    );
    let (result, calls) = save(false, &[]);
    assert!(result.is_ok());
    assert_eq!(
        calls,
        vec![SaveCall::PrepareHotkey, SaveCall::SaveConfig, SaveCall::CommitHotkey]
    );
}

#[test]
fn a_refused_change_stops_saving() {
    let (result, calls) = save(true, &[(SaveCall::PrepareHotkey, 0)]);
    assert_eq!(result.unwrap_err().message(), "PrepareHotkey failed");
    assert_eq!(calls, vec![SaveCall::PrepareHotkey]);
    let (result, calls) = save(true, &[(SaveCall::PrepareAutostart, 0)]);
    assert_eq!(result.unwrap_err().message(), "PrepareAutostart failed");
    assert_eq!(
        calls,
        vec![SaveCall::PrepareHotkey, SaveCall::PrepareAutostart, SaveCall::RollbackHotkey]
    );
}

#[test]
fn a_failed_save_is_taken_back() {
    let (result, calls) = save(true, &[(SaveCall::SaveConfig, 0)]);
    assert_eq!(
        result.unwrap_err().message(),
        "設定を保存できませんでした: SaveConfig failed"
    );
    assert_eq!(
        calls[3..],
        [SaveCall::RollbackHotkey, SaveCall::RollbackAutostart, SaveCall::RestoreConfig]
    );
    let (result, calls) = save(false, &[(SaveCall::CommitHotkey, 0)]);
    assert_eq!(
        result.unwrap_err().message(),
        "保存後のホットキー変更を確定できませんでした: CommitHotkey failed"
    );
    assert_eq!(calls[3..], [SaveCall::RollbackHotkey, SaveCall::RestoreConfig]);
}

#[test]
fn what_cannot_be_taken_back_is_tried_again_and_reported() {
    let (result, calls) = save(
        true,
        &[
            (SaveCall::SaveConfig, 0),
            (SaveCall::RollbackHotkey, 0),
            (SaveCall::RollbackAutostart, 0),
            (SaveCall::RestoreConfig, 0),
        ],
    );
    assert_eq!(
        result.unwrap_err().message(),
        "設定を保存できませんでした: SaveConfig failed\nホットキー登録の復元にも失敗しました: RollbackHotkey failed\nWindows自動起動登録の復元にも失敗しました: RollbackAutostart failed\n設定ファイルの復元にも失敗しました: RestoreConfig failed"
    );
    assert_eq!(calls.len(), 8);
    assert_eq!(calls[6..], [SaveCall::RollbackAutostart, SaveCall::RollbackHotkey]);
    let report = SaveReport {
        failure: SaveFailure::NotCommitted,
        detail: "A".to_owned(),
        hotkey: None,
        autostart: None,
        config: Some("B".to_owned()),
    };
    assert_eq!(
        report.message(),
        "保存後のホットキー変更を確定できませんでした: A\n設定ファイルの復元にも失敗しました: B"
    );
}
