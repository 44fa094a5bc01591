//! Scenarios of the hotkey transaction, driven against an in-memory system.

use std::collections::{HashMap, HashSet};

use stream_painter::hotkey::{
    with_change_request, ChangeCommand, ChangeError, ChangeSlot, HotkeyChord, HotkeyConfig,
    HotkeyError, HotkeyManager, HotkeyStep, ProbeRegistration, ProbeStep, RegistrationCall,
    SystemRegistrationApi, MOD_NOREPEAT, PRIMARY_ID, SECONDARY_ID, SETTINGS_PROBE_ID, WM_APP,
    WM_HOTKEY_CHANGE,
};

const HOTKEY_MOD_CTRL: u32 = 2;

#[derive(Default)]
struct FakeApi {
    registered: HashMap<i32, HotkeyChord>,
    rejected: HashSet<HotkeyChord>,
    fail_unregister: HashSet<i32>,
}

impl FakeApi {
    fn call(&mut self, call: RegistrationCall) -> Result<(), String> {
        match call {
            RegistrationCall::Register { id, chord } => {
                if self.rejected.contains(&chord) {
                    return Err("injected registration conflict".to_owned());
                }
                if self.registered.contains_key(&id) {
                    return Err("id already registered".to_owned());
                }
                self.registered.insert(id, chord);
                Ok(())
            }
            RegistrationCall::Unregister { id } => {
                if self.fail_unregister.contains(&id) {
                    return Err("injected unregister failure".to_owned());
                }
                self.registered
                    .remove(&id)
                    .map(|_| ())
                    .ok_or_else(|| "id is not registered".to_owned())
            }
        }
    }
}

struct Harness {
    manager: HotkeyManager,
    api: FakeApi,
}

impl Harness {
    fn new() -> Self {
        Self {
            manager: HotkeyManager::new(),
            api: FakeApi::default(),
        }
    }

    fn finish(&mut self, mut step: HotkeyStep) -> Result<(), HotkeyError> {
        loop {
            match step {
                HotkeyStep::Done(result) => return result,
                HotkeyStep::Call(call) => {
                    let answer = self.api.call(call);
                    step = self.manager.resume(answer);
                }
            }
        }
    }

    fn register_initial(&mut self, config: &HotkeyConfig) -> Result<(), HotkeyError> {
        let step = self.manager.register_initial(config);
        self.finish(step)
    }

    fn prepare(&mut self, config: &HotkeyConfig) -> Result<(), HotkeyError> {
        let step = self.manager.prepare(config);
        self.finish(step)
    }

    fn rollback(&mut self) -> Result<(), HotkeyError> {
        let step = self.manager.rollback();
        self.finish(step)
    }
}

fn config(modifiers: u32, virtual_key: u32, display_name: &str) -> HotkeyConfig {
    HotkeyConfig {
        chord: Ok(Some(HotkeyChord {
            modifiers,
            virtual_key,
        })),
        display_name: display_name.to_owned(),
    }
}

fn f9() -> HotkeyConfig {
    config(0, 0x78, "F9")
}

fn ctrl_a() -> HotkeyConfig {
    config(HOTKEY_MOD_CTRL, u32::from(b'A'), "Ctrl+A")
}

fn ctrl_b() -> HotkeyConfig {
    config(HOTKEY_MOD_CTRL, u32::from(b'B'), "Ctrl+B")
}

fn disabled() -> HotkeyConfig {
    HotkeyConfig {
        chord: Ok(None),
        display_name: "無効".to_owned(),
    }
}

fn chord_of(config: &HotkeyConfig) -> HotkeyChord {
    config.chord.clone().unwrap().unwrap()
}

#[test]
fn initial_registration_failure_keeps_tray_fallback() {
    let mut harness = Harness::new();
    harness.api.rejected.insert(chord_of(&f9()));

    assert!(harness.register_initial(&f9()).is_err());
    assert_eq!(harness.manager.active_display_name(), None);
    assert!(harness.api.registered.is_empty());
}

#[test]
fn conflicting_reregistration_preserves_old_hotkey() {
    let mut harness = Harness::new();
    harness.register_initial(&f9()).unwrap();
    harness.api.rejected.insert(chord_of(&ctrl_a()));

    let error = harness.prepare(&ctrl_a()).unwrap_err();
    assert_eq!(
        error.message(),
        "ホットキー Ctrl+A を登録できません。他のアプリやWindowsで使用されていないか確認してください: injected registration conflict"
    );
    assert_eq!(harness.manager.active_display_name(), Some("F9"));
    assert!(harness.manager.handles_message(PRIMARY_ID));
    assert_eq!(harness.api.registered.len(), 1);
}

#[test]
fn dual_unregister_failure_tracks_the_candidate_and_blocks_id_reuse() {
    let mut harness = Harness::new();
    harness.register_initial(&f9()).unwrap();
    harness
        .api
        .fail_unregister
        .extend([PRIMARY_ID, SECONDARY_ID]);

    let error = harness.prepare(&ctrl_a()).unwrap_err().message();
    assert!(error.contains("後始末にも失敗"));
    assert!(error.contains("再起動"));
    assert_eq!(harness.manager.active_display_name(), Some("F9"));
    assert!(harness.manager.handles_message(PRIMARY_ID));
    assert!(!harness.manager.handles_message(SECONDARY_ID));
    assert_eq!(
        harness
            .manager
            .stray
            .as_ref()
            .map(|stray| stray.display_name.as_str()),
        Some("Ctrl+A")
    );
    assert_eq!(harness.api.registered.len(), 2);

    harness.api.fail_unregister.clear();
    let retry = harness.prepare(&ctrl_b()).unwrap_err().message();
    assert!(retry.contains("安全に再設定できません"));
    assert_eq!(harness.api.registered.len(), 2);

    // At shutdown both registrations are given up, the stray one first.
    for call in harness.manager.release_all() {
        harness.api.call(call).unwrap();
    }
    assert!(harness.api.registered.is_empty());
}

#[test]
fn save_failure_rolls_registration_back_to_old_hotkey() {
    let mut harness = Harness::new();
    harness.register_initial(&f9()).unwrap();
    harness.prepare(&ctrl_a()).unwrap();
    assert_eq!(harness.manager.active_display_name(), Some("Ctrl+A"));

    harness.rollback().unwrap();
    assert_eq!(harness.manager.active_display_name(), Some("F9"));
    assert!(harness.manager.handles_message(PRIMARY_ID));
    assert_eq!(harness.api.registered.len(), 1);
}

#[test]
fn rollback_restore_failure_keeps_the_new_hotkey_active() {
    let mut harness = Harness::new();
    harness.register_initial(&f9()).unwrap();
    harness.prepare(&ctrl_a()).unwrap();
    harness.api.rejected.insert(chord_of(&f9()));

    assert!(harness.rollback().is_err());
    assert_eq!(harness.manager.active_display_name(), Some("Ctrl+A"));
    assert!(harness.manager.handles_message(SECONDARY_ID));
    assert_eq!(harness.api.registered.len(), 1);
}

#[test]
fn rollback_dual_unregister_failure_tracks_the_old_registration() {
    let mut harness = Harness::new();
    harness.register_initial(&f9()).unwrap();
    harness.prepare(&ctrl_a()).unwrap();
    harness
        .api
        .fail_unregister
        .extend([PRIMARY_ID, SECONDARY_ID]);

    let error = harness.rollback().unwrap_err().message();
    assert!(error.contains("rollback中"));
    assert!(error.contains("再起動"));
    assert_eq!(harness.manager.active_display_name(), Some("Ctrl+A"));
    assert!(!harness.manager.handles_message(PRIMARY_ID));
    assert!(harness.manager.handles_message(SECONDARY_ID));
    assert_eq!(
        harness
            .manager
            .stray
            .as_ref()
            .map(|stray| stray.display_name.as_str()),
        Some("F9")
    );
    assert_eq!(harness.api.registered.len(), 2);

    harness.api.fail_unregister.clear();
    assert!(harness.prepare(&ctrl_b()).is_err());
    assert_eq!(harness.api.registered.len(), 2);
}

#[test]
fn disabling_can_be_rolled_back_or_committed() {
    let mut harness = Harness::new();
    harness.register_initial(&f9()).unwrap();
    harness.prepare(&disabled()).unwrap();
    assert_eq!(harness.manager.active_display_name(), None);
    harness.rollback().unwrap();
    assert_eq!(harness.manager.active_display_name(), Some("F9"));

    harness.prepare(&disabled()).unwrap();
    harness.manager.commit().unwrap();
    assert_eq!(harness.manager.active_display_name(), None);
    assert!(harness.api.registered.is_empty());
}

#[test]
fn committed_change_uses_alternate_message_id() {
    let mut harness = Harness::new();
    harness.register_initial(&f9()).unwrap();
    harness.prepare(&ctrl_a()).unwrap();
    harness.manager.commit().unwrap();

    assert!(!harness.manager.handles_message(PRIMARY_ID));
    assert!(harness.manager.handles_message(SECONDARY_ID));
    assert_eq!(
        harness.api.registered.get(&SECONDARY_ID),
        Some(&HotkeyChord {
            modifiers: HOTKEY_MOD_CTRL,
            virtual_key: u32::from(b'A'),
        })
    );
}

#[test]
fn one_failed_release_cancels_the_change() {
    let mut harness = Harness::new();
    harness.register_initial(&f9()).unwrap();
    harness.api.fail_unregister.insert(PRIMARY_ID);

    let error = harness.prepare(&ctrl_a()).unwrap_err();
    assert_eq!(
        error.message(),
        "旧ホットキー F9 を安全に解除できなかったため、変更を中止しました: injected unregister failure"
    );
    assert!(harness.manager.stray.is_none());
    assert_eq!(harness.api.registered.len(), 1);
    assert!(harness.prepare(&disabled()).is_err());
    assert_eq!(harness.manager.active_display_name(), Some("F9"));
}

#[test]
fn rollback_that_cannot_release_the_candidate_keeps_it() {
    let mut harness = Harness::new();
    harness.register_initial(&f9()).unwrap();
    harness.prepare(&ctrl_a()).unwrap();
    harness.api.fail_unregister.insert(SECONDARY_ID);

    let error = harness.rollback().unwrap_err();
    assert_eq!(
        error.message(),
        "変更後のホットキー Ctrl+A を解除できず、現在もこのキーが有効です: injected unregister failure"
    );
    assert_eq!(harness.manager.active_display_name(), Some("Ctrl+A"));
    assert_eq!(harness.api.registered.len(), 1);
}

#[test]
fn rollback_of_the_first_key_and_of_disabling_report_their_failures() {
    let mut harness = Harness::new();
    harness.prepare(&f9()).unwrap();
    harness.api.fail_unregister.insert(PRIMARY_ID);
    assert_eq!(
        harness.rollback().unwrap_err().message(),
        "変更後のホットキー F9 を解除できませんでした。現在もこのキーが有効です: injected unregister failure"
    );
    assert_eq!(harness.manager.active_display_name(), Some("F9"));

    harness.api.fail_unregister.clear();
    harness.prepare(&disabled()).unwrap();
    harness.api.rejected.insert(chord_of(&f9()));
    assert_eq!(
        harness.rollback().unwrap_err().message(),
        "保存前のホットキー F9 を復元できませんでした。トレイから切り替えてください: injected registration conflict"
    );
    assert_eq!(harness.manager.active_display_name(), None);
}

#[test]
fn transactions_are_neither_nested_nor_empty() {
    let mut harness = Harness::new();
    assert!(matches!(
        harness.manager.commit(),
        Err(HotkeyError::NothingToCommit)
    ));
    assert!(matches!(
        harness.rollback(),
        Err(HotkeyError::NothingToRollBack)
    ));
    harness.prepare(&f9()).unwrap();
    assert!(matches!(
        harness.prepare(&ctrl_a()),
        Err(HotkeyError::ChangeInProgress)
    ));
    harness.manager.commit().unwrap();
    // The same chord again is no change, and can be taken back without a call.
    harness.prepare(&f9()).unwrap();
    harness.rollback().unwrap();
    assert_eq!(harness.api.registered.len(), 1);
    let invalid = HotkeyConfig {
        chord: Err("unknown key".to_owned()),
        display_name: String::new(),
    };
    assert_eq!(
        harness.prepare(&invalid).unwrap_err().message(),
        "unknown key"
    );
}

#[test]
fn change_requests_are_answered_once() {
    let mut slot = ChangeSlot::new();
    slot.post(ChangeCommand::Commit).unwrap();
    assert!(matches!(
        slot.post(ChangeCommand::Rollback),
        Err(ChangeError::OtherChange)
    ));
    with_change_request(&mut slot, |mut request| {
        request.handled = true;
        request
    });
    slot.collect().unwrap();
    assert!(matches!(slot.collect(), Err(ChangeError::AnswerMissing)));

    slot.post(ChangeCommand::Prepare(f9())).unwrap();
    assert_eq!(
        slot.collect().unwrap_err().message(),
        "実行中のStreamPainterへホットキー変更を通知できませんでした"
    );

    slot.post(ChangeCommand::Rollback).unwrap();
    let mut request = slot.open().unwrap();
    assert!(slot.open().is_none());
    assert!(matches!(slot.collect(), Err(ChangeError::AnswerInUse)));
    request.handled = true;
    request.error = Some("failed".to_owned());
    slot.close(request);
    assert_eq!(slot.collect().unwrap_err().message(), "failed");

    // A message that announces nothing reaches no handler.
    with_change_request(&mut slot, |request| panic!("unexpected {request:?}"));
}

#[test]
fn a_probe_reserves_the_candidate_under_its_own_id() {
    assert_eq!(WM_HOTKEY_CHANGE, WM_APP + 3);
    assert_eq!(
        ProbeRegistration::acquire(&disabled()).unwrap(),
        ProbeStep::Ready(ProbeRegistration { registered: false })
    );
    let step = ProbeRegistration::acquire(&ctrl_a()).unwrap();
    let ProbeStep::Call(RegistrationCall::Register { id, chord }) = step else {
        panic!("expected a registration");
    };
    assert_eq!(id, SETTINGS_PROBE_ID);
    assert_eq!(
        SystemRegistrationApi.modifiers(chord),
        HOTKEY_MOD_CTRL | MOD_NOREPEAT
    );
    let probe = ProbeRegistration::answered(&ctrl_a(), Ok(())).unwrap();
    assert_eq!(
        probe.release(),
        Some(RegistrationCall::Unregister {
            id: SETTINGS_PROBE_ID
        })
    );
    let refused = ProbeRegistration::answered(&ctrl_a(), Err("in use".to_owned()));
    assert!(refused.unwrap_err().message().ends_with("in use"));
}
