//! The registration with Windows, on a registry and a file system in memory.

use std::cell::RefCell;
use std::rc::Rc;
use stream_painter::autostart::{
    decode_registry_string, quote_windows_argument, registration_value, registry_status,
    registry_string, restore_value, validate_run_command_length, Autostart, AutostartError,
    CommandFindings, CommandTooLong, DecodeError, PrepareStep, PreparedChange, QuoteError,
    ReadStep, RegistrationError, RegistrationProblem, RegistrationStatus, RegistryError,
    RegistryOperation, RegistryValue, StoreCall, ValueReader, ERROR_FILE_NOT_FOUND,
    ERROR_MORE_DATA, ERROR_SUCCESS, MAX_RUN_COMMAND_UNITS, MAX_RUN_VALUE_BYTES, REG_SZ,
};

fn units(text: &str) -> Vec<u16> {
    text.encode_utf16().collect()
}

fn text_of(units: &[u16]) -> String {
    String::from_utf16_lossy(units)
}

/// Splits a command line as Windows does: the program is what stands between the first two
/// quotation marks, or up to the first space, and the arguments follow.
fn parse_windows_command_line(command: &[u16]) -> Vec<String> {
    let command = text_of(command);
    let (program, rest) = match command.strip_prefix('"') {
        Some(quoted) => quoted.split_once('"').unwrap_or((quoted, "")),
        None => command.split_once(' ').unwrap_or((command.as_str(), "")),
    };
    let mut arguments = vec![program.to_owned()];
    arguments.extend(rest.split(' ').filter(|part| !part.is_empty()).map(str::to_owned));
    arguments
}

#[derive(Default)]
struct MemoryState {
    value: Option<RegistryValue>,
    writes: usize,
    deletes: usize,
    fail_next_write_after_change: bool,
    files: Vec<String>,
}

/// A machine with one registry value and some files.
#[derive(Clone, Default)]
struct Machine(Rc<RefCell<MemoryState>>);

impl Machine {
    fn create(&self, name: &str) -> String {
        let path = format!("C:\\test files\\{name}");
        self.0.borrow_mut().files.push(path.clone());
        path
    }

    fn remove(&self, path: &str) {
        self.0.borrow_mut().files.retain(|file| file != path);
    }

    fn is_file(&self, path: &str) -> bool {
        self.0.borrow().files.iter().any(|file| file == path)
    }

    fn set(&self, value: RegistryValue) {
        self.0.borrow_mut().value = Some(value);
    }

    fn value(&self) -> Option<RegistryValue> {
        self.0.borrow().value.clone()
    }

    fn call(&self, call: &StoreCall) -> Result<(), String> {
        let mut state = self.0.borrow_mut();
        match call {
            StoreCall::Write(value) => {
                state.value = Some(value.clone());
                state.writes += 1;
                if std::mem::take(&mut state.fail_next_write_after_change) {
                    return Err("injected write failure".to_owned());
                }
            }
            StoreCall::Delete => {
                state.value = None;
                state.deletes += 1;
            }
        }
        Ok(())
    }

    fn findings(&self, autostart: &Autostart) -> CommandFindings {
        let value = self.value();
        let command = autostart.registered_command(value.as_ref());
        let arguments = command.map(|command| parse_windows_command_line(&command));
        let target = arguments.as_ref().and_then(|arguments| arguments.first().cloned());
        CommandFindings {
            target_is_file: target.as_ref().is_some_and(|target| self.is_file(target)),
            target_is_current: target.as_deref() == Some(autostart.name.as_str()),
            arguments: arguments
                .map(|arguments| arguments.iter().map(|argument| units(argument)).collect()),
        }
    }

    fn autostart(&self, executable: &str) -> Autostart {
        Autostart::new(units(executable), executable.to_owned())
    }

    fn inspect(&self, autostart: &Autostart) -> RegistrationStatus {
        let findings = self.findings(autostart);
        match autostart.inspect(Ok(self.value()), &findings) {
            Ok(status) => status,
            Err(error) => panic!("{}", error.message()),
        }
    }

    fn prepare(&self, autostart: &Autostart, enabled: bool) -> Result<PreparedChange, AutostartError> {
        let findings = self.findings(autostart);
        let mut step = autostart.prepare(
            enabled,
            Ok(self.value()),
            &findings,
            self.is_file(&autostart.name),
        );
        loop {
            step = match step {
                PrepareStep::Done(result) => return result,
                PrepareStep::Apply(application) => {
                    let answer = self.call(&application.call);
                    application.answered(answer)
                }
                PrepareStep::Restore(restoration) => {
                    let answer = self.call(&restoration.call);
                    PrepareStep::Done(Err(restoration.answered(answer)))
                }
            };
        }
    }

    fn switch(&self, autostart: &Autostart, enabled: bool) {
        match self.prepare(autostart, enabled) {
            Ok(mut change) => {
                change.commit();
                self.drop_change(change);
            }
            Err(error) => panic!("{}", error.message()),
        }
    }

    /// What happens when a change goes out of scope.
    fn drop_change(&self, change: PreparedChange) {
        if let Some(call) = change.abandon() {
            let _ = self.call(&call);
        }
    }
}

#[test]
fn quoting_round_trips_as_exactly_one_windows_argument() {
    let paths = [
        r"C:\Program Files\StreamPainter\stream-painter.exe",
        r"C:\配信 ツール\StreamPainter.exe",
        r"C:\portable\ends-with-backslash\",
    ];
    for path in paths {
        let quoted = quote_windows_argument(&units(path)).unwrap();
        assert_eq!(parse_windows_command_line(&quoted), vec![path.to_owned()]);
    }
    assert!(quote_windows_argument(&units("C:\\portable\\quoted\"name.exe")).is_err());
}

#[test]
fn absent_registry_value_is_default_off() {
    let machine = Machine::default();
    let executable = machine.create("stream-painter.exe");
    let autostart = machine.autostart(&executable);
    assert_eq!(machine.inspect(&autostart), RegistrationStatus::Disabled);
}

#[test]
fn enable_and_disable_are_idempotent_and_never_add_arguments() {
    let machine = Machine::default();
    let executable = machine.create("stream painter.exe");
    let autostart = machine.autostart(&executable);

    machine.switch(&autostart, true);
    assert_eq!(machine.inspect(&autostart), RegistrationStatus::Enabled);
    assert_eq!(machine.0.borrow().writes, 1);
    let registered = machine.value().unwrap();
    assert_eq!(registered.kind, REG_SZ);
    assert!(registered.data.ends_with(&[0, 0]));
    let command = decode_registry_string(&registered).unwrap();
    assert_eq!(parse_windows_command_line(&command), vec![executable]);

    machine.switch(&autostart, true);
    assert_eq!(machine.0.borrow().writes, 1);
    machine.switch(&autostart, false);
    assert_eq!(machine.0.borrow().deletes, 1);
    machine.switch(&autostart, false);
    assert_eq!(machine.0.borrow().deletes, 1);
    assert_eq!(machine.inspect(&autostart), RegistrationStatus::Disabled);
}

#[test]
fn moved_or_deleted_portable_executable_is_detected_and_repaired() {
    let machine = Machine::default();
    let current = machine.create("new stream-painter.exe");
    let previous = machine.create("old stream-painter.exe");
    machine.set(
        registration_value(&units(&previous), true, &previous)
            .expect("old executable should be registerable"),
    );
    let autostart = machine.autostart(&current);

    assert_eq!(
        machine.inspect(&autostart),
        RegistrationStatus::NeedsRepair(RegistrationProblem::DifferentExecutable)
    );
    machine.remove(&previous);
    assert_eq!(
        machine.inspect(&autostart),
        RegistrationStatus::NeedsRepair(RegistrationProblem::MissingExecutable)
    );
    machine.switch(&autostart, true);
    assert_eq!(machine.inspect(&autostart), RegistrationStatus::Enabled);
    let command = decode_registry_string(&machine.value().unwrap()).unwrap();
    assert_eq!(parse_windows_command_line(&command), vec![current]);
}

#[test]
fn settings_or_detect_arguments_require_repair_and_are_removed() {
    for argument in ["--settings", "--detect"] {
        let machine = Machine::default();
        let executable = machine.create("stream-painter.exe");
        let mut command = quote_windows_argument(&units(&executable)).unwrap();
        command.extend(units(&format!(" {argument}")));
        machine.set(registry_string(&command));
        let autostart = machine.autostart(&executable);

        assert_eq!(
            machine.inspect(&autostart),
            RegistrationStatus::NeedsRepair(RegistrationProblem::UnexpectedArguments)
        );
        machine.switch(&autostart, true);
        let command = decode_registry_string(&machine.value().unwrap()).unwrap();
        assert_eq!(parse_windows_command_line(&command), vec![executable.clone()]);
    }
}

#[test]
fn malformed_registration_stays_checked_until_repaired_or_disabled() {
    let machine = Machine::default();
    let executable = machine.create("stream-painter.exe");
    machine.set(RegistryValue { kind: 2, data: vec![1, 2, 3, 4] });
    let autostart = machine.autostart(&executable);

    let status = machine.inspect(&autostart);
    assert_eq!(
        status,
        RegistrationStatus::NeedsRepair(RegistrationProblem::UnsupportedValueType)
    );
    assert!(status.is_registered());
    machine.switch(&autostart, false);
    assert_eq!(machine.inspect(&autostart), RegistrationStatus::Disabled);
}

#[test]
fn run_command_over_260_utf16_units_is_rejected_or_marked_for_repair() {
    let machine = Machine::default();
    let executable = machine.create("stream-painter.exe");
    let oversized = units(&"a".repeat(MAX_RUN_COMMAND_UNITS + 1));
    machine.set(registry_string(&oversized));
    let autostart = machine.autostart(&executable);

    assert_eq!(
        machine.inspect(&autostart),
        RegistrationStatus::NeedsRepair(RegistrationProblem::CommandTooLong)
    );
    assert!(validate_run_command_length(&oversized).is_err());
    assert!(validate_run_command_length(&units(&"a".repeat(MAX_RUN_COMMAND_UNITS))).is_ok());
}

#[test]
fn rollback_restores_the_exact_previous_registry_value() {
    let machine = Machine::default();
    let executable = machine.create("stream-painter.exe");
    let original = RegistryValue { kind: 2, data: vec![1, 2, 3, 4] };
    machine.set(original.clone());
    let autostart = machine.autostart(&executable);

    let mut prepared = machine.prepare(&autostart, true).ok().unwrap();
    assert_ne!(machine.value(), Some(original.clone()));
    let answer = match prepared.restore() {
        Some(call) => machine.call(&call),
        None => Ok(()),
    };
    assert!(prepared.rollback(answer).is_ok());
    assert_eq!(machine.value(), Some(original.clone()));
    machine.drop_change(prepared);
    assert_eq!(machine.value(), Some(original));
}

#[test]
fn failed_registry_write_restores_the_exact_previous_value() {
    let machine = Machine::default();
    let executable = machine.create("stream-painter.exe");
    let original = RegistryValue { kind: 2, data: vec![5, 6, 7, 8] };
    machine.set(original.clone());
    machine.0.borrow_mut().fail_next_write_after_change = true;
    let autostart = machine.autostart(&executable);

    let error = machine
        .prepare(&autostart, true)
        .err()
        .expect("injected registry failure must be returned");
    assert!(error.message().contains("変更できませんでした"));
    assert_eq!(machine.value(), Some(original));
}

#[test]
fn dropping_an_uncommitted_change_restores_the_previous_state() {
    let machine = Machine::default();
    let executable = machine.create("stream-painter.exe");
    let autostart = machine.autostart(&executable);
    {
        let prepared = machine.prepare(&autostart, true).ok().unwrap();
        assert!(machine.value().is_some());
        machine.drop_change(prepared);
    }
    assert!(machine.value().is_none());
}

#[test]
fn a_deleted_current_executable_cannot_create_a_broken_registration() {
    let machine = Machine::default();
    let autostart = machine.autostart("C:\\test files\\deleted.exe");
    let error = machine
        .prepare(&autostart, true)
        .err()
        .expect("deleted executable must be rejected");
    assert!(error.message().contains("見つかりません"));
    assert!(machine.value().is_none());

    machine.set(registry_string(&units(r#""C:\deleted\stream-painter.exe""#)));
    machine.switch(&autostart, false);
    assert!(machine.value().is_none());
}

#[test]
fn a_path_is_put_between_quotation_marks() {
    assert_eq!(text_of(&quote_windows_argument(&units("C:\\a b\\")).unwrap()), "\"C:\\a b\\\"");
    assert_eq!(quote_windows_argument(&[]), Err(QuoteError::Empty));
    assert_eq!(quote_windows_argument(&[65, 0]), Err(QuoteError::ContainsNul));
    assert_eq!(quote_windows_argument(&units("a\"b")), Err(QuoteError::ContainsQuote));
    assert_eq!(QuoteError::Empty.message(), "自動起動するexeのパスが空です");
    assert_eq!(
        QuoteError::ContainsNul.message(),
        "自動起動するexeのパスにNUL文字が含まれています"
    );
    assert_eq!(
        QuoteError::ContainsQuote.message(),
        "自動起動するexeのパスに使用できないquoteが含まれています"
    );
}

#[test]
fn stored_strings_are_read_back() {
    let stored = registry_string(&units("aé配"));
    assert_eq!(stored.kind, REG_SZ);
    assert_eq!(stored.data, vec![0x61, 0, 0xE9, 0, 0x4D, 0x91, 0, 0]);
    assert_eq!(decode_registry_string(&stored), Ok(units("aé配")));
    let decode = |kind, data: &[u8]| {
        decode_registry_string(&RegistryValue { kind, data: data.to_vec() })
    };
    assert_eq!(decode(2, &[65, 0]), Err(DecodeError::NotAString));
    assert_eq!(decode(1, &[65, 0, 0]), Err(DecodeError::OddLength));
    assert_eq!(decode(1, &[]), Err(DecodeError::EmptyOrInnerNul));
    assert_eq!(decode(1, &[65, 0, 0, 0, 66, 0]), Err(DecodeError::EmptyOrInnerNul));
    assert_eq!(decode(1, &[65, 0]), Ok(vec![65]));
    assert_eq!(DecodeError::NotAString.message(), "REG_SZではありません");
    assert_eq!(DecodeError::OddLength.message(), "UTF-16のbyte数が不正です");
    assert_eq!(
        DecodeError::EmptyOrInnerNul.message(),
        "REG_SZの内容が空または途中にNULを含んでいます"
    );
}

#[test]
fn registration_errors_say_what_is_wrong() {
    let missing = registration_value(&units("C:\\a.exe"), false, &"C:\\a.exe".to_owned());
    assert_eq!(
        missing.err().unwrap().message(),
        "現在のStreamPainter実行ファイルが見つかりません: C:\\a.exe"
    );
    let long = "a".repeat(300);
    let error = registration_value(&units(&long), true, &long).err().unwrap();
    assert!(matches!(error, RegistrationError::TooLong(CommandTooLong { units: 302 })));
    assert_eq!(
        error.message(),
        "Windows Runキーのコマンド上限を超えています (302 / 260文字)"
    );
    assert!(matches!(
        registration_value(&units("a\"b"), true, &"a\"b".to_owned()),
        Err(RegistrationError::Quote(QuoteError::ContainsQuote))
    ));
}

#[test]
fn problems_are_described() {
    let machine = Machine::default();
    let executable = machine.create("stream-painter.exe");
    let autostart = machine.autostart(&executable);
    machine.set(RegistryValue { kind: 1, data: vec![1] });
    assert_eq!(
        machine.inspect(&autostart),
        RegistrationStatus::NeedsRepair(RegistrationProblem::MalformedCommand)
    );
    assert_eq!(
        RegistrationProblem::MissingExecutable.description(),
        "登録先のexeが見つかりません"
    );
    assert_eq!(
        RegistrationProblem::UnexpectedArguments.description(),
        "通常起動以外の引数が含まれています"
    );
    let failed = autostart.inspect(Err("失敗".to_owned()), &machine.findings(&autostart));
    assert_eq!(failed.err().unwrap().message(), "失敗");
}

#[test]
fn a_change_that_cannot_be_taken_back_is_reported() {
    let machine = Machine::default();
    let executable = machine.create("stream-painter.exe");
    let autostart = machine.autostart(&executable);
    let step = autostart.prepare(true, Ok(None), &machine.findings(&autostart), true);
    let PrepareStep::Apply(application) = step else { panic!("no change was made") };
    let PrepareStep::Restore(restoration) = application.answered(Err("A".to_owned())) else {
        panic!("the failure was not answered")
    };
    assert!(matches!(restoration.call, StoreCall::Delete));
    assert_eq!(
        restoration.answered(Err("B".to_owned())).message(),
        "Windows自動起動を変更できませんでした: A\n変更前の登録を復元することにも失敗しました: B"
    );
    assert!(matches!(restore_value(&None), StoreCall::Delete));
}

#[test]
fn a_failed_rollback_leaves_the_change_open() {
    let mut change = PreparedChange { before: None, changed: true, finished: false };
    assert!(change.rollback(Err("no".to_owned())).is_err());
    assert!(!change.finished);
    assert!(matches!(change.abandon(), Some(StoreCall::Delete)));
    change.commit();
    assert!(change.abandon().is_none());
}

#[test]
fn registry_failures_carry_their_code() {
    assert_eq!(registry_status(RegistryOperation::OpenKey, ERROR_SUCCESS, false), Ok(true));
    assert_eq!(registry_status(RegistryOperation::OpenKey, ERROR_FILE_NOT_FOUND, true), Ok(false));
    let error =
        registry_status(RegistryOperation::DeleteValue, ERROR_FILE_NOT_FOUND, false).err().unwrap();
    assert_eq!(error.message(), "Windows自動起動値の削除に失敗しました (Win32 error 2)");
    assert_eq!(
        registry_status(RegistryOperation::CreateKey, 5, true).err().unwrap().message(),
        "Windows自動起動キーの作成に失敗しました (Win32 error 5)"
    );
    assert_eq!(
        RegistryError::TooLarge { bytes: 65537 }.message(),
        "Windows自動起動値が大きすぎます (65537 bytes)"
    );
}

#[test]
fn a_value_is_read_in_two_queries() {
    let mut reader = ValueReader::start();
    assert!(matches!(
        reader.size_answer(ERROR_FILE_NOT_FOUND, 0, 0),
        ReadStep::Done(Ok(None))
    ));
    assert!(matches!(
        reader.size_answer(ERROR_SUCCESS, 1, MAX_RUN_VALUE_BYTES + 1),
        ReadStep::Done(Err(RegistryError::TooLarge { .. }))
    ));
    assert!(matches!(
        reader.size_answer(5, 0, 0),
        ReadStep::Done(Err(RegistryError::Failed { operation: RegistryOperation::QuerySize, code: 5 }))
    ));
    assert!(matches!(
        reader.size_answer(ERROR_MORE_DATA, 1, 4),
        ReadStep::Fetch { byte_len: 4 }
    ));
    match reader.data_answer(ERROR_SUCCESS, 1, vec![65, 0, 0, 0, 9], 4) {
        ReadStep::Done(Ok(Some(value))) => {
            assert_eq!(value, RegistryValue { kind: 1, data: vec![65, 0, 0, 0] });
        }
        other => panic!("{other:?}"),
    }
    match reader.size_answer(ERROR_SUCCESS, 3, 0) {
        ReadStep::Done(Ok(Some(value))) => {
            assert_eq!(value, RegistryValue { kind: 3, data: vec![] });
        }
        other => panic!("{other:?}"),
    }
}

#[test]
fn a_value_that_keeps_growing_is_given_up() {
    let mut reader = ValueReader::start();
    assert!(matches!(reader.data_answer(ERROR_MORE_DATA, 1, vec![], 0), ReadStep::QuerySize));
    assert!(matches!(reader.data_answer(ERROR_MORE_DATA, 1, vec![], 0), ReadStep::QuerySize));
    match reader.data_answer(ERROR_MORE_DATA, 1, vec![], 0) {
        ReadStep::Done(Err(error)) => assert_eq!(
            error.message(),
            "Windows自動起動値が読み取り中に繰り返し変更されました"
        ),
        other => panic!("{other:?}"),
    }
    let mut again = ValueReader::start();
    assert!(matches!(
        again.data_answer(ERROR_FILE_NOT_FOUND, 1, vec![], 0),
        ReadStep::Done(Ok(None))
    ));
    assert!(matches!(
        again.data_answer(5, 1, vec![], 0),
        ReadStep::Done(Err(RegistryError::Failed { operation: RegistryOperation::ReadValue, .. }))
    ));
}
