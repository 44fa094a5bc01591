//! The per-user registration that starts StreamPainter with Windows.
//!
//! The registration is one value under the `Run` key. This module decides what that value means,
//! what has to be written, and how a change is taken back; reading and writing the registry,
//! splitting a command line and looking at files are left to the caller, whose findings come in
//! as plain values. Paths and commands are UTF-16 units, as Windows has them.

use vstd::prelude::*;

use crate::text;

verus! {

/// Longest value that is read at all.
pub const MAX_RUN_VALUE_BYTES: u32 = 65536;

/// Longest command that Windows accepts under the `Run` key.
pub const MAX_RUN_COMMAND_UNITS: usize = 260;

/// Registry type of a plain string.
pub const REG_SZ: u32 = 1;

pub const ERROR_SUCCESS: u32 = 0;

pub const ERROR_FILE_NOT_FOUND: u32 = 2;

pub const ERROR_MORE_DATA: u32 = 234;

/// The quotation mark as a UTF-16 unit.
pub const QUOTE: u16 = 0x22;

/// A registry value as it is stored.
#[derive(Debug, PartialEq, Eq)]
pub struct RegistryValue {
    pub kind: u32,
    pub data: Vec<u8>,
}

impl Clone for RegistryValue {
    fn clone(&self) -> (copy: Self)
        ensures
            copy.kind == self.kind,
            copy.data@ == self.data@,
    {
        let data = self.data.clone();
        assert(data@ =~= self.data@);
        RegistryValue { kind: self.kind, data }
    }
}

impl View for RegistryValue {
    type V = (u32, Seq<u8>);

    open spec fn view(&self) -> (u32, Seq<u8>) {
        (self.kind, self.data@)
    }
}

/// The content of the store: its value, or nothing.
pub open spec fn stored(value: Option<RegistryValue>) -> Option<(u32, Seq<u8>)> {
    match value {
        Some(value) => Some(value@),
        None => None,
    }
}

/// A result with its units as a mathematical sequence.
pub open spec fn units_of<E>(result: Result<Vec<u16>, E>) -> Result<Seq<u16>, E> {
    match result {
        Ok(units) => Ok(units@),
        Err(error) => Err(error),
    }
}

/// Each unit as two bytes, the low one first.
pub open spec fn le_bytes(units: Seq<u16>) -> Seq<u8> {
    Seq::new(
        2 * units.len(),
        |i: int|
            if i % 2 == 0 {
                (units[i / 2] % 256) as u8
            } else {
                (units[i / 2] / 256) as u8
            },
    )
}

/// The units that pairs of bytes stand for.
pub open spec fn le_units(bytes: Seq<u8>) -> Seq<u16> {
    Seq::new(bytes.len() / 2, |i: int| (bytes[2 * i] + 256 * bytes[2 * i + 1]) as u16)
}

/// `units` without the zeros at its end.
pub open spec fn without_trailing_nul(units: Seq<u16>) -> Seq<u16>
    decreases units.len(),
{
    if units.len() > 0 && units.last() == 0 {
        without_trailing_nul(units.drop_last())
    } else {
        units
    }
}

/// The command line that starts the program at `path` with no arguments.
pub open spec fn quoted(path: Seq<u16>) -> Seq<u16> {
    seq![QUOTE] + path + seq![QUOTE]
}

/// Why a path cannot become a command line.
#[derive(Clone, Copy, Debug, PartialEq, Eq, Structural)]
pub enum QuoteError {
    Empty,
    ContainsNul,
    ContainsQuote,
}

pub open spec fn quote_result(path: Seq<u16>) -> Result<Seq<u16>, QuoteError> {
    if path.len() == 0 {
        Err(QuoteError::Empty)
    } else if path.contains(0) {
        Err(QuoteError::ContainsNul)
    } else if path.contains(QUOTE) {
        Err(QuoteError::ContainsQuote)
    } else {
        Ok(quoted(path))
    }
}

fn contains_unit(units: &[u16], unit: u16) -> (found: bool)
    ensures
        found == units@.contains(unit),
{
    for i in 0..units.len()
        invariant
            forall|j: int| 0 <= j < i ==> units@[j] != unit,
    {
        if units[i] == unit {
            return true;
        }
    }
    false
}

/// Quotes the path of an executable as the first argument of a command line. Windows forbids
/// quotation marks in file names, so a path that holds one is refused and nothing needs escaping.
pub fn quote_windows_argument(argument: &[u16]) -> (result: Result<Vec<u16>, QuoteError>)
    ensures
        units_of(result) == quote_result(argument@),
{
    if argument.len() == 0 {
        return Err(QuoteError::Empty);
    }
    if contains_unit(argument, 0) {
        return Err(QuoteError::ContainsNul);
    }
    if contains_unit(argument, QUOTE) {
        return Err(QuoteError::ContainsQuote);
    }
    let mut command: Vec<u16> = Vec::new();
    command.push(QUOTE);
    for i in 0..argument.len()
        invariant
            command@ == seq![QUOTE] + argument@.take(i as int),
    {
        command.push(argument[i]);
        assert(seq![QUOTE] + argument@.take(i + 1) =~= (seq![QUOTE] + argument@.take(
            i as int,
        )).push(argument@[i as int]));
    }
    command.push(QUOTE);
    assert(argument@.take(argument@.len() as int) =~= argument@);
    assert(command@ =~= quoted(argument@));
    Ok(command)
}

/// The stored form of a string: its units and a terminating zero, as bytes.
pub fn registry_string(value: &[u16]) -> (stored: RegistryValue)
    ensures
        stored.kind == REG_SZ,
        stored.data@ == le_bytes(value@.push(0)),
{
    let mut data: Vec<u8> = Vec::new();
    for i in 0..value.len()
        invariant
            data@ == le_bytes(value@.take(i as int)),
    {
        let unit: u16 = value[i];
        data.push((unit % 256) as u8);
        data.push((unit / 256) as u8);
        assert(data@ =~= le_bytes(value@.take(i + 1)));
    }
    data.push(0);
    data.push(0);
    assert(value@.take(value@.len() as int) =~= value@);
    assert(data@ =~= le_bytes(value@.push(0)));
    RegistryValue { kind: REG_SZ, data }
}

/// Why a stored value is no command.
#[derive(Clone, Copy, Debug, PartialEq, Eq, Structural)]
pub enum DecodeError {
    NotAString,
    OddLength,
    EmptyOrInnerNul,
}

pub open spec fn decode_result(value: (u32, Seq<u8>)) -> Result<Seq<u16>, DecodeError> {
    let units = without_trailing_nul(le_units(value.1));
    if value.0 != REG_SZ {
        Err(DecodeError::NotAString)
    } else if value.1.len() % 2 != 0 {
        Err(DecodeError::OddLength)
    } else if units.len() == 0 || units.contains(0) {
        Err(DecodeError::EmptyOrInnerNul)
    } else {
        Ok(units)
    }
}

/// The string that a stored value holds.
pub fn decode_registry_string(value: &RegistryValue) -> (result: Result<Vec<u16>, DecodeError>)
    ensures
        units_of(result) == decode_result(value@),
{
    if value.kind != REG_SZ {
        return Err(DecodeError::NotAString);
    }
    if value.data.len() % 2 != 0 {
        return Err(DecodeError::OddLength);
    }
    let mut units: Vec<u16> = Vec::new();
    let count: usize = value.data.len() / 2;
    for i in 0..count
        invariant
            count == value.data@.len() / 2,
            units@ == le_units(value.data@).take(i as int),
    {
        assert(2 * i + 1 < value.data.len());
        let low: u16 = value.data[2 * i] as u16;
        let high: u16 = value.data[2 * i + 1] as u16;
        units.push(low + 256 * high);
        assert(units@ =~= le_units(value.data@).take(i + 1));
    }
    assert(units@ =~= le_units(value.data@));
    while units.len() > 0 && units[units.len() - 1] == 0
        invariant
            without_trailing_nul(units@) == without_trailing_nul(le_units(value.data@)),
        decreases units.len(),
    {
        units.pop();
    }
    if units.len() == 0 || contains_unit(&units, 0) {
        return Err(DecodeError::EmptyOrInnerNul);
    }
    Ok(units)
}

/// A command that is too long for the `Run` key.
#[derive(Clone, Copy, Debug, PartialEq, Eq, Structural)]
pub struct CommandTooLong {
    pub units: usize,
}

pub fn validate_run_command_length(command: &[u16]) -> (result: Result<(), CommandTooLong>)
    ensures
        result == if command@.len() > MAX_RUN_COMMAND_UNITS {
            Err::<(), CommandTooLong>(CommandTooLong { units: command@.len() as usize })
        } else {
            Ok(())
        },
{
    let units: usize = command.len();
    if units > MAX_RUN_COMMAND_UNITS {
        return Err(CommandTooLong { units });
    }
    Ok(())
}

/// What is wrong with a registration that exists.
#[derive(Clone, Copy, Debug, PartialEq, Eq, Structural)]
pub enum RegistrationProblem {
    UnsupportedValueType,
    MalformedCommand,
    CommandTooLong,
    UnexpectedArguments,
    MissingExecutable,
    DifferentExecutable,
}

impl RegistrationProblem {
    pub open spec fn text(self) -> Seq<char> {
        match self {
            RegistrationProblem::UnsupportedValueType => "登録値の形式が対応外です"@,
            RegistrationProblem::MalformedCommand => "登録コマンドを解析できません"@,
            RegistrationProblem::CommandTooLong => "登録コマンドがWindowsの260文字上限を超えています"@,
            RegistrationProblem::UnexpectedArguments => "通常起動以外の引数が含まれています"@,
            RegistrationProblem::MissingExecutable => "登録先のexeが見つかりません"@,
            RegistrationProblem::DifferentExecutable => "別の場所にあるexeが登録されています"@,
        }
    }

    pub fn description(self) -> (text: &'static str)
        ensures
            text@ == self.text(),
    {
        match self {
            RegistrationProblem::UnsupportedValueType => "登録値の形式が対応外です",
            RegistrationProblem::MalformedCommand => "登録コマンドを解析できません",
            RegistrationProblem::CommandTooLong => "登録コマンドがWindowsの260文字上限を超えています",
            RegistrationProblem::UnexpectedArguments => "通常起動以外の引数が含まれています",
            RegistrationProblem::MissingExecutable => "登録先のexeが見つかりません",
            RegistrationProblem::DifferentExecutable => "別の場所にあるexeが登録されています",
        }
    }
}

#[derive(Clone, Copy, Debug, PartialEq, Eq, Structural)]
pub enum RegistrationStatus {
    Disabled,
    Enabled,
    NeedsRepair(RegistrationProblem),
}

impl RegistrationStatus {
    /// Whether a value exists, which is what the check box shows.
    pub fn is_registered(self) -> (registered: bool)
        ensures
            registered == (self != RegistrationStatus::Disabled),
    {
        match self {
            RegistrationStatus::Disabled => false,
            _ => true,
        }
    }
}

/// What the system finds out about a registered command: its arguments (none where the command
/// line cannot be split), whether the first of them is a file, and whether that file is the
/// running executable.
#[derive(Debug)]
pub struct CommandFindings {
    pub arguments: Option<Vec<Vec<u16>>>,
    pub target_is_file: bool,
    pub target_is_current: bool,
}

/// The command whose findings [`Autostart::inspect_value`] needs: what the value holds, where
/// that is a command that Windows would run at all.
pub open spec fn command_of(value: Option<(u32, Seq<u8>)>) -> Option<Seq<u16>> {
    match value {
        Some(value) => match decode_result(value) {
            Ok(command) => if command.len() > MAX_RUN_COMMAND_UNITS {
                None
            } else {
                Some(command)
            },
            Err(_) => None,
        },
        None => None,
    }
}

/// What a stored value means.
pub open spec fn status_of(
    value: Option<(u32, Seq<u8>)>,
    findings: CommandFindings,
) -> RegistrationStatus {
    match value {
        None => RegistrationStatus::Disabled,
        Some(value) => match decode_result(value) {
            Err(DecodeError::NotAString) => RegistrationStatus::NeedsRepair(
                RegistrationProblem::UnsupportedValueType,
            ),
            Err(_) => RegistrationStatus::NeedsRepair(RegistrationProblem::MalformedCommand),
            Ok(command) => if command.len() > MAX_RUN_COMMAND_UNITS {
                RegistrationStatus::NeedsRepair(RegistrationProblem::CommandTooLong)
            } else if findings.arguments is None {
                RegistrationStatus::NeedsRepair(RegistrationProblem::MalformedCommand)
            } else if findings.arguments->0@.len() != 1 {
                RegistrationStatus::NeedsRepair(RegistrationProblem::UnexpectedArguments)
            } else if !findings.target_is_file {
                RegistrationStatus::NeedsRepair(RegistrationProblem::MissingExecutable)
            } else if !findings.target_is_current {
                RegistrationStatus::NeedsRepair(RegistrationProblem::DifferentExecutable)
            } else {
                RegistrationStatus::Enabled
            },
        },
    }
}

/// Why the executable cannot be registered.
#[derive(Debug)]
pub enum RegistrationError {
    ExecutableMissing { executable: String },
    Quote(QuoteError),
    TooLong(CommandTooLong),
}

pub open spec fn registration_result(
    executable: Seq<u16>,
    is_file: bool,
    name: String,
) -> Result<(u32, Seq<u8>), RegistrationError> {
    if !is_file {
        Err(RegistrationError::ExecutableMissing { executable: name })
    } else {
        match quote_result(executable) {
            Err(error) => Err(RegistrationError::Quote(error)),
            Ok(command) => if command.len() > MAX_RUN_COMMAND_UNITS {
                Err(RegistrationError::TooLong(CommandTooLong { units: command.len() as usize }))
            } else {
                Ok((REG_SZ, le_bytes(command.push(0))))
            },
        }
    }
}

/// A result with its registry value as a mathematical value.
pub open spec fn value_of<E>(result: Result<RegistryValue, E>) -> Result<(u32, Seq<u8>), E> {
    match result {
        Ok(value) => Ok(value@),
        Err(error) => Err(error),
    }
}

/// The value that registers `executable`, which `is_file` says to exist and `name` shows.
pub fn registration_value(executable: &[u16], is_file: bool, name: &String) -> (result: Result<
    RegistryValue,
    RegistrationError,
>)
    ensures
        value_of(result) == registration_result(executable@, is_file, *name),
{
    if !is_file {
        return Err(RegistrationError::ExecutableMissing { executable: name.clone() });
    }
    let command = match quote_windows_argument(executable) {
        Ok(command) => command,
        Err(error) => {
            return Err(RegistrationError::Quote(error));
        },
    };
    match validate_run_command_length(&command) {
        Ok(_) => Ok(registry_string(&command)),
        Err(error) => Err(RegistrationError::TooLong(error)),
    }
}

/// One change to the stored value.
#[derive(Debug)]
pub enum StoreCall {
    Write(RegistryValue),
    Delete,
}

impl StoreCall {
    /// What the store holds once the call has succeeded.
    pub open spec fn target(self) -> Option<(u32, Seq<u8>)> {
        match self {
            StoreCall::Write(value) => Some(value@),
            StoreCall::Delete => None,
        }
    }
}

/// The call that brings `value` back.
pub fn restore_value(value: &Option<RegistryValue>) -> (call: StoreCall)
    ensures
        call.target() == stored(*value),
{
    match value {
        Some(value) => StoreCall::Write(value.clone()),
        None => StoreCall::Delete,
    }
}

/// Why the registration could not be read or changed. `detail` is the system's own words.
#[derive(Debug)]
pub enum AutostartError {
    Read { detail: String },
    Registration(RegistrationError),
    NotApplied { detail: String, restore_failure: Option<String> },
}

/// A change that has been made and can still be taken back.
#[derive(Debug)]
pub struct PreparedChange {
    pub before: Option<RegistryValue>,
    pub changed: bool,
    pub finished: bool,
}

/// How a preparation goes on.
#[derive(Debug)]
pub enum PrepareStep {
    Done(Result<PreparedChange, AutostartError>),
    /// Make the call and report its answer to [`Application::answered`].
    Apply(Application),
    /// Make the call and report its answer to [`Restoration::answered`].
    Restore(Restoration),
}

/// The call that makes a change.
#[derive(Debug)]
pub struct Application {
    pub call: StoreCall,
    pub change: PreparedChange,
}

/// The call that brings the earlier value back after a change has failed.
#[derive(Debug)]
pub struct Restoration {
    pub call: StoreCall,
    pub detail: String,
}

/// The registration of one executable, which `name` shows to people.
#[derive(Debug)]
pub struct Autostart {
    pub executable: Vec<u16>,
    pub name: String,
}

impl Autostart {
    pub fn new(executable: Vec<u16>, name: String) -> (autostart: Self)
        ensures
            autostart == (Autostart { executable, name }),
    {
        Autostart { executable, name }
    }

    /// The command to split and look up before [`Autostart::inspect_value`] is asked.
    pub fn registered_command(&self, value: Option<&RegistryValue>) -> (command: Option<Vec<u16>>)
        ensures
            command is Some == command_of(stored_ref(value)) is Some,
            command matches Some(command) ==> command_of(stored_ref(value)) == Some(command@),
    {
        let value = match value {
            Some(value) => value,
            None => {
                return None;
            },
        };
        match decode_registry_string(value) {
            Ok(command) => if command.len() > MAX_RUN_COMMAND_UNITS {
                None
            } else {
                Some(command)
            },
            Err(_) => None,
        }
    }

    /// What a stored value means, given what the system says of its command.
    pub fn inspect_value(
        &self,
        value: Option<&RegistryValue>,
        findings: &CommandFindings,
    ) -> (status: RegistrationStatus)
        ensures
            status == status_of(stored_ref(value), *findings),
    {
        let value = match value {
            Some(value) => value,
            None => {
                return RegistrationStatus::Disabled;
            },
        };
        let command = match decode_registry_string(value) {
            Ok(command) => command,
            Err(DecodeError::NotAString) => {
                return RegistrationStatus::NeedsRepair(RegistrationProblem::UnsupportedValueType);
            },
            Err(_) => {
                return RegistrationStatus::NeedsRepair(RegistrationProblem::MalformedCommand);
            },
        };
        if validate_run_command_length(&command).is_err() {
            return RegistrationStatus::NeedsRepair(RegistrationProblem::CommandTooLong);
        }
        let count: usize = match &findings.arguments {
            Some(arguments) => arguments.len(),
            None => {
                return RegistrationStatus::NeedsRepair(RegistrationProblem::MalformedCommand);
            },
        };
        if count != 1 {
            return RegistrationStatus::NeedsRepair(RegistrationProblem::UnexpectedArguments);
        }
        if !findings.target_is_file {
            return RegistrationStatus::NeedsRepair(RegistrationProblem::MissingExecutable);
        }
        if findings.target_is_current {
            RegistrationStatus::Enabled
        } else {
            RegistrationStatus::NeedsRepair(RegistrationProblem::DifferentExecutable)
        }
    }

    /// The status of the registration, from what reading it gave.
    pub fn inspect(
        &self,
        read: Result<Option<RegistryValue>, String>,
        findings: &CommandFindings,
    ) -> (status: Result<RegistrationStatus, AutostartError>)
        ensures
            status == match read {
                Ok(value) => Ok(status_of(stored(value), *findings)),
                Err(detail) => Err(AutostartError::Read { detail }),
            },
    {
        match read {
            Ok(value) => Ok(self.inspect_value(value.as_ref(), findings)),
            Err(detail) => Err(AutostartError::Read { detail }),
        }
    }

    /// What switching the registration on or off asks of the store that holds `before`.
    pub open spec fn wanted(
        self,
        enabled: bool,
        before: Option<(u32, Seq<u8>)>,
        findings: CommandFindings,
        executable_is_file: bool,
    ) -> Result<Option<Option<(u32, Seq<u8>)>>, RegistrationError> {
        if enabled {
            if status_of(before, findings) == RegistrationStatus::Enabled {
                Ok(None)
            } else {
                match registration_result(self.executable@, executable_is_file, self.name) {
                    Ok(value) => Ok(Some(Some(value))),
                    Err(error) => Err(error),
                }
            }
        } else if before is Some {
            Ok(Some(None))
        } else {
            Ok(None)
        }
    }

    /// Starts switching the registration on or off, from what reading it gave.
    pub fn prepare(
        &self,
        enabled: bool,
        read: Result<Option<RegistryValue>, String>,
        findings: &CommandFindings,
        executable_is_file: bool,
    ) -> (step: PrepareStep)
        ensures
            match read {
                Err(detail) => step == PrepareStep::Done(Err(AutostartError::Read { detail })),
                Ok(before) => match self.wanted(
                    enabled,
                    stored(before),
                    *findings,
                    executable_is_file,
                ) {
                    Err(error) => step == PrepareStep::Done(
                        Err(AutostartError::Registration(error)),
                    ),
                    Ok(None) => step == PrepareStep::Done(
                        Ok(PreparedChange { before, changed: false, finished: false }),
                    ),
                    Ok(Some(target)) => step matches PrepareStep::Apply(application)
                        && application.call.target() == target && application.change == (
                    PreparedChange { before, changed: true, finished: false }),
                },
            },
    {
        let before = match read {
            Ok(before) => before,
            Err(detail) => {
                return PrepareStep::Done(Err(AutostartError::Read { detail }));
            },
        };
        let current = self.inspect_value(before.as_ref(), findings);
        let changed = (enabled && current != RegistrationStatus::Enabled) || (!enabled
            && before.is_some());
        if !changed {
            return PrepareStep::Done(Ok(PreparedChange { before, changed, finished: false }));
        }
        let call = if enabled {
            match registration_value(&self.executable, executable_is_file, &self.name) {
                Ok(value) => StoreCall::Write(value),
                Err(error) => {
                    return PrepareStep::Done(Err(AutostartError::Registration(error)));
                },
            }
        } else {
            StoreCall::Delete
        };
        PrepareStep::Apply(
            Application { call, change: PreparedChange { before, changed, finished: false } },
        )
    }
}

pub open spec fn stored_ref(value: Option<&RegistryValue>) -> Option<(u32, Seq<u8>)> {
    match value {
        Some(value) => Some(value@),
        None => None,
    }
}

impl Application {
    /// Takes the store's answer to the change: on failure the earlier value is to be put back.
    pub fn answered(self, answer: Result<(), String>) -> (step: PrepareStep)
        ensures
            match answer {
                Ok(_) => step == PrepareStep::Done(Ok(self.change)),
                Err(detail) => step matches PrepareStep::Restore(restoration)
                    && restoration.call.target() == stored(self.change.before)
                    && restoration.detail == detail,
            },
    {
        match answer {
            Ok(_) => PrepareStep::Done(Ok(self.change)),
            Err(detail) => PrepareStep::Restore(
                Restoration { call: restore_value(&self.change.before), detail },
            ),
        }
    }
}

impl Restoration {
    /// Takes the store's answer to putting the earlier value back; the change has failed.
    pub fn answered(self, answer: Result<(), String>) -> (error: AutostartError)
        ensures
            error == (AutostartError::NotApplied {
                detail: self.detail,
                restore_failure: match answer {
                    Ok(_) => None,
                    Err(failure) => Some(failure),
                },
            }),
    {
        AutostartError::NotApplied {
            detail: self.detail,
            restore_failure: match answer {
                Ok(_) => None,
                Err(failure) => Some(failure),
            },
        }
    }
}

impl PreparedChange {
    /// The call that takes the change back, if it changed anything.
    pub fn restore(&self) -> (call: Option<StoreCall>)
        ensures
            call is Some == self.changed,
            call matches Some(call) ==> call.target() == stored(self.before),
    {
        if !self.changed {
            return None;
        }
        Some(restore_value(&self.before))
    }

    /// Keeps the change for good.
    pub fn commit(&mut self)
        ensures
            *final(self) == (PreparedChange { finished: true, ..*old(self) }),
    {
        self.finished = true;
    }

    /// Takes the store's answer to the call of [`PreparedChange::restore`] (`Ok` where there was
    /// no call to make). Only a successful one settles the change.
    pub fn rollback(&mut self, answer: Result<(), String>) -> (result: Result<(), String>)
        ensures
            result == answer,
            answer is Ok ==> *final(self) == (PreparedChange { finished: true, ..*old(self) }),
            answer is Err ==> *final(self) == *old(self),
    {
        if answer.is_ok() {
            self.finished = true;
        }
        answer
    }

    /// The call to make when the change is dropped: one that is neither kept nor taken back is
    /// taken back.
    pub fn abandon(&self) -> (call: Option<StoreCall>)
        ensures
            call is Some == (self.changed && !self.finished),
            call matches Some(call) ==> call.target() == stored(self.before),
    {
        if self.finished {
            return None;
        }
        self.restore()
    }
}

impl QuoteError {
    pub open spec fn text(self) -> Seq<char> {
        match self {
            QuoteError::Empty => "自動起動するexeのパスが空です"@,
            QuoteError::ContainsNul => "自動起動するexeのパスにNUL文字が含まれています"@,
            QuoteError::ContainsQuote => "自動起動するexeのパスに使用できないquoteが含まれています"@,
        }
    }

    pub fn message(self) -> (message: String)
        ensures
            message@ == self.text(),
    {
        match self {
            QuoteError::Empty => "自動起動するexeのパスが空です".to_owned(),
            QuoteError::ContainsNul => "自動起動するexeのパスにNUL文字が含まれています".to_owned(),
            QuoteError::ContainsQuote =>
            "自動起動するexeのパスに使用できないquoteが含まれています".to_owned(),
        }
    }
}

impl DecodeError {
    pub open spec fn text(self) -> Seq<char> {
        match self {
            DecodeError::NotAString => "REG_SZではありません"@,
            DecodeError::OddLength => "UTF-16のbyte数が不正です"@,
            DecodeError::EmptyOrInnerNul => "REG_SZの内容が空または途中にNULを含んでいます"@,
        }
    }

    pub fn message(self) -> (message: String)
        ensures
            message@ == self.text(),
    {
        match self {
            DecodeError::NotAString => "REG_SZではありません".to_owned(),
            DecodeError::OddLength => "UTF-16のbyte数が不正です".to_owned(),
            DecodeError::EmptyOrInnerNul =>
            "REG_SZの内容が空または途中にNULを含んでいます".to_owned(),
        }
    }
}

impl CommandTooLong {
    pub open spec fn text(self) -> Seq<char> {
        "Windows Runキーのコマンド上限を超えています ("@ + text::decimal(self.units as nat) + " / "@
            + text::decimal(MAX_RUN_COMMAND_UNITS as nat) + "文字)"@
    }

    pub fn message(self) -> (message: String)
        ensures
            message@ == self.text(),
    {
        let mut message = "Windows Runキーのコマンド上限を超えています (".to_owned();
        text::push_decimal(&mut message, self.units as u64);
        message.append(" / ");
        text::push_decimal(&mut message, MAX_RUN_COMMAND_UNITS as u64);
        message.append("文字)");
        message
    }
}

impl RegistrationError {
    pub open spec fn text(self) -> Seq<char> {
        match self {
            RegistrationError::ExecutableMissing { executable } =>
            "現在のStreamPainter実行ファイルが見つかりません: "@ + executable@,
            RegistrationError::Quote(error) => error.text(),
            RegistrationError::TooLong(error) => error.text(),
        }
    }

    pub fn message(&self) -> (message: String)
        ensures
            message@ == self.text(),
    {
        match self {
            RegistrationError::ExecutableMissing { executable } =>
            "現在のStreamPainter実行ファイルが見つかりません: ".to_owned().concat(executable),
            RegistrationError::Quote(error) => error.message(),
            RegistrationError::TooLong(error) => error.message(),
        }
    }
}

impl AutostartError {
    pub open spec fn text(self) -> Seq<char> {
        match self {
            AutostartError::Read { detail } => detail@,
            AutostartError::Registration(error) => error.text(),
            AutostartError::NotApplied { detail, restore_failure } =>
            "Windows自動起動を変更できませんでした: "@ + detail@ + match restore_failure {
                Some(failure) => "\n変更前の登録を復元することにも失敗しました: "@ + failure@,
                None => Seq::empty(),
            },
        }
    }

    pub fn message(&self) -> (message: String)
        ensures
            message@ == self.text(),
    {
        match self {
            AutostartError::Read { detail } => detail.clone(),
            AutostartError::Registration(error) => error.message(),
            AutostartError::NotApplied { detail, restore_failure } => {
                let mut message = "Windows自動起動を変更できませんでした: ".to_owned().concat(detail);
                match restore_failure {
                    Some(failure) => {
                        message.append("\n変更前の登録を復元することにも失敗しました: ");
                        message.append(failure);
                        assert(message@ =~= self.text());
                    },
                    None => {
                        assert(message@ =~= self.text());
                    },
                }
                message
            },
        }
    }
}

/// What was being done to the registry when it failed.
#[derive(Clone, Copy, Debug, PartialEq, Eq, Structural)]
pub enum RegistryOperation {
    OpenKey,
    CreateKey,
    QuerySize,
    ReadValue,
    WriteValue,
    DeleteValue,
}

#[derive(Clone, Copy, Debug, PartialEq, Eq, Structural)]
pub enum RegistryError {
    Failed { operation: RegistryOperation, code: u32 },
    TooLarge { bytes: u32 },
    KeptChanging,
}

impl RegistryOperation {
    pub open spec fn text(self) -> Seq<char> {
        match self {
            RegistryOperation::OpenKey => "Windows自動起動キーの読み取り"@,
            RegistryOperation::CreateKey => "Windows自動起動キーの作成"@,
            RegistryOperation::QuerySize => "Windows自動起動値のサイズ取得"@,
            RegistryOperation::ReadValue => "Windows自動起動値の読み取り"@,
            RegistryOperation::WriteValue => "Windows自動起動値の保存"@,
            RegistryOperation::DeleteValue => "Windows自動起動値の削除"@,
        }
    }

    pub fn name(self) -> (name: &'static str)
        ensures
            name@ == self.text(),
    {
        match self {
            RegistryOperation::OpenKey => "Windows自動起動キーの読み取り",
            RegistryOperation::CreateKey => "Windows自動起動キーの作成",
            RegistryOperation::QuerySize => "Windows自動起動値のサイズ取得",
            RegistryOperation::ReadValue => "Windows自動起動値の読み取り",
            RegistryOperation::WriteValue => "Windows自動起動値の保存",
            RegistryOperation::DeleteValue => "Windows自動起動値の削除",
        }
    }
}

impl RegistryError {
    pub open spec fn text(self) -> Seq<char> {
        match self {
            RegistryError::Failed { operation, code } => operation.text()
                + "に失敗しました (Win32 error "@ + text::decimal(code as nat) + ")"@,
            RegistryError::TooLarge { bytes } => "Windows自動起動値が大きすぎます ("@
                + text::decimal(bytes as nat) + " bytes)"@,
            RegistryError::KeptChanging => "Windows自動起動値が読み取り中に繰り返し変更されました"@,
        }
    }

    pub fn message(self) -> (message: String)
        ensures
            message@ == self.text(),
    {
        match self {
            RegistryError::Failed { operation, code } => {
                let mut message = operation.name().to_owned().concat(
                    "に失敗しました (Win32 error ",
                );
                text::push_decimal(&mut message, code as u64);
                message.append(")");
                message
            },
            RegistryError::TooLarge { bytes } => {
                let mut message = "Windows自動起動値が大きすぎます (".to_owned();
                text::push_decimal(&mut message, bytes as u64);
                message.append(" bytes)");
                message
            },
            RegistryError::KeptChanging =>
            "Windows自動起動値が読み取り中に繰り返し変更されました".to_owned(),
        }
    }
}

/// The outcome of a registry call whose failure to find its object counts as `absent`.
pub fn registry_status(operation: RegistryOperation, code: u32, absent_is_fine: bool) -> (result:
    Result<bool, RegistryError>)
    ensures
        result == if code == ERROR_SUCCESS {
            Ok::<bool, RegistryError>(true)
        } else if absent_is_fine && code == ERROR_FILE_NOT_FOUND {
            Ok(false)
        } else {
            Err(RegistryError::Failed { operation, code })
        },
{
    if code == ERROR_SUCCESS {
        Ok(true)
    } else if absent_is_fine && code == ERROR_FILE_NOT_FOUND {
        Ok(false)
    } else {
        Err(RegistryError::Failed { operation, code })
    }
}

/// Number of times that a value which keeps growing is asked for.
pub const READ_ATTEMPTS: u8 = 3;

/// What reading the value asks for next.
#[derive(Debug)]
pub enum ReadStep {
    /// Ask for the size, and report to [`ValueReader::size_answer`].
    QuerySize,
    /// Fetch this many bytes, and report to [`ValueReader::data_answer`].
    Fetch { byte_len: u32 },
    Done(Result<Option<RegistryValue>, RegistryError>),
}

/// Reads a value in two queries. Between them it may grow, in which case both are made again.
#[derive(Clone, Copy, Debug, PartialEq, Eq, Structural)]
pub struct ValueReader {
    pub attempts_left: u8,
}

impl ValueReader {
    pub fn start() -> (reader: Self)
        ensures
            reader.attempts_left == READ_ATTEMPTS,
    {
        ValueReader { attempts_left: READ_ATTEMPTS }
    }

    /// Takes the answer to the query for the size.
    pub fn size_answer(&self, status: u32, kind: u32, byte_len: u32) -> (step: ReadStep)
        ensures
            status == ERROR_FILE_NOT_FOUND ==> step == ReadStep::Done(Ok(None)),
            status != ERROR_FILE_NOT_FOUND && status != ERROR_SUCCESS && status != ERROR_MORE_DATA
                ==> step == ReadStep::Done(
                Err(
                    RegistryError::Failed { operation: RegistryOperation::QuerySize, code: status },
                ),
            ),
            status == ERROR_SUCCESS || status == ERROR_MORE_DATA ==> {
                &&& byte_len > MAX_RUN_VALUE_BYTES ==> step == ReadStep::Done(
                    Err(RegistryError::TooLarge { bytes: byte_len }),
                )
                &&& byte_len == 0 ==> (step matches ReadStep::Done(Ok(Some(value))) && value@ == (
                    kind,
                    Seq::<u8>::empty(),
                ))
                &&& 0 < byte_len <= MAX_RUN_VALUE_BYTES ==> step == (ReadStep::Fetch { byte_len })
            },
    {
        if status == ERROR_FILE_NOT_FOUND {
            return ReadStep::Done(Ok(None));
        }
        if status != ERROR_SUCCESS && status != ERROR_MORE_DATA {
            return ReadStep::Done(
                Err(
                    RegistryError::Failed { operation: RegistryOperation::QuerySize, code: status },
                ),
            );
        }
        if byte_len > MAX_RUN_VALUE_BYTES {
            return ReadStep::Done(Err(RegistryError::TooLarge { bytes: byte_len }));
        }
        if byte_len == 0 {
            return ReadStep::Done(Ok(Some(RegistryValue { kind, data: Vec::new() })));
        }
        ReadStep::Fetch { byte_len }
    }

    /// Takes the answer to the query for the data, of which the first `byte_len` bytes count.
    pub fn data_answer(&mut self, status: u32, kind: u32, data: Vec<u8>, byte_len: u32) -> (step:
        ReadStep)
        requires
            old(self).attempts_left > 0,
        ensures
            status == ERROR_MORE_DATA ==> {
                &&& final(self).attempts_left == old(self).attempts_left - 1
                &&& step == if old(self).attempts_left == 1 {
                    ReadStep::Done(Err(RegistryError::KeptChanging))
                } else {
                    ReadStep::QuerySize
                }
            },
            status != ERROR_MORE_DATA ==> *final(self) == *old(self),
            status == ERROR_FILE_NOT_FOUND ==> step == ReadStep::Done(Ok(None)),
            status == ERROR_SUCCESS ==> (step matches ReadStep::Done(Ok(Some(value))) && value@ == (
                kind,
                if data@.len() <= byte_len {
                    data@
                } else {
                    data@.take(byte_len as int)
                },
            )),
            status != ERROR_MORE_DATA && status != ERROR_FILE_NOT_FOUND && status != ERROR_SUCCESS
                ==> step == ReadStep::Done(
                Err(
                    RegistryError::Failed { operation: RegistryOperation::ReadValue, code: status },
                ),
            ),
    {
        if status == ERROR_MORE_DATA {
            self.attempts_left = self.attempts_left - 1;
            if self.attempts_left == 0 {
                return ReadStep::Done(Err(RegistryError::KeptChanging));
            }
            return ReadStep::QuerySize;
        }
        if status == ERROR_FILE_NOT_FOUND {
            return ReadStep::Done(Ok(None));
        }
        if status != ERROR_SUCCESS {
            return ReadStep::Done(
                Err(
                    RegistryError::Failed { operation: RegistryOperation::ReadValue, code: status },
                ),
            );
        }
        let mut data = data;
        data.truncate(byte_len as usize);
        ReadStep::Done(Ok(Some(RegistryValue { kind, data })))
    }
}

/// Reading the bytes of units as units gives them back.
proof fn lemma_units_of_bytes(units: Seq<u16>)
    ensures
        le_units(le_bytes(units)) == units,
{
    assert forall|i: int| 0 <= i < units.len() implies #[trigger] le_units(le_bytes(units))[i]
        == units[i] by {
        let low = le_bytes(units)[2 * i];
        let high = le_bytes(units)[2 * i + 1];
        assert((2 * i) / 2 == i && (2 * i) % 2 == 0);
        assert((2 * i + 1) / 2 == i && (2 * i + 1) % 2 == 1);
        assert(low == units[i] % 256);
        assert(high == units[i] / 256);
    }
    assert(le_units(le_bytes(units)) =~= units);
}

/// A string without NUL that has been stored is read back as it was.
pub proof fn law_a_stored_string_is_read_back(units: Seq<u16>)
    requires
        units.len() > 0,
        !units.contains(0),
    ensures
        decode_result((REG_SZ, le_bytes(units.push(0)))) == Ok::<Seq<u16>, DecodeError>(units),
{
    lemma_units_of_bytes(units.push(0));
    reveal_with_fuel(without_trailing_nul, 2);
    assert(units.push(0).drop_last() =~= units);
    assert(units.contains(units.last()));
}

/// The program that a command line beginning with a quotation mark starts: what stands up to the
/// next one.
pub open spec fn program_of(command: Seq<u16>) -> Seq<u16> {
    command.drop_first().take(command.drop_first().index_of_first(QUOTE)->0)
}

/// The command line made of a path starts that path, and nothing follows it that could be taken
/// for an argument.
pub proof fn law_a_quoted_path_is_one_argument(path: Seq<u16>)
    requires
        quote_result(path) is Ok,
    ensures
        ({
            let command = quote_result(path)->Ok_0;
            &&& command[0] == QUOTE
            &&& program_of(command) == path
            &&& command.len() == path.len() + 2
        }),
{
    let command = quoted(path);
    let rest = command.drop_first();
    assert(rest =~= path.push(QUOTE));
    assert(rest[path.len() as int] == QUOTE);
    rest.index_of_first_ensures(QUOTE);
    let at = rest.index_of_first(QUOTE)->0;
    assert(at == path.len()) by {
        if at < path.len() {
            assert(path[at] == rest[at]);
            assert(path.contains(QUOTE));
        }
    }
    assert(rest.take(at) =~= path);
}

/// A registration that is written holds exactly the quoted executable, within the limit that
/// Windows sets, and reads back as that command.
pub proof fn law_enabling_registers_the_executable_alone(
    autostart: Autostart,
    before: Option<(u32, Seq<u8>)>,
    findings: CommandFindings,
    executable_is_file: bool,
)
    requires
        autostart.wanted(true, before, findings, executable_is_file) matches Ok(Some(_)),
    ensures
        ({
            let target = autostart.wanted(true, before, findings, executable_is_file)->Ok_0->0;
            &&& executable_is_file
            &&& command_of(target) == Some(quoted(autostart.executable@))
            &&& quoted(autostart.executable@).len() <= MAX_RUN_COMMAND_UNITS
            &&& program_of(quoted(autostart.executable@)) == autostart.executable@
        }),
{
    let path = autostart.executable@;
    let command = quoted(path);
    law_a_quoted_path_is_one_argument(path);
    assert(!command.contains(0)) by {
        if command.contains(0) {
            let i = command.index_of(0);
            assert(command[i] == 0);
            assert(path[i - 1] == 0);
            assert(path.contains(0));
        }
    }
    law_a_stored_string_is_read_back(command);
}

/// Switching on what is on, or off what is off, asks nothing of the store.
pub proof fn law_switching_is_idempotent(
    autostart: Autostart,
    before: Option<(u32, Seq<u8>)>,
    findings: CommandFindings,
    executable_is_file: bool,
)
    ensures
        status_of(before, findings) == RegistrationStatus::Enabled ==> autostart.wanted(
            true,
            before,
            findings,
            executable_is_file,
        ) == Ok::<Option<Option<(u32, Seq<u8>)>>, RegistrationError>(None),
        before is None ==> autostart.wanted(false, before, findings, executable_is_file) == Ok::<
            Option<Option<(u32, Seq<u8>)>>,
            RegistrationError,
        >(None),
        before is Some ==> autostart.wanted(false, before, findings, executable_is_file) == Ok::<
            Option<Option<(u32, Seq<u8>)>>,
            RegistrationError,
        >(Some(None)),
{
}

/// What is found of a stored value: `found` of its command, and `otherwise` where it holds none.
pub open spec fn findings_of(
    value: Option<(u32, Seq<u8>)>,
    found: spec_fn(Seq<u16>) -> CommandFindings,
    otherwise: CommandFindings,
) -> CommandFindings {
    match command_of(value) {
        Some(command) => found(command),
        None => otherwise,
    }
}

/// Once a switch has been carried out the status says so, and the same switch asks nothing more of
/// the store, as long as nothing else changes. `found` is what the system finds of a command; of
/// the quoted executable it finds the executable alone, which is the current one, and a file where
/// it is one.
pub proof fn law_a_switch_takes_effect(
    autostart: Autostart,
    enabled: bool,
    before: Option<(u32, Seq<u8>)>,
    found: spec_fn(Seq<u16>) -> CommandFindings,
    otherwise: CommandFindings,
    executable_is_file: bool,
)
    requires
        autostart.wanted(
            enabled,
            before,
            findings_of(before, found, otherwise),
            executable_is_file,
        ) is Ok,
        ({
            let own = found(quoted(autostart.executable@));
            &&& own.arguments matches Some(arguments)
            &&& arguments@.len() == 1
            &&& arguments@[0]@ == autostart.executable@
            &&& own.target_is_file == executable_is_file
            &&& own.target_is_current
        }),
    ensures
        ({
            let wanted = autostart.wanted(
                enabled,
                before,
                findings_of(before, found, otherwise),
                executable_is_file,
            )->Ok_0;
            let after = match wanted {
                Some(target) => target,
                None => before,
            };
            let later = findings_of(after, found, otherwise);
            &&& status_of(after, later) == if enabled {
                RegistrationStatus::Enabled
            } else {
                RegistrationStatus::Disabled
            }
            &&& enabled ==> later.arguments is Some && later.arguments->0@.len() == 1
            &&& enabled && wanted is Some ==> {
                &&& command_of(after) == Some(quoted(autostart.executable@))
                &&& program_of(quoted(autostart.executable@)) == autostart.executable@
                &&& later.arguments->0@[0]@ == autostart.executable@
            }
            &&& autostart.wanted(enabled, after, later, executable_is_file) == Ok::<
                Option<Option<(u32, Seq<u8>)>>,
                RegistrationError,
            >(None)
        }),
{
    let findings = findings_of(before, found, otherwise);
    if enabled && autostart.wanted(enabled, before, findings, executable_is_file)->Ok_0 is Some {
        law_enabling_registers_the_executable_alone(
            autostart,
            before,
            findings,
            executable_is_file,
        );
    }
}

/// A registration stays marked as present until it is removed, whatever is wrong with it.
pub proof fn law_only_an_absent_value_is_disabled(
    value: Option<(u32, Seq<u8>)>,
    findings: CommandFindings,
)
    ensures
        status_of(value, findings) == RegistrationStatus::Disabled <==> value is None,
{
}

/// A path becomes a command line exactly where it can be one, between quotation marks and as it is;
/// else it is told what is wrong with it.
pub proof fn law_every_proper_path_can_be_quoted(path: Seq<u16>)
    ensures
        quote_result(path) is Ok <==> path.len() > 0 && !path.contains(0) && !path.contains(0x22),
        quote_result(path) is Ok ==> quote_result(path) == Ok::<Seq<u16>, QuoteError>(
            seq![0x22u16] + path + seq![0x22u16],
        ),
        quote_result(path) == Err::<Seq<u16>, QuoteError>(QuoteError::Empty) <==> path.len() == 0,
        quote_result(path) == Err::<Seq<u16>, QuoteError>(QuoteError::ContainsNul)
            <==> path.contains(0),
        quote_result(path) == Err::<Seq<u16>, QuoteError>(QuoteError::ContainsQuote)
            <==> !path.contains(0) && path.contains(0x22),
{
}

/// The executable is registered exactly where it is a file whose quoted path Windows runs, and the
/// reason is told where it is not.
pub proof fn law_the_executable_can_be_registered(autostart: Autostart, is_file: bool)
    ensures
        ({
            let path = autostart.executable@;
            let result = registration_result(path, is_file, autostart.name);
            &&& result is Ok <==> is_file && path.len() > 0 && !path.contains(0) && !path.contains(
                0x22,
            ) && path.len() + 2 <= 260
            &&& !is_file ==> result == Err::<(u32, Seq<u8>), RegistrationError>(
                RegistrationError::ExecutableMissing { executable: autostart.name },
            )
            &&& is_file && quote_result(path) is Err ==> result == Err::<
                (u32, Seq<u8>),
                RegistrationError,
            >(RegistrationError::Quote(quote_result(path)->Err_0))
            &&& is_file && quote_result(path) is Ok && path.len() + 2 > 260
                ==> result->Err_0 is TooLong
        }),
{
}

/// What is wrong with a registration is told: its type, its text, its length, what follows the
/// executable, and an executable that is missing or another one. Only where nothing is, it is
/// enabled.
pub proof fn law_each_problem_is_told(value: (u32, Seq<u8>), findings: CommandFindings)
    ensures
        ({
            let status = status_of(Some(value), findings);
            let problem = |problem: RegistrationProblem| status == RegistrationStatus::NeedsRepair(
                problem,
            );
            let command = decode_result(value);
            let fine = command is Ok && command->Ok_0.len() <= 260;
            let one = findings.arguments is Some && findings.arguments->0@.len() == 1;
            &&& status == RegistrationStatus::Enabled <==> fine && one && findings.target_is_file
                && findings.target_is_current
            &&& problem(RegistrationProblem::UnsupportedValueType) <==> value.0 != 1
            &&& problem(RegistrationProblem::CommandTooLong) <==> command is Ok
                && command->Ok_0.len() > 260
            &&& problem(RegistrationProblem::MalformedCommand) <==> (value.0 == 1
                && command is Err) || (fine && findings.arguments is None)
            &&& problem(RegistrationProblem::UnexpectedArguments) <==> fine
                && findings.arguments is Some && !one
            &&& problem(RegistrationProblem::MissingExecutable) <==> fine && one
                && !findings.target_is_file
            &&& problem(RegistrationProblem::DifferentExecutable) <==> fine && one
                && findings.target_is_file && !findings.target_is_current
        }),
{
}

/// A stored value is a command only as a string of whole units that is not empty and holds no zero
/// before its end.
pub proof fn law_only_a_proper_string_is_a_command(value: (u32, Seq<u8>))
    ensures
        value.0 != 1 <==> decode_result(value) == Err::<Seq<u16>, DecodeError>(
            DecodeError::NotAString,
        ),
        value.0 == 1 && value.1.len() % 2 == 1 <==> decode_result(value) == Err::<
            Seq<u16>,
            DecodeError,
        >(DecodeError::OddLength),
        decode_result(value) matches Ok(units) ==> units.len() > 0 && !units.contains(0),
{
}

/// A unit is stored as two bytes, the low one first, and zeros at the end of a stored string do not
/// count, however many there are.
pub proof fn law_units_are_stored_low_byte_first(units: Seq<u16>, i: int, kind: u32)
    ensures
        le_bytes(units).len() == 2 * units.len(),
        0 <= i < units.len() ==> le_bytes(units)[2 * i] == units[i] % 256 && le_bytes(units)[2 * i
            + 1] == units[i] / 256,
        decode_result((kind, le_bytes(units.push(0)))) == decode_result((kind, le_bytes(units))),
{
    if 0 <= i < units.len() {
        assert((2 * i) / 2 == i && (2 * i) % 2 == 0);
        assert((2 * i + 1) / 2 == i && (2 * i + 1) % 2 == 1);
    }
    lemma_units_of_bytes(units);
    lemma_units_of_bytes(units.push(0));
    assert(units.push(0).drop_last() =~= units);
}

/// A command is looked up exactly where the stored string is one and Windows runs it. Switching on
/// asks the store for a change exactly where the registration is not in order yet, and for the one
/// that registers the executable; what keeps it from being registered is told as it is.
pub proof fn law_switching_on_repairs_the_registration(
    autostart: Autostart,
    value: (u32, Seq<u8>),
    before: Option<(u32, Seq<u8>)>,
    findings: CommandFindings,
    is_file: bool,
)
    ensures
        command_of(None) is None,
        command_of(Some(value)) is Some <==> decode_result(value) is Ok && decode_result(
            value,
        )->Ok_0.len() <= 260,
        command_of(Some(value)) matches Some(command) ==> decode_result(value) == Ok::<
            Seq<u16>,
            DecodeError,
        >(command),
        status_of(None, findings) == RegistrationStatus::Disabled,
        ({
            let wanted = autostart.wanted(true, before, findings, is_file);
            let value = registration_result(autostart.executable@, is_file, autostart.name);
            &&& status_of(before, findings) != RegistrationStatus::Enabled ==> {
                &&& value matches Ok(value) ==> wanted == Ok::<
                    Option<Option<(u32, Seq<u8>)>>,
                    RegistrationError,
                >(Some(Some(value)))
                &&& value matches Err(error) ==> wanted == Err::<
                    Option<Option<(u32, Seq<u8>)>>,
                    RegistrationError,
                >(error)
            }
            &&& value matches Err(RegistrationError::TooLong(error))
                ==> autostart.executable@.len() <= usize::MAX - 2 ==> error.units
                == autostart.executable@.len() + 2
        }),
{
}

} // verus!
