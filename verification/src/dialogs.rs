//! Messages to the user, and opening things for them.

use vstd::prelude::*;

use crate::text;

verus! {

pub const TITLE: &'static str = "StreamPainter";

pub const MB_YESNO: u32 = 0x4;

pub const MB_ICONERROR: u32 = 0x10;

pub const MB_ICONWARNING: u32 = 0x30;

pub const MB_ICONINFORMATION: u32 = 0x40;

pub const MB_DEFBUTTON2: u32 = 0x100;

pub const MB_SETFOREGROUND: u32 = 0x10000;

pub const MB_TOPMOST: u32 = 0x40000;

/// The answer of a message box that stands for yes.
pub const IDYES: i32 = 6;

/// The highest result of the shell that stands for a failure.
pub const SHELL_FAILURE_MAX: isize = 32;

#[derive(Clone, Copy, Debug, PartialEq, Eq, Structural)]
pub enum MessageBoxKind {
    Error,
    Info,
    /// In front of the overlay, which stays on top.
    Warning,
    /// A question whose default answer is no.
    Confirm,
}

/// The style bits of a message box.
pub fn message_box_style(kind: MessageBoxKind) -> (style: u32)
    ensures
        style == match kind {
            MessageBoxKind::Error => MB_ICONERROR,
            MessageBoxKind::Info => MB_ICONINFORMATION,
            MessageBoxKind::Warning => MB_ICONWARNING | MB_SETFOREGROUND | MB_TOPMOST,
            MessageBoxKind::Confirm => MB_YESNO | MB_ICONWARNING | MB_DEFBUTTON2,
        },
{
    match kind {
        MessageBoxKind::Error => MB_ICONERROR,
        MessageBoxKind::Info => MB_ICONINFORMATION,
        MessageBoxKind::Warning => MB_ICONWARNING | MB_SETFOREGROUND | MB_TOPMOST,
        MessageBoxKind::Confirm => MB_YESNO | MB_ICONWARNING | MB_DEFBUTTON2,
    }
}

pub fn is_yes(answer: i32) -> (yes: bool)
    ensures
        yes == (answer == IDYES),
{
    answer == IDYES
}

/// What is opened by the shell.
#[derive(Clone, Copy, Debug, PartialEq, Eq, Structural)]
pub enum OpenTarget {
    Url,
    Folder,
}

/// What is said when the shell could not open something, from its result.
pub fn open_failure(target: OpenTarget, result: isize) -> (message: Option<String>)
    ensures
        message is Some == (result <= SHELL_FAILURE_MAX),
        message matches Some(message) ==> message@ == match target {
            OpenTarget::Url => "既定のWebブラウザを開けませんでした (ShellExecuteW: "@,
            OpenTarget::Folder => "エクスプローラーを開けませんでした (ShellExecuteW: "@,
        } + text::signed_decimal(result as int) + ")"@,
{
    if result > SHELL_FAILURE_MAX {
        return None;
    }
    let mut message = match target {
        OpenTarget::Url => "既定のWebブラウザを開けませんでした (ShellExecuteW: ".to_owned(),
        OpenTarget::Folder => "エクスプローラーを開けませんでした (ShellExecuteW: ".to_owned(),
    };
    text::push_signed_decimal(&mut message, result as i64);
    message.append(")");
    Some(message)
}

/// What is said when an operation failed.
pub fn operation_error(summary: &str, error: &str) -> (message: String)
    ensures
        message@ == summary@ + ":\n"@ + error@,
{
    let mut message = summary.to_owned();
    message.append(":\n");
    message.append(error);
    message
}

/// What is said when choosing a file failed, from the dialog's error code. Without one the dialog
/// was just closed.
pub fn choose_failure(code: u32) -> (message: Option<String>)
    ensures
        message is Some == (code != 0),
        message matches Some(message) ==> message@
            == "ファイル選択ダイアログでエラーが発生しました: 0x"@ + text::hexadecimal(code as nat),
{
    if code == 0 {
        return None;
    }
    let mut message = "ファイル選択ダイアログでエラーが発生しました: 0x".to_owned();
    text::push_hexadecimal(&mut message, code);
    Some(message)
}

/// What is said when a control of the settings window does not exist.
pub fn missing_control(id: i32) -> (message: String)
    ensures
        message@ == "設定項目 "@ + text::signed_decimal(id as int) + " が見つかりません"@,
{
    let mut message = "設定項目 ".to_owned();
    text::push_signed_decimal(&mut message, id as i64);
    message.append(" が見つかりません");
    message
}

} // verus!
