//! The settings window: what its fields mean, what its buttons do, and what it says.

use vstd::prelude::*;

use crate::autostart::RegistrationStatus;
use crate::hotkey::{HotkeyConfig, HotkeyError};
use crate::settings_layout::{
    ID_CANCEL, ID_COPY_OVERLAY_URL, ID_HOTKEY_CLEAR, ID_HOTKEY_DEFAULT, ID_PORT, ID_SAVE,
    ID_STAMP_ADD, ID_STAMP_LIST, ID_STAMP_REMOVE,
};
use crate::text;
use crate::tray::{LocalServerDiagnosticsSnapshot, LocalServerReachability};

verus! {

pub const WM_CLOSE: u32 = 0x0010;

pub const WM_NCDESTROY: u32 = 0x0082;

pub const WM_KEYDOWN: u32 = 0x0100;

pub const WM_KEYUP: u32 = 0x0101;

pub const WM_SYSKEYDOWN: u32 = 0x0104;

pub const WM_SYSKEYUP: u32 = 0x0105;

pub const WM_COMMAND: u32 = 0x0111;

/// The local server has changed its state.
pub const WM_DIAGNOSTICS_CHANGED: u32 = 0x8001;

pub const EN_CHANGE: u32 = 0x0300;

pub const LBN_SELCHANGE: u32 = 1;

pub const VK_TAB: u32 = 0x09;

pub const VK_SHIFT: u32 = 0x10;

pub const VK_CONTROL: u32 = 0x11;

pub const VK_MENU: u32 = 0x12;

pub const VK_ESCAPE: u32 = 0x1B;

pub const VK_LWIN: u32 = 0x5B;

pub const VK_RWIN: u32 = 0x5C;

pub const HOTKEY_MOD_ALT: u32 = 1;

pub const HOTKEY_MOD_CTRL: u32 = 2;

pub const HOTKEY_MOD_SHIFT: u32 = 4;

pub const HOTKEY_MOD_WIN: u32 = 8;

/// The registration with Windows as the window shows it: its status, where it could be read.
#[derive(Clone, Copy, Debug, PartialEq, Eq, Structural)]
pub enum AutostartUi {
    Available { status: RegistrationStatus },
    Unavailable,
}

impl AutostartUi {
    pub open spec fn loaded(status: Option<RegistrationStatus>) -> Self {
        match status {
            Some(status) => AutostartUi::Available { status },
            None => AutostartUi::Unavailable,
        }
    }

    /// From what reading the registration gave, or nothing where it failed.
    pub fn load(status: Option<RegistrationStatus>) -> (ui: Self)
        ensures
            ui == Self::loaded(status),
    {
        match status {
            Some(status) => AutostartUi::Available { status },
            None => AutostartUi::Unavailable,
        }
    }

    pub fn is_registered(&self) -> (registered: bool)
        ensures
            registered == match *self {
                AutostartUi::Available { status } => status != RegistrationStatus::Disabled,
                AutostartUi::Unavailable => false,
            },
    {
        match self {
            AutostartUi::Available { status } => status.is_registered(),
            AutostartUi::Unavailable => false,
        }
    }

    pub fn is_available(&self) -> (available: bool)
        ensures
            available == (*self is Available),
    {
        match self {
            AutostartUi::Available { .. } => true,
            AutostartUi::Unavailable => false,
        }
    }

    pub open spec fn text(self) -> Seq<char> {
        match self {
            AutostartUi::Available { status: RegistrationStatus::Disabled } =>
            "Windows自動起動: OFF（登録なし）"@,
            AutostartUi::Available { status: RegistrationStatus::Enabled } =>
            "Windows自動起動: ON（現在のexeを通常モードで起動）"@,
            AutostartUi::Available { status: RegistrationStatus::NeedsRepair(problem) } =>
            "Windows自動起動: 登録あり・修復が必要（"@ + problem.text() + "）"@,
            AutostartUi::Unavailable => "Windows自動起動: 状態を取得できません（変更しません）"@,
        }
    }

    pub fn status_text(&self) -> (line: String)
        ensures
            line@ == self.text(),
    {
        match self {
            AutostartUi::Available { status: RegistrationStatus::Disabled } =>
            "Windows自動起動: OFF（登録なし）".to_owned(),
            AutostartUi::Available { status: RegistrationStatus::Enabled } =>
            "Windows自動起動: ON（現在のexeを通常モードで起動）".to_owned(),
            AutostartUi::Available { status: RegistrationStatus::NeedsRepair(problem) } =>
            "Windows自動起動: 登録あり・修復が必要（".to_owned().concat(
                problem.description(),
            ).concat("）"),
            AutostartUi::Unavailable =>
            "Windows自動起動: 状態を取得できません（変更しません）".to_owned(),
        }
    }
}

/// A number that a text of digits stands for, the last one counting least.
pub open spec fn digits_value(s: Seq<char>) -> nat
    decreases s.len(),
{
    if s.len() == 0 {
        0
    } else {
        digits_value(s.drop_last()) * 10 + (s.last() as int - 48) as nat
    }
}

pub open spec fn all_digits(s: Seq<char>) -> bool {
    forall|i: int| 0 <= i < s.len() ==> '0' <= #[trigger] s[i] && s[i] <= '9'
}

/// `s` without a plus sign at its beginning.
pub open spec fn without_plus(s: Seq<char>) -> Seq<char> {
    if s.len() > 0 && s[0] == '+' {
        s.skip(1)
    } else {
        s
    }
}

/// The number of sixteen bits that a text stands for: digits, with a plus sign or without.
pub open spec fn parsed_u16(s: Seq<char>) -> Option<u16> {
    let digits = without_plus(s);
    if digits.len() > 0 && all_digits(digits) && digits_value(digits) <= u16::MAX {
        Some(digits_value(digits) as u16)
    } else {
        None
    }
}

/// The number of sixteen bits that a text stands for, if it does.
pub fn parse_u16(s: &str) -> (number: Option<u16>)
    ensures
        number == parsed_u16(s@),
{
    let chars = text::chars_of(s);
    let from: usize = if chars.len() > 0 && chars[0] == '+' {
        1
    } else {
        0
    };
    let ghost digits = without_plus(s@);
    assert(digits =~= s@.skip(from as int));
    if chars.len() == from {
        return None;
    }
    let mut value: u32 = 0;
    let mut too_large = false;
    for i in from..chars.len()
        invariant
            chars@ == s@,
            from <= chars.len(),
            digits == s@.skip(from as int),
            digits == without_plus(s@),
            all_digits(digits.take(i - from)),
            !too_large ==> value == digits_value(digits.take(i - from)) && value <= 65535,
            too_large ==> digits_value(digits.take(i - from)) > 65535,
    {
        let c: char = chars[i];
        assert(digits[i - from] == c);
        assert(digits.take(i + 1 - from).drop_last() =~= digits.take(i - from));
        if c < '0' || c > '9' {
            assert(!all_digits(digits));
            return None;
        }
        if !too_large {
            value = value * 10 + (c as u32 - 48);
            if value > 65535 {
                too_large = true;
            }
        }
    }
    assert(digits.take(digits.len() as int) =~= digits);
    if too_large {
        None
    } else {
        Some(value as u16)
    }
}

/// The two lines that say how the server and the connected pages are doing. `port` is the number
/// in the field for it, if it holds one; without diagnostics no server runs.
pub open spec fn connection_server_label(
    port: Option<u16>,
    diagnostics: Option<LocalServerDiagnosticsSnapshot>,
) -> Seq<char> {
    match diagnostics {
        None => "ローカルサーバー: この設定専用プロセスでは停止中"@,
        Some(diagnostics) => match diagnostics.reachability {
            LocalServerReachability::Starting => "ローカルサーバー: 起動中（ポート "@
                + text::decimal(diagnostics.port as nat) + "）"@,
            LocalServerReachability::Reachable => if port == Some(diagnostics.port) {
                "ローカルサーバー: 到達可能（127.0.0.1:"@ + text::decimal(diagnostics.port as nat)
                    + "）"@
            } else {
                "ローカルサーバー: 到達可能（稼働ポート "@ + text::decimal(diagnostics.port as nat)
                    + "。入力中のURLとは不一致）"@
            },
            LocalServerReachability::Stopped =>
            "ローカルサーバー: 停止（StreamPainterを再起動してください）"@,
        },
    }
}

pub open spec fn connection_browser_label(
    diagnostics: Option<LocalServerDiagnosticsSnapshot>,
) -> Seq<char> {
    match diagnostics {
        None => "OBS Browser Source: 未接続（通常起動後にトレイから確認してください）"@,
        Some(diagnostics) => match diagnostics.reachability {
            LocalServerReachability::Starting =>
            "OBS Browser Source: 未接続（ローカルサーバー起動中）"@,
            LocalServerReachability::Stopped =>
            "OBS Browser Source: 未接続（ローカルサーバーが停止中）"@,
            LocalServerReachability::Reachable => if diagnostics.browser_subscribers == 0 {
                "OBS Browser Source: 未接続（OBSのURLを確認してソースを更新してください）"@
            } else {
                "OBS Browser Source: 接続済み（"@ + text::decimal(
                    diagnostics.browser_subscribers as nat,
                ) + "接続）"@
            },
        },
    }
}

fn numbered(before: &str, number: u64, after: &str) -> (line: String)
    ensures
        line@ == before@ + text::decimal(number as nat) + after@,
{
    let mut line = before.to_owned();
    text::push_decimal(&mut line, number);
    line.append(after);
    line
}

/// The two lines that say how the server and the connected pages are doing.
pub fn connection_status_labels(
    port_text: &str,
    diagnostics: Option<LocalServerDiagnosticsSnapshot>,
) -> (labels: (String, String))
    ensures
        labels.0@ == connection_server_label(parsed_u16(text::trimmed(port_text@)), diagnostics),
        labels.1@ == connection_browser_label(diagnostics),
{
    let port = parse_u16(text::trim(port_text));
    let diagnostics = match diagnostics {
        Some(diagnostics) => diagnostics,
        None => {
            return (
                "ローカルサーバー: この設定専用プロセスでは停止中".to_owned(),
                "OBS Browser Source: 未接続（通常起動後にトレイから確認してください）".to_owned(),
            );
        },
    };
    let matches_port = match port {
        Some(port) => port == diagnostics.port,
        None => false,
    };
    let running: u64 = diagnostics.port as u64;
    let server = match diagnostics.reachability {
        LocalServerReachability::Starting => numbered(
            "ローカルサーバー: 起動中（ポート ",
            running,
            "）",
        ),
        LocalServerReachability::Reachable => if matches_port {
            numbered("ローカルサーバー: 到達可能（127.0.0.1:", running, "）")
        } else {
            numbered(
                "ローカルサーバー: 到達可能（稼働ポート ",
                running,
                "。入力中のURLとは不一致）",
            )
        },
        LocalServerReachability::Stopped =>
        "ローカルサーバー: 停止（StreamPainterを再起動してください）".to_owned(),
    };
    let browser = match diagnostics.reachability {
        LocalServerReachability::Starting =>
        "OBS Browser Source: 未接続（ローカルサーバー起動中）".to_owned(),
        LocalServerReachability::Stopped =>
        "OBS Browser Source: 未接続（ローカルサーバーが停止中）".to_owned(),
        LocalServerReachability::Reachable => if diagnostics.browser_subscribers == 0 {
            "OBS Browser Source: 未接続（OBSのURLを確認してソースを更新してください）".to_owned()
        } else {
            numbered(
                "OBS Browser Source: 接続済み（",
                diagnostics.browser_subscribers as u64,
                "接続）",
            )
        },
    };
    (server, browser)
}

/// The address that OBS is to show, from the text of the field for the port.
pub fn overlay_url(port_text: &str) -> (url: String)
    ensures
        url@ == "http://127.0.0.1:"@ + text::trimmed(port_text@) + "/overlay"@,
{
    let inner = text::trim(port_text);
    "http://127.0.0.1:".to_owned().concat(inner).concat("/overlay")
}

/// What a key in the field for the hotkey does.
#[derive(Clone, Copy, Debug, PartialEq, Eq, Structural)]
pub enum KeyCapture {
    /// The message is none of the field's concern.
    Pass,
    /// The field takes the message and nothing happens.
    Swallow,
    /// The key with these modifiers is wanted as the hotkey.
    Take { key: u32, modifiers: u32 },
}

/// The modifier keys that are held.
#[derive(Clone, Copy, Debug, PartialEq, Eq, Structural)]
pub struct HeldKeys {
    pub control: bool,
    pub alt: bool,
    pub shift: bool,
    pub left_windows: bool,
    pub right_windows: bool,
}

pub open spec fn bit_if(held: bool, bit: u32) -> u32 {
    if held {
        bit
    } else {
        0
    }
}

impl HeldKeys {
    /// The modifier bits of the held keys.
    pub open spec fn bits(self) -> u32 {
        (bit_if(self.control, HOTKEY_MOD_CTRL) + bit_if(self.alt, HOTKEY_MOD_ALT) + bit_if(
            self.shift,
            HOTKEY_MOD_SHIFT,
        ) + bit_if(self.left_windows || self.right_windows, HOTKEY_MOD_WIN)) as u32
    }

    pub fn modifiers(&self) -> (modifiers: u32)
        ensures
            modifiers == self.bits(),
    {
        let mut modifiers: u32 = 0;
        if self.control {
            modifiers = modifiers + HOTKEY_MOD_CTRL;
        }
        if self.alt {
            modifiers = modifiers + HOTKEY_MOD_ALT;
        }
        if self.shift {
            modifiers = modifiers + HOTKEY_MOD_SHIFT;
        }
        if self.left_windows || self.right_windows {
            modifiers = modifiers + HOTKEY_MOD_WIN;
        }
        modifiers
    }
}

pub open spec fn is_modifier_key(key: u32) -> bool {
    key == VK_CONTROL || key == VK_MENU || key == VK_SHIFT || key == VK_LWIN || key == VK_RWIN
}

/// What a message for the field that takes the hotkey does. Tab and Escape alone keep their
/// meaning in a dialog.
pub open spec fn capture_of(message: u32, key: u32, modifiers: u32) -> KeyCapture {
    let down = message == WM_KEYDOWN || message == WM_SYSKEYDOWN;
    let up = message == WM_KEYUP || message == WM_SYSKEYUP;
    if !down && !up {
        KeyCapture::Pass
    } else if modifiers == 0 && (key == VK_TAB || key == VK_ESCAPE) {
        KeyCapture::Pass
    } else if up || is_modifier_key(key) {
        KeyCapture::Swallow
    } else {
        KeyCapture::Take { key, modifiers }
    }
}

pub fn capture_hotkey(message: u32, key: u32, held: HeldKeys) -> (capture: KeyCapture)
    ensures
        capture == capture_of(message, key, held.bits()),
{
    let down = message == WM_KEYDOWN || message == WM_SYSKEYDOWN;
    let up = message == WM_KEYUP || message == WM_SYSKEYUP;
    if !down && !up {
        return KeyCapture::Pass;
    }
    let modifiers: u32 = held.modifiers();
    if modifiers == 0 && (key == VK_TAB || key == VK_ESCAPE) {
        return KeyCapture::Pass;
    }
    let modifier_key = key == VK_CONTROL || key == VK_MENU || key == VK_SHIFT || key == VK_LWIN
        || key == VK_RWIN;
    if up || modifier_key {
        KeyCapture::Swallow
    } else {
        KeyCapture::Take { key, modifiers }
    }
}

/// What is shown for a key that cannot be the hotkey.
pub fn refused_key_text(reason: &str) -> (line: String)
    ensures
        line@ == "使用できないキー: "@ + reason@,
{
    "使用できないキー: ".to_owned().concat(reason)
}

/// What a message asks of the window.
#[derive(Clone, Copy, Debug, PartialEq, Eq, Structural)]
pub enum SettingsCommand {
    /// The field for the port has changed.
    PortChanged,
    CopyUrl,
    ClearHotkey,
    DefaultHotkey,
    StampSelected,
    AddStamp,
    RemoveStamp,
    Save,
    Close,
    DiagnosticsChanged,
    /// The window is gone; the message goes on to the system.
    Destroyed,
    /// The message goes to the system.
    Default,
}

pub open spec fn command_of(message: u32, wparam: usize) -> SettingsCommand {
    let id = wparam % 0x10000;
    let notification = (wparam / 0x10000) % 0x10000;
    if message == WM_COMMAND {
        if id == ID_PORT && notification == EN_CHANGE {
            SettingsCommand::PortChanged
        } else if id == ID_COPY_OVERLAY_URL {
            SettingsCommand::CopyUrl
        } else if id == ID_HOTKEY_CLEAR {
            SettingsCommand::ClearHotkey
        } else if id == ID_HOTKEY_DEFAULT {
            SettingsCommand::DefaultHotkey
        } else if id == ID_STAMP_LIST && notification == LBN_SELCHANGE {
            SettingsCommand::StampSelected
        } else if id == ID_STAMP_ADD {
            SettingsCommand::AddStamp
        } else if id == ID_STAMP_REMOVE {
            SettingsCommand::RemoveStamp
        } else if id == ID_SAVE {
            SettingsCommand::Save
        } else if id == ID_CANCEL {
            SettingsCommand::Close
        } else {
            SettingsCommand::Default
        }
    } else if message == WM_DIAGNOSTICS_CHANGED {
        SettingsCommand::DiagnosticsChanged
    } else if message == WM_CLOSE {
        SettingsCommand::Close
    } else if message == WM_NCDESTROY {
        SettingsCommand::Destroyed
    } else {
        SettingsCommand::Default
    }
}

/// What a message asks of the window.
pub fn settings_command(message: u32, wparam: usize) -> (command: SettingsCommand)
    ensures
        command == command_of(message, wparam),
{
    match message {
        WM_COMMAND => {
            let id: i32 = (wparam % 0x10000) as i32;
            let notification: u32 = ((wparam / 0x10000) % 0x10000) as u32;
            if id == ID_PORT && notification == EN_CHANGE {
                SettingsCommand::PortChanged
            } else if id == ID_COPY_OVERLAY_URL {
                SettingsCommand::CopyUrl
            } else if id == ID_HOTKEY_CLEAR {
                SettingsCommand::ClearHotkey
            } else if id == ID_HOTKEY_DEFAULT {
                SettingsCommand::DefaultHotkey
            } else if id == ID_STAMP_LIST && notification == LBN_SELCHANGE {
                SettingsCommand::StampSelected
            } else if id == ID_STAMP_ADD {
                SettingsCommand::AddStamp
            } else if id == ID_STAMP_REMOVE {
                SettingsCommand::RemoveStamp
            } else if id == ID_SAVE {
                SettingsCommand::Save
            } else if id == ID_CANCEL {
                SettingsCommand::Close
            } else {
                SettingsCommand::Default
            }
        },
        WM_DIAGNOSTICS_CHANGED => SettingsCommand::DiagnosticsChanged,
        WM_CLOSE => SettingsCommand::Close,
        WM_NCDESTROY => SettingsCommand::Destroyed,
        _ => SettingsCommand::Default,
    }
}

/// What is said once everything has been saved. `live` says whether the running overlay takes the
/// hotkey over at once.
pub fn saved_message(autostart_available: bool, live: bool) -> (message: &'static str)
    ensures
        message@ == if !autostart_available {
            "設定を保存しました。\nWindows自動起動は状態を取得できなかったため変更していません。その他の設定は再起動すると反映されます。"@
        } else if live {
            "設定を保存しました。\nホットキーとWindows自動起動はすぐに反映されます。その他の設定は再起動すると反映されます。"@
        } else {
            "設定を保存しました。\nWindows自動起動はすぐに反映されます。--settingsで変更したホットキーを含むその他の設定は再起動後に反映されます。"@
        },
{
    if !autostart_available {
        "設定を保存しました。\nWindows自動起動は状態を取得できなかったため変更していません。その他の設定は再起動すると反映されます。"
    } else if live {
        "設定を保存しました。\nホットキーとWindows自動起動はすぐに反映されます。その他の設定は再起動すると反映されます。"
    } else {
        "設定を保存しました。\nWindows自動起動はすぐに反映されます。--settingsで変更したホットキーを含むその他の設定は再起動後に反映されます。"
    }
}

/// Whether a settings window of its own has to try the new hotkey: only where it differs, since an
/// unchanged one may be in use by the running program itself.
pub fn probe_needed(previous: &HotkeyConfig, next: &HotkeyConfig) -> (needed: Result<
    bool,
    HotkeyError,
>)
    ensures
        needed == match (previous.chord, next.chord) {
            (Err(detail), _) => Err(HotkeyError::InvalidConfig { detail }),
            (Ok(_), Err(detail)) => Err(HotkeyError::InvalidConfig { detail }),
            (Ok(before), Ok(after)) => Ok(before != after),
        },
{
    match (&previous.chord, &next.chord) {
        (Err(detail), _) => Err(HotkeyError::InvalidConfig { detail: detail.clone() }),
        (Ok(_), Err(detail)) => Err(HotkeyError::InvalidConfig { detail: detail.clone() }),
        (Ok(before), Ok(after)) => {
            let same = match (before, after) {
                (Some(before), Some(after)) => *before == *after,
                (None, None) => true,
                _ => false,
            };
            Ok(!same)
        },
    }
}

/// A number of sixteen bits is read back as it is written, with a plus sign or without.
pub proof fn law_a_written_number_is_read_back(n: u16)
    ensures
        parsed_u16(text::decimal(n as nat)) == Some(n),
        parsed_u16(seq!['+'] + text::decimal(n as nat)) == Some(n),
{
    lemma_decimal(n as nat);
    let digits = text::decimal(n as nat);
    assert(without_plus(digits) == digits);
    assert((seq!['+'] + digits).skip(1) =~= digits);
}

proof fn lemma_decimal(n: nat)
    ensures
        text::decimal(n).len() > 0,
        all_digits(text::decimal(n)),
        digits_value(text::decimal(n)) == n,
    decreases n,
{
    let digits = text::decimal(n);
    let digit = (48 + n % 10) as char;
    assert('0' <= digit && digit <= '9');
    if n < 10 {
        assert(digits.drop_last() =~= Seq::empty());
        assert(digits_value(digits.drop_last()) == 0);
    } else {
        lemma_decimal(n / 10);
        assert(digits.drop_last() =~= text::decimal(n / 10));
    }
}

/// What is no such number is not read as one: nothing, a sign alone, anything that holds something
/// else than digits behind its sign, and a number that is too large.
pub proof fn law_only_numbers_are_read(s: Seq<char>, i: int)
    ensures
        s.len() == 0 ==> parsed_u16(s) is None,
        s == seq!['+'] ==> parsed_u16(s) is None,
        0 <= i < s.len() && !('0' <= s[i] && s[i] <= '9') && !(i == 0 && s[0] == '+')
            ==> parsed_u16(s) is None,
{
    let digits = without_plus(s);
    if 0 <= i < s.len() && !('0' <= s[i] && s[i] <= '9') && !(i == 0 && s[0] == '+') {
        if s[0] == '+' {
            assert(digits[i - 1] == s[i]);
        } else {
            assert(digits[i] == s[i]);
        }
    }
}

/// Each held key has a bit of its own, either Windows key the same one, and no other bit is set.
pub proof fn law_each_modifier_has_its_own_bit(held: HeldKeys)
    ensures
        (held.bits() & 1 != 0) == held.alt,
        (held.bits() & 2 != 0) == held.control,
        (held.bits() & 4 != 0) == held.shift,
        (held.bits() & 8 != 0) == (held.left_windows || held.right_windows),
        held.bits() < 16,
{
    let bits = held.bits();
    assert(bits < 16);
    assert((bits & 1 != 0) == (bits % 2 == 1)) by (bit_vector);
    assert((bits & 2 != 0) == ((bits / 2) % 2 == 1)) by (bit_vector);
    assert((bits & 4 != 0) == ((bits / 4) % 2 == 1)) by (bit_vector);
    assert((bits & 8 != 0) == ((bits / 8) % 2 == 1)) by (bit_vector);
}

/// A key that goes down becomes the hotkey with what is held, unless it is itself a modifier; Tab
/// and Escape alone keep their meaning, and a key that comes up does nothing.
pub proof fn law_a_pressed_key_becomes_the_hotkey(key: u32, modifiers: u32, message: u32)
    ensures
        ({
            let down = message == WM_KEYDOWN || message == WM_SYSKEYDOWN;
            let up = message == WM_KEYUP || message == WM_SYSKEYUP;
            let alone = modifiers == 0 && (key == VK_TAB || key == VK_ESCAPE);
            let modifier = key == VK_SHIFT || key == VK_CONTROL || key == VK_MENU || key == VK_LWIN
                || key == VK_RWIN;
            let capture = capture_of(message, key, modifiers);
            &&& capture == (KeyCapture::Take { key, modifiers }) <==> down && !alone && !modifier
            &&& capture == KeyCapture::Swallow <==> !alone && (up || (down && modifier))
            &&& capture == KeyCapture::Pass <==> (!down && !up) || alone
        }),
{
}

/// Each control of the window asks for what it is for: the fields and the list when they change,
/// the buttons when they are pressed. Closing the window and its button for it are the same.
pub proof fn law_each_control_asks_for_its_own(id: int, notification: int, wparam: usize)
    requires
        0 <= id < 0x10000,
        0 <= notification < 0x10000,
        wparam == notification * 0x10000 + id,
    ensures
        ({
            let command = command_of(WM_COMMAND, wparam);
            &&& command == SettingsCommand::PortChanged <==> id == ID_PORT && notification
                == EN_CHANGE
            &&& command == SettingsCommand::StampSelected <==> id == ID_STAMP_LIST && notification
                == LBN_SELCHANGE
            &&& command == SettingsCommand::CopyUrl <==> id == ID_COPY_OVERLAY_URL
            &&& command == SettingsCommand::ClearHotkey <==> id == ID_HOTKEY_CLEAR
            &&& command == SettingsCommand::DefaultHotkey <==> id == ID_HOTKEY_DEFAULT
            &&& command == SettingsCommand::AddStamp <==> id == ID_STAMP_ADD
            &&& command == SettingsCommand::RemoveStamp <==> id == ID_STAMP_REMOVE
            &&& command == SettingsCommand::Save <==> id == ID_SAVE
            &&& command == SettingsCommand::Close <==> id == ID_CANCEL
        }),
        command_of(WM_CLOSE, wparam) == SettingsCommand::Close,
        command_of(WM_NCDESTROY, wparam) == SettingsCommand::Destroyed,
        command_of(WM_DIAGNOSTICS_CHANGED, wparam) == SettingsCommand::DiagnosticsChanged,
{
    assert(wparam as int % 0x10000 == id);
    assert(wparam as int / 0x10000 == notification);
}

/// A registration that could not be read is not shown as one, and one that could is shown as it is.
pub proof fn law_the_registration_is_shown_as_read(status: RegistrationStatus)
    ensures
        AutostartUi::loaded(Some(status)) == (AutostartUi::Available { status }),
        AutostartUi::loaded(None) == AutostartUi::Unavailable,
{
}

/// The connected pages are said to be connected, with their number, exactly where the server can be
/// reached and there is one.
pub proof fn law_connected_pages_are_counted(diagnostics: LocalServerDiagnosticsSnapshot)
    ensures
        ({
            let label = connection_browser_label(Some(diagnostics));
            let connected = diagnostics.reachability == LocalServerReachability::Reachable
                && diagnostics.browser_subscribers > 0;
            &&& connected ==> label == "OBS Browser Source: 接続済み（"@ + text::decimal(
                diagnostics.browser_subscribers as nat,
            ) + "接続）"@
            &&& !connected ==> label.len() > 20 && label[20] == '未'
        }),
        connection_browser_label(None)[20] == '未',
{
    reveal_strlit("OBS Browser Source: 未接続（通常起動後にトレイから確認してください）");
    reveal_strlit("OBS Browser Source: 未接続（ローカルサーバー起動中）");
    reveal_strlit("OBS Browser Source: 未接続（ローカルサーバーが停止中）");
    reveal_strlit(
        "OBS Browser Source: 未接続（OBSのURLを確認してソースを更新してください）",
    );
}

/// The server is said to be reachable, at its port, exactly where it is, and a field for the port
/// that holds another one is pointed out; one that starts is said to, at its port.
pub proof fn law_the_server_is_told_with_its_port(
    port: Option<u16>,
    diagnostics: LocalServerDiagnosticsSnapshot,
)
    ensures
        ({
            let label = connection_server_label(port, Some(diagnostics));
            let number = text::decimal(diagnostics.port as nat);
            match diagnostics.reachability {
                LocalServerReachability::Starting => label == "ローカルサーバー: 起動中（ポート "@
                    + number + "）"@,
                LocalServerReachability::Reachable => if port == Some(diagnostics.port) {
                    label == "ローカルサーバー: 到達可能（127.0.0.1:"@ + number + "）"@
                } else {
                    label == "ローカルサーバー: 到達可能（稼働ポート "@ + number
                        + "。入力中のURLとは不一致）"@
                },
                LocalServerReachability::Stopped => label
                    == "ローカルサーバー: 停止（StreamPainterを再起動してください）"@,
            }
        }),
        connection_server_label(port, None) == "ローカルサーバー: この設定専用プロセスでは停止中"@,
{
}

/// A number that does not fit into sixteen bits is not read, and zeros before a number do not
/// matter.
pub proof fn law_a_number_has_to_fit(n: nat)
    ensures
        n > 0xFFFF ==> parsed_u16(text::decimal(n)) is None,
        parsed_u16(seq!['0'] + text::decimal(n)) == parsed_u16(text::decimal(n)),
{
    lemma_decimal(n);
    let digits = text::decimal(n);
    let padded = seq!['0'] + digits;
    assert(without_plus(digits) == digits);
    assert(without_plus(padded) == padded);
    lemma_padded(digits);
    assert forall|i: int| 0 <= i < padded.len() implies '0' <= #[trigger] padded[i] && padded[i]
        <= '9' by {
        if i > 0 {
            assert(padded[i] == digits[i - 1]);
        }
    }
}

proof fn lemma_padded(digits: Seq<char>)
    ensures
        digits_value(seq!['0'] + digits) == digits_value(digits),
    decreases digits.len(),
{
    let padded = seq!['0'] + digits;
    if digits.len() > 0 {
        lemma_padded(digits.drop_last());
        assert(padded.drop_last() =~= seq!['0'] + digits.drop_last());
    } else {
        assert(padded.drop_last() =~= Seq::empty());
        assert(digits_value(padded.drop_last()) == 0);
    }
}

} // verus!
