//! The tray icon: its tip, its menu, and what the menu's commands do.

use vstd::prelude::*;

use crate::overlay::{Effect, Overlay};
use crate::text;

verus! {

pub const TRAY_ID: u32 = 1;

/// Length of the system's buffer for a tip, with its closing zero.
pub const TIP_UNITS: usize = 128;

pub const WM_CONTEXTMENU: u32 = 0x007B;

pub const WM_LBUTTONUP: u32 = 0x0202;

pub const WM_RBUTTONUP: u32 = 0x0205;

pub const MENU_TOGGLE: usize = 1;

pub const MENU_COPY_OVERLAY_URL: usize = 2;

pub const MENU_SETTINGS: usize = 3;

pub const MENU_LOGS: usize = 4;

pub const MENU_LICENSES: usize = 5;

pub const MENU_EXIT: usize = 6;

pub const MENU_SERVER_STATUS: usize = 100;

pub const MENU_BROWSER_STATUS: usize = 101;

#[derive(Debug, Clone, Copy, PartialEq, Eq, Structural)]
pub enum TrayCommand {
    ToggleMode,
    CopyOverlayUrl,
    Settings,
    Logs,
    Licenses,
    Exit,
}

/// The text of the tip. It names the hotkey, where there is one.
pub open spec fn tip_text(hotkey: Option<&str>) -> Seq<char> {
    match hotkey {
        Some(hotkey) => "StreamPainter ("@ + hotkey@ + ": 描画モード切替)"@,
        None => "StreamPainter (描画モードはトレイから切替)"@,
    }
}

/// The tip in the system's buffer: cut where it is too long, and always closed by a zero.
pub fn tip_units(hotkey: Option<&str>) -> (buffer: Vec<u16>)
    ensures
        buffer@ == Seq::new(
            TIP_UNITS as nat,
            |i: int|
                if i < TIP_UNITS - 1 && i < text::utf16(tip_text(hotkey)).len() {
                    text::utf16(tip_text(hotkey))[i]
                } else {
                    0u16
                },
        ),
{
    let tip = match hotkey {
        Some(hotkey) => "StreamPainter (".to_owned().concat(hotkey).concat(": 描画モード切替)"),
        None => "StreamPainter (描画モードはトレイから切替)".to_owned(),
    };
    let mut units: Vec<u16> = Vec::new();
    text::push_utf16(&mut units, &tip);
    assert(units@ =~= text::utf16(tip_text(hotkey)));
    let mut buffer: Vec<u16> = Vec::new();
    for i in 0..TIP_UNITS
        invariant
            units@ == text::utf16(tip_text(hotkey)),
            buffer@.len() == i,
            forall|j: int|
                0 <= j < i ==> buffer@[j] == if j < TIP_UNITS - 1 && j < units@.len() {
                    units@[j]
                } else {
                    0u16
                },
    {
        if i < TIP_UNITS - 1 && i < units.len() {
            buffer.push(units[i]);
        } else {
            buffer.push(0);
        }
    }
    assert(buffer@ =~= Seq::new(
        TIP_UNITS as nat,
        |i: int|
            if i < TIP_UNITS - 1 && i < text::utf16(tip_text(hotkey)).len() {
                text::utf16(tip_text(hotkey))[i]
            } else {
                0u16
            },
    ));
    buffer
}

#[derive(Clone, Copy, Debug, PartialEq, Eq, Structural)]
pub enum LocalServerReachability {
    Starting,
    Reachable,
    Stopped,
}

/// How the local server and the pages that it serves are doing.
#[derive(Clone, Copy, Debug, PartialEq, Eq, Structural)]
pub struct LocalServerDiagnosticsSnapshot {
    pub port: u16,
    pub reachability: LocalServerReachability,
    pub browser_subscribers: usize,
}

pub open spec fn server_label(diagnostics: LocalServerDiagnosticsSnapshot) -> Seq<char> {
    match diagnostics.reachability {
        LocalServerReachability::Starting => "ローカルサーバー: 起動中 ("@ + text::decimal(
            diagnostics.port as nat,
        ) + ")"@,
        LocalServerReachability::Reachable => "ローカルサーバー: 到達可能 ("@ + text::decimal(
            diagnostics.port as nat,
        ) + ")"@,
        LocalServerReachability::Stopped => "ローカルサーバー: 停止"@,
    }
}

/// Pages count as connected only while the server can be reached.
pub open spec fn browser_label(diagnostics: LocalServerDiagnosticsSnapshot) -> Seq<char> {
    if diagnostics.reachability == LocalServerReachability::Reachable
        && diagnostics.browser_subscribers > 0 {
        "OBS Browser Source: 接続済み ("@ + text::decimal(diagnostics.browser_subscribers as nat)
            + "接続)"@
    } else {
        "OBS Browser Source: 未接続"@
    }
}

/// The two lines that say how the server and the pages are doing.
pub fn diagnostics_labels(diagnostics: LocalServerDiagnosticsSnapshot) -> (labels: (String, String))
    ensures
        labels.0@ == server_label(diagnostics),
        labels.1@ == browser_label(diagnostics),
{
    let server = match diagnostics.reachability {
        LocalServerReachability::Starting => {
            let mut label = "ローカルサーバー: 起動中 (".to_owned();
            text::push_decimal(&mut label, diagnostics.port as u64);
            label.append(")");
            label
        },
        LocalServerReachability::Reachable => {
            let mut label = "ローカルサーバー: 到達可能 (".to_owned();
            text::push_decimal(&mut label, diagnostics.port as u64);
            label.append(")");
            label
        },
        LocalServerReachability::Stopped => "ローカルサーバー: 停止".to_owned(),
    };
    let browser = if diagnostics.reachability == LocalServerReachability::Reachable
        && diagnostics.browser_subscribers > 0 {
        let mut label = "OBS Browser Source: 接続済み (".to_owned();
        text::push_decimal(&mut label, diagnostics.browser_subscribers as u64);
        label.append("接続)");
        label
    } else {
        "OBS Browser Source: 未接続".to_owned()
    };
    (server, browser)
}

/// A line of the tray menu; one that is not enabled only informs.
#[derive(Debug)]
pub enum TrayEntry {
    Item { id: usize, label: String, enabled: bool },
    Separator,
}

/// What a line of the tray menu shows.
pub enum TrayModel {
    Item(int, Seq<char>, bool),
    Separator,
}

impl View for TrayEntry {
    type V = TrayModel;

    open spec fn view(&self) -> TrayModel {
        match self {
            TrayEntry::Item { id, label, enabled } => TrayModel::Item(*id as int, label@, *enabled),
            TrayEntry::Separator => TrayModel::Separator,
        }
    }
}

/// The tray menu.
pub open spec fn tray_model(
    hotkey: Option<&str>,
    diagnostics: LocalServerDiagnosticsSnapshot,
) -> Seq<TrayModel> {
    seq![
        TrayModel::Item(
            MENU_TOGGLE as int,
            match hotkey {
                Some(hotkey) => "描画モード切替 ("@ + hotkey@ + ")"@,
                None => "描画モード切替"@,
            },
            true,
        ),
        TrayModel::Item(MENU_COPY_OVERLAY_URL as int, "OBS Browser Source URLをコピー"@, true),
        TrayModel::Item(MENU_SERVER_STATUS as int, server_label(diagnostics), false),
        TrayModel::Item(MENU_BROWSER_STATUS as int, browser_label(diagnostics), false),
        TrayModel::Separator,
        TrayModel::Item(MENU_SETTINGS as int, "設定..."@, true),
        TrayModel::Item(MENU_LOGS as int, "ログフォルダー..."@, true),
        TrayModel::Item(MENU_LICENSES as int, "第三者ライセンス..."@, true),
        TrayModel::Separator,
        TrayModel::Item(MENU_EXIT as int, "終了"@, true),
    ]
}

fn item(id: usize, label: &str) -> (entry: TrayEntry)
    ensures
        entry@ == TrayModel::Item(id as int, label@, true),
{
    TrayEntry::Item { id, label: label.to_owned(), enabled: true }
}

/// Whether a notification of the icon opens its menu.
pub fn opens_menu(notification: u32) -> (opens: bool)
    ensures
        opens == (notification == WM_RBUTTONUP || notification == WM_LBUTTONUP || notification
            == WM_CONTEXTMENU),
{
    notification == WM_RBUTTONUP || notification == WM_LBUTTONUP || notification == WM_CONTEXTMENU
}

/// The entries of the tray menu.
pub fn tray_entries(hotkey: Option<&str>, diagnostics: LocalServerDiagnosticsSnapshot) -> (entries:
    Vec<TrayEntry>)
    ensures
        Seq::new(entries@.len(), |i: int| entries@[i]@) == tray_model(hotkey, diagnostics),
{
    let mut entries: Vec<TrayEntry> = Vec::new();
    let toggle = match hotkey {
        Some(hotkey) => "描画モード切替 (".to_owned().concat(hotkey).concat(")"),
        None => "描画モード切替".to_owned(),
    };
    let (server, browser) = diagnostics_labels(diagnostics);
    entries.push(TrayEntry::Item { id: MENU_TOGGLE, label: toggle, enabled: true });
    entries.push(item(MENU_COPY_OVERLAY_URL, "OBS Browser Source URLをコピー"));
    entries.push(TrayEntry::Item { id: MENU_SERVER_STATUS, label: server, enabled: false });
    entries.push(TrayEntry::Item { id: MENU_BROWSER_STATUS, label: browser, enabled: false });
    entries.push(TrayEntry::Separator);
    entries.push(item(MENU_SETTINGS, "設定..."));
    entries.push(item(MENU_LOGS, "ログフォルダー..."));
    entries.push(item(MENU_LICENSES, "第三者ライセンス..."));
    entries.push(TrayEntry::Separator);
    entries.push(item(MENU_EXIT, "終了"));
    assert(Seq::new(entries@.len(), |i: int| entries@[i]@) =~= tray_model(hotkey, diagnostics));
    entries
}

pub open spec fn command_model(selected: usize) -> Option<TrayCommand> {
    if selected == MENU_TOGGLE {
        Some(TrayCommand::ToggleMode)
    } else if selected == MENU_COPY_OVERLAY_URL {
        Some(TrayCommand::CopyOverlayUrl)
    } else if selected == MENU_SETTINGS {
        Some(TrayCommand::Settings)
    } else if selected == MENU_LOGS {
        Some(TrayCommand::Logs)
    } else if selected == MENU_LICENSES {
        Some(TrayCommand::Licenses)
    } else if selected == MENU_EXIT {
        Some(TrayCommand::Exit)
    } else {
        None
    }
}

/// The command behind the entry that was chosen, if any.
pub fn command_for(selected: usize) -> (command: Option<TrayCommand>)
    ensures
        command == command_model(selected),
{
    match selected {
        MENU_TOGGLE => Some(TrayCommand::ToggleMode),
        MENU_COPY_OVERLAY_URL => Some(TrayCommand::CopyOverlayUrl),
        MENU_SETTINGS => Some(TrayCommand::Settings),
        MENU_LOGS => Some(TrayCommand::Logs),
        MENU_LICENSES => Some(TrayCommand::Licenses),
        MENU_EXIT => Some(TrayCommand::Exit),
        _ => None,
    }
}

/// What the caller opens for a command.
#[derive(Clone, Copy, Debug, PartialEq, Eq, Structural)]
pub enum TrayService {
    Nothing,
    CopyOverlayUrl,
    OpenSettings,
    OpenLogs,
    OpenLicenses,
    /// Close the overlay's window, and with it the program.
    Destroy,
}

impl TrayService {
    /// What is done once the service is over: the projector is looked for, unless the program ends.
    pub fn follow_up(self) -> (effect: Option<Effect>)
        ensures
            effect == if self == TrayService::Destroy {
                None
            } else {
                Some(Effect::PollProjector)
            },
    {
        match self {
            TrayService::Destroy => None,
            _ => Some(Effect::PollProjector),
        }
    }
}

impl TrayCommand {
    /// Whether the command ends drawing first, so that what it opens is not covered.
    pub open spec fn ends_drawing(self) -> bool {
        self == TrayCommand::Settings || self == TrayCommand::Logs || self == TrayCommand::Licenses
    }

    pub open spec fn service(self) -> TrayService {
        match self {
            TrayCommand::ToggleMode => TrayService::Nothing,
            TrayCommand::CopyOverlayUrl => TrayService::CopyOverlayUrl,
            TrayCommand::Settings => TrayService::OpenSettings,
            TrayCommand::Logs => TrayService::OpenLogs,
            TrayCommand::Licenses => TrayService::OpenLicenses,
            TrayCommand::Exit => TrayService::Destroy,
        }
    }
}

impl Overlay {
    pub open spec fn after_tray(self, command: Option<TrayCommand>, settings_open: bool) -> Self {
        match command {
            Some(TrayCommand::ToggleMode) => self.toggled(settings_open),
            Some(command) => if command.ends_drawing() {
                self.in_mode(false)
            } else {
                self
            },
            None => self,
        }
    }

    pub open spec fn tray_effects(
        self,
        command: Option<TrayCommand>,
        settings_open: bool,
        input_under_way: bool,
    ) -> Seq<Effect> {
        match command {
            Some(TrayCommand::ToggleMode) => self.toggle_effects(settings_open, input_under_way),
            Some(TrayCommand::Settings) => seq![Effect::CancelProjectorRequest]
                + self.mode_effects(false, input_under_way),
            Some(command) => if command.ends_drawing() {
                self.mode_effects(false, input_under_way)
            } else {
                Seq::empty()
            },
            None => Seq::empty(),
        }
    }

    /// Takes what was chosen in the tray menu, and says what is to be opened after the effects.
    /// What follows it is said by [`TrayService::follow_up`].
    pub fn on_tray(
        &mut self,
        command: Option<TrayCommand>,
        settings_open: bool,
        input_under_way: bool,
        effects: &mut Vec<Effect>,
    ) -> (service: TrayService)
        ensures
            *final(self) == old(self).after_tray(command, settings_open),
            final(effects)@ == old(effects)@ + old(self).tray_effects(
                command,
                settings_open,
                input_under_way,
            ),
            service == match command {
                Some(command) => command.service(),
                None => TrayService::Nothing,
            },
            old(self).well_formed() ==> final(self).well_formed(),
    {
        let command = match command {
            Some(command) => command,
            None => {
                assert(effects@ =~= old(effects)@ + Seq::empty());
                return TrayService::Nothing;
            },
        };
        match command {
            TrayCommand::ToggleMode => {
                self.toggle_mode(settings_open, input_under_way, effects);
                TrayService::Nothing
            },
            TrayCommand::CopyOverlayUrl => {
                assert(effects@ =~= old(effects)@ + Seq::empty());
                TrayService::CopyOverlayUrl
            },
            TrayCommand::Settings => {
                effects.push(Effect::CancelProjectorRequest);
                self.set_draw_mode(false, input_under_way, effects);
                assert(effects@ =~= old(effects)@ + (seq![Effect::CancelProjectorRequest] + old(
                    self,
                ).mode_effects(false, input_under_way)));
                TrayService::OpenSettings
            },
            TrayCommand::Logs => {
                self.set_draw_mode(false, input_under_way, effects);
                TrayService::OpenLogs
            },
            TrayCommand::Licenses => {
                self.set_draw_mode(false, input_under_way, effects);
                TrayService::OpenLicenses
            },
            TrayCommand::Exit => {
                assert(effects@ =~= old(effects)@ + Seq::empty());
                TrayService::Destroy
            },
        }
    }
}

/// Exactly the lines of the tray menu that can be chosen have a command.
pub proof fn law_the_tray_menu_offers_exactly_its_commands(
    hotkey: Option<&str>,
    diagnostics: LocalServerDiagnosticsSnapshot,
    selected: usize,
)
    ensures
        command_model(selected) is Some <==> exists|i: int|
            0 <= i < tray_model(hotkey, diagnostics).len() && (#[trigger] tray_model(
                hotkey,
                diagnostics,
            )[i] matches TrayModel::Item(id, _, enabled) && id == selected && enabled),
{
    let model = tray_model(hotkey, diagnostics);
    assert(model[0]->Item_0 == MENU_TOGGLE);
    assert(model[1]->Item_0 == MENU_COPY_OVERLAY_URL);
    assert(model[5]->Item_0 == MENU_SETTINGS);
    assert(model[6]->Item_0 == MENU_LOGS);
    assert(model[7]->Item_0 == MENU_LICENSES);
    assert(model[9]->Item_0 == MENU_EXIT);
    assert(model.len() == 10);
}

/// Each line of the tray menu that can be chosen does what it says.
pub proof fn law_a_tray_line_does_what_it_says(
    hotkey: Option<&str>,
    diagnostics: LocalServerDiagnosticsSnapshot,
)
    ensures
        ({
            let model = tray_model(hotkey, diagnostics);
            let does = |line: TrayModel, label: Seq<char>, command: TrayCommand| {
                &&& line is Item
                &&& line->Item_1 == label
                &&& command_model(line->Item_0 as usize) == Some(command)
            };
            &&& model.len() == 10
            &&& hotkey matches Some(key) ==> does(
                model[0],
                "描画モード切替 ("@ + key@ + ")"@,
                TrayCommand::ToggleMode,
            )
            &&& hotkey is None ==> does(model[0], "描画モード切替"@, TrayCommand::ToggleMode)
            &&& does(model[1], "OBS Browser Source URLをコピー"@, TrayCommand::CopyOverlayUrl)
            &&& does(model[5], "設定..."@, TrayCommand::Settings)
            &&& does(model[6], "ログフォルダー..."@, TrayCommand::Logs)
            &&& does(model[7], "第三者ライセンス..."@, TrayCommand::Licenses)
            &&& does(model[9], "終了"@, TrayCommand::Exit)
            &&& model[2] == TrayModel::Item(
                MENU_SERVER_STATUS as int,
                server_label(diagnostics),
                false,
            )
            &&& model[3] == TrayModel::Item(
                MENU_BROWSER_STATUS as int,
                browser_label(diagnostics),
                false,
            )
        }),
{
}

/// What a command of the tray opens is what it is for. Whatever opens a window ends drawing first,
/// so that it is not covered, and the settings give up a request for a projector before that.
/// Copying the address and leaving change nothing, and the toggle toggles.
pub proof fn law_the_tray_opens_what_was_chosen(
    overlay: Overlay,
    settings_open: bool,
    input_under_way: bool,
)
    ensures
        TrayCommand::ToggleMode.service() == TrayService::Nothing,
        TrayCommand::CopyOverlayUrl.service() == TrayService::CopyOverlayUrl,
        TrayCommand::Settings.service() == TrayService::OpenSettings,
        TrayCommand::Logs.service() == TrayService::OpenLogs,
        TrayCommand::Licenses.service() == TrayService::OpenLicenses,
        TrayCommand::Exit.service() == TrayService::Destroy,
        ({
            let after = |command: TrayCommand| overlay.after_tray(Some(command), settings_open);
            let effects = |command: TrayCommand| overlay.tray_effects(
                Some(command),
                settings_open,
                input_under_way,
            );
            let off = overlay.mode_effects(false, input_under_way);
            &&& !after(TrayCommand::Settings).draw_mode && !after(TrayCommand::Logs).draw_mode
                && !after(TrayCommand::Licenses).draw_mode
            &&& after(TrayCommand::Settings) == overlay.in_mode(false)
            &&& after(TrayCommand::Logs) == overlay.in_mode(false)
            &&& after(TrayCommand::Licenses) == overlay.in_mode(false)
            &&& effects(TrayCommand::Settings) == seq![Effect::CancelProjectorRequest] + off
            &&& effects(TrayCommand::Logs) == off
            &&& effects(TrayCommand::Licenses) == off
            &&& after(TrayCommand::CopyOverlayUrl) == overlay && effects(
                TrayCommand::CopyOverlayUrl,
            ).len() == 0
            &&& after(TrayCommand::Exit) == overlay && effects(TrayCommand::Exit).len() == 0
            &&& after(TrayCommand::ToggleMode) == overlay.toggled(settings_open)
            &&& effects(TrayCommand::ToggleMode) == overlay.toggle_effects(
                settings_open,
                input_under_way,
            )
        }),
        overlay.after_tray(None, settings_open) == overlay,
        overlay.tray_effects(None, settings_open, input_under_way).len() == 0,
{
}

/// Pages count as connected exactly while the server can be reached and someone is there; the
/// server's line names its port while it has one.
pub proof fn law_the_tray_tells_what_is_connected(diagnostics: LocalServerDiagnosticsSnapshot)
    ensures
        ({
            let reachable = diagnostics.reachability == LocalServerReachability::Reachable;
            let port = text::decimal(diagnostics.port as nat);
            &&& browser_label(diagnostics) == if reachable && diagnostics.browser_subscribers > 0 {
                "OBS Browser Source: 接続済み ("@ + text::decimal(
                    diagnostics.browser_subscribers as nat,
                ) + "接続)"@
            } else {
                "OBS Browser Source: 未接続"@
            }
            &&& reachable ==> server_label(diagnostics) == "ローカルサーバー: 到達可能 ("@ + port
                + ")"@
            &&& diagnostics.reachability == LocalServerReachability::Starting ==> server_label(
                diagnostics,
            ) == "ローカルサーバー: 起動中 ("@ + port + ")"@
            &&& diagnostics.reachability == LocalServerReachability::Stopped ==> server_label(
                diagnostics,
            ) == "ローカルサーバー: 停止"@
        }),
{
}

} // verus!
