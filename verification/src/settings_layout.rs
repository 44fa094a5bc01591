//! The settings window: its controls and where they stand.
//!
//! Places are given for a screen of 96 dots per inch and scaled to the one at hand.

use vstd::prelude::*;

use crate::monitor::Monitor;
use crate::text;

verus! {

pub const ID_SAVE: i32 = 1;

pub const ID_CANCEL: i32 = 2;

pub const ID_OVERLAY_URL: i32 = 100;

pub const ID_PORT: i32 = 101;

pub const ID_MONITOR: i32 = 102;

pub const ID_ASPECT: i32 = 103;

pub const ID_LOCAL_ECHO: i32 = 104;

pub const ID_FOLLOW_PROJECTOR: i32 = 105;

pub const ID_OBS_CONTROL: i32 = 106;

pub const ID_OBS_URL: i32 = 107;

pub const ID_OBS_PASSWORD: i32 = 108;

pub const ID_PROJECTOR_VIEW: i32 = 109;

pub const ID_CLOSE_PROJECTOR: i32 = 110;

pub const ID_BRUSH_COLOR: i32 = 111;

pub const ID_BRUSH_WIDTH: i32 = 112;

pub const ID_STAMP_LIST: i32 = 113;

pub const ID_STAMP_ADD: i32 = 114;

pub const ID_STAMP_REMOVE: i32 = 115;

pub const ID_STAMP_NAME: i32 = 116;

pub const ID_STAMP_SIZE: i32 = 117;

pub const ID_STAMP_OPACITY: i32 = 118;

pub const ID_COPY_OVERLAY_URL: i32 = 119;

pub const ID_SERVER_STATUS: i32 = 120;

pub const ID_BROWSER_STATUS: i32 = 121;

pub const ID_HOTKEY_CAPTURE: i32 = 122;

pub const ID_HOTKEY_CLEAR: i32 = 123;

pub const ID_HOTKEY_DEFAULT: i32 = 124;

pub const ID_AUTOSTART: i32 = 125;

pub const ID_AUTOSTART_STATUS: i32 = 126;

pub const ID_CONFIRM_BEFORE_CLEAR: i32 = 127;

/// Stamps that can be registered.
pub const MAX_STAMPS: usize = 32;

pub const WINDOW_WIDTH: i32 = 680;

pub const WINDOW_HEIGHT: i32 = 900;

/// The resolution for which places are given, and the lowest that is used.
pub const BASE_DPI: u32 = 96;

/// What an edit field takes.
#[derive(Clone, Copy, Debug, PartialEq, Eq, Structural)]
pub enum EditKind {
    Text,
    Number,
    Password,
    /// Text that can be read and copied.
    Shown,
    /// The field that takes keys for the hotkey.
    Keys,
}

#[derive(Clone, Copy, Debug, PartialEq, Eq, Structural)]
pub enum ControlKind {
    Label,
    Edit(EditKind),
    Combo,
    ListBox,
    CheckBox { checked: bool, enabled: bool },
    Button { default: bool },
}

/// A control of the window, in pixels.
#[derive(Debug)]
pub struct Control {
    pub kind: ControlKind,
    pub id: Option<i32>,
    pub text: String,
    pub x: i32,
    pub y: i32,
    pub width: i32,
    pub height: i32,
}

/// A control of the window, at the base resolution.
pub struct ControlModel {
    pub kind: ControlKind,
    pub id: Option<i32>,
    pub text: Seq<char>,
    pub x: i32,
    pub y: i32,
    pub width: i32,
    pub height: i32,
}

/// `n` divided by `d`, rounded toward zero.
pub open spec fn toward_zero(n: int, d: int) -> int {
    if n >= 0 {
        n / d
    } else {
        -((-n) / d)
    }
}

/// A length in dots, from one at the base resolution: rounded to the nearest, upward in the middle.
pub open spec fn scaled(value: i32, dpi: u32) -> i32 {
    toward_zero(value * dpi + 48, 96) as i32
}

pub fn scale(value: i32, dpi: u32) -> (dots: i32)
    ensures
        dots == scaled(value, dpi),
{
    let wide: i64 = value as i64;
    assert(-0x8000_0000 * 0xFFFF_FFFF <= wide * dpi <= 0x7FFF_FFFF * 0xFFFF_FFFF)
        by (nonlinear_arith)
        requires
            -0x8000_0000 <= wide <= 0x7FFF_FFFF,
            0 <= dpi <= 0xFFFF_FFFF,
    ;
    let n: i64 = wide * dpi as i64 + 48;
    let quotient: i64 = if n >= 0 {
        (n as u64 / 96) as i64
    } else {
        -(((-n) as u64 / 96) as i64)
    };
    #[verifier::truncate]
    (quotient as i32)
}

impl Control {
    /// Whether the control is `model`, scaled.
    pub open spec fn is_scaled(self, model: ControlModel, dpi: u32) -> bool {
        &&& self.kind == model.kind
        &&& self.id == model.id
        &&& self.text@ == model.text
        &&& self.x == scaled(model.x, dpi)
        &&& self.y == scaled(model.y, dpi)
        &&& self.width == scaled(model.width, dpi)
        &&& self.height == scaled(model.height, dpi)
    }
}

/// Whether the controls are those of `models`, scaled.
pub open spec fn are_scaled(controls: Seq<Control>, models: Seq<ControlModel>, dpi: u32) -> bool {
    &&& controls.len() == models.len()
    &&& forall|i: int|
        0 <= i < controls.len() ==> (#[trigger] controls[i]).is_scaled(models[i], dpi)
}

fn place(
    controls: &mut Vec<Control>,
    kind: ControlKind,
    id: Option<i32>,
    text: &str,
    area: (i32, i32, i32, i32),
    dpi: u32,
)
    ensures
        final(controls)@.len() == old(controls)@.len() + 1,
        forall|i: int| 0 <= i < old(controls)@.len() ==> final(controls)@[i] == old(controls)@[i],
        final(controls)@[old(controls)@.len() as int].is_scaled(
            control_model(kind, id, text@, area),
            dpi,
        ),
{
    controls.push(
        Control {
            kind,
            id,
            text: text.to_owned(),
            x: scale(area.0, dpi),
            y: scale(area.1, dpi),
            width: scale(area.2, dpi),
            height: scale(area.3, dpi),
        },
    );
}

pub open spec fn control_model(
    kind: ControlKind,
    id: Option<i32>,
    text: Seq<char>,
    area: (i32, i32, i32, i32),
) -> ControlModel {
    ControlModel { kind, id, text, x: area.0, y: area.1, width: area.2, height: area.3 }
}

/// What the window shows when it opens. `brush_width` is the number as text.
#[derive(Debug)]
pub struct SettingsForm {
    pub overlay_url: String,
    pub port: u16,
    pub screen: usize,
    pub canvas_aspect: String,
    pub local_echo: bool,
    pub follow_projector: bool,
    pub obs_control: bool,
    pub obs_websocket_url: String,
    pub obs_websocket_password: String,
    pub preview: bool,
    pub close_projector: bool,
    pub hotkey_name: String,
    pub brush_color: String,
    pub brush_width: String,
    pub confirm_before_clear: bool,
    pub autostart_registered: bool,
    pub autostart_available: bool,
    pub autostart_status: String,
}

/// What is said below the box for the registration with Windows.
pub open spec fn autostart_note(status: Seq<char>) -> Seq<char> {
    status
        + "\n登録が古い場合はONのまま保存で現在のexeへ修復、OFFで解除します。\nその他の設定は再起動後に反映します。ポート変更時はOBSのURLも更新してください。"@
}

/// The address that OBS shows, and the canvas.
pub open spec fn connection_models(form: SettingsForm) -> Seq<ControlModel> {
    seq![
        control_model(ControlKind::Label, None, "OBS Browser Source URL"@, (20, 19, 180, 24)),
        control_model(
            ControlKind::Edit(EditKind::Shown),
            Some(ID_OVERLAY_URL),
            form.overlay_url@,
            (210, 16, 315, 24),
        ),
        control_model(
            ControlKind::Button { default: false },
            Some(ID_COPY_OVERLAY_URL),
            "URLをコピー"@,
            (535, 14, 105, 28),
        ),
        control_model(ControlKind::Label, None, "ローカルサーバーのポート"@, (20, 53, 180, 24)),
        control_model(
            ControlKind::Edit(EditKind::Number),
            Some(ID_PORT),
            text::decimal(form.port as nat),
            (210, 50, 120, 24),
        ),
        control_model(ControlKind::Label, None, "描画対象モニター"@, (20, 87, 180, 24)),
        control_model(ControlKind::Combo, Some(ID_MONITOR), ""@, (210, 84, 430, 240)),
        control_model(ControlKind::Label, None, "キャンバスのアスペクト比"@, (20, 121, 180, 24)),
        control_model(
            ControlKind::Edit(EditKind::Text),
            Some(ID_ASPECT),
            form.canvas_aspect@,
            (210, 118, 120, 24),
        ),
    ]
}

fn connection_controls(form: &SettingsForm, dpi: u32) -> (controls: Vec<Control>)
    ensures
        are_scaled(controls@, connection_models(*form), dpi),
{
    let mut controls: Vec<Control> = Vec::new();
    let mut port = String::new();
    text::push_decimal(&mut port, form.port as u64);
    assert(port@ =~= text::decimal(form.port as nat));
    place(
        &mut controls,
        ControlKind::Label,
        None,
        "OBS Browser Source URL",
        (20, 19, 180, 24),
        dpi,
    );
    place(
        &mut controls,
        ControlKind::Edit(EditKind::Shown),
        Some(ID_OVERLAY_URL),
        &form.overlay_url,
        (210, 16, 315, 24),
        dpi,
    );
    place(
        &mut controls,
        ControlKind::Button { default: false },
        Some(ID_COPY_OVERLAY_URL),
        "URLをコピー",
        (535, 14, 105, 28),
        dpi,
    );
    place(&mut controls, ControlKind::Label, None, "ローカルサーバーのポート", (20, 53, 180, 24), dpi);
    place(
        &mut controls,
        ControlKind::Edit(EditKind::Number),
        Some(ID_PORT),
        &port,
        (210, 50, 120, 24),
        dpi,
    );
    place(&mut controls, ControlKind::Label, None, "描画対象モニター", (20, 87, 180, 24), dpi);
    place(&mut controls, ControlKind::Combo, Some(ID_MONITOR), "", (210, 84, 430, 240), dpi);
    place(&mut controls, ControlKind::Label, None, "キャンバスのアスペクト比", (20, 121, 180, 24), dpi);
    place(
        &mut controls,
        ControlKind::Edit(EditKind::Text),
        Some(ID_ASPECT),
        &form.canvas_aspect,
        (210, 118, 120, 24),
        dpi,
    );
    controls
}

/// What is drawn here, and the projector.
pub open spec fn projector_models(form: SettingsForm) -> Seq<ControlModel> {
    seq![
        control_model(
            ControlKind::CheckBox { checked: form.local_echo, enabled: true },
            Some(ID_LOCAL_ECHO),
            "描画中の線をこのPCのオーバーレイにも表示する"@,
            (20, 158, 620, 24),
        ),
        control_model(
            ControlKind::CheckBox { checked: form.follow_projector, enabled: true },
            Some(ID_FOLLOW_PROJECTOR),
            "OBS全画面プロジェクターの表示中だけオーバーレイを有効にする"@,
            (20, 188, 620, 24),
        ),
        control_model(
            ControlKind::CheckBox { checked: form.obs_control, enabled: true },
            Some(ID_OBS_CONTROL),
            "ホットキーでOBSプロジェクターを自動的に開く（obs-websocket）"@,
            (20, 218, 620, 24),
        ),
        control_model(ControlKind::Label, None, "OBS WebSocket URL"@, (20, 257, 180, 24)),
        control_model(
            ControlKind::Edit(EditKind::Text),
            Some(ID_OBS_URL),
            form.obs_websocket_url@,
            (210, 254, 430, 24),
        ),
        control_model(ControlKind::Label, None, "OBS WebSocket パスワード"@, (20, 291, 180, 24)),
        control_model(
            ControlKind::Edit(EditKind::Password),
            Some(ID_OBS_PASSWORD),
            form.obs_websocket_password@,
            (210, 288, 430, 24),
        ),
        control_model(ControlKind::Label, None, "プロジェクター表示"@, (20, 325, 180, 24)),
        control_model(ControlKind::Combo, Some(ID_PROJECTOR_VIEW), ""@, (210, 322, 260, 120)),
        control_model(
            ControlKind::CheckBox { checked: form.close_projector, enabled: true },
            Some(ID_CLOSE_PROJECTOR),
            "描画モード終了時、自動で開いたプロジェクターを閉じる"@,
            (20, 358, 620, 24),
        ),
    ]
}

fn projector_controls(form: &SettingsForm, dpi: u32) -> (controls: Vec<Control>)
    ensures
        are_scaled(controls@, projector_models(*form), dpi),
{
    let mut controls: Vec<Control> = Vec::new();
    place(
        &mut controls,
        ControlKind::CheckBox { checked: form.local_echo, enabled: true },
        Some(ID_LOCAL_ECHO),
        "描画中の線をこのPCのオーバーレイにも表示する",
        (20, 158, 620, 24),
        dpi,
    );
    place(
        &mut controls,
        ControlKind::CheckBox { checked: form.follow_projector, enabled: true },
        Some(ID_FOLLOW_PROJECTOR),
        "OBS全画面プロジェクターの表示中だけオーバーレイを有効にする",
        (20, 188, 620, 24),
        dpi,
    );
    place(
        &mut controls,
        ControlKind::CheckBox { checked: form.obs_control, enabled: true },
        Some(ID_OBS_CONTROL),
        "ホットキーでOBSプロジェクターを自動的に開く（obs-websocket）",
        (20, 218, 620, 24),
        dpi,
    );
    place(&mut controls, ControlKind::Label, None, "OBS WebSocket URL", (20, 257, 180, 24), dpi);
    place(
        &mut controls,
        ControlKind::Edit(EditKind::Text),
        Some(ID_OBS_URL),
        &form.obs_websocket_url,
        (210, 254, 430, 24),
        dpi,
    );
    place(&mut controls, ControlKind::Label, None, "OBS WebSocket パスワード", (20, 291, 180, 24), dpi);
    place(
        &mut controls,
        ControlKind::Edit(EditKind::Password),
        Some(ID_OBS_PASSWORD),
        &form.obs_websocket_password,
        (210, 288, 430, 24),
        dpi,
    );
    place(&mut controls, ControlKind::Label, None, "プロジェクター表示", (20, 325, 180, 24), dpi);
    place(
        &mut controls,
        ControlKind::Combo,
        Some(ID_PROJECTOR_VIEW),
        "",
        (210, 322, 260, 120),
        dpi,
    );
    place(
        &mut controls,
        ControlKind::CheckBox { checked: form.close_projector, enabled: true },
        Some(ID_CLOSE_PROJECTOR),
        "描画モード終了時、自動で開いたプロジェクターを閉じる",
        (20, 358, 620, 24),
        dpi,
    );
    controls
}

/// The hotkey and the brush.
pub open spec fn drawing_models(form: SettingsForm) -> Seq<ControlModel> {
    seq![
        control_model(ControlKind::Label, None, "切替キー（欄を選びキー入力）"@, (20, 397, 180, 24)),
        control_model(
            ControlKind::Edit(EditKind::Keys),
            Some(ID_HOTKEY_CAPTURE),
            form.hotkey_name@,
            (210, 394, 220, 24),
        ),
        control_model(
            ControlKind::Button { default: false },
            Some(ID_HOTKEY_CLEAR),
            "解除"@,
            (440, 393, 85, 28),
        ),
        control_model(
            ControlKind::Button { default: false },
            Some(ID_HOTKEY_DEFAULT),
            "既定(F9)"@,
            (535, 393, 105, 28),
        ),
        control_model(ControlKind::Label, None, "標準ブラシ色（#RRGGBB）"@, (20, 431, 180, 24)),
        control_model(
            ControlKind::Edit(EditKind::Text),
            Some(ID_BRUSH_COLOR),
            form.brush_color@,
            (210, 428, 160, 24),
        ),
        control_model(ControlKind::Label, None, "標準ブラシ幅（正規化値）"@, (20, 465, 180, 24)),
        control_model(
            ControlKind::Edit(EditKind::Text),
            Some(ID_BRUSH_WIDTH),
            form.brush_width@,
            (210, 462, 160, 24),
        ),
        control_model(
            ControlKind::CheckBox { checked: form.confirm_before_clear, enabled: true },
            Some(ID_CONFIRM_BEFORE_CLEAR),
            "全消去の前に確認画面を表示する（推奨）"@,
            (330, 494, 310, 24),
        ),
    ]
}

fn drawing_controls(form: &SettingsForm, dpi: u32) -> (controls: Vec<Control>)
    ensures
        are_scaled(controls@, drawing_models(*form), dpi),
{
    let mut controls: Vec<Control> = Vec::new();
    place(&mut controls, ControlKind::Label, None, "切替キー（欄を選びキー入力）", (20, 397, 180, 24), dpi);
    place(
        &mut controls,
        ControlKind::Edit(EditKind::Keys),
        Some(ID_HOTKEY_CAPTURE),
        &form.hotkey_name,
        (210, 394, 220, 24),
        dpi,
    );
    place(
        &mut controls,
        ControlKind::Button { default: false },
        Some(ID_HOTKEY_CLEAR),
        "解除",
        (440, 393, 85, 28),
        dpi,
    );
    place(
        &mut controls,
        ControlKind::Button { default: false },
        Some(ID_HOTKEY_DEFAULT),
        "既定(F9)",
        (535, 393, 105, 28),
        dpi,
    );
    place(&mut controls, ControlKind::Label, None, "標準ブラシ色（#RRGGBB）", (20, 431, 180, 24), dpi);
    place(
        &mut controls,
        ControlKind::Edit(EditKind::Text),
        Some(ID_BRUSH_COLOR),
        &form.brush_color,
        (210, 428, 160, 24),
        dpi,
    );
    place(&mut controls, ControlKind::Label, None, "標準ブラシ幅（正規化値）", (20, 465, 180, 24), dpi);
    place(
        &mut controls,
        ControlKind::Edit(EditKind::Text),
        Some(ID_BRUSH_WIDTH),
        &form.brush_width,
        (210, 462, 160, 24),
        dpi,
    );
    place(
        &mut controls,
        ControlKind::CheckBox { checked: form.confirm_before_clear, enabled: true },
        Some(ID_CONFIRM_BEFORE_CLEAR),
        "全消去の前に確認画面を表示する（推奨）",
        (330, 494, 310, 24),
        dpi,
    );
    controls
}

/// The registered stamps.
pub open spec fn stamp_models(form: SettingsForm) -> Seq<ControlModel> {
    seq![
        control_model(ControlKind::Label, None, "登録スタンプ（最大 32 個、PNGのみ）"@, (20, 502, 280, 24)),
        control_model(ControlKind::ListBox, Some(ID_STAMP_LIST), ""@, (20, 528, 285, 98)),
        control_model(
            ControlKind::Button { default: false },
            Some(ID_STAMP_ADD),
            "PNGを追加..."@,
            (20, 634, 130, 30),
        ),
        control_model(
            ControlKind::Button { default: false },
            Some(ID_STAMP_REMOVE),
            "選択を削除"@,
            (160, 634, 130, 30),
        ),
        control_model(ControlKind::Label, None, "スタンプ名"@, (330, 528, 130, 24)),
        control_model(
            ControlKind::Edit(EditKind::Text),
            Some(ID_STAMP_NAME),
            ""@,
            (330, 552, 310, 24),
        ),
        control_model(ControlKind::Label, None, "表示サイズ（キャンバス高の%）"@, (330, 582, 220, 24)),
        control_model(
            ControlKind::Edit(EditKind::Number),
            Some(ID_STAMP_SIZE),
            ""@,
            (550, 579, 90, 24),
        ),
        control_model(ControlKind::Label, None, "不透明度（%）"@, (330, 614, 150, 24)),
        control_model(
            ControlKind::Edit(EditKind::Number),
            Some(ID_STAMP_OPACITY),
            ""@,
            (550, 611, 90, 24),
        ),
        control_model(
            ControlKind::Label,
            None,
            "右クリックメニューの「スタンプ」から選び、クリック位置へ配置します。"@,
            (330, 642, 310, 30),
        ),
    ]
}

fn stamp_controls(form: &SettingsForm, dpi: u32) -> (controls: Vec<Control>)
    ensures
        are_scaled(controls@, stamp_models(*form), dpi),
{
    let mut controls: Vec<Control> = Vec::new();
    place(
        &mut controls,
        ControlKind::Label,
        None,
        "登録スタンプ（最大 32 個、PNGのみ）",
        (20, 502, 280, 24),
        dpi,
    );
    place(&mut controls, ControlKind::ListBox, Some(ID_STAMP_LIST), "", (20, 528, 285, 98), dpi);
    place(
        &mut controls,
        ControlKind::Button { default: false },
        Some(ID_STAMP_ADD),
        "PNGを追加...",
        (20, 634, 130, 30),
        dpi,
    );
    place(
        &mut controls,
        ControlKind::Button { default: false },
        Some(ID_STAMP_REMOVE),
        "選択を削除",
        (160, 634, 130, 30),
        dpi,
    );
    place(&mut controls, ControlKind::Label, None, "スタンプ名", (330, 528, 130, 24), dpi);
    place(
        &mut controls,
        ControlKind::Edit(EditKind::Text),
        Some(ID_STAMP_NAME),
        "",
        (330, 552, 310, 24),
        dpi,
    );
    place(&mut controls, ControlKind::Label, None, "表示サイズ（キャンバス高の%）", (330, 582, 220, 24), dpi);
    place(
        &mut controls,
        ControlKind::Edit(EditKind::Number),
        Some(ID_STAMP_SIZE),
        "",
        (550, 579, 90, 24),
        dpi,
    );
    place(&mut controls, ControlKind::Label, None, "不透明度（%）", (330, 614, 150, 24), dpi);
    place(
        &mut controls,
        ControlKind::Edit(EditKind::Number),
        Some(ID_STAMP_OPACITY),
        "",
        (550, 611, 90, 24),
        dpi,
    );
    place(
        &mut controls,
        ControlKind::Label,
        None,
        "右クリックメニューの「スタンプ」から選び、クリック位置へ配置します。",
        (330, 642, 310, 30),
        dpi,
    );
    controls
}

/// How things are, the registration with Windows, and the buttons that close the window.
pub open spec fn footer_models(form: SettingsForm) -> Seq<ControlModel> {
    seq![
        control_model(
            ControlKind::Label,
            Some(ID_SERVER_STATUS),
            "ローカルサーバー: 状態を確認中..."@,
            (20, 680, 620, 24),
        ),
        control_model(
            ControlKind::Label,
            Some(ID_BROWSER_STATUS),
            "OBS Browser Source: 状態を確認中..."@,
            (20, 704, 620, 24),
        ),
        control_model(
            ControlKind::CheckBox { checked: form.autostart_registered, enabled: form.autostart_available },
            Some(ID_AUTOSTART),
            "Windowsログイン時にStreamPainterを自動起動する（現在のユーザー）"@,
            (20, 732, 620, 24),
        ),
        control_model(
            ControlKind::Label,
            Some(ID_AUTOSTART_STATUS),
            autostart_note(form.autostart_status@),
            (20, 756, 620, 62),
        ),
        control_model(
            ControlKind::Button { default: true },
            Some(ID_SAVE),
            "保存"@,
            (430, 820, 100, 32),
        ),
        control_model(
            ControlKind::Button { default: false },
            Some(ID_CANCEL),
            "キャンセル"@,
            (540, 820, 100, 32),
        ),
    ]
}

fn footer_controls(form: &SettingsForm, dpi: u32) -> (controls: Vec<Control>)
    ensures
        are_scaled(controls@, footer_models(*form), dpi),
{
    let mut controls: Vec<Control> = Vec::new();
    let note = form.autostart_status.clone().concat(
        "\n登録が古い場合はONのまま保存で現在のexeへ修復、OFFで解除します。\nその他の設定は再起動後に反映します。ポート変更時はOBSのURLも更新してください。",
    );
    place(
        &mut controls,
        ControlKind::Label,
        Some(ID_SERVER_STATUS),
        "ローカルサーバー: 状態を確認中...",
        (20, 680, 620, 24),
        dpi,
    );
    place(
        &mut controls,
        ControlKind::Label,
        Some(ID_BROWSER_STATUS),
        "OBS Browser Source: 状態を確認中...",
        (20, 704, 620, 24),
        dpi,
    );
    place(
        &mut controls,
        ControlKind::CheckBox { checked: form.autostart_registered, enabled: form.autostart_available },
        Some(ID_AUTOSTART),
        "Windowsログイン時にStreamPainterを自動起動する（現在のユーザー）",
        (20, 732, 620, 24),
        dpi,
    );
    place(
        &mut controls,
        ControlKind::Label,
        Some(ID_AUTOSTART_STATUS),
        &note,
        (20, 756, 620, 62),
        dpi,
    );
    place(
        &mut controls,
        ControlKind::Button { default: true },
        Some(ID_SAVE),
        "保存",
        (430, 820, 100, 32),
        dpi,
    );
    place(
        &mut controls,
        ControlKind::Button { default: false },
        Some(ID_CANCEL),
        "キャンセル",
        (540, 820, 100, 32),
        dpi,
    );
    controls
}

/// The controls of the window, in the order of the tab key.
pub open spec fn settings_models(form: SettingsForm) -> Seq<ControlModel> {
    connection_models(form) + projector_models(form) + drawing_models(form) + stamp_models(form)
        + footer_models(form)
}

fn join(
    mut controls: Vec<Control>,
    mut more: Vec<Control>,
    Ghost(models): Ghost<Seq<ControlModel>>,
    Ghost(more_models): Ghost<Seq<ControlModel>>,
    dpi: u32,
) -> (joined: Vec<Control>)
    requires
        are_scaled(controls@, models, dpi),
        are_scaled(more@, more_models, dpi),
    ensures
        are_scaled(joined@, models + more_models, dpi),
{
    let ghost first = controls@;
    let ghost second = more@;
    controls.append(&mut more);
    assert forall|i: int| 0 <= i < controls@.len() implies (#[trigger] controls@[i]).is_scaled(
        (models + more_models)[i],
        dpi,
    ) by {
        if i < first.len() {
            assert(first[i].is_scaled(models[i], dpi));
        } else {
            assert(second[i - first.len()].is_scaled(more_models[i - first.len()], dpi));
        }
    }
    controls
}

/// The controls of the window, in the order of the tab key.
pub fn settings_controls(form: &SettingsForm, dpi: u32) -> (controls: Vec<Control>)
    ensures
        are_scaled(controls@, settings_models(*form), dpi),
{
    let controls = join(
        connection_controls(form, dpi),
        projector_controls(form, dpi),
        Ghost(connection_models(*form)),
        Ghost(projector_models(*form)),
        dpi,
    );
    let controls = join(
        controls,
        drawing_controls(form, dpi),
        Ghost(connection_models(*form) + projector_models(*form)),
        Ghost(drawing_models(*form)),
        dpi,
    );
    let controls = join(
        controls,
        stamp_controls(form, dpi),
        Ghost(connection_models(*form) + projector_models(*form) + drawing_models(*form)),
        Ghost(stamp_models(*form)),
        dpi,
    );
    join(
        controls,
        footer_controls(form, dpi),
        Ghost(
            connection_models(*form) + projector_models(*form) + drawing_models(*form)
                + stamp_models(*form),
        ),
        Ghost(footer_models(*form)),
        dpi,
    )
}

proof fn lemma_scaled_sum(at: i32, length: i32, limit: i32, dpi: u32)
    requires
        0 <= at,
        0 <= length,
        at + length + 40 <= limit <= WINDOW_HEIGHT,
        BASE_DPI <= dpi <= 200_000_000,
    ensures
        0 <= scaled(at, dpi),
        0 <= scaled(length, dpi),
        scaled(at, dpi) + scaled(length, dpi) <= scaled(limit, dpi),
{
    assert(0 <= at * dpi) by (nonlinear_arith)
        requires
            0 <= at,
            0 <= dpi,
    ;
    assert(0 <= length * dpi) by (nonlinear_arith)
        requires
            0 <= length,
            0 <= dpi,
    ;
    assert(at * dpi + length * dpi + 40 * dpi <= limit * dpi) by (nonlinear_arith)
        requires
            at + length + 40 <= limit,
            0 <= dpi,
    ;
    assert(limit * dpi <= 900 * dpi) by (nonlinear_arith)
        requires
            limit <= 900,
            0 <= dpi,
    ;
}

/// Each control lies within the window at every resolution from the usual one on, up to one far
/// beyond any display, at which the numbers still fit.
pub proof fn law_controls_lie_within_the_window(form: SettingsForm, i: int, dpi: u32)
    requires
        0 <= i < settings_models(form).len(),
        BASE_DPI <= dpi <= 200_000_000,
    ensures
        ({
            let model = settings_models(form)[i];
            &&& 0 <= scaled(model.x, dpi)
            &&& 0 <= scaled(model.y, dpi)
            &&& scaled(model.x, dpi) + scaled(model.width, dpi) <= scaled(WINDOW_WIDTH, dpi)
            &&& scaled(model.y, dpi) + scaled(model.height, dpi) <= scaled(WINDOW_HEIGHT, dpi)
        }),
{
    let model = settings_models(form)[i];
    lemma_rows_fit(form, i);
    lemma_scaled_sum(model.x, model.width, WINDOW_WIDTH, dpi);
    lemma_scaled_sum(model.y, model.height, WINDOW_HEIGHT, dpi);
}

spec fn fits(model: ControlModel) -> bool {
    &&& 0 <= model.x && 0 <= model.width && model.x + model.width <= 640
    &&& 0 <= model.y && 0 <= model.height && model.y + model.height <= 852
}

proof fn lemma_rows_fit(form: SettingsForm, i: int)
    requires
        0 <= i < settings_models(form).len(),
    ensures
        fits(settings_models(form)[i]),
{
    let connection = connection_models(form);
    let projector = projector_models(form);
    let drawing = drawing_models(form);
    let stamp = stamp_models(form);
    let footer = footer_models(form);
    assert(forall|k: int| 0 <= k < connection.len() ==> fits(connection[k]));
    assert(forall|k: int| 0 <= k < projector.len() ==> fits(projector[k]));
    assert(forall|k: int| 0 <= k < drawing.len() ==> fits(drawing[k]));
    assert(forall|k: int| 0 <= k < stamp.len() ==> fits(stamp[k]));
    assert(forall|k: int| 0 <= k < footer.len() ==> fits(footer[k]));
}

/// The system's class of a control.
pub fn window_class(kind: ControlKind) -> (class: &'static str)
    ensures
        class@ == match kind {
            ControlKind::Label => "STATIC"@,
            ControlKind::Edit(_) => "EDIT"@,
            ControlKind::Combo => "COMBOBOX"@,
            ControlKind::ListBox => "LISTBOX"@,
            ControlKind::CheckBox { .. } => "BUTTON"@,
            ControlKind::Button { .. } => "BUTTON"@,
        },
{
    match kind {
        ControlKind::Label => "STATIC",
        ControlKind::Edit(_) => "EDIT",
        ControlKind::Combo => "COMBOBOX",
        ControlKind::ListBox => "LISTBOX",
        ControlKind::CheckBox { .. } => "BUTTON",
        ControlKind::Button { .. } => "BUTTON",
    }
}

pub const WS_CHILD: u32 = 0x4000_0000;

pub const WS_VISIBLE: u32 = 0x1000_0000;

pub const WS_VSCROLL: u32 = 0x0020_0000;

pub const WS_TABSTOP: u32 = 0x0001_0000;

pub const WS_EX_CLIENTEDGE: u32 = 0x200;

pub const ES_PASSWORD: u32 = 0x20;

pub const ES_AUTOHSCROLL: u32 = 0x80;

pub const ES_READONLY: u32 = 0x800;

pub const ES_NUMBER: u32 = 0x2000;

pub const CBS_DROPDOWNLIST: u32 = 0x3;

pub const CBS_HASSTRINGS: u32 = 0x200;

pub const LBS_NOTIFY: u32 = 0x1;

pub const LBS_NOINTEGRALHEIGHT: u32 = 0x100;

pub const BS_DEFPUSHBUTTON: u32 = 0x1;

pub const BS_AUTOCHECKBOX: u32 = 0x3;

/// The bits of a control's style that are its own.
pub open spec fn own_style(kind: ControlKind) -> u32 {
    match kind {
        ControlKind::Label => 0,
        ControlKind::Edit(EditKind::Text) => ES_AUTOHSCROLL,
        ControlKind::Edit(EditKind::Number) => ES_AUTOHSCROLL | ES_NUMBER,
        ControlKind::Edit(EditKind::Password) => ES_AUTOHSCROLL | ES_PASSWORD,
        ControlKind::Edit(EditKind::Shown) => ES_AUTOHSCROLL | ES_READONLY,
        ControlKind::Edit(EditKind::Keys) => ES_READONLY,
        ControlKind::Combo => CBS_DROPDOWNLIST | CBS_HASSTRINGS,
        ControlKind::ListBox => WS_VSCROLL | LBS_NOTIFY | LBS_NOINTEGRALHEIGHT,
        ControlKind::CheckBox { .. } => BS_AUTOCHECKBOX,
        ControlKind::Button { default } => if default {
            BS_DEFPUSHBUTTON
        } else {
            0
        },
    }
}

/// The style of a control. All but labels are reached by the tab key.
pub fn window_style(kind: ControlKind) -> (style: u32)
    ensures
        style == if kind == ControlKind::Label {
            WS_CHILD | WS_VISIBLE
        } else {
            WS_CHILD | WS_VISIBLE | WS_TABSTOP | own_style(kind)
        },
{
    let own: u32 = match kind {
        ControlKind::Label => {
            return WS_CHILD | WS_VISIBLE;
        },
        ControlKind::Edit(EditKind::Text) => ES_AUTOHSCROLL,
        ControlKind::Edit(EditKind::Number) => ES_AUTOHSCROLL | ES_NUMBER,
        ControlKind::Edit(EditKind::Password) => ES_AUTOHSCROLL | ES_PASSWORD,
        ControlKind::Edit(EditKind::Shown) => ES_AUTOHSCROLL | ES_READONLY,
        ControlKind::Edit(EditKind::Keys) => ES_READONLY,
        ControlKind::Combo => CBS_DROPDOWNLIST | CBS_HASSTRINGS,
        ControlKind::ListBox => WS_VSCROLL | LBS_NOTIFY | LBS_NOINTEGRALHEIGHT,
        ControlKind::CheckBox { .. } => BS_AUTOCHECKBOX,
        ControlKind::Button { default } => if default {
            BS_DEFPUSHBUTTON
        } else {
            0
        },
    };
    WS_CHILD | WS_VISIBLE | WS_TABSTOP | own
}

/// The extended style of a control: fields and lists have an edge.
pub fn extended_style(kind: ControlKind) -> (style: u32)
    ensures
        style == if kind is Edit || kind is Combo || kind is ListBox {
            WS_EX_CLIENTEDGE
        } else {
            0
        },
{
    match kind {
        ControlKind::Edit(_) | ControlKind::Combo | ControlKind::ListBox => WS_EX_CLIENTEDGE,
        _ => 0,
    }
}

/// `n` in base ten with its sign, also where it is positive.
pub open spec fn with_sign(n: int) -> Seq<char> {
    if n < 0 {
        text::signed_decimal(n)
    } else {
        seq!['+'] + text::decimal(n as nat)
    }
}

fn push_with_sign(line: &mut String, n: i32)
    ensures
        final(line)@ == old(line)@ + with_sign(n as int),
{
    if n >= 0 {
        line.push('+');
    }
    text::push_signed_decimal(line, n as i64);
    assert(line@ =~= old(line)@ + with_sign(n as int));
}

/// The line that offers a monitor.
pub open spec fn monitor_item(index: int, monitor: Monitor) -> Seq<char> {
    text::decimal(index as nat) + ": "@ + text::signed_decimal(monitor.width as int) + "×"@
        + text::signed_decimal(monitor.height as int) + " ("@ + with_sign(monitor.x as int) + ", "@
        + with_sign(monitor.y as int) + ")"@ + if monitor.primary {
        " — プライマリ"@
    } else {
        ""@
    }
}

/// The lines that offer the monitors.
pub fn monitor_items(monitors: &[Monitor]) -> (items: Vec<String>)
    ensures
        items@.len() == monitors@.len(),
        forall|i: int|
            0 <= i < items@.len() ==> (#[trigger] items@[i])@ == monitor_item(i, monitors@[i]),
{
    let mut items: Vec<String> = Vec::new();
    for i in 0..monitors.len()
        invariant
            items@.len() == i,
            forall|j: int|
                0 <= j < i ==> (#[trigger] items@[j])@ == monitor_item(j, monitors@[j]),
    {
        let monitor: Monitor = monitors[i];
        let mut line = String::new();
        text::push_decimal(&mut line, i as u64);
        line.append(": ");
        text::push_signed_decimal(&mut line, monitor.width as i64);
        line.append("×");
        text::push_signed_decimal(&mut line, monitor.height as i64);
        line.append(" (");
        push_with_sign(&mut line, monitor.x);
        line.append(", ");
        push_with_sign(&mut line, monitor.y);
        line.append(")");
        line.append(
            if monitor.primary {
                " — プライマリ"
            } else {
                ""
            },
        );
        assert(line@ =~= monitor_item(i as int, monitor));
        items.push(line);
    }
    items
}

/// The monitor that is offered first: the configured one, where it exists.
pub fn offered_monitor(screen: usize, monitor_count: usize) -> (index: usize)
    ensures
        index == if screen < monitor_count {
            screen
        } else {
            0
        },
{
    if screen < monitor_count {
        screen
    } else {
        0
    }
}

/// The views of the projector that can be chosen, in order.
pub fn view_item(index: usize) -> (item: Option<&'static str>)
    ensures
        index == 0 ==> item is Some && item->0@ == "Program（配信映像）"@,
        index == 1 ==> item is Some && item->0@ == "Preview（編集映像）"@,
        index > 1 ==> item is None,
{
    match index {
        0 => Some("Program（配信映像）"),
        1 => Some("Preview（編集映像）"),
        _ => None,
    }
}

/// The resolution that is used for a window.
pub fn effective_dpi(dpi: u32) -> (used: u32)
    ensures
        used == if dpi < BASE_DPI {
            BASE_DPI
        } else {
            dpi
        },
{
    if dpi < BASE_DPI {
        BASE_DPI
    } else {
        dpi
    }
}

/// Where the window opens: in the middle of its owner, given by its edges, where these are known.
pub fn window_origin(owner: Option<(i32, i32, i32, i32)>, width: i32, height: i32) -> (origin: (
    i32,
    i32,
))
    requires
        owner matches Some((left, top, right, bottom)) ==> {
            &&& i32::MIN <= right - left <= i32::MAX
            &&& i32::MIN <= bottom - top <= i32::MAX
            &&& i32::MIN <= right - left - width <= i32::MAX
            &&& i32::MIN <= bottom - top - height <= i32::MAX
            &&& i32::MIN <= left + toward_zero(right - left - width, 2) <= i32::MAX
            &&& i32::MIN <= top + toward_zero(bottom - top - height, 2) <= i32::MAX
        },
    ensures
        origin == match owner {
            Some((left, top, right, bottom)) => (
                (left + toward_zero(right - left - width, 2)) as i32,
                (top + toward_zero(bottom - top - height, 2)) as i32,
            ),
            None => (0i32, 0i32),
        },
{
    match owner {
        Some((left, top, right, bottom)) => (
            left + half(right - left - width),
            top + half(bottom - top - height),
        ),
        None => (0, 0),
    }
}

fn half(n: i32) -> (h: i32)
    ensures
        h == toward_zero(n as int, 2),
{
    let wide: i64 = n as i64;
    if wide >= 0 {
        (wide as u64 / 2) as i32
    } else {
        (-(((-wide) as u64 / 2) as i64)) as i32
    }
}

/// A control with an identifier is of the kind, and holds the value, that the identifier is for.
pub open spec fn holds_its_value(form: SettingsForm, model: ControlModel) -> bool {
    let edit = |kind: EditKind, text: Seq<char>| model.kind == ControlKind::Edit(kind) && model.text
        == text;
    let check = |checked: bool, enabled: bool| model.kind == ControlKind::CheckBox {
        checked,
        enabled,
    };
    let button = |default: bool, text: Seq<char>| model.kind == ControlKind::Button { default }
        && model.text == text;
    match model.id {
        None => model.kind == ControlKind::Label,
        Some(id) => {
            &&& id == ID_OVERLAY_URL ==> edit(EditKind::Shown, form.overlay_url@)
            &&& id == ID_PORT ==> edit(EditKind::Number, text::decimal(form.port as nat))
            &&& id == ID_ASPECT ==> edit(EditKind::Text, form.canvas_aspect@)
            &&& id == ID_OBS_URL ==> edit(EditKind::Text, form.obs_websocket_url@)
            &&& id == ID_OBS_PASSWORD ==> edit(EditKind::Password, form.obs_websocket_password@)
            &&& id == ID_HOTKEY_CAPTURE ==> edit(EditKind::Keys, form.hotkey_name@)
            &&& id == ID_BRUSH_COLOR ==> edit(EditKind::Text, form.brush_color@)
            &&& id == ID_BRUSH_WIDTH ==> edit(EditKind::Text, form.brush_width@)
            &&& id == ID_STAMP_NAME ==> edit(EditKind::Text, ""@)
            &&& id == ID_STAMP_SIZE || id == ID_STAMP_OPACITY ==> edit(EditKind::Number, ""@)
            &&& id == ID_LOCAL_ECHO ==> check(form.local_echo, true)
            &&& id == ID_FOLLOW_PROJECTOR ==> check(form.follow_projector, true)
            &&& id == ID_OBS_CONTROL ==> check(form.obs_control, true)
            &&& id == ID_CLOSE_PROJECTOR ==> check(form.close_projector, true)
            &&& id == ID_CONFIRM_BEFORE_CLEAR ==> check(form.confirm_before_clear, true)
            &&& id == ID_AUTOSTART ==> check(form.autostart_registered, form.autostart_available)
            &&& id == ID_MONITOR || id == ID_PROJECTOR_VIEW ==> model.kind == ControlKind::Combo
            &&& id == ID_STAMP_LIST ==> model.kind == ControlKind::ListBox
            &&& id == ID_COPY_OVERLAY_URL ==> button(false, "URLをコピー"@)
            &&& id == ID_HOTKEY_CLEAR ==> button(false, "解除"@)
            &&& id == ID_HOTKEY_DEFAULT ==> button(false, "既定(F9)"@)
            &&& id == ID_STAMP_ADD ==> button(false, "PNGを追加..."@)
            &&& id == ID_STAMP_REMOVE ==> button(false, "選択を削除"@)
            &&& id == ID_SAVE ==> button(true, "保存"@)
            &&& id == ID_CANCEL ==> button(false, "キャンセル"@)
            &&& id == ID_SERVER_STATUS || id == ID_BROWSER_STATUS || id == ID_AUTOSTART_STATUS
                ==> model.kind == ControlKind::Label
        },
    }
}

/// Every control of the window holds the value that it is for, and each setting has exactly one
/// control.
pub proof fn law_every_setting_has_its_control(form: SettingsForm, i: int, j: int, id: i32)
    ensures
        0 <= i < settings_models(form).len() ==> holds_its_value(form, settings_models(form)[i]),
        0 <= i < j < settings_models(form).len() && settings_models(form)[i].id is Some
            ==> settings_models(form)[i].id != settings_models(form)[j].id,
        settings_models(form).len() == 45,
        id == ID_SAVE || id == ID_CANCEL || ID_OVERLAY_URL <= id <= ID_CONFIRM_BEFORE_CLEAR
            ==> exists|at: int|
            0 <= at < settings_models(form).len() && (#[trigger] settings_models(form)[at]).id
                == Some(id),
{
    let models = settings_models(form);
    let connection = connection_models(form);
    let projector = projector_models(form);
    let drawing = drawing_models(form);
    let stamp = stamp_models(form);
    let footer = footer_models(form);
    assert(forall|k: int| 0 <= k < connection.len() ==> holds_its_value(form, connection[k]));
    assert(forall|k: int| 0 <= k < projector.len() ==> holds_its_value(form, projector[k]));
    assert(forall|k: int| 0 <= k < drawing.len() ==> holds_its_value(form, drawing[k]));
    assert(forall|k: int| 0 <= k < stamp.len() ==> holds_its_value(form, stamp[k]));
    assert(forall|k: int| 0 <= k < footer.len() ==> holds_its_value(form, footer[k]));
    let ids = control_ids();
    assert(connection.len() == 9 && projector.len() == 10 && drawing.len() == 9 && stamp.len() == 11
        && footer.len() == 6);
    assert(models.len() == 45);
    assert forall|k: int| 0 <= k < 45 implies (#[trigger] models[k]).id == ids[k] by {
        if k < 9 {
            assert(models[k] == connection[k]);
        } else if k < 19 {
            assert(models[k] == projector[k - 9]);
        } else if k < 28 {
            assert(models[k] == drawing[k - 19]);
        } else if k < 39 {
            assert(models[k] == stamp[k - 28]);
        } else {
            assert(models[k] == footer[k - 39]);
        }
    }
    if id == ID_SAVE || id == ID_CANCEL || ID_OVERLAY_URL <= id <= ID_CONFIRM_BEFORE_CLEAR {
        lemma_control_ids(id);
        let at = choose|at: int| 0 <= at < 45 && #[trigger] ids[at] == Some(id);
        assert(models[at].id == Some(id));
    }
}

/// The identifiers of the controls, in the order of the tab key.
spec fn control_ids() -> Seq<Option<i32>> {
    seq![
        None,
        Some(100i32),
        Some(119i32),
        None,
        Some(101i32),
        None,
        Some(102i32),
        None,
        Some(103i32),
        Some(104i32),
        Some(105i32),
        Some(106i32),
        None,
        Some(107i32),
        None,
        Some(108i32),
        None,
        Some(109i32),
        Some(110i32),
        None,
        Some(122i32),
        Some(123i32),
        Some(124i32),
        None,
        Some(111i32),
        None,
        Some(112i32),
        Some(127i32),
        None,
        Some(113i32),
        Some(114i32),
        Some(115i32),
        None,
        Some(116i32),
        None,
        Some(117i32),
        None,
        Some(118i32),
        None,
        Some(120i32),
        Some(121i32),
        Some(125i32),
        Some(126i32),
        Some(1i32),
        Some(2i32),
    ]
}

proof fn lemma_control_ids(id: i32)
    requires
        id == 1 || id == 2 || 100 <= id <= 127,
    ensures
        exists|at: int| 0 <= at < 45 && #[trigger] control_ids()[at] == Some(id),
{
    let ids = control_ids();
    let at: int = if id == 1 {
        43
    } else if id == 2 {
        44
    } else if id == 100 {
        1
    } else if id == 101 {
        4
    } else if id == 102 {
        6
    } else if id <= 106 {
        id - 95
    } else if id == 107 {
        13
    } else if id == 108 {
        15
    } else if id <= 110 {
        id - 92
    } else if id == 111 {
        24
    } else if id == 112 {
        26
    } else if id <= 115 {
        id - 84
    } else if id == 116 {
        33
    } else if id == 117 {
        35
    } else if id == 118 {
        37
    } else if id == 119 {
        2
    } else if id <= 121 {
        id - 81
    } else if id <= 124 {
        id - 102
    } else if id <= 126 {
        id - 84
    } else {
        27
    };
    assert(ids[at] == Some(id));
}

/// Scaling keeps lengths as they are at the base resolution, and otherwise comes as near to them as
/// whole dots do.
pub proof fn law_scaling_rounds_to_the_nearest(value: i32, dpi: u32)
    requires
        0 <= value <= 900,
        96 <= dpi <= 200_000_000,
    ensures
        dpi == 96 ==> scaled(value, dpi) == value,
        -48 <= scaled(value, dpi) * 96 - value * dpi <= 48,
{
    assert(0 <= value * dpi <= 900 * dpi) by (nonlinear_arith)
        requires
            0 <= value <= 900,
            0 <= dpi,
    ;
}

/// Division toward zero leaves a rest that is smaller than the divisor and has the sign of what is
/// divided.
pub proof fn law_division_goes_toward_zero(n: int, d: int)
    requires
        d > 0,
    ensures
        ({
            let rest = n - toward_zero(n, d) * d;
            &&& n >= 0 ==> 0 <= rest < d
            &&& n <= 0 ==> -d < rest <= 0
        }),
{
    let m = if n >= 0 {
        n
    } else {
        -n
    };
    vstd::arithmetic::div_mod::lemma_fundamental_div_mod(m, d);
    vstd::arithmetic::div_mod::lemma_mod_bound(m, d);
    let q = m / d;
    assert(d * q == q * d) by (nonlinear_arith);
    assert((-q) * d == -(q * d)) by (nonlinear_arith);
}

/// A control looks and reads as its model does, and at the base resolution it also stands there.
pub proof fn law_a_control_stands_where_its_model_does(control: Control, model: ControlModel)
    requires
        control.is_scaled(model, 96),
        0 <= model.x <= 900,
        0 <= model.y <= 900,
        0 <= model.width <= 900,
        0 <= model.height <= 900,
    ensures
        control.kind == model.kind,
        control.id == model.id,
        control.text@ == model.text,
        control.x == model.x,
        control.y == model.y,
        control.width == model.width,
        control.height == model.height,
{
    law_scaling_rounds_to_the_nearest(model.x, 96);
    law_scaling_rounds_to_the_nearest(model.y, 96);
    law_scaling_rounds_to_the_nearest(model.width, 96);
    law_scaling_rounds_to_the_nearest(model.height, 96);
}

/// A field for a password hides it, one for a number takes digits alone, and one that only shows
/// something cannot be written to; no other control has these bits. Only the default button has the
/// look of one.
pub proof fn law_each_field_has_its_own_style(kind: ControlKind)
    ensures
        ({
            let style = own_style(kind);
            let edit = kind is Edit;
            &&& edit && style & 0x20u32 != 0 <==> kind == ControlKind::Edit(EditKind::Password)
            &&& edit && style & 0x2000u32 != 0 <==> kind == ControlKind::Edit(EditKind::Number)
            &&& edit && style & 0x800u32 != 0 <==> kind == ControlKind::Edit(EditKind::Shown)
                || kind == ControlKind::Edit(EditKind::Keys)
            &&& kind is Label ==> style == 0
            &&& kind == (ControlKind::Button { default: true }) ==> style == 1
            &&& kind == (ControlKind::Button { default: false }) ==> style == 0
            &&& kind is CheckBox ==> style == 3
            &&& kind is Combo ==> style & 3 == 3 && style & 0x200 != 0
            &&& kind is ListBox ==> style & 1 == 1 && style & 0x200000 != 0
        }),
{
    assert(0x80u32 & 0x20 == 0 && 0x80u32 & 0x2000 == 0 && 0x80u32 & 0x800 == 0 && (0x80u32
        | 0x2000) & 0x20 == 0 && (0x80u32 | 0x2000) & 0x2000 != 0 && (0x80u32 | 0x2000) & 0x800 == 0
        && (0x80u32 | 0x20) & 0x20 != 0 && (0x80u32 | 0x20) & 0x2000 == 0 && (0x80u32 | 0x20)
        & 0x800 == 0 && (0x80u32 | 0x800) & 0x20 == 0 && (0x80u32 | 0x800) & 0x2000 == 0 && (0x80u32
        | 0x800) & 0x800 != 0 && 0x800u32 & 0x20 == 0 && 0x800u32 & 0x2000 == 0 && 0x800u32 & 0x800
        != 0 && (3u32 | 0x200) & 3 == 3 && (3u32 | 0x200) & 0x200 != 0 && (0x200000u32 | 1 | 0x100)
        & 1 == 1 && (0x200000u32 | 1 | 0x100) & 0x200000 != 0) by (bit_vector);
}

/// A number with its sign is its magnitude behind a plus or a minus sign.
pub proof fn law_a_sign_is_always_written(n: nat)
    ensures
        with_sign(n as int) == seq!['+'] + text::decimal(n),
        n > 0 ==> with_sign(-n) == seq!['-'] + text::decimal(n),
{
    text::law_numbers_are_written_plainly(n);
}

} // verus!
