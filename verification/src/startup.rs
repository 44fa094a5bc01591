//! What is decided when the program starts.

use vstd::prelude::*;

use crate::monitor::{select_monitor, Monitor};
use crate::overlay::{Effect, Overlay};

verus! {

pub const WS_EX_TOPMOST: u32 = 0x8;

pub const WS_EX_TOOLWINDOW: u32 = 0x80;

pub const WS_EX_LAYERED: u32 = 0x80000;

pub const WS_EX_NOREDIRECTIONBITMAP: u32 = 0x200000;

pub const WS_EX_NOACTIVATE: u32 = 0x8000000;

/// The extended style of the overlay. Only a layered window lets the pointer pass through.
pub fn overlay_style() -> (style: u32)
    ensures
        style == (WS_EX_NOREDIRECTIONBITMAP | WS_EX_LAYERED | WS_EX_TOPMOST | WS_EX_NOACTIVATE
            | WS_EX_TOOLWINDOW),
{
    WS_EX_NOREDIRECTIONBITMAP | WS_EX_LAYERED | WS_EX_TOPMOST | WS_EX_NOACTIVATE | WS_EX_TOOLWINDOW
}

/// The monitor to draw on, with its index, or the reason why there is none.
pub fn startup_monitor(monitors: &[Monitor], configured: usize) -> (selected: Result<
    (usize, Monitor),
    String,
>)
    ensures
        selected is Ok == (monitors@.len() > 0),
        selected matches Ok(selected) ==> selected == if configured < monitors@.len() {
            (configured, monitors@[configured as int])
        } else {
            (0usize, monitors@[0])
        },
        selected matches Err(reason) ==> reason@ == "利用可能なモニターが見つかりません"@,
{
    match select_monitor(monitors, configured) {
        Some(selected) => Ok(selected),
        None => Err("利用可能なモニターが見つかりません".to_owned()),
    }
}

pub open spec fn hotkey_warning_text(error: Seq<char>) -> Seq<char> {
    "描画モード切替ホットキーを登録できませんでした。\n\n"@ + error
        + "\n\nStreamPainterは継続して動作します。タスクトレイの「描画モード切替」を使用するか、設定から別のキーを指定してください。"@
}

/// Says that the program goes on without its hotkey.
pub fn hotkey_warning(error: &str) -> (warning: String)
    ensures
        warning@ == hotkey_warning_text(error@),
{
    "描画モード切替ホットキーを登録できませんでした。\n\n".to_owned().concat(error).concat(
        "\n\nStreamPainterは継続して動作します。タスクトレイの「描画モード切替」を使用するか、設定から別のキーを指定してください。",
    )
}

impl Overlay {
    /// Shows the overlay for the first time, passing pointers through. One that follows a projector
    /// stays hidden until the projector has been found.
    pub fn start(&self, effects: &mut Vec<Effect>)
        ensures
            final(effects)@ == old(effects)@ + seq![Effect::SetTransparent(true)] + (if
            self.follow_projector {
                Seq::empty()
            } else {
                seq![Effect::ShowOverlay]
            }) + seq![Effect::PollProjector],
    {
        effects.push(Effect::SetTransparent(true));
        if !self.follow_projector {
            effects.push(Effect::ShowOverlay);
        }
        effects.push(Effect::PollProjector);
        assert(effects@ =~= old(effects)@ + seq![Effect::SetTransparent(true)] + (if
        self.follow_projector {
            Seq::empty()
        } else {
            seq![Effect::ShowOverlay]
        }) + seq![Effect::PollProjector]);
    }
}

} // verus!
