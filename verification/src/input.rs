//! What the overlay's window messages ask for.
//!
//! A message is answered by the first of several attempts that takes it; which attempts there
//! are, and in which order, is decided here from the message and from who owns its pointer.

use vstd::prelude::*;

use crate::hotkey::WM_HOTKEY_CHANGE;

verus! {

pub const WM_DESTROY: u32 = 0x0002;

pub const WM_PAINT: u32 = 0x000F;

pub const WM_CANCELMODE: u32 = 0x001F;

pub const WM_SETCURSOR: u32 = 0x0020;

pub const WM_DISPLAYCHANGE: u32 = 0x007E;

pub const WM_TIMER: u32 = 0x0113;

pub const WM_CAPTURECHANGED: u32 = 0x0215;

pub const WM_POINTERUPDATE: u32 = 0x0245;

pub const WM_POINTERDOWN: u32 = 0x0246;

pub const WM_POINTERUP: u32 = 0x0247;

pub const WM_POINTERCAPTURECHANGED: u32 = 0x024C;

pub const WM_HOTKEY: u32 = 0x0312;

/// Notification of the tray icon.
pub const WM_TRAY: u32 = 0x8001;

/// A worker has put the outcome of a projector request into its channel.
pub const WM_OBS_RESULT: u32 = 0x8002;

pub const POINTER_MESSAGE_FLAG_FIRSTBUTTON: u32 = 0x10;

pub const POINTER_MESSAGE_FLAG_SECONDBUTTON: u32 = 0x20;

pub const POINTER_MESSAGE_FLAG_CANCELED: u32 = 0x8000;

/// Timer that sends collected points while an input is under way.
pub const FLUSH_TIMER_ID: usize = 1;

pub const FLUSH_INTERVAL_MS: u32 = 16;

/// Timer that looks for the projector.
pub const PROJECTOR_TIMER_ID: usize = 2;

pub const PROJECTOR_INTERVAL_MS: u32 = 2000;

/// Faster timer while a requested projector is awaited.
pub const PENDING_TIMER_ID: usize = 3;

pub const PENDING_INTERVAL_MS: u32 = 250;

/// Hotkey that clears the active layer, reserved while drawing.
pub const LAYER_CLEAR_ID: i32 = 4;

/// Hotkey that abandons the transformation under way.
pub const TRANSFORM_ESCAPE_ID: i32 = 5;

/// A word read as a signed number.
pub open spec fn signed16(word: int) -> int {
    if word >= 0x8000 {
        word - 0x10000
    } else {
        word
    }
}

/// The pointer that a message is about.
pub fn pointer_id(wparam: usize) -> (id: u32)
    ensures
        id == wparam % 0x10000,
{
    (wparam % 0x10000) as u32
}

/// The flags of a pointer message.
pub fn pointer_flags(wparam: usize) -> (flags: u32)
    ensures
        flags == flags_of(wparam),
        flags < 0x10000,
{
    ((wparam / 0x10000) % 0x10000) as u32
}

pub open spec fn flags_of(wparam: usize) -> u32 {
    ((wparam / 0x10000) % 0x10000) as u32
}

/// Whether the system takes the message's pointer away.
pub open spec fn is_canceled(wparam: usize) -> bool {
    flags_of(wparam) & POINTER_MESSAGE_FLAG_CANCELED != 0
}

fn word_to_signed(word: u16) -> (value: i16)
    ensures
        value == signed16(word as int),
{
    if word >= 0x8000 {
        (word as i32 - 0x10000) as i16
    } else {
        word as i16
    }
}

/// Adding a multiple of the third word leaves the two lower words as they are.
proof fn lemma_words_of_shifted(x: int, k: int)
    requires
        k % 0x10000 == 0,
    ensures
        (x + k * 0x10000) % 0x10000 == x % 0x10000,
        ((x + k * 0x10000) / 0x10000) % 0x10000 == (x / 0x10000) % 0x10000,
{
    vstd::arithmetic::div_mod::lemma_mod_multiples_vanish(k, x, 0x10000);
    vstd::arithmetic::div_mod::lemma_hoist_over_denominator(x, k, 0x10000);
    vstd::arithmetic::div_mod::lemma_mod_multiples_vanish(k / 0x10000, x / 0x10000, 0x10000);
}

/// The position of a pointer message on the screen.
pub fn pointer_screen(lparam: isize) -> (position: (i16, i16))
    ensures
        position.0 == signed16(lparam as int % 0x10000),
        position.1 == signed16((lparam as int / 0x10000) % 0x10000),
{
    let wide: i64 = lparam as i64;
    let bits: u64 = wide as u64;
    assert(bits == if wide < 0 {
        wide + 0x1_0000_0000_0000_0000
    } else {
        wide as int
    }) by (bit_vector)
        requires
            bits == wide as u64,
    ;
    proof {
        let k: int = if wide < 0 {
            0x1_0000_0000_0000
        } else {
            0
        };
        lemma_words_of_shifted(wide as int, k);
    }
    let low: u16 = (bits % 0x10000) as u16;
    let high: u16 = ((bits / 0x10000) % 0x10000) as u16;
    (word_to_signed(low), word_to_signed(high))
}

/// The identifier of a hotkey message.
pub fn hotkey_id(wparam: usize) -> (id: i32)
    ensures
        id == hotkey_id_of(wparam),
{
    let low: u64 = wparam as u64 % 0x1_0000_0000;
    if low >= 0x8000_0000 {
        (low as i64 - 0x1_0000_0000) as i32
    } else {
        low as i32
    }
}

/// The low half of the parameter, read as a signed number.
pub open spec fn hotkey_id_of(wparam: usize) -> int {
    let low = wparam as int % 0x1_0000_0000;
    if low >= 0x8000_0000 {
        low - 0x1_0000_0000
    } else {
        low
    }
}

/// Whose drawing a message takes away.
#[derive(Clone, Copy, Debug, PartialEq, Eq, Structural)]
pub enum DrawingCancellation {
    Pointer(u32),
    AnyPointer,
}

/// A pointer message speaks for its own pointer only; a loss of capture or mode speaks for
/// whichever pointer draws.
pub open spec fn cancellation_of(message: u32, wparam: usize) -> Option<DrawingCancellation> {
    let pointer = DrawingCancellation::Pointer((wparam % 0x10000) as u32);
    if (message == WM_POINTERUPDATE || message == WM_POINTERUP) && is_canceled(wparam) {
        Some(pointer)
    } else if message == WM_POINTERCAPTURECHANGED {
        Some(pointer)
    } else if message == WM_CAPTURECHANGED || message == WM_CANCELMODE {
        Some(DrawingCancellation::AnyPointer)
    } else {
        None
    }
}

pub fn drawing_cancellation(message: u32, wparam: usize) -> (cancellation: Option<
    DrawingCancellation,
>)
    ensures
        cancellation == cancellation_of(message, wparam),
{
    if (message == WM_POINTERUPDATE || message == WM_POINTERUP) && pointer_flags(wparam)
        & POINTER_MESSAGE_FLAG_CANCELED != 0 {
        Some(DrawingCancellation::Pointer(pointer_id(wparam)))
    } else if message == WM_POINTERCAPTURECHANGED {
        Some(DrawingCancellation::Pointer(pointer_id(wparam)))
    } else if message == WM_CAPTURECHANGED || message == WM_CANCELMODE {
        Some(DrawingCancellation::AnyPointer)
    } else {
        None
    }
}

/// Something that may take a message. Attempts that find nothing to do pass it on.
#[derive(Clone, Copy, Debug, PartialEq, Eq, Structural)]
pub enum Attempt {
    /// Takes the message and does nothing.
    Ignore,
    /// Clears the active layer, where that is allowed.
    ClearActiveLayer,
    /// Abandons the transformation under way, and takes the message either way.
    EscapeTransform,
    ToggleMode,
    /// Shows the cursor of the selection tool.
    SelectionCursor,
    HotkeyChange,
    RadialClick,
    OpenRadialMenu,
    PointerDown,
    /// Takes the pointer of the radial menu away.
    CancelRadial,
    /// Closes the radial menu.
    DismissRadial,
    /// Abandons the transformation under way; passes the message on where there is none.
    CancelDrag,
    /// Cancels the drawing that the message speaks for; passes it on where there is none.
    CancelDrawing,
    /// Moves the pointer over the radial menu, where its positions matter.
    UpdateRadial,
    /// Releases the pointer of the radial menu, where it is this one.
    ReleaseRadial,
    /// Moves the pointer that draws or transforms, where it is this one.
    PointerUpdate,
    /// Releases the pointer that draws or transforms, where it is this one.
    PointerUp,
    Tray,
    Flush,
    PollProjector,
    PendingTimer,
    DisplayChange,
    ObsResults,
    Paint,
    Destroy,
}

/// What the decision needs to know of the overlay.
#[derive(Clone, Copy, Debug, PartialEq, Eq, Structural)]
pub struct Ownership {
    pub draw_mode: bool,
    pub radial_pinned: bool,
    /// The radial menu is under the message's pointer.
    pub radial_owns: bool,
    /// The transformation under way is of the message's pointer.
    pub drag_owns: bool,
    /// The hotkey message is of the key that toggles drawing.
    pub toggles: bool,
    /// A menu or dialog of this program is open.
    pub foreground_ui: bool,
}

/// The attempts at a pointer press. Outside of drawing there are none, so that the press reaches
/// the window below.
pub open spec fn press_attempts(wparam: usize, ownership: Ownership) -> Seq<Attempt> {
    let first = flags_of(wparam) & POINTER_MESSAGE_FLAG_FIRSTBUTTON != 0;
    let second = flags_of(wparam) & POINTER_MESSAGE_FLAG_SECONDBUTTON != 0;
    if !ownership.draw_mode {
        Seq::empty()
    } else if ownership.radial_pinned {
        if first || second {
            seq![Attempt::RadialClick]
        } else {
            seq![Attempt::Ignore]
        }
    } else if second {
        seq![Attempt::OpenRadialMenu]
    } else if first {
        seq![Attempt::PointerDown]
    } else {
        seq![Attempt::Ignore]
    }
}

/// The attempts at a move or a release of a pointer. One that is taken away from the radial menu
/// or from a transformation goes to neither anything else nor a drawing.
pub open spec fn motion_attempts(
    wparam: usize,
    ownership: Ownership,
    radial: Attempt,
    other: Attempt,
) -> Seq<Attempt> {
    if is_canceled(wparam) && ownership.radial_owns {
        seq![Attempt::CancelRadial, Attempt::Ignore]
    } else if is_canceled(wparam) && ownership.drag_owns {
        seq![Attempt::CancelDrag, Attempt::Ignore]
    } else {
        seq![Attempt::CancelDrawing, radial, other]
    }
}

/// The attempts at a hotkey message.
pub open spec fn hotkey_attempts(wparam: usize, ownership: Ownership) -> Seq<Attempt> {
    if hotkey_id_of(wparam) == LAYER_CLEAR_ID {
        seq![Attempt::ClearActiveLayer]
    } else if hotkey_id_of(wparam) == TRANSFORM_ESCAPE_ID {
        seq![Attempt::EscapeTransform]
    } else if !ownership.toggles {
        Seq::empty()
    } else if ownership.foreground_ui {
        seq![Attempt::Ignore]
    } else {
        seq![Attempt::ToggleMode]
    }
}

/// The attempts at a message, in order. A message that none of them takes goes to the system.
pub open spec fn attempts_at(message: u32, wparam: usize, ownership: Ownership) -> Seq<Attempt> {
    if message == WM_HOTKEY {
        hotkey_attempts(wparam, ownership)
    } else if message == WM_SETCURSOR {
        seq![Attempt::SelectionCursor]
    } else if message == WM_HOTKEY_CHANGE {
        seq![Attempt::HotkeyChange]
    } else if message == WM_POINTERDOWN {
        press_attempts(wparam, ownership)
    } else if message == WM_POINTERUPDATE {
        motion_attempts(wparam, ownership, Attempt::UpdateRadial, Attempt::PointerUpdate)
    } else if message == WM_POINTERUP {
        motion_attempts(wparam, ownership, Attempt::ReleaseRadial, Attempt::PointerUp)
    } else if message == WM_POINTERCAPTURECHANGED {
        (if ownership.radial_owns {
            seq![Attempt::CancelRadial]
        } else {
            Seq::empty()
        }) + (if ownership.drag_owns {
            seq![Attempt::CancelDrag]
        } else {
            Seq::empty()
        }) + seq![Attempt::CancelDrawing]
    } else if message == WM_CAPTURECHANGED {
        seq![Attempt::CancelRadial, Attempt::CancelDrag, Attempt::CancelDrawing]
    } else if message == WM_CANCELMODE {
        seq![Attempt::DismissRadial, Attempt::CancelDrag, Attempt::CancelDrawing]
    } else if message == WM_TRAY {
        seq![Attempt::Tray]
    } else if message == WM_TIMER && wparam == FLUSH_TIMER_ID {
        seq![Attempt::Flush]
    } else if message == WM_TIMER && wparam == PROJECTOR_TIMER_ID {
        seq![Attempt::PollProjector]
    } else if message == WM_TIMER && wparam == PENDING_TIMER_ID {
        seq![Attempt::PendingTimer]
    } else if message == WM_DISPLAYCHANGE {
        seq![Attempt::DisplayChange]
    } else if message == WM_OBS_RESULT {
        seq![Attempt::ObsResults]
    } else if message == WM_PAINT {
        seq![Attempt::Paint]
    } else if message == WM_DESTROY {
        seq![Attempt::Destroy]
    } else {
        Seq::empty()
    }
}

fn one(attempt: Attempt) -> (attempts: Vec<Attempt>)
    ensures
        attempts@ == seq![attempt],
{
    let mut attempts: Vec<Attempt> = Vec::new();
    attempts.push(attempt);
    assert(attempts@ =~= seq![attempt]);
    attempts
}

fn press(wparam: usize, ownership: Ownership) -> (attempts: Vec<Attempt>)
    ensures
        attempts@ == press_attempts(wparam, ownership),
{
    if !ownership.draw_mode {
        return Vec::new();
    }
    let flags: u32 = pointer_flags(wparam);
    let first = flags & POINTER_MESSAGE_FLAG_FIRSTBUTTON != 0;
    let second = flags & POINTER_MESSAGE_FLAG_SECONDBUTTON != 0;
    if ownership.radial_pinned {
        if first || second {
            one(Attempt::RadialClick)
        } else {
            one(Attempt::Ignore)
        }
    } else if second {
        one(Attempt::OpenRadialMenu)
    } else if first {
        one(Attempt::PointerDown)
    } else {
        one(Attempt::Ignore)
    }
}

fn motion(wparam: usize, ownership: Ownership, radial: Attempt, other: Attempt) -> (attempts: Vec<
    Attempt,
>)
    ensures
        attempts@ == motion_attempts(wparam, ownership, radial, other),
{
    let canceled = pointer_flags(wparam) & POINTER_MESSAGE_FLAG_CANCELED != 0;
    let mut attempts: Vec<Attempt> = Vec::new();
    if canceled && ownership.radial_owns {
        attempts.push(Attempt::CancelRadial);
        attempts.push(Attempt::Ignore);
    } else if canceled && ownership.drag_owns {
        attempts.push(Attempt::CancelDrag);
        attempts.push(Attempt::Ignore);
    } else {
        attempts.push(Attempt::CancelDrawing);
        attempts.push(radial);
        attempts.push(other);
    }
    assert(attempts@ =~= motion_attempts(wparam, ownership, radial, other));
    attempts
}

/// The attempts at a message, in order.
pub fn attempts(message: u32, wparam: usize, ownership: Ownership) -> (attempts: Vec<Attempt>)
    ensures
        attempts@ == attempts_at(message, wparam, ownership),
{
    match message {
        WM_HOTKEY => {
            let id: i32 = hotkey_id(wparam);
            if id == LAYER_CLEAR_ID {
                one(Attempt::ClearActiveLayer)
            } else if id == TRANSFORM_ESCAPE_ID {
                one(Attempt::EscapeTransform)
            } else if !ownership.toggles {
                Vec::new()
            } else if ownership.foreground_ui {
                one(Attempt::Ignore)
            } else {
                one(Attempt::ToggleMode)
            }
        },
        WM_SETCURSOR => one(Attempt::SelectionCursor),
        WM_HOTKEY_CHANGE => one(Attempt::HotkeyChange),
        WM_POINTERDOWN => press(wparam, ownership),
        WM_POINTERUPDATE => motion(
            wparam,
            ownership,
            Attempt::UpdateRadial,
            Attempt::PointerUpdate,
        ),
        WM_POINTERUP => motion(wparam, ownership, Attempt::ReleaseRadial, Attempt::PointerUp),
        WM_POINTERCAPTURECHANGED => {
            let mut attempts: Vec<Attempt> = Vec::new();
            if ownership.radial_owns {
                attempts.push(Attempt::CancelRadial);
            }
            if ownership.drag_owns {
                attempts.push(Attempt::CancelDrag);
            }
            attempts.push(Attempt::CancelDrawing);
            assert(attempts@ =~= attempts_at(message, wparam, ownership));
            attempts
        },
        WM_CAPTURECHANGED => {
            let mut attempts: Vec<Attempt> = Vec::new();
            attempts.push(Attempt::CancelRadial);
            attempts.push(Attempt::CancelDrag);
            attempts.push(Attempt::CancelDrawing);
            assert(attempts@ =~= attempts_at(message, wparam, ownership));
            attempts
        },
        WM_CANCELMODE => {
            let mut attempts: Vec<Attempt> = Vec::new();
            attempts.push(Attempt::DismissRadial);
            attempts.push(Attempt::CancelDrag);
            attempts.push(Attempt::CancelDrawing);
            assert(attempts@ =~= attempts_at(message, wparam, ownership));
            attempts
        },
        WM_TRAY => one(Attempt::Tray),
        WM_TIMER => match wparam {
            FLUSH_TIMER_ID => one(Attempt::Flush),
            PROJECTOR_TIMER_ID => one(Attempt::PollProjector),
            PENDING_TIMER_ID => one(Attempt::PendingTimer),
            _ => Vec::new(),
        },
        WM_DISPLAYCHANGE => one(Attempt::DisplayChange),
        WM_OBS_RESULT => one(Attempt::ObsResults),
        WM_PAINT => one(Attempt::Paint),
        WM_DESTROY => one(Attempt::Destroy),
        _ => Vec::new(),
    }
}

/// Outside of drawing, pointer presses are left to the window below.
pub proof fn law_presses_pass_through_outside_of_drawing(wparam: usize, ownership: Ownership)
    requires
        !ownership.draw_mode,
    ensures
        attempts_at(WM_POINTERDOWN, wparam, ownership) == Seq::<Attempt>::empty(),
{
}

/// A pinned radial menu is clicked with either button; without one the second button opens the menu
/// and the first one draws.
pub proof fn law_buttons_of_a_press(wparam: usize, ownership: Ownership)
    requires
        ownership.draw_mode,
    ensures
        ({
            let first = flags_of(wparam) & POINTER_MESSAGE_FLAG_FIRSTBUTTON != 0;
            let second = flags_of(wparam) & POINTER_MESSAGE_FLAG_SECONDBUTTON != 0;
            let attempts = attempts_at(WM_POINTERDOWN, wparam, ownership);
            &&& ownership.radial_pinned && (first || second) ==> attempts == seq![
                Attempt::RadialClick,
            ]
            &&& !ownership.radial_pinned && second ==> attempts == seq![Attempt::OpenRadialMenu]
            &&& !ownership.radial_pinned && first && !second ==> attempts == seq![
                Attempt::PointerDown,
            ]
        }),
{
}

/// A pointer that the system takes away is first taken from whatever holds it. Where that is the
/// radial menu or a transformation, its last message never counts as a release.
pub proof fn law_a_canceled_pointer_cancels_first(message: u32, wparam: usize, ownership: Ownership)
    requires
        message == WM_POINTERUPDATE || message == WM_POINTERUP,
        is_canceled(wparam),
    ensures
        ({
            let attempts = attempts_at(message, wparam, ownership);
            &&& ownership.radial_owns ==> attempts[0] == Attempt::CancelRadial
            &&& !ownership.radial_owns && ownership.drag_owns ==> attempts[0] == Attempt::CancelDrag
            &&& !ownership.radial_owns && !ownership.drag_owns ==> attempts[0]
                == Attempt::CancelDrawing && cancellation_of(message, wparam) is Some
            &&& ownership.radial_owns || ownership.drag_owns ==> !attempts.contains(
                Attempt::ReleaseRadial,
            ) && !attempts.contains(Attempt::PointerUp)
        }),
{
}

/// While a menu or dialog of this program is open, the toggling hotkey changes nothing.
pub proof fn law_hotkeys_rest_while_a_dialog_is_open(wparam: usize, ownership: Ownership)
    requires
        ownership.foreground_ui,
    ensures
        !attempts_at(WM_HOTKEY, wparam, ownership).contains(Attempt::ToggleMode),
{
}

/// A move of a pointer that is not taken away reaches the radial menu and then what the pointer
/// draws or transforms, and so does a release; nothing before them swallows it, and neither is
/// taken for the other.
pub proof fn law_moves_and_releases_reach_the_drawing(wparam: usize, ownership: Ownership)
    requires
        ((wparam / 0x10000) % 0x10000) as u32 & 0x8000 == 0 || (!ownership.radial_owns
            && !ownership.drag_owns),
    ensures
        ({
            let moves = attempts_at(WM_POINTERUPDATE, wparam, ownership);
            let releases = attempts_at(WM_POINTERUP, wparam, ownership);
            &&& moves.last() == Attempt::PointerUpdate
            &&& moves.len() > 1 && moves[moves.len() - 2] == Attempt::UpdateRadial
            &&& releases.last() == Attempt::PointerUp
            &&& releases.len() > 1 && releases[releases.len() - 2] == Attempt::ReleaseRadial
            &&& forall|i: int|
                0 <= i < moves.len() ==> (#[trigger] moves[i] == Attempt::UpdateRadial || moves[i]
                    == Attempt::PointerUpdate || moves[i] == Attempt::CancelDrawing)
            &&& forall|i: int|
                0 <= i < releases.len() ==> (#[trigger] releases[i] == Attempt::ReleaseRadial
                    || releases[i] == Attempt::PointerUp || releases[i] == Attempt::CancelDrawing)
        }),
{
}

/// The drawing of a pointer that moves or is released is canceled only where the system takes the
/// pointer away, and then before anything else; a loss of capture names its pointer, and a loss
/// that names none is for whichever pointer draws.
pub proof fn law_a_message_cancels_its_own_pointer(message: u32, wparam: usize)
    ensures
        ({
            let pointer = Some(DrawingCancellation::Pointer((wparam % 0x10000) as u32));
            let taken = ((wparam / 0x10000) % 0x10000) as u32 & 0x8000 != 0;
            &&& message == WM_POINTERUPDATE || message == WM_POINTERUP ==> cancellation_of(
                message,
                wparam,
            ) == (if taken {
                pointer
            } else {
                None
            })
            &&& message == WM_POINTERCAPTURECHANGED ==> cancellation_of(message, wparam) == pointer
            &&& (message == WM_CAPTURECHANGED || message == WM_CANCELMODE) <==> cancellation_of(
                message,
                wparam,
            ) == Some(DrawingCancellation::AnyPointer)
            &&& message == WM_POINTERDOWN ==> cancellation_of(message, wparam) is None
        }),
{
}

/// A loss of a pointer or of the mode takes everything away that was held: the drawing always
/// last, the transformation and the radial menu before it. A pointer's own loss takes away just
/// what is its own; a canceled mode closes the radial menu for good.
pub proof fn law_a_loss_takes_everything_away(wparam: usize, ownership: Ownership)
    ensures
        ({
            let capture = attempts_at(WM_POINTERCAPTURECHANGED, wparam, ownership);
            &&& capture.last() == Attempt::CancelDrawing
            &&& capture.contains(Attempt::CancelRadial) <==> ownership.radial_owns
            &&& capture.contains(Attempt::CancelDrag) <==> ownership.drag_owns
            &&& !capture.contains(Attempt::DismissRadial) && !capture.contains(Attempt::Ignore)
        }),
        attempts_at(WM_CAPTURECHANGED, wparam, ownership) == seq![
            Attempt::CancelRadial,
            Attempt::CancelDrag,
            Attempt::CancelDrawing,
        ],
        attempts_at(WM_CANCELMODE, wparam, ownership) == seq![
            Attempt::DismissRadial,
            Attempt::CancelDrag,
            Attempt::CancelDrawing,
        ],
{
    let capture = attempts_at(WM_POINTERCAPTURECHANGED, wparam, ownership);
    let drag: int = if ownership.radial_owns {
        1
    } else {
        0
    };
    if ownership.radial_owns {
        assert(capture[0] == Attempt::CancelRadial);
    }
    if ownership.drag_owns {
        assert(capture[drag] == Attempt::CancelDrag);
    }
}

/// While drawing a press is always taken, by one party: a pinned radial menu where there is one,
/// else by its buttons, of which the second goes first. A press of neither button does nothing.
pub proof fn law_a_press_has_one_taker(wparam: usize, ownership: Ownership)
    requires
        ownership.draw_mode,
    ensures
        ({
            let first = ((wparam / 0x10000) % 0x10000) as u32 & 0x10 != 0;
            let second = ((wparam / 0x10000) % 0x10000) as u32 & 0x20 != 0;
            let attempts = attempts_at(WM_POINTERDOWN, wparam, ownership);
            &&& attempts.len() == 1
            &&& attempts[0] == Attempt::RadialClick <==> ownership.radial_pinned && (first
                || second)
            &&& attempts[0] == Attempt::OpenRadialMenu <==> !ownership.radial_pinned && second
            &&& attempts[0] == Attempt::PointerDown <==> !ownership.radial_pinned && first
                && !second
            &&& attempts[0] == Attempt::Ignore <==> !first && !second
        }),
{
}

/// A hotkey message goes to the hotkey that it names: the one that clears a layer, the one that
/// abandons a transformation, or the one that toggles drawing. Others go to the system.
pub proof fn law_a_hotkey_does_what_it_is_for(id: i32, wparam: usize, ownership: Ownership)
    requires
        0 <= id,
        wparam == id,
    ensures
        ({
            let attempts = attempts_at(WM_HOTKEY, wparam, ownership);
            &&& id == LAYER_CLEAR_ID ==> attempts == seq![Attempt::ClearActiveLayer]
            &&& id == TRANSFORM_ESCAPE_ID ==> attempts == seq![Attempt::EscapeTransform]
            &&& id != LAYER_CLEAR_ID && id != TRANSFORM_ESCAPE_ID ==> {
                &&& ownership.toggles && !ownership.foreground_ui ==> attempts == seq![
                    Attempt::ToggleMode,
                ]
                &&& ownership.toggles && ownership.foreground_ui ==> attempts == seq![
                    Attempt::Ignore,
                ]
                &&& !ownership.toggles ==> attempts.len() == 0
            }
        }),
{
}

/// Every other message has a handler of its own, alone and whoever owns the pointer, and what no
/// handler is for goes to the system.
pub proof fn law_every_message_has_its_own_handler(
    message: u32,
    wparam: usize,
    ownership: Ownership,
)
    ensures
        ({
            let timer = |id: usize| message == WM_TIMER && wparam == id;
            let attempts = attempts_at(message, wparam, ownership);
            &&& message == WM_SETCURSOR <==> attempts == seq![Attempt::SelectionCursor]
            &&& message == WM_HOTKEY_CHANGE <==> attempts == seq![Attempt::HotkeyChange]
            &&& message == WM_TRAY <==> attempts == seq![Attempt::Tray]
            &&& timer(FLUSH_TIMER_ID) <==> attempts == seq![Attempt::Flush]
            &&& timer(PROJECTOR_TIMER_ID) <==> attempts == seq![Attempt::PollProjector]
            &&& timer(PENDING_TIMER_ID) <==> attempts == seq![Attempt::PendingTimer]
            &&& message == WM_DISPLAYCHANGE <==> attempts == seq![Attempt::DisplayChange]
            &&& message == WM_OBS_RESULT <==> attempts == seq![Attempt::ObsResults]
            &&& message == WM_PAINT <==> attempts == seq![Attempt::Paint]
            &&& message == WM_DESTROY <==> attempts == seq![Attempt::Destroy]
        }),
        message == WM_TIMER && wparam != FLUSH_TIMER_ID && wparam != PROJECTOR_TIMER_ID && wparam
            != PENDING_TIMER_ID ==> attempts_at(message, wparam, ownership).len() == 0,
{
    let attempts = attempts_at(message, wparam, ownership);
    let first = attempts[0];
    assert(forall|attempt: Attempt| attempts == seq![attempt] ==> attempts[0] == attempt
        && attempts.len() == 1);
    assert(forall|attempt: Attempt| #[trigger] seq![attempt][0] == attempt);
}

/// The halves of a parameter: the pointer below, its flags above; a position and a hotkey's number
/// are read as signed numbers of their width.
pub proof fn law_words_are_read_as_they_were_written(wparam: usize, word: int, id: i32)
    requires
        0 <= word < 0x10000,
    ensures
        wparam < 0x1_0000_0000 ==> wparam == flags_of(wparam) * 0x10000 + wparam % 0x10000,
        -0x8000 <= signed16(word) < 0x8000,
        signed16(word) % 0x10000 == word,
        wparam as int % 0x1_0000_0000 == id as int % 0x1_0000_0000 ==> hotkey_id_of(wparam) == id,
{
}

/// A move or release whose pointer the system takes away goes to what holds the pointer and to
/// nothing else; where nothing does, it cancels the drawing before it is tried as it would be
/// otherwise. A pointer that loses its capture is taken from all that hold it.
pub proof fn law_a_pointer_is_taken_from_its_holder(
    message: u32,
    wparam: usize,
    ownership: Ownership,
)
    requires
        message == WM_POINTERUPDATE || message == WM_POINTERUP,
        ((wparam / 0x10000) % 0x10000) as u32 & 0x8000 != 0,
    ensures
        ({
            let attempts = attempts_at(message, wparam, ownership);
            &&& ownership.radial_owns ==> attempts == seq![Attempt::CancelRadial, Attempt::Ignore]
            &&& !ownership.radial_owns && ownership.drag_owns ==> attempts == seq![
                Attempt::CancelDrag,
                Attempt::Ignore,
            ]
            &&& !ownership.radial_owns && !ownership.drag_owns ==> attempts[0]
                == Attempt::CancelDrawing && attempts.len() == 3
        }),
{
}

/// The parties that lose a pointer do so in one order: the radial menu, the transformation, the
/// drawing. A message that is none of the overlay's goes to the system.
pub proof fn law_other_messages_go_to_the_system(
    message: u32,
    wparam: usize,
    ownership: Ownership,
)
    ensures
        ({
            let capture = attempts_at(WM_POINTERCAPTURECHANGED, wparam, ownership);
            &&& ownership.radial_owns ==> capture[0] == Attempt::CancelRadial
            &&& ownership.drag_owns ==> capture[capture.len() - 2] == Attempt::CancelDrag
            &&& capture.len() <= 3
            &&& !ownership.radial_owns && !ownership.drag_owns ==> capture.len() == 1
        }),
        message != WM_HOTKEY && message != WM_SETCURSOR && message != WM_HOTKEY_CHANGE && message
            != WM_POINTERDOWN && message != WM_POINTERUPDATE && message != WM_POINTERUP && message
            != WM_POINTERCAPTURECHANGED && message != WM_CAPTURECHANGED && message != WM_CANCELMODE
            && message != WM_TRAY && message != WM_TIMER && message != WM_DISPLAYCHANGE && message
            != WM_OBS_RESULT && message != WM_PAINT && message != WM_DESTROY ==> attempts_at(
            message,
            wparam,
            ownership,
        ).len() == 0 && cancellation_of(message, wparam) is None,
{
}

} // verus!
