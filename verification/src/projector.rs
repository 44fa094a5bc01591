//! The OBS projector: recognizing its window and keeping it right below the overlay.

use vstd::prelude::*;

use crate::monitor::Monitor;
use crate::text;

verus! {

/// How far a full-screen window may miss the monitor's edges.
pub const TOLERANCE: i32 = 2;

/// Smallest window that a diagnosis lists.
pub const DIAGNOSIS_MIN_WIDTH: i64 = 600;

pub const DIAGNOSIS_MIN_HEIGHT: i64 = 400;

/// How many menus and dialogs of this program are open. While any is, the overlay is not moved to
/// the front: it would cover them.
#[derive(Clone, Copy, Debug, Default, PartialEq, Eq, Structural)]
pub struct ForegroundUi {
    pub depth: usize,
}

impl ForegroundUi {
    pub open spec fn opened(self) -> Self {
        ForegroundUi {
            depth: if self.depth < usize::MAX {
                (self.depth + 1) as usize
            } else {
                usize::MAX
            },
        }
    }

    pub open spec fn closed(self) -> Self {
        ForegroundUi {
            depth: if self.depth > 0 {
                (self.depth - 1) as usize
            } else {
                0
            },
        }
    }
}

/// An open menu or dialog of this program. Only [`ForegroundUiGuard::new`] makes one.
#[derive(Debug)]
pub struct ForegroundUiGuard {
    opened: (),
}

impl ForegroundUiGuard {
    /// Counts a menu or dialog as open.
    pub fn new(ui: &mut ForegroundUi) -> (guard: Self)
        ensures
            *final(ui) == old(ui).opened(),
    {
        ui.depth = ui.depth.saturating_add(1);
        ForegroundUiGuard { opened: () }
    }

    /// Counts it as closed again.
    pub fn close(self, ui: &mut ForegroundUi)
        ensures
            *final(ui) == old(ui).closed(),
    {
        ui.depth = ui.depth.saturating_sub(1);
    }
}

pub fn foreground_ui_active(ui: &ForegroundUi) -> (active: bool)
    ensures
        active == (ui.depth != 0),
{
    ui.depth != 0
}

/// The edges of a window.
#[derive(Clone, Copy, Debug, PartialEq, Eq, Structural)]
pub struct WindowRect {
    pub left: i32,
    pub top: i32,
    pub right: i32,
    pub bottom: i32,
}

/// Whether a window fills a monitor, give or take the tolerance.
pub open spec fn fills(rect: WindowRect, monitor: Monitor) -> bool {
    &&& rect.left <= monitor.x + TOLERANCE
    &&& rect.top <= monitor.y + TOLERANCE
    &&& rect.right >= monitor.x + monitor.width - TOLERANCE
    &&& rect.bottom >= monitor.y + monitor.height - TOLERANCE
}

pub fn covers(rect: &WindowRect, monitor: &Monitor) -> (covered: bool)
    ensures
        covered == fills(*rect, *monitor),
{
    let tolerance: i64 = TOLERANCE as i64;
    let (x, y): (i64, i64) = (monitor.x as i64, monitor.y as i64);
    rect.left as i64 <= x + tolerance && rect.top as i64 <= y + tolerance && rect.right as i64 >= x
        + monitor.width as i64 - tolerance && rect.bottom as i64 >= y + monitor.height as i64
        - tolerance
}

/// What the system says of a top-level window. `rect` is none where it cannot be told.
#[derive(Clone, Copy, Debug, PartialEq, Eq, Structural)]
pub struct WindowFacts {
    pub handle: isize,
    pub visible: bool,
    pub iconic: bool,
    pub rect: Option<WindowRect>,
    /// The window belongs to an OBS process; see [`is_obs_image`].
    pub obs: bool,
}

/// Whether a window could be the projector on a monitor, whichever program it belongs to.
pub open spec fn is_candidate(window: WindowFacts, monitor: Monitor, own: isize) -> bool {
    &&& window.handle != own
    &&& window.visible
    &&& !window.iconic
    &&& window.rect is Some
    &&& fills(window.rect->0, monitor)
}

pub fn may_be_projector(window: &WindowFacts, monitor: &Monitor, own: isize) -> (candidate: bool)
    ensures
        candidate == is_candidate(*window, *monitor, own),
{
    if window.handle == own || !window.visible || window.iconic {
        return false;
    }
    match &window.rect {
        Some(rect) => covers(rect, monitor),
        None => false,
    }
}

/// The projector on a monitor: the first full-screen OBS window, from the front to the back.
pub fn find_projector(windows: &[WindowFacts], monitor: &Monitor, own: isize) -> (found: Option<
    isize,
>)
    ensures
        match found {
            Some(handle) => exists|i: int|
                {
                    &&& 0 <= i < windows@.len()
                    &&& (#[trigger] windows@[i]).handle == handle
                    &&& windows@[i].obs
                    &&& is_candidate(windows@[i], *monitor, own)
                    &&& forall|earlier: int|
                        0 <= earlier < i ==> !((#[trigger] windows@[earlier]).obs && is_candidate(
                            windows@[earlier],
                            *monitor,
                            own,
                        ))
                },
            None => forall|i: int|
                0 <= i < windows@.len() ==> !((#[trigger] windows@[i]).obs && is_candidate(
                    windows@[i],
                    *monitor,
                    own,
                )),
        },
{
    for i in 0..windows.len()
        invariant
            forall|earlier: int|
                0 <= earlier < i ==> !((#[trigger] windows@[earlier]).obs && is_candidate(
                    windows@[earlier],
                    *monitor,
                    own,
                )),
    {
        if windows[i].obs && may_be_projector(&windows[i], monitor, own) {
            return Some(windows[i].handle);
        }
    }
    None
}

pub open spec fn is_separator(c: char) -> bool {
    c == '\\' || c == '/'
}

/// What stands after the last separator of a path.
pub open spec fn file_name(path: Seq<char>) -> Seq<char>
    decreases path.len(),
{
    if path.len() == 0 || is_separator(path.last()) {
        Seq::empty()
    } else {
        file_name(path.drop_last()).push(path.last())
    }
}

/// Whether a path in lower case is that of an OBS executable.
pub open spec fn is_obs_path(lower: Seq<char>) -> bool {
    file_name(lower) == "obs64.exe"@ || file_name(lower) == "obs32.exe"@ || file_name(lower)
        == "obs.exe"@
}

proof fn lemma_file_name(path: Seq<char>, from: int)
    requires
        0 <= from <= path.len(),
        from > 0 ==> is_separator(path[from - 1]),
        forall|i: int| from <= i < path.len() ==> !is_separator(path[i]),
    ensures
        file_name(path) == path.skip(from),
    decreases path.len(),
{
    if path.len() == from {
        assert(path.skip(from) =~= Seq::empty());
    } else {
        lemma_file_name(path.drop_last(), from);
        assert(path.skip(from) =~= path.drop_last().skip(from).push(path.last()));
    }
}

fn same_text(chars: &[char], from: usize, name: &str) -> (same: bool)
    requires
        from <= chars@.len(),
    ensures
        same == (chars@.skip(from as int) == name@),
{
    let wanted = text::chars_of(name);
    if chars.len() - from != wanted.len() {
        return false;
    }
    for i in 0..wanted.len()
        invariant
            from <= chars.len(),
            chars.len() - from == wanted.len(),
            wanted@ == name@,
            forall|j: int| 0 <= j < i ==> chars@[from + j] == name@[j],
    {
        if chars[from + i] != wanted[i] {
            assert(chars@.skip(from as int)[i as int] != name@[i as int]);
            return false;
        }
    }
    assert(chars@.skip(from as int) =~= name@);
    true
}

/// Whether a path, already in lower case, is that of an OBS executable.
pub fn names_obs(lower: &str) -> (obs: bool)
    ensures
        obs == is_obs_path(lower@),
{
    let chars = text::chars_of(lower);
    let mut from: usize = chars.len();
    while from > 0 && chars[from - 1] != '\\' && chars[from - 1] != '/'
        invariant
            from <= chars.len(),
            forall|i: int| from <= i < chars@.len() ==> !is_separator(chars@[i]),
        decreases from,
    {
        from = from - 1;
    }
    proof {
        lemma_file_name(lower@, from as int);
    }
    same_text(&chars, from, "obs64.exe") || same_text(&chars, from, "obs32.exe") || same_text(
        &chars,
        from,
        "obs.exe",
    )
}

/// Whether the path of a process image, as UTF-16 units, is that of an OBS executable.
pub fn is_obs_image(path: &[u16]) -> (obs: bool)
    ensures
        obs == is_obs_path(text::lowercase(text::utf16_text(path@))),
{
    let decoded = text::decode_utf16(path);
    let lower = text::to_lowercase(&decoded);
    names_obs(&lower)
}

/// A change of a window's place. Moves to the front are made in order, and the first that fails
/// ends them; whether giving a place back fails does not matter.
#[derive(Clone, Copy, Debug, PartialEq, Eq, Structural)]
pub enum ZOrderCall {
    /// Move to the front of the windows that stay on top.
    Raise(isize),
    /// Take out of the windows that stay on top.
    Lower(isize),
}

/// Keeps the projector among the windows that stay on top, right below the overlay, and remembers
/// whether it was put there by this program.
#[derive(Clone, Copy, Debug, Default, PartialEq, Eq, Structural)]
pub struct ZOrderGuard {
    pub projector: Option<isize>,
    pub restore_not_topmost: bool,
}

impl ZOrderGuard {
    /// The call that gives the projector's place back, if this program had put it on top.
    pub open spec fn restore_calls(self) -> Seq<ZOrderCall> {
        match self.projector {
            Some(projector) => if self.restore_not_topmost {
                seq![ZOrderCall::Lower(projector)]
            } else {
                Seq::empty()
            },
            None => Seq::empty(),
        }
    }

    /// The guard after it has been told of the projector, which is on top already or not.
    pub open spec fn told(self, projector: Option<isize>, topmost: bool) -> Self {
        if self.projector != projector {
            ZOrderGuard { projector, restore_not_topmost: projector is Some && !topmost }
        } else if projector is Some {
            ZOrderGuard { restore_not_topmost: self.restore_not_topmost || !topmost, ..self }
        } else {
            self
        }
    }

    /// What being told of the projector asks for.
    pub open spec fn enforce_calls(self, projector: Option<isize>, overlay: isize) -> Seq<
        ZOrderCall,
    > {
        (if self.projector == projector {
            Seq::empty()
        } else {
            self.restore_calls()
        }) + match projector {
            Some(projector) => seq![ZOrderCall::Raise(projector), ZOrderCall::Raise(overlay)],
            None => Seq::empty(),
        }
    }

    /// Takes the projector, which `projector_topmost` says to be on top already. While a menu or
    /// dialog of this program is open nothing is moved.
    pub fn enforce(
        &mut self,
        projector: Option<isize>,
        projector_topmost: bool,
        overlay: isize,
        ui: &ForegroundUi,
    ) -> (calls: Vec<ZOrderCall>)
        ensures
            ui.depth != 0 ==> *final(self) == *old(self) && calls@ == Seq::<ZOrderCall>::empty(),
            ui.depth == 0 ==> *final(self) == old(self).told(projector, projector_topmost)
                && calls@ == old(self).enforce_calls(projector, overlay),
    {
        let mut calls: Vec<ZOrderCall> = Vec::new();
        if foreground_ui_active(ui) {
            return calls;
        }
        let same = match (self.projector, projector) {
            (Some(left), Some(right)) => left == right,
            (None, None) => true,
            _ => false,
        };
        if !same {
            calls = self.restore();
            self.projector = projector;
            self.restore_not_topmost = projector.is_some() && !projector_topmost;
        } else if projector.is_some() {
            self.restore_not_topmost = self.restore_not_topmost || !projector_topmost;
        }
        if let Some(projector) = projector {
            calls.push(ZOrderCall::Raise(projector));
            calls.push(ZOrderCall::Raise(overlay));
        }
        assert(calls@ =~= old(self).enforce_calls(projector, overlay));
        calls
    }

    /// Gives the projector up, and its place back where this program had put it on top.
    pub fn restore(&mut self) -> (calls: Vec<ZOrderCall>)
        ensures
            *final(self) == (ZOrderGuard { projector: None, restore_not_topmost: false }),
            calls@ == old(self).restore_calls(),
    {
        let mut calls: Vec<ZOrderCall> = Vec::new();
        if self.restore_not_topmost {
            if let Some(projector) = self.projector {
                calls.push(ZOrderCall::Lower(projector));
            }
        }
        self.projector = None;
        self.restore_not_topmost = false;
        assert(calls@ =~= old(self).restore_calls());
        calls
    }
}

/// Windows in their order, but for one.
pub open spec fn without(windows: Seq<isize>, window: isize) -> Seq<isize>
    decreases windows.len(),
{
    if windows.len() == 0 {
        windows
    } else if windows.last() == window {
        without(windows.drop_last(), window)
    } else {
        without(windows.drop_last(), window).push(windows.last())
    }
}

/// The windows that stay on top, from the front to the back, after a call.
pub open spec fn restacked(top: Seq<isize>, call: ZOrderCall) -> Seq<isize> {
    match call {
        ZOrderCall::Raise(window) => seq![window] + without(top, window),
        ZOrderCall::Lower(window) => without(top, window),
    }
}

/// The windows that stay on top after several calls.
pub open spec fn restacked_all(top: Seq<isize>, calls: Seq<ZOrderCall>) -> Seq<isize>
    decreases calls.len(),
{
    if calls.len() == 0 {
        top
    } else {
        restacked(restacked_all(top, calls.drop_last()), calls.last())
    }
}

proof fn lemma_without(top: Seq<isize>, window: isize, other: isize)
    ensures
        !without(top, window).contains(window),
        other != window ==> (top.contains(other) <==> without(top, window).contains(other)),
    decreases top.len(),
{
    if top.len() > 0 {
        let rest = top.drop_last();
        let kept = without(rest, window);
        let all = without(top, window);
        lemma_without(rest, window, other);
        if all.contains(window) {
            let j = all.index_of(window);
            assert(kept[j] == window);
        }
        if other != window && top.contains(other) {
            let i = top.index_of(other);
            if i < rest.len() {
                assert(rest[i] == other);
                let j = kept.index_of(other);
                assert(all[j] == other);
            } else {
                assert(all[kept.len() as int] == other);
            }
        }
        if other != window && all.contains(other) {
            let j = all.index_of(other);
            if j < kept.len() {
                assert(kept[j] == other);
                let i = rest.index_of(other);
                assert(top[i] == other);
            } else {
                assert(top[top.len() - 1] == other);
            }
        }
    }
}

proof fn lemma_without_keeps_the_front(top: Seq<isize>, window: isize)
    requires
        top.len() > 0,
        top[0] != window,
    ensures
        without(top, window).len() > 0,
        without(top, window)[0] == top[0],
    decreases top.len(),
{
    if top.len() > 1 {
        lemma_without_keeps_the_front(top.drop_last(), window);
    } else {
        assert(without(top.drop_last(), window).len() == 0);
    }
}

/// Whatever was on top before, once the calls have been made the overlay is in front of all, with
/// the projector right below it.
pub proof fn law_the_overlay_ends_up_right_above_the_projector(
    guard: ZOrderGuard,
    projector: isize,
    overlay: isize,
    top: Seq<isize>,
)
    requires
        projector != overlay,
    ensures
        ({
            let end = restacked_all(top, guard.enforce_calls(Some(projector), overlay));
            &&& end.len() >= 2
            &&& end[0] == overlay
            &&& end[1] == projector
        }),
{
    let calls = guard.enforce_calls(Some(projector), overlay);
    let raised = calls.drop_last();
    assert(calls.last() == ZOrderCall::Raise(overlay));
    assert(raised.last() == ZOrderCall::Raise(projector));
    let middle = restacked_all(top, raised);
    assert(middle == restacked(restacked_all(top, raised.drop_last()), raised.last()));
    assert(middle[0] == projector);
    lemma_without_keeps_the_front(middle, overlay);
    let rest = without(middle, overlay);
    assert((seq![overlay] + rest)[1] == rest[0]);
}

/// A projector is on top after it has been given up exactly where it was before it was taken: one
/// that this program had put there is taken back, one that was there already stays.
pub proof fn law_only_a_promoted_projector_is_restored(
    projector: isize,
    overlay: isize,
    top: Seq<isize>,
)
    requires
        projector != overlay,
    ensures
        ({
            let fresh = ZOrderGuard { projector: None, restore_not_topmost: false };
            let guard = fresh.told(Some(projector), top.contains(projector));
            let during = restacked_all(top, fresh.enforce_calls(Some(projector), overlay));
            let end = restacked_all(during, guard.restore_calls());
            &&& during.contains(projector)
            &&& end.contains(projector) == top.contains(projector)
            &&& end.contains(overlay)
        }),
{
    let fresh = ZOrderGuard { projector: None, restore_not_topmost: false };
    let guard = fresh.told(Some(projector), top.contains(projector));
    let calls = fresh.enforce_calls(Some(projector), overlay);
    law_the_overlay_ends_up_right_above_the_projector(fresh, projector, overlay, top);
    let during = restacked_all(top, calls);
    assert(during[0] == overlay && during[1] == projector);
    lemma_without(during, projector, overlay);
    let restore = guard.restore_calls();
    if !top.contains(projector) {
        assert(restore.last() == ZOrderCall::Lower(projector));
        assert(restore.drop_last() =~= Seq::empty());
        assert(restacked_all(during, restore) == restacked(
            restacked_all(during, restore.drop_last()),
            restore.last(),
        ));
    } else {
        assert(restore =~= Seq::empty());
    }
}

/// A menu or dialog comes or goes.
#[derive(Clone, Copy, Debug, PartialEq, Eq, Structural)]
pub enum UiEvent {
    Opened,
    Closed,
}

/// What is open after some events.
pub open spec fn after_events(ui: ForegroundUi, events: Seq<UiEvent>) -> ForegroundUi
    decreases events.len(),
{
    if events.len() == 0 {
        ui
    } else {
        let before = after_events(ui, events.drop_last());
        match events.last() {
            UiEvent::Opened => before.opened(),
            UiEvent::Closed => before.closed(),
        }
    }
}

/// How many more have been opened than closed.
pub open spec fn surplus(events: Seq<UiEvent>) -> int
    decreases events.len(),
{
    if events.len() == 0 {
        0
    } else {
        surplus(events.drop_last()) + match events.last() {
            UiEvent::Opened => 1int,
            UiEvent::Closed => -1int,
        }
    }
}

/// Nothing is closed that is not open, and what is open can be counted, with one more beside it.
pub open spec fn others_come_and_go(ui: ForegroundUi, events: Seq<UiEvent>) -> bool {
    forall|n: int|
        0 <= n <= events.len() ==> 0 <= ui.depth + surplus(#[trigger] events.take(n)) < usize::MAX
}

proof fn lemma_counted(ui: ForegroundUi, events: Seq<UiEvent>)
    requires
        others_come_and_go(ui, events),
    ensures
        after_events(ui, events).depth == ui.depth + surplus(events),
        after_events(ui.opened(), events).depth == ui.depth + 1 + surplus(events),
    decreases events.len(),
{
    assert(events.take(events.len() as int) =~= events);
    assert(events.take(0) =~= Seq::empty());
    if events.len() > 0 {
        let earlier = events.drop_last();
        assert(others_come_and_go(ui, earlier)) by {
            assert forall|n: int| 0 <= n <= earlier.len() implies 0 <= ui.depth + surplus(
                #[trigger] earlier.take(n),
            ) < usize::MAX by {
                assert(earlier.take(n) =~= events.take(n));
            }
        }
        assert(events.take(events.len() - 1) =~= earlier);
        lemma_counted(ui, earlier);
    }
}

/// While a menu or dialog is open it counts, whatever others come and go; once it is closed just
/// the others count.
pub proof fn law_an_open_dialog_counts_until_it_is_closed(ui: ForegroundUi, events: Seq<UiEvent>)
    requires
        others_come_and_go(ui, events),
    ensures
        forall|n: int|
            0 <= n <= events.len() ==> (#[trigger] after_events(ui.opened(), events.take(n))).depth
                != 0,
        after_events(ui.opened(), events).closed() == after_events(ui, events),
        after_events(ui, events).depth == ui.depth + surplus(events),
{
    assert forall|n: int| 0 <= n <= events.len() implies (#[trigger] after_events(
        ui.opened(),
        events.take(n),
    )).depth != 0 by {
        let some = events.take(n);
        assert(others_come_and_go(ui, some)) by {
            assert forall|m: int| 0 <= m <= some.len() implies 0 <= ui.depth + surplus(
                #[trigger] some.take(m),
            ) < usize::MAX by {
                assert(some.take(m) =~= events.take(m));
            }
        }
        lemma_counted(ui, some);
        assert(some.take(n) =~= some);
    }
    lemma_counted(ui, events);
    assert(events.take(events.len() as int) =~= events);
}

/// Whether a diagnosis lists a window of this size.
pub fn worth_listing(rect: &WindowRect) -> (listed: bool)
    ensures
        listed == (rect.right - rect.left >= DIAGNOSIS_MIN_WIDTH && rect.bottom - rect.top
            >= DIAGNOSIS_MIN_HEIGHT),
{
    rect.right as i64 - rect.left as i64 >= DIAGNOSIS_MIN_WIDTH && rect.bottom as i64
        - rect.top as i64 >= DIAGNOSIS_MIN_HEIGHT
}

/// The line that a diagnosis prints for a monitor.
pub fn monitor_line(index: usize, monitor: &Monitor) -> (line: String)
    ensures
        line@ == "monitor "@ + text::decimal(index as nat) + ": "@ + text::signed_decimal(
            monitor.width as int,
        ) + "x"@ + text::signed_decimal(monitor.height as int) + " at ("@ + text::signed_decimal(
            monitor.x as int,
        ) + ","@ + text::signed_decimal(monitor.y as int) + ") primary="@ + truth(monitor.primary),
{
    let mut line = "monitor ".to_owned();
    text::push_decimal(&mut line, index as u64);
    line.append(": ");
    text::push_signed_decimal(&mut line, monitor.width as i64);
    line.append("x");
    text::push_signed_decimal(&mut line, monitor.height as i64);
    line.append(" at (");
    text::push_signed_decimal(&mut line, monitor.x as i64);
    line.append(",");
    text::push_signed_decimal(&mut line, monitor.y as i64);
    line.append(") primary=");
    line.append(truth_text(monitor.primary));
    line
}

pub open spec fn truth(value: bool) -> Seq<char> {
    if value {
        "true"@
    } else {
        "false"@
    }
}

fn truth_text(value: bool) -> (word: &'static str)
    ensures
        word@ == truth(value),
{
    if value {
        "true"
    } else {
        "false"
    }
}

/// The indices of the monitors that a window fills, ascending.
pub open spec fn filled(rect: WindowRect, monitors: Seq<Monitor>) -> Seq<int>
    decreases monitors.len(),
{
    if monitors.len() == 0 {
        Seq::empty()
    } else if fills(rect, monitors.last()) {
        filled(rect, monitors.drop_last()).push(monitors.len() - 1)
    } else {
        filled(rect, monitors.drop_last())
    }
}

/// Numbers separated by commas.
pub open spec fn listing(numbers: Seq<int>) -> Seq<char>
    decreases numbers.len(),
{
    if numbers.len() == 0 {
        Seq::empty()
    } else if numbers.len() == 1 {
        text::decimal(numbers[0] as nat)
    } else {
        listing(numbers.drop_last()) + ", "@ + text::decimal(numbers.last() as nat)
    }
}

/// The list of the monitors that a window fills.
pub fn covered_monitors(rect: &WindowRect, monitors: &[Monitor]) -> (list: String)
    ensures
        list@ == "["@ + listing(filled(*rect, monitors@)) + "]"@,
{
    let mut list = "[".to_owned();
    let ghost mut seen: Seq<int> = Seq::empty();
    let mut first = true;
    assert(list@ =~= "["@ + listing(seen));
    for i in 0..monitors.len()
        invariant
            seen == filled(*rect, monitors@.take(i as int)),
            first == (seen.len() == 0),
            list@ == "["@ + listing(seen),
    {
        assert(monitors@.take(i + 1).drop_last() =~= monitors@.take(i as int));
        assert(monitors@.take(i + 1).last() == monitors@[i as int]);
        if covers(rect, &monitors[i]) {
            if !first {
                list.append(", ");
            }
            text::push_decimal(&mut list, i as u64);
            proof {
                let next = seen.push(i as int);
                assert(next.drop_last() =~= seen);
                assert(list@ =~= "["@ + listing(next));
                seen = next;
            }
            first = false;
        }
    }
    assert(monitors@.take(monitors@.len() as int) =~= monitors@);
    list.append("]");
    list
}

/// The line that a diagnosis prints for a window. `handle` and `title` are as the caller shows
/// them.
pub fn window_line(
    handle: &str,
    rect: &WindowRect,
    monitors: &[Monitor],
    obs: bool,
    topmost: bool,
    title: &str,
) -> (line: String)
    ensures
        line@ == "hwnd="@ + handle@ + " rect=("@ + text::signed_decimal(rect.left as int) + ","@
            + text::signed_decimal(rect.top as int) + ")-("@ + text::signed_decimal(
            rect.right as int,
        ) + ","@ + text::signed_decimal(rect.bottom as int) + ") covers="@ + ("["@ + listing(
            filled(*rect, monitors@),
        ) + "]"@) + " obs="@ + truth(obs) + " topmost="@ + truth(topmost) + " title="@ + title@,
{
    let mut line = "hwnd=".to_owned();
    line.append(handle);
    line.append(" rect=(");
    text::push_signed_decimal(&mut line, rect.left as i64);
    line.append(",");
    text::push_signed_decimal(&mut line, rect.top as i64);
    line.append(")-(");
    text::push_signed_decimal(&mut line, rect.right as i64);
    line.append(",");
    text::push_signed_decimal(&mut line, rect.bottom as i64);
    line.append(") covers=");
    let covered = covered_monitors(rect, monitors);
    line.append(&covered);
    line.append(" obs=");
    line.append(truth_text(obs));
    line.append(" topmost=");
    line.append(truth_text(topmost));
    line.append(" title=");
    line.append(title);
    line
}

/// A window that covers its monitor fills it, and so does one that misses an edge by no more than
/// two pixels; one that misses any edge by more does not.
pub proof fn law_a_projector_fills_its_monitor(rect: WindowRect, monitor: Monitor)
    ensures
        rect.left <= monitor.x && rect.top <= monitor.y && rect.right >= monitor.x + monitor.width
            && rect.bottom >= monitor.y + monitor.height ==> fills(rect, monitor),
        rect.left == monitor.x + 2 && rect.top == monitor.y + 2 && rect.right == monitor.x
            + monitor.width - 2 && rect.bottom == monitor.y + monitor.height - 2 ==> fills(
            rect,
            monitor,
        ),
        rect.left > monitor.x + 2 || rect.top > monitor.y + 2 || rect.right < monitor.x
            + monitor.width - 2 || rect.bottom < monitor.y + monitor.height - 2 ==> !fills(
            rect,
            monitor,
        ),
{
}

/// The overlay itself, hidden and minimized windows, and windows without a place are never taken
/// for the projector; any other that fills the monitor may be.
pub proof fn law_only_a_visible_full_window_is_a_candidate(
    window: WindowFacts,
    monitor: Monitor,
    own: isize,
)
    ensures
        is_candidate(window, monitor, own) <==> (window.handle != own && window.visible
            && !window.iconic && window.rect is Some && window.rect->0.left <= monitor.x + 2
            && window.rect->0.top <= monitor.y + 2 && window.rect->0.right >= monitor.x
            + monitor.width - 2 && window.rect->0.bottom >= monitor.y + monitor.height - 2),
{
}

/// A path names OBS by its last component alone, in whichever directory and with either separator.
pub proof fn law_obs_is_known_by_its_file_name(
    directory: Seq<char>,
    separator: char,
    name: Seq<char>,
)
    requires
        separator == '/' || separator == '\\',
        forall|i: int| 0 <= i < name.len() ==> (#[trigger] name[i]) != '/' && name[i] != '\\',
    ensures
        file_name(directory.push(separator) + name) == name,
        file_name(name) == name,
        is_obs_path(directory.push(separator) + name) == is_obs_path(name),
        is_obs_path(name) <==> name == "obs64.exe"@ || name == "obs32.exe"@ || name == "obs.exe"@,
{
    let path = directory.push(separator) + name;
    let from = directory.len() + 1;
    lemma_file_name(path, from as int);
    assert(path.skip(from as int) =~= name);
    lemma_file_name(name, 0);
    assert(name.skip(0) =~= name);
}

/// A projector that is told of again is raised again, with the overlay over it, and what is to be
/// given back of it is not forgotten. Another one first gives the place of the first back; none
/// gives it back and raises nothing.
pub proof fn law_the_guard_remembers_what_it_changed(
    guard: ZOrderGuard,
    projector: isize,
    topmost: bool,
    overlay: isize,
)
    ensures
        guard.projector == Some(projector) ==> {
            &&& guard.told(Some(projector), topmost) == (ZOrderGuard {
                projector: Some(projector),
                restore_not_topmost: guard.restore_not_topmost || !topmost,
            })
            &&& guard.enforce_calls(Some(projector), overlay) == seq![
                ZOrderCall::Raise(projector),
                ZOrderCall::Raise(overlay),
            ]
        },
        guard.projector != Some(projector) ==> {
            &&& guard.told(Some(projector), topmost) == (ZOrderGuard {
                projector: Some(projector),
                restore_not_topmost: !topmost,
            })
            &&& guard.enforce_calls(Some(projector), overlay) == guard.restore_calls() + seq![
                ZOrderCall::Raise(projector),
                ZOrderCall::Raise(overlay),
            ]
        },
        guard.projector is Some ==> guard.told(None, topmost) == (ZOrderGuard {
            projector: None,
            restore_not_topmost: false,
        }),
        guard.enforce_calls(None, overlay) == guard.restore_calls(),
        guard.restore_calls() == (if guard.projector is Some && guard.restore_not_topmost {
            seq![ZOrderCall::Lower(guard.projector->0)]
        } else {
            Seq::empty()
        }),
{
    assert(guard.enforce_calls(None, overlay) =~= guard.restore_calls());
    assert(guard.projector == Some(projector) ==> guard.enforce_calls(Some(projector), overlay)
        =~= seq![ZOrderCall::Raise(projector), ZOrderCall::Raise(overlay)]);
}

/// A window that is raised comes to the very front, and one that is lowered no longer stays on top;
/// the others keep their places either way.
pub proof fn law_only_the_moved_window_changes_its_place(top: Seq<isize>, window: isize)
    ensures
        restacked(top, ZOrderCall::Raise(window))[0] == window,
        restacked(top, ZOrderCall::Raise(window)).skip(1) == restacked(
            top,
            ZOrderCall::Lower(window),
        ),
        !restacked(top, ZOrderCall::Lower(window)).contains(window),
        !top.contains(window) ==> restacked(top, ZOrderCall::Lower(window)) == top,
        forall|other: isize|
            other != window ==> (#[trigger] restacked(top, ZOrderCall::Lower(window)).contains(
                other,
            ) <==> top.contains(other)),
{
    lemma_without(top, window, window);
    assert forall|other: isize| other != window implies (#[trigger] restacked(
        top,
        ZOrderCall::Lower(window),
    ).contains(other) <==> top.contains(other)) by {
        lemma_without(top, window, other);
    }
    if !top.contains(window) {
        lemma_without_a_stranger(top, window);
    }
    assert(restacked(top, ZOrderCall::Raise(window)).skip(1) =~= restacked(
        top,
        ZOrderCall::Lower(window),
    ));
}

proof fn lemma_without_a_stranger(top: Seq<isize>, window: isize)
    requires
        !top.contains(window),
    ensures
        without(top, window) == top,
    decreases top.len(),
{
    if top.len() > 0 {
        let rest = top.drop_last();
        assert(top.contains(top.last()));
        if rest.contains(window) {
            assert(top[rest.index_of(window)] == window);
        }
        lemma_without_a_stranger(rest, window);
        assert(rest.push(top.last()) =~= top);
    }
}

/// The monitors that a window fills are listed by their places, each once and ascending.
pub proof fn law_every_filled_monitor_is_listed(rect: WindowRect, monitors: Seq<Monitor>, at: int)
    ensures
        filled(rect, monitors).contains(at) <==> 0 <= at < monitors.len() && fills(
            rect,
            monitors[at],
        ),
        forall|i: int, j: int|
            0 <= i < j < filled(rect, monitors).len() ==> #[trigger] filled(rect, monitors)[i]
                < #[trigger] filled(rect, monitors)[j],
    decreases monitors.len(),
{
    lemma_filled(rect, monitors);
    let all = filled(rect, monitors);
    if all.contains(at) {
        let k = all.index_of(at);
        assert(0 <= all[k] < monitors.len());
    }
}

proof fn lemma_filled(rect: WindowRect, monitors: Seq<Monitor>)
    ensures
        forall|k: int|
            0 <= k < filled(rect, monitors).len() ==> 0 <= #[trigger] filled(rect, monitors)[k]
                < monitors.len() && fills(rect, monitors[filled(rect, monitors)[k]]),
        forall|at: int|
            0 <= at < monitors.len() && fills(rect, #[trigger] monitors[at]) ==> filled(
                rect,
                monitors,
            ).contains(at),
        forall|i: int, j: int|
            0 <= i < j < filled(rect, monitors).len() ==> #[trigger] filled(rect, monitors)[i]
                < #[trigger] filled(rect, monitors)[j],
    decreases monitors.len(),
{
    if monitors.len() > 0 {
        let rest = monitors.drop_last();
        lemma_filled(rect, rest);
        let before = filled(rect, rest);
        let all = filled(rect, monitors);
        assert forall|k: int| 0 <= k < all.len() implies 0 <= #[trigger] all[k] < monitors.len()
            && fills(rect, monitors[all[k]]) by {
            if k < before.len() {
                assert(all[k] == before[k]);
                assert(rest[before[k]] == monitors[before[k]]);
            }
        }
        assert forall|at: int|
            0 <= at < monitors.len() && fills(rect, #[trigger] monitors[at]) implies all.contains(
            at,
        ) by {
            if at < rest.len() {
                assert(rest[at] == monitors[at]);
                let k = before.index_of(at);
                assert(before.contains(at));
                assert(all[k] == at);
            } else {
                assert(all[all.len() - 1] == at);
            }
        }
        assert forall|i: int, j: int| 0 <= i < j < all.len() implies #[trigger] all[i]
            < #[trigger] all[j] by {
            assert(all[i] == before[i]);
            if j < before.len() {
                assert(all[j] == before[j]);
            }
        }
    }
}

/// A listing holds each number in base ten, with a comma and a space before each but the first.
pub proof fn law_a_listing_separates_its_numbers(numbers: Seq<int>, next: int)
    requires
        next >= 0,
    ensures
        listing(Seq::empty()) == Seq::<char>::empty(),
        numbers.len() == 0 ==> listing(numbers.push(next)) == text::decimal(next as nat),
        numbers.len() > 0 ==> listing(numbers.push(next)) == listing(numbers) + seq![',', ' ']
            + text::decimal(next as nat),
{
    reveal_strlit(", ");
    assert(", "@ =~= seq![',', ' ']);
    assert(numbers.push(next).drop_last() =~= numbers);
}

} // verus!
