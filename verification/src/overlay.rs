//! The overlay: its modes, its link to the projector, and when it is drawn.
//!
//! The canvas engine, the renderer, the connected pages and the operating system are parties that
//! the caller talks to. What they report comes in as plain values, and what they are to do goes
//! out as a list of [`Effect`]s, to be carried out in order.

use vstd::prelude::*;

use crate::frame::FrameGate;
use crate::menu::DrawTool;
use crate::monitor::Monitor;
use crate::radial_menu::RadialMenu;

verus! {

/// How long a failed renderer is left alone before it is made anew, in nanoseconds.
pub const RENDERER_RECOVERY_INTERVAL_NS: u64 = 2_000_000_000;

/// Something that one of the outside parties is to do.
#[derive(Clone, Copy, Debug, PartialEq, Eq, Structural)]
pub enum Effect {
    /// Draw a frame of the whole canvas.
    Draw,
    /// Draw the history anew into the renderer's layers.
    Rebuild,
    /// As [`Effect::Rebuild`], with no history at all.
    RebuildEmpty,
    /// Add the last finished item to the renderer's layers.
    BakeLastDone,
    /// Split the layer of the selected item before that item.
    PrepareTransform,
    ClearFrame,
    /// Schedule a frame for when no input is waiting.
    Invalidate,
    DropRenderer,
    CreateRenderer,
    /// Carry out the steps of [`Overlay::create_renderer_from_history`] for as long as they
    /// succeed, with the outcome of each to [`Overlay::restore_answer`].
    RestoreRenderer { moved: bool },
    ShowOverlay,
    HideOverlay,
    /// Let the pointer pass through to the window below, or not.
    SetTransparent(bool),
    /// Register the hotkey that clears a layer, and report to [`Overlay::layer_clear_answer`].
    RegisterLayerClear,
    UnregisterLayerClear,
    RegisterTransformEscape,
    UnregisterTransformEscape,
    StartFlushTimer,
    StopFlushTimer,
    StopPendingTimer,
    /// Send what the engine reported to the connected pages.
    SendMessages,
    /// Send the whole canvas to the connected pages.
    SendSnapshot,
    /// Let the engine abandon the input under way, and send what it reports.
    CancelInput,
    /// Let the engine finish the transformation under way, and send what it reports.
    EndTransform,
    /// Let the engine try the pointer's position, and report to [`Overlay::preview_answer`].
    PreviewTransform,
    /// Take the selected item as the engine has it.
    RefreshSelection,
    ShowSelectionCursor,
    /// Bring the projector to the front, right below the overlay.
    EnforceZOrder,
    /// Give the projector's place back.
    ReleaseZOrder,
    /// Ask the projector to close, and report to [`Overlay::close_answer`].
    CloseProjector,
    /// Begin a request for a projector with its timer, and go on as [`request_start`] says.
    RequestProjector,
    /// Give up the request for a projector, with its timer.
    CancelProjectorRequest,
    /// Move the overlay onto a monitor, and report to [`Overlay::moved_answer`].
    MoveTo(Monitor),
    /// Look for the projector, and report to [`Overlay::poll_projector`].
    PollProjector,
    /// Take what the workers of projector requests have reported, each to
    /// [`Overlay::on_obs_worker_result`].
    TakeReports,
    /// See what has become of the request for a projector, and report to
    /// [`Overlay::apply_pending_poll`].
    CheckRequest,
}

/// The item chosen for transformation, and the pointer that transforms it.
#[derive(Debug)]
pub struct ItemSelection {
    pub item_id: String,
    pub drag: Option<u32>,
}

#[derive(Debug)]
pub struct Overlay {
    pub tool: DrawTool,
    pub color: String,
    pub draw_mode: bool,
    /// The canvas is drawn here too, not only by the connected pages.
    pub local_echo: bool,
    pub confirm_before_clear: bool,
    /// The overlay is shown only while a projector is.
    pub follow_projector: bool,
    pub projector_visible: bool,
    /// OBS can be asked for a projector.
    pub obs_control: bool,
    /// A projector that was asked for is closed when drawing ends.
    pub close_projector: bool,
    pub projector_opened_by_us: bool,
    pub layer_clear_registered: bool,
    pub selection: Option<ItemSelection>,
    pub frame: FrameGate,
    pub radial_menu: Option<RadialMenu>,
    /// When the renderer was last made anew, in nanoseconds.
    pub last_recovery: Option<u64>,
    pub configured_screen: usize,
    pub monitor: Monitor,
}

/// Whether clearing everything is to be confirmed first: only where it would clear something.
pub fn clear_confirmation_required(confirm_before_clear: bool, can_clear: bool) -> (required: bool)
    ensures
        required == (confirm_before_clear && can_clear),
{
    confirm_before_clear && can_clear
}

/// Whether the hotkey that clears a layer may act: only while drawing, and only while nothing of
/// this program is open and no input is under way.
pub fn layer_clear_hotkey_allowed(
    draw_mode: bool,
    radial_menu_open: bool,
    foreground_ui_active: bool,
    engine_active: bool,
    item_drag_active: bool,
) -> (allowed: bool)
    ensures
        allowed == (draw_mode && !radial_menu_open && !foreground_ui_active && !engine_active
            && !item_drag_active),
{
    draw_mode && !radial_menu_open && !foreground_ui_active && !engine_active && !item_drag_active
}

/// How a change of the canvas reaches the connected pages: as a whole where the engine asks for
/// that, else as the messages it reported. Also says whether anything has changed.
pub fn dispatch_engine_change(full_sync: bool, has_messages: bool) -> (delivery: (
    bool,
    Option<Effect>,
))
    ensures
        delivery == (
            full_sync || has_messages,
            if full_sync {
                Some(Effect::SendSnapshot)
            } else if has_messages {
                Some(Effect::SendMessages)
            } else {
                None
            },
        ),
{
    if full_sync {
        (true, Some(Effect::SendSnapshot))
    } else if has_messages {
        (true, Some(Effect::SendMessages))
    } else {
        (false, None)
    }
}

/// Style bit of a window through which the pointer passes.
pub const WS_EX_TRANSPARENT: u64 = 0x20;

/// A window's style with the pointer passing through or not.
pub fn style_with_transparency(style: u64, transparent: bool) -> (changed: u64)
    ensures
        changed == if transparent {
            style | WS_EX_TRANSPARENT
        } else {
            style & !WS_EX_TRANSPARENT
        },
{
    if transparent {
        style | WS_EX_TRANSPARENT
    } else {
        style & !WS_EX_TRANSPARENT
    }
}

/// Setting the transparency decides that bit and no other.
pub proof fn law_transparency_is_one_bit(style: u64, transparent: bool)
    ensures
        ({
            let changed = if transparent {
                style | WS_EX_TRANSPARENT
            } else {
                style & !WS_EX_TRANSPARENT
            };
            &&& (changed & WS_EX_TRANSPARENT != 0) == transparent
            &&& changed | WS_EX_TRANSPARENT == style | WS_EX_TRANSPARENT
        }),
{
    assert((style | 0x20u64) & 0x20u64 != 0) by (bit_vector);
    assert((style & !0x20u64) & 0x20u64 == 0) by (bit_vector);
    assert((style | 0x20u64) | 0x20u64 == style | 0x20u64) by (bit_vector);
    assert((style & !0x20u64) | 0x20u64 == style | 0x20u64) by (bit_vector);
}

impl Overlay {
    /// Outside of drawing nothing is open, selected, scheduled or reserved.
    pub open spec fn well_formed(self) -> bool {
        &&& !self.draw_mode ==> self.radial_menu is None && self.selection is None
            && !self.frame.requested && !self.layer_clear_registered
        &&& self.radial_menu matches Some(menu) ==> menu.well_formed()
    }

    /// Whether drawing can begin: the projector is there, or is not waited for.
    pub open spec fn enabled(self) -> bool {
        !self.follow_projector || self.projector_visible
    }

    pub open spec fn drag_owner(self) -> Option<u32> {
        match self.selection {
            Some(selection) => selection.drag,
            None => None,
        }
    }

    /// The same overlay with no frame scheduled.
    pub open spec fn unscheduled(self) -> Self {
        Overlay { frame: FrameGate { requested: false }, ..self }
    }

    /// A frame is drawn while drawing; nothing is drawn otherwise.
    pub open spec fn draw_effects(self) -> Seq<Effect> {
        if self.draw_mode {
            seq![Effect::Draw]
        } else {
            Seq::empty()
        }
    }

    /// The layers are drawn anew where the canvas is drawn here at all.
    pub open spec fn rebuild_effects(self) -> Seq<Effect> {
        if self.local_echo {
            seq![Effect::Rebuild]
        } else {
            Seq::empty()
        }
    }

    pub open spec fn bake_effects(self) -> Seq<Effect> {
        if self.local_echo {
            seq![Effect::BakeLastDone]
        } else {
            Seq::empty()
        }
    }

    pub open spec fn without_selection(self) -> Self {
        Overlay { selection: None, ..self }
    }

    /// What giving up the selection asks for, where there was one.
    pub open spec fn deselect_effects(self) -> Seq<Effect> {
        if self.selection is Some {
            self.rebuild_effects() + self.draw_effects()
        } else {
            Seq::empty()
        }
    }

    /// The overlay after its selection has been given up and drawn without.
    pub open spec fn deselected(self) -> Self {
        if self.selection is Some {
            self.without_selection().unscheduled()
        } else {
            self
        }
    }

    /// The overlay after drawing has been switched on or off.
    pub open spec fn in_mode(self, on: bool) -> Self {
        if self.draw_mode == on {
            self
        } else if on {
            Overlay { draw_mode: true, ..self.unscheduled() }
        } else {
            Overlay {
                draw_mode: false,
                radial_menu: None,
                selection: None,
                layer_clear_registered: false,
                ..self.unscheduled()
            }
        }
    }

    /// What switching drawing on or off asks for. An input under way is abandoned.
    pub open spec fn mode_effects(self, on: bool, input_under_way: bool) -> Seq<Effect> {
        if self.draw_mode == on {
            Seq::empty()
        } else if on {
            (if self.layer_clear_registered {
                Seq::empty()
            } else {
                seq![Effect::RegisterLayerClear]
            }) + seq![Effect::SetTransparent(false), Effect::Draw]
        } else {
            (if self.layer_clear_registered {
                seq![Effect::UnregisterLayerClear]
            } else {
                Seq::empty()
            }) + seq![Effect::UnregisterTransformEscape, Effect::CancelInput] + (
            if input_under_way {
                seq![Effect::StopFlushTimer]
            } else {
                Seq::empty()
            }) + (if self.selection is Some {
                self.rebuild_effects()
            } else {
                Seq::empty()
            }) + seq![Effect::SetTransparent(true), Effect::ClearFrame]
        }
    }

    /// The overlay after the projector has been looked for.
    pub open spec fn polled(self, found: bool, foreground_ui: bool) -> Self {
        if foreground_ui || !self.follow_projector || found == self.projector_visible {
            self
        } else if found {
            Overlay { projector_visible: true, ..self }
        } else {
            Overlay { projector_visible: false, projector_opened_by_us: false, ..self }.in_mode(
                false,
            )
        }
    }

    /// What finding the projector, or not, asks for. While a menu or dialog of this program is
    /// open nothing is moved in front of it.
    pub open spec fn poll_effects(self, found: bool, foreground_ui: bool, input_under_way: bool)
        -> Seq<Effect> {
        if foreground_ui {
            Seq::empty()
        } else if !self.follow_projector || found == self.projector_visible {
            seq![Effect::EnforceZOrder]
        } else if found {
            seq![Effect::ShowOverlay, Effect::EnforceZOrder]
        } else {
            self.mode_effects(false, input_under_way) + seq![
                Effect::HideOverlay,
                Effect::EnforceZOrder,
            ]
        }
    }

    /// The overlay after its mode has been toggled.
    pub open spec fn toggled(self, settings_open: bool) -> Self {
        if settings_open {
            self
        } else if self.draw_mode {
            self.in_mode(false)
        } else if self.enabled() {
            self.in_mode(true)
        } else {
            self
        }
    }

    /// What toggling the mode asks for. Where there is no projector yet, OBS is asked for one.
    pub open spec fn toggle_effects(self, settings_open: bool, input_under_way: bool) -> Seq<
        Effect,
    > {
        if settings_open {
            Seq::empty()
        } else if self.draw_mode {
            self.mode_effects(false, input_under_way) + (if self.close_projector
                && self.projector_opened_by_us {
                seq![Effect::CloseProjector]
            } else {
                Seq::empty()
            })
        } else if self.enabled() {
            self.mode_effects(true, input_under_way)
        } else if self.obs_control {
            seq![Effect::RequestProjector]
        } else {
            Seq::empty()
        }
    }

    /// The steps of making the renderer anew: the history, then a frame.
    pub open spec fn restore_effects(self) -> Seq<Effect> {
        seq![Effect::CreateRenderer] + (if !self.local_echo {
            seq![Effect::RebuildEmpty]
        } else if self.selection is Some {
            seq![Effect::Rebuild, Effect::PrepareTransform]
        } else {
            seq![Effect::Rebuild]
        }) + (if self.draw_mode {
            seq![Effect::Draw]
        } else {
            seq![Effect::ClearFrame]
        })
    }

    /// An overlay at startup: passing pointers through, with the pen in hand.
    pub fn new(
        color: String,
        local_echo: bool,
        confirm_before_clear: bool,
        follow_projector: bool,
        obs_control: bool,
        close_projector: bool,
        configured_screen: usize,
        monitor: Monitor,
    ) -> (overlay: Self)
        ensures
            overlay == (Overlay {
                tool: DrawTool::Pen,
                color,
                draw_mode: false,
                local_echo,
                confirm_before_clear,
                follow_projector,
                projector_visible: !follow_projector,
                obs_control,
                close_projector,
                projector_opened_by_us: false,
                layer_clear_registered: false,
                selection: None,
                frame: FrameGate { requested: false },
                radial_menu: None,
                last_recovery: None,
                configured_screen,
                monitor,
            }),
            overlay.well_formed(),
    {
        Overlay {
            tool: DrawTool::Pen,
            color,
            draw_mode: false,
            local_echo,
            confirm_before_clear,
            follow_projector,
            projector_visible: !follow_projector,
            obs_control,
            close_projector,
            projector_opened_by_us: false,
            layer_clear_registered: false,
            selection: None,
            frame: FrameGate { requested: false },
            radial_menu: None,
            last_recovery: None,
            configured_screen,
            monitor,
        }
    }

    /// Draws a frame now; one that is scheduled is covered by it.
    pub fn render(&mut self, effects: &mut Vec<Effect>)
        ensures
            *final(self) == old(self).unscheduled(),
            final(effects)@ == old(effects)@ + old(self).draw_effects(),
            old(self).well_formed() ==> final(self).well_formed(),
    {
        self.frame.cancel();
        if self.draw_mode {
            effects.push(Effect::Draw);
        }
        assert(effects@ =~= old(effects)@ + old(self).draw_effects());
    }

    /// Draws the layers anew.
    pub fn rebuild(&self, effects: &mut Vec<Effect>)
        ensures
            final(effects)@ == old(effects)@ + self.rebuild_effects(),
    {
        if self.local_echo {
            effects.push(Effect::Rebuild);
        }
        assert(effects@ =~= old(effects)@ + self.rebuild_effects());
    }

    /// Adds the item that was finished last to the layers.
    pub fn bake_last_done(&self, effects: &mut Vec<Effect>)
        ensures
            final(effects)@ == old(effects)@ + self.bake_effects(),
    {
        if self.local_echo {
            effects.push(Effect::BakeLastDone);
        }
        assert(effects@ =~= old(effects)@ + self.bake_effects());
    }

    /// Gives up the selection, where there is one, and draws without it.
    pub fn deselect(&mut self, effects: &mut Vec<Effect>)
        ensures
            *final(self) == old(self).deselected(),
            final(effects)@ == old(effects)@ + old(self).deselect_effects(),
            old(self).well_formed() ==> final(self).well_formed(),
    {
        if self.selection.take().is_some() {
            self.rebuild(effects);
            self.render(effects);
        }
        assert(effects@ =~= old(effects)@ + old(self).deselect_effects());
    }

    /// Schedules a frame, once for any number of requests.
    pub fn request_render(&mut self, effects: &mut Vec<Effect>)
        ensures
            *final(self) == (Overlay {
                frame: FrameGate { requested: old(self).frame.requested || old(self).draw_mode },
                ..*old(self)
            }),
            final(effects)@ == old(effects)@ + if old(self).draw_mode && !old(
                self,
            ).frame.requested {
                seq![Effect::Invalidate]
            } else {
                Seq::empty()
            },
            old(self).well_formed() ==> final(self).well_formed(),
    {
        if self.draw_mode && self.frame.request() {
            effects.push(Effect::Invalidate);
        }
        assert(effects@ =~= old(effects)@ + if old(self).draw_mode && !old(self).frame.requested {
            seq![Effect::Invalidate]
        } else {
            Seq::empty()
        });
    }

    /// Draws the frame that was scheduled, unless it has been covered since.
    pub fn on_frame_request(&mut self, effects: &mut Vec<Effect>)
        ensures
            *final(self) == old(self).unscheduled(),
            final(effects)@ == old(effects)@ + if old(self).frame.requested {
                old(self).draw_effects()
            } else {
                Seq::empty()
            },
            old(self).well_formed() ==> final(self).well_formed(),
    {
        if self.frame.take() {
            self.render(effects);
        }
        assert(effects@ =~= old(effects)@ + if old(self).frame.requested {
            old(self).draw_effects()
        } else {
            Seq::empty()
        });
    }

    /// Takes the answer to registering the hotkey that clears a layer.
    pub fn layer_clear_answer(&mut self, registered: bool)
        ensures
            *final(self) == (Overlay {
                layer_clear_registered: old(self).layer_clear_registered || (old(self).draw_mode
                    && registered),
                ..*old(self)
            }),
            old(self).well_formed() ==> final(self).well_formed(),
    {
        if self.draw_mode && registered {
            self.layer_clear_registered = true;
        }
    }

    /// The window is about to go: gives back what is held for it.
    pub fn shut_down(&mut self, effects: &mut Vec<Effect>)
        ensures
            *final(self) == (Overlay { layer_clear_registered: false, ..*old(self) }),
            final(effects)@ == old(effects)@ + (if old(self).layer_clear_registered {
                seq![Effect::UnregisterLayerClear]
            } else {
                Seq::empty()
            }) + seq![Effect::CancelProjectorRequest, Effect::StopPendingTimer],
            old(self).well_formed() ==> final(self).well_formed(),
    {
        if self.layer_clear_registered {
            effects.push(Effect::UnregisterLayerClear);
            self.layer_clear_registered = false;
        }
        effects.push(Effect::CancelProjectorRequest);
        effects.push(Effect::StopPendingTimer);
        assert(effects@ =~= old(effects)@ + (if old(self).layer_clear_registered {
            seq![Effect::UnregisterLayerClear]
        } else {
            Seq::empty()
        }) + seq![Effect::CancelProjectorRequest, Effect::StopPendingTimer]);
    }

    /// Switches drawing on or off. `input_under_way` says whether the engine has an input.
    pub fn set_draw_mode(&mut self, on: bool, input_under_way: bool, effects: &mut Vec<Effect>)
        ensures
            *final(self) == old(self).in_mode(on),
            final(effects)@ == old(effects)@ + old(self).mode_effects(on, input_under_way),
            old(self).well_formed() ==> final(self).well_formed(),
    {
        if self.draw_mode == on {
            assert(effects@ =~= old(effects)@ + old(self).mode_effects(on, input_under_way));
            return;
        }
        self.draw_mode = on;
        self.frame.cancel();
        if on {
            if !self.layer_clear_registered {
                effects.push(Effect::RegisterLayerClear);
            }
            effects.push(Effect::SetTransparent(false));
            effects.push(Effect::Draw);
        } else {
            if self.layer_clear_registered {
                effects.push(Effect::UnregisterLayerClear);
                self.layer_clear_registered = false;
            }
            self.radial_menu = None;
            let deselected = self.selection.take().is_some();
            effects.push(Effect::UnregisterTransformEscape);
            effects.push(Effect::CancelInput);
            if input_under_way {
                effects.push(Effect::StopFlushTimer);
            }
            if deselected {
                self.rebuild(effects);
            }
            effects.push(Effect::SetTransparent(true));
            effects.push(Effect::ClearFrame);
        }
        assert(effects@ =~= old(effects)@ + old(self).mode_effects(on, input_under_way));
    }

    /// Takes whether the projector was found.
    pub fn poll_projector(
        &mut self,
        found: bool,
        foreground_ui: bool,
        input_under_way: bool,
        effects: &mut Vec<Effect>,
    )
        ensures
            *final(self) == old(self).polled(found, foreground_ui),
            final(effects)@ == old(effects)@ + old(self).poll_effects(
                found,
                foreground_ui,
                input_under_way,
            ),
            old(self).well_formed() ==> final(self).well_formed(),
    {
        if foreground_ui {
            assert(effects@ =~= old(effects)@ + old(self).poll_effects(
                found,
                foreground_ui,
                input_under_way,
            ));
            return;
        }
        if self.follow_projector && found != self.projector_visible {
            self.projector_visible = found;
            if found {
                effects.push(Effect::ShowOverlay);
            } else {
                self.projector_opened_by_us = false;
                self.set_draw_mode(false, input_under_way, effects);
                effects.push(Effect::HideOverlay);
            }
        }
        effects.push(Effect::EnforceZOrder);
        assert(effects@ =~= old(effects)@ + old(self).poll_effects(
            found,
            foreground_ui,
            input_under_way,
        ));
    }

    /// Toggles drawing, by hotkey or from the tray.
    pub fn toggle_mode(
        &mut self,
        settings_open: bool,
        input_under_way: bool,
        effects: &mut Vec<Effect>,
    )
        ensures
            *final(self) == old(self).toggled(settings_open),
            final(effects)@ == old(effects)@ + old(self).toggle_effects(
                settings_open,
                input_under_way,
            ),
            old(self).well_formed() ==> final(self).well_formed(),
    {
        if settings_open {
        } else if self.draw_mode {
            self.set_draw_mode(false, input_under_way, effects);
            if self.close_projector && self.projector_opened_by_us {
                effects.push(Effect::CloseProjector);
            }
        } else if self.overlay_enabled() {
            self.set_draw_mode(true, input_under_way, effects);
        } else if self.obs_control {
            effects.push(Effect::RequestProjector);
        }
        assert(effects@ =~= old(effects)@ + old(self).toggle_effects(
            settings_open,
            input_under_way,
        ));
    }

    /// Whether the overlay can be used at all.
    pub fn overlay_enabled(&self) -> (enabled: bool)
        ensures
            enabled == self.enabled(),
    {
        !self.follow_projector || self.projector_visible
    }

    /// Takes whether the projector accepted to close.
    pub fn close_answer(&mut self, closing: bool)
        ensures
            *final(self) == (Overlay {
                projector_opened_by_us: old(self).projector_opened_by_us && !closing,
                ..*old(self)
            }),
            old(self).well_formed() ==> final(self).well_formed(),
    {
        if closing {
            self.projector_opened_by_us = false;
        }
    }

    /// Whether the hotkey that clears a layer may act on the active layer.
    pub fn can_handle_layer_clear_hotkey(
        &self,
        foreground_ui: bool,
        input_under_way: bool,
        can_clear_active: bool,
    ) -> (allowed: bool)
        ensures
            allowed == (self.draw_mode && self.radial_menu is None && !foreground_ui
                && !input_under_way && self.drag_owner() is None && can_clear_active),
    {
        layer_clear_hotkey_allowed(
            self.draw_mode,
            self.radial_menu.is_some(),
            foreground_ui,
            input_under_way,
            self.item_drag_active(),
        ) && can_clear_active
    }

    pub fn item_drag_active(&self) -> (active: bool)
        ensures
            active == self.drag_owner() is Some,
    {
        match &self.selection {
            Some(selection) => selection.drag.is_some(),
            None => false,
        }
    }

    pub fn item_drag_owns(&self, pointer_id: u32) -> (owns: bool)
        ensures
            owns == (self.drag_owner() == Some(pointer_id)),
    {
        match &self.selection {
            Some(selection) => match selection.drag {
                Some(owner) => owner == pointer_id,
                None => false,
            },
            None => false,
        }
    }

    /// Whether a failure of the renderer at time `now` is answered by making it anew.
    pub open spec fn recovers(self, now: u64) -> bool {
        match self.last_recovery {
            Some(last) => now >= last && now - last >= RENDERER_RECOVERY_INTERVAL_NS,
            None => true,
        }
    }

    /// Takes a failure of the renderer at time `now`.
    pub fn recover_renderer(&mut self, now: u64, effects: &mut Vec<Effect>)
        ensures
            *final(self) == if old(self).recovers(now) {
                Overlay { last_recovery: Some(now), ..*old(self) }
            } else {
                *old(self)
            },
            final(effects)@ == old(effects)@ + if old(self).recovers(now) {
                seq![Effect::DropRenderer, Effect::RestoreRenderer { moved: false }]
            } else {
                Seq::empty()
            },
            old(self).well_formed() ==> final(self).well_formed(),
    {
        let ghost wanted = if old(self).recovers(now) {
            seq![Effect::DropRenderer, Effect::RestoreRenderer { moved: false }]
        } else {
            Seq::empty()
        };
        if let Some(last) = self.last_recovery {
            if now.saturating_sub(last) < RENDERER_RECOVERY_INTERVAL_NS {
                assert(effects@ =~= old(effects)@ + wanted);
                return;
            }
        }
        self.last_recovery = Some(now);
        effects.push(Effect::DropRenderer);
        effects.push(Effect::RestoreRenderer { moved: false });
        assert(effects@ =~= old(effects)@ + wanted);
    }

    /// Starts to make the renderer anew from the history; `moved` says whether for a new display.
    pub fn create_renderer_from_history(&self, moved: bool) -> (restoration: Restoration)
        ensures
            restoration.well_formed(),
            restoration.moved == moved,
            restoration.steps@ == self.restore_effects(),
            restoration.done == 0,
    {
        let mut steps: Vec<Effect> = vec![Effect::CreateRenderer];
        if self.local_echo {
            steps.push(Effect::Rebuild);
            if self.selection.is_some() {
                steps.push(Effect::PrepareTransform);
            }
        } else {
            steps.push(Effect::RebuildEmpty);
        }
        if self.draw_mode {
            steps.push(Effect::Draw);
        } else {
            steps.push(Effect::ClearFrame);
        }
        assert(steps@ =~= self.restore_effects());
        Restoration { moved, steps, done: 0 }
    }

    /// The overlay after a restoration has failed at time `now`.
    pub open spec fn restoration_failed(self, now: u64, moved: bool) -> Self {
        if moved {
            Overlay { last_recovery: Some(now), ..self }
        } else {
            self
        }
    }

    /// Takes that a step of a restoration has failed at time `now`: what there is of the renderer
    /// is given up. For a new display the time to wait begins here; otherwise it began with the
    /// failure that was to be mended.
    pub fn restore_failed(&mut self, now: u64, moved: bool, effects: &mut Vec<Effect>)
        ensures
            *final(self) == old(self).restoration_failed(now, moved),
            final(effects)@ == old(effects)@.push(Effect::DropRenderer),
            old(self).well_formed() ==> final(self).well_formed(),
    {
        if moved {
            self.last_recovery = Some(now);
        }
        effects.push(Effect::DropRenderer);
    }

    /// What the outcome of a restoration's step leads to: the overlay, how the restoration goes on,
    /// and what is to be done.
    pub open spec fn restore_next(self, restoration: Restoration, succeeded: bool, now: u64) -> (
        Self,
        RestoreProgress,
        Seq<Effect>,
    ) {
        if !succeeded {
            (
                self.restoration_failed(now, restoration.moved),
                RestoreProgress::Failed,
                seq![Effect::DropRenderer],
            )
        } else if restoration.done + 1 < restoration.steps@.len() {
            (
                self,
                RestoreProgress::Continue(
                    Restoration { done: (restoration.done + 1) as usize, ..restoration },
                ),
                Seq::empty(),
            )
        } else {
            (self, RestoreProgress::Restored, Seq::empty())
        }
    }

    /// Takes the outcome at time `now` of a restoration's step. The first failure ends it.
    pub fn restore_answer(
        &mut self,
        restoration: Restoration,
        succeeded: bool,
        now: u64,
        effects: &mut Vec<Effect>,
    ) -> (progress: RestoreProgress)
        requires
            restoration.well_formed(),
        ensures
            ({
                let (after, next, asked) = old(self).restore_next(restoration, succeeded, now);
                &&& *final(self) == after
                &&& progress == next
                &&& final(effects)@ == old(effects)@ + asked
            }),
            progress matches RestoreProgress::Continue(next) ==> next.well_formed(),
            old(self).well_formed() ==> final(self).well_formed(),
    {
        if !succeeded {
            self.restore_failed(now, restoration.moved, effects);
            assert(effects@ =~= old(effects)@ + seq![Effect::DropRenderer]);
            return RestoreProgress::Failed;
        }
        assert(effects@ =~= old(effects)@ + Seq::empty());
        if restoration.steps.len() - restoration.done > 1 {
            let mut next = restoration;
            next.done = next.done + 1;
            RestoreProgress::Continue(next)
        } else {
            RestoreProgress::Restored
        }
    }
}

/// Making the renderer anew, step by step.
#[derive(Debug)]
pub struct Restoration {
    /// The renderer is made for a new display.
    pub moved: bool,
    pub steps: Vec<Effect>,
    /// So many steps have succeeded.
    pub done: usize,
}

impl Restoration {
    pub open spec fn well_formed(self) -> bool {
        self.done < self.steps@.len()
    }

    /// The step to be carried out next, whose outcome is reported to [`Overlay::restore_answer`].
    pub fn step(&self) -> (step: Effect)
        requires
            self.well_formed(),
        ensures
            step == self.steps@[self.done as int],
    {
        self.steps[self.done]
    }
}

/// How a restoration goes on.
#[derive(Debug)]
pub enum RestoreProgress {
    Continue(Restoration),
    /// The renderer is ready.
    Restored,
    /// There is no renderer.
    Failed,
}

/// Whether there is a renderer after something was done that has succeeded or not.
pub open spec fn renderer_after(there: bool, effect: Effect, succeeded: bool) -> bool {
    match effect {
        Effect::DropRenderer => false,
        Effect::CreateRenderer => succeeded,
        _ => there,
    }
}

/// The overlay, the restoration and whether there is a renderer, after some steps of a restoration
/// whose outcomes, with their times, are `answers`.
pub open spec fn restored(
    overlay: Overlay,
    restoration: Restoration,
    answers: Seq<(bool, u64)>,
    there: bool,
) -> (Overlay, RestoreProgress, bool)
    decreases answers.len(),
{
    if answers.len() == 0 {
        (overlay, RestoreProgress::Continue(restoration), there)
    } else {
        let (succeeded, now) = answers[0];
        let made = renderer_after(there, restoration.steps@[restoration.done as int], succeeded);
        let (after, progress, asked) = overlay.restore_next(restoration, succeeded, now);
        match progress {
            RestoreProgress::Continue(next) => restored(after, next, answers.skip(1), made),
            _ => (after, progress, made && !asked.contains(Effect::DropRenderer)),
        }
    }
}

/// The step that has this outcome is the first that fails.
pub open spec fn first_failure(answers: Seq<(bool, u64)>, at: int) -> bool {
    &&& 0 <= at < answers.len()
    &&& !answers[at].0
    &&& forall|i: int| 0 <= i < at ==> (#[trigger] answers[i]).0
}

proof fn lemma_restored(
    overlay: Overlay,
    restoration: Restoration,
    answers: Seq<(bool, u64)>,
    there: bool,
)
    requires
        restoration.well_formed(),
        restoration.steps@.len() <= usize::MAX,
        answers.len() == restoration.steps@.len() - restoration.done,
        restoration.steps@[0] == Effect::CreateRenderer,
        forall|i: int|
            0 < i < restoration.steps@.len() ==> (#[trigger] restoration.steps@[i])
                != Effect::CreateRenderer && restoration.steps@[i] != Effect::DropRenderer,
        there == (restoration.done > 0),
    ensures
        ({
            let (after, progress, kept) = restored(overlay, restoration, answers, there);
            let all = forall|i: int| 0 <= i < answers.len() ==> (#[trigger] answers[i]).0;
            &&& kept == all
            &&& progress == if kept {
                RestoreProgress::Restored
            } else {
                RestoreProgress::Failed
            }
            &&& kept ==> after == overlay
            &&& !kept ==> exists|at: int| #[trigger]
                first_failure(answers, at) && after == overlay.restoration_failed(
                    answers[at].1,
                    restoration.moved,
                )
        }),
    decreases answers.len(),
{
    let (succeeded, now) = answers[0];
    let (after, progress, asked) = overlay.restore_next(restoration, succeeded, now);
    let rest = answers.skip(1);
    match progress {
        RestoreProgress::Continue(next) => {
            let made = renderer_after(
                there,
                restoration.steps@[restoration.done as int],
                succeeded,
            );
            lemma_restored(after, next, rest, made);
            let kept = restored(after, next, rest, made).2;
            if kept {
                assert forall|i: int| 0 <= i < answers.len() implies (#[trigger] answers[i]).0 by {
                    if i > 0 {
                        assert(rest[i - 1].0);
                    }
                }
            } else {
                let at = choose|at: int| #[trigger]
                    first_failure(rest, at) && restored(after, next, rest, made).0
                        == overlay.restoration_failed(rest[at].1, restoration.moved);
                assert(answers[at + 1] == rest[at]);
                assert forall|i: int| 0 <= i < at + 1 implies (#[trigger] answers[i]).0 by {
                    if i > 0 {
                        assert(rest[i - 1].0);
                    }
                }
                assert(first_failure(answers, at + 1));
            }
        },
        RestoreProgress::Failed => {
            assert(asked[0] == Effect::DropRenderer);
            assert(asked.contains(Effect::DropRenderer));
            assert(first_failure(answers, 0));
        },
        RestoreProgress::Restored => {
            assert(!asked.contains(Effect::DropRenderer));
        },
    }
}

/// A renderer is kept exactly where every step of its restoration has succeeded. A restoration
/// always ends; one that fails leaves no renderer, and for a new display the time of the failure.
pub proof fn law_no_renderer_is_kept_whose_restoration_failed(
    overlay: Overlay,
    restoration: Restoration,
    answers: Seq<(bool, u64)>,
)
    requires
        restoration.steps@ == overlay.restore_effects(),
        restoration.done == 0,
        answers.len() == restoration.steps@.len(),
    ensures
        ({
            let (after, progress, kept) = restored(overlay, restoration, answers, false);
            &&& kept == (forall|i: int| 0 <= i < answers.len() ==> (#[trigger] answers[i]).0)
            &&& progress == if kept {
                RestoreProgress::Restored
            } else {
                RestoreProgress::Failed
            }
            &&& kept ==> after == overlay
            &&& !kept ==> exists|at: int| #[trigger]
                first_failure(answers, at) && after == overlay.restoration_failed(
                    answers[at].1,
                    restoration.moved,
                )
        }),
{
    lemma_restored(overlay, restoration, answers, false);
}

/// A restoration that fails is not tried again at once: not until the interval has passed since the
/// failure that it was to mend, or since its own failure on a new display.
pub proof fn law_a_failed_restoration_is_left_alone(
    overlay: Overlay,
    begun: u64,
    failed: u64,
    later: u64,
)
    ensures
        ({
            let mending = Overlay { last_recovery: Some(begun), ..overlay };
            mending.restoration_failed(failed, false).recovers(later) ==> later - begun
                >= RENDERER_RECOVERY_INTERVAL_NS
        }),
        overlay.restoration_failed(failed, true).recovers(later) ==> later - failed
            >= RENDERER_RECOVERY_INTERVAL_NS,
{
}

/// What is done with a request for a projector that has been begun.
#[derive(Clone, Copy, Debug, PartialEq, Eq, Structural)]
pub enum RequestStart {
    /// Let a worker ask OBS.
    Spawn,
    /// Give the request up; no worker is started.
    Cancel,
}

/// A request is asked for only where the timer that ends it could be started.
pub fn request_start(timer_started: bool) -> (start: RequestStart)
    ensures
        start == if timer_started {
            RequestStart::Spawn
        } else {
            RequestStart::Cancel
        },
{
    if timer_started {
        RequestStart::Spawn
    } else {
        RequestStart::Cancel
    }
}

/// What became of a request for a projector when its worker reported.
#[derive(Clone, Copy, Debug, PartialEq, Eq, Structural)]
pub enum WorkerDisposition {
    Ignored,
    AwaitingProjector,
    Failed,
    TimedOut,
}

/// What became of a request for a projector when it was looked for.
#[derive(Clone, Copy, Debug, PartialEq, Eq, Structural)]
pub enum PollDisposition {
    Idle,
    Waiting,
    Ready,
    TimedOut,
}

impl Overlay {
    /// What a worker's report asks for: looking for the projector and then at the request for it,
    /// or giving up on it.
    pub fn on_obs_worker_result(&self, disposition: WorkerDisposition, effects: &mut Vec<Effect>)
        ensures
            final(effects)@ == old(effects)@ + match disposition {
                WorkerDisposition::Ignored => Seq::<Effect>::empty(),
                WorkerDisposition::AwaitingProjector => seq![
                    Effect::PollProjector,
                    Effect::CheckRequest,
                ],
                WorkerDisposition::Failed => seq![Effect::StopPendingTimer],
                WorkerDisposition::TimedOut => seq![Effect::StopPendingTimer],
            },
    {
        match disposition {
            WorkerDisposition::Ignored => {
                assert(effects@ =~= old(effects)@ + Seq::<Effect>::empty());
            },
            WorkerDisposition::AwaitingProjector => {
                effects.push(Effect::PollProjector);
                effects.push(Effect::CheckRequest);
                assert(effects@ =~= old(effects)@ + seq![
                    Effect::PollProjector,
                    Effect::CheckRequest,
                ]);
            },
            WorkerDisposition::Failed | WorkerDisposition::TimedOut => {
                effects.push(Effect::StopPendingTimer);
                assert(effects@ =~= old(effects)@ + seq![Effect::StopPendingTimer]);
            },
        }
    }

    /// What the timer of a request asks for. The reports are taken too: a worker may not have been
    /// able to announce its own.
    pub fn on_pending_timer(&self, effects: &mut Vec<Effect>)
        ensures
            final(effects)@ == old(effects)@ + seq![
                Effect::TakeReports,
                Effect::PollProjector,
                Effect::CheckRequest,
            ],
    {
        effects.push(Effect::TakeReports);
        effects.push(Effect::PollProjector);
        effects.push(Effect::CheckRequest);
        assert(effects@ =~= old(effects)@ + seq![
            Effect::TakeReports,
            Effect::PollProjector,
            Effect::CheckRequest,
        ]);
    }

    /// The overlay after a requested projector was looked for.
    pub open spec fn awaited(self, disposition: PollDisposition) -> Self {
        match disposition {
            PollDisposition::Ready => Overlay { projector_opened_by_us: true, ..self }.in_mode(
                true,
            ),
            _ => self,
        }
    }

    pub open spec fn awaited_effects(self, disposition: PollDisposition, input_under_way: bool)
        -> Seq<Effect> {
        match disposition {
            PollDisposition::Idle => Seq::empty(),
            PollDisposition::Waiting => Seq::empty(),
            PollDisposition::Ready => seq![Effect::StopPendingTimer] + self.mode_effects(
                true,
                input_under_way,
            ),
            PollDisposition::TimedOut => seq![Effect::StopPendingTimer],
        }
    }

    /// Takes what became of the request for a projector: once it is there, drawing begins.
    pub fn apply_pending_poll(
        &mut self,
        disposition: PollDisposition,
        input_under_way: bool,
        effects: &mut Vec<Effect>,
    )
        ensures
            *final(self) == old(self).awaited(disposition),
            final(effects)@ == old(effects)@ + old(self).awaited_effects(
                disposition,
                input_under_way,
            ),
            old(self).well_formed() ==> final(self).well_formed(),
    {
        match disposition {
            PollDisposition::Idle | PollDisposition::Waiting => {},
            PollDisposition::Ready => {
                self.projector_opened_by_us = true;
                effects.push(Effect::StopPendingTimer);
                self.set_draw_mode(true, input_under_way, effects);
            },
            PollDisposition::TimedOut => {
                effects.push(Effect::StopPendingTimer);
            },
        }
        assert(effects@ =~= old(effects)@ + old(self).awaited_effects(
            disposition,
            input_under_way,
        ));
    }
}

/// Switching drawing on lets the pointer be caught and shows the canvas; switching it off lets the
/// pointer through again, abandons what was under way, gives back what was reserved and shows
/// nothing. Whoever is in the mode already stays as they are.
pub proof fn law_a_mode_is_entered_and_left_whole(overlay: Overlay, input_under_way: bool)
    ensures
        overlay.draw_mode ==> overlay.in_mode(true) == overlay && overlay.mode_effects(
            true,
            input_under_way,
        ).len() == 0,
        !overlay.draw_mode ==> overlay.in_mode(false) == overlay && overlay.mode_effects(
            false,
            input_under_way,
        ).len() == 0,
        !overlay.draw_mode ==> {
            let on = overlay.mode_effects(true, input_under_way);
            &&& overlay.in_mode(true) == (Overlay {
                draw_mode: true,
                frame: FrameGate { requested: false },
                ..overlay
            })
            &&& on.last() == Effect::Draw
            &&& on[on.len() - 2] == Effect::SetTransparent(false)
            &&& on.contains(Effect::RegisterLayerClear) <==> !overlay.layer_clear_registered
            &&& on.len() <= 3
        },
        overlay.draw_mode ==> {
            let off = overlay.mode_effects(false, input_under_way);
            &&& overlay.in_mode(false) == (Overlay {
                draw_mode: false,
                radial_menu: None,
                selection: None,
                layer_clear_registered: false,
                frame: FrameGate { requested: false },
                ..overlay
            })
            &&& off.last() == Effect::ClearFrame
            &&& off[off.len() - 2] == Effect::SetTransparent(true)
            &&& off.contains(Effect::CancelInput)
            &&& off.contains(Effect::UnregisterTransformEscape)
            &&& off.contains(Effect::UnregisterLayerClear) <==> overlay.layer_clear_registered
            &&& off.contains(Effect::StopFlushTimer) <==> input_under_way
            &&& off.contains(Effect::Rebuild) <==> overlay.selection is Some && overlay.local_echo
            &&& !off.contains(Effect::Draw) && !off.contains(Effect::SetTransparent(false))
        },
{
    if overlay.draw_mode {
        lemma_leaving(overlay, input_under_way);
    } else {
        let on = overlay.mode_effects(true, input_under_way);
        if overlay.layer_clear_registered {
            assert(on =~= seq![Effect::SetTransparent(false), Effect::Draw]);
        } else {
            assert(on =~= seq![
                Effect::RegisterLayerClear,
                Effect::SetTransparent(false),
                Effect::Draw,
            ]);
            assert(on[0] == Effect::RegisterLayerClear);
        }
    }
}

proof fn lemma_leaving(overlay: Overlay, input_under_way: bool)
    requires
        overlay.draw_mode,
    ensures
        ({
            let off = overlay.mode_effects(false, input_under_way);
            &&& off.contains(Effect::CancelInput)
            &&& off.contains(Effect::UnregisterTransformEscape)
            &&& off.contains(Effect::UnregisterLayerClear) <==> overlay.layer_clear_registered
            &&& off.contains(Effect::StopFlushTimer) <==> input_under_way
            &&& off.contains(Effect::Rebuild) <==> overlay.selection is Some && overlay.local_echo
            &&& !off.contains(Effect::Draw) && !off.contains(Effect::SetTransparent(false))
        }),
{
    let off = overlay.mode_effects(false, input_under_way);
    let at: int = if overlay.layer_clear_registered {
        1
    } else {
        0
    };
    let stop: int = if input_under_way {
        1
    } else {
        0
    };
    let again: int = if overlay.selection is Some && overlay.local_echo {
        1
    } else {
        0
    };
    let count = at + 2 + stop + again + 2;
    let first = if overlay.layer_clear_registered {
        seq![Effect::UnregisterLayerClear]
    } else {
        Seq::empty()
    };
    let second = first + seq![Effect::UnregisterTransformEscape, Effect::CancelInput];
    let third = second + if input_under_way {
        seq![Effect::StopFlushTimer]
    } else {
        Seq::empty()
    };
    let fourth = third + if again == 1 {
        seq![Effect::Rebuild]
    } else {
        Seq::empty()
    };
    assert(off =~= fourth + seq![Effect::SetTransparent(true), Effect::ClearFrame]);
    assert(off.len() == count);
    assert(at == 1 ==> off[0] == Effect::UnregisterLayerClear);
    assert(off[at] == Effect::UnregisterTransformEscape);
    assert(off[at + 1] == Effect::CancelInput);
    assert(stop == 1 ==> off[at + 2] == Effect::StopFlushTimer);
    assert(again == 1 ==> off[at + 2 + stop] == Effect::Rebuild);
    assert(off[count - 2] == Effect::SetTransparent(true));
    assert(off[count - 1] == Effect::ClearFrame);
    assert forall|i: int| 0 <= i < count implies (#[trigger] off[i] != Effect::Draw && off[i]
        != Effect::SetTransparent(false) && (off[i] == Effect::UnregisterLayerClear ==> at == 1)
        && (off[i] == Effect::StopFlushTimer ==> stop == 1) && (off[i] == Effect::Rebuild ==> again
        == 1)) by {
        assert(i < at || i == at || i == at + 1 || (stop == 1 && i == at + 2) || (again == 1 && i
            == at + 2 + stop) || i == count - 2 || i == count - 1);
    }
}

/// The toggle draws where one can, stops where one draws, and asks OBS for a projector where one is
/// missing and can be asked for. A projector that was asked for is closed with it, where that is
/// wanted. While the settings are open it does nothing.
pub proof fn law_the_toggle_does_what_can_be_done(overlay: Overlay, input_under_way: bool)
    ensures
        overlay.toggled(true) == overlay,
        overlay.toggle_effects(true, input_under_way).len() == 0,
        ({
            let effects = overlay.toggle_effects(false, input_under_way);
            let can_draw = !overlay.follow_projector || overlay.projector_visible;
            &&& overlay.enabled() == can_draw
            &&& overlay.toggled(false).draw_mode == (!overlay.draw_mode && can_draw)
            &&& overlay.draw_mode ==> effects.contains(Effect::ClearFrame) && (effects.contains(
                Effect::CloseProjector,
            ) <==> overlay.close_projector && overlay.projector_opened_by_us)
            &&& !overlay.draw_mode && can_draw ==> effects.last() == Effect::Draw
                && !effects.contains(Effect::RequestProjector)
            &&& !overlay.draw_mode && !can_draw ==> overlay.toggled(false) == overlay && effects
                == (if overlay.obs_control {
                seq![Effect::RequestProjector]
            } else {
                Seq::empty()
            })
        }),
{
    let effects = overlay.toggle_effects(false, input_under_way);
    law_a_mode_is_entered_and_left_whole(overlay, input_under_way);
    if overlay.draw_mode {
        let off = overlay.mode_effects(false, input_under_way);
        assert(effects[off.len() - 1] == Effect::ClearFrame);
        if overlay.close_projector && overlay.projector_opened_by_us {
            assert(effects[off.len() as int] == Effect::CloseProjector);
        }
    }
}

/// The overlay is shown as the projector appears and hidden as it goes, where it follows one, and
/// kept above it either way. While a dialog of this program is open nothing is done; an overlay
/// that follows no projector stays as it is.
pub proof fn law_the_overlay_comes_and_goes_with_the_projector(
    overlay: Overlay,
    found: bool,
    input_under_way: bool,
)
    ensures
        overlay.polled(found, true) == overlay,
        overlay.poll_effects(found, true, input_under_way).len() == 0,
        ({
            let after = overlay.polled(found, false);
            let effects = overlay.poll_effects(found, false, input_under_way);
            &&& effects.last() == Effect::EnforceZOrder
            &&& overlay.follow_projector ==> after.projector_visible == found
            &&& !overlay.follow_projector ==> after == overlay && effects.len() == 1
            &&& effects.contains(Effect::ShowOverlay) <==> overlay.follow_projector && found
                && !overlay.projector_visible
            &&& effects.contains(Effect::HideOverlay) <==> overlay.follow_projector && !found
                && overlay.projector_visible
            &&& overlay.follow_projector && !found && overlay.projector_visible ==> {
                &&& !after.draw_mode
                &&& !after.projector_opened_by_us
                &&& overlay.draw_mode ==> effects.contains(Effect::ClearFrame)
            }
            &&& found || found == overlay.projector_visible ==> after.draw_mode == overlay.draw_mode
                && after.selection == overlay.selection && after.projector_opened_by_us
                == overlay.projector_opened_by_us
        }),
{
    law_a_mode_is_entered_and_left_whole(overlay, input_under_way);
    let effects = overlay.poll_effects(found, false, input_under_way);
    if overlay.follow_projector && found && !overlay.projector_visible {
        assert(effects[0] == Effect::ShowOverlay);
    }
    if overlay.follow_projector && !found && overlay.projector_visible {
        let off = overlay.mode_effects(false, input_under_way);
        assert(effects[off.len() as int] == Effect::HideOverlay);
        if overlay.draw_mode {
            assert(effects[off.len() - 1] == Effect::ClearFrame);
        }
    }
}

/// Giving up the selection draws the canvas without it; without one nothing is done. A frame is
/// drawn only while drawing, and the canvas is drawn anew, or an item added, only where the canvas
/// is shown here.
pub proof fn law_the_canvas_is_drawn_where_it_is_shown(overlay: Overlay)
    ensures
        overlay.draw_effects() == (if overlay.draw_mode {
            seq![Effect::Draw]
        } else {
            Seq::empty()
        }),
        overlay.rebuild_effects() == (if overlay.local_echo {
            seq![Effect::Rebuild]
        } else {
            Seq::empty()
        }),
        overlay.bake_effects() == (if overlay.local_echo {
            seq![Effect::BakeLastDone]
        } else {
            Seq::empty()
        }),
        overlay.deselected().selection is None,
        overlay.selection is None ==> overlay.deselected() == overlay
            && overlay.deselect_effects().len() == 0,
        overlay.selection is Some ==> {
            &&& overlay.deselected() == (Overlay {
                selection: None,
                frame: FrameGate { requested: false },
                ..overlay
            })
            &&& overlay.local_echo && overlay.draw_mode ==> overlay.deselect_effects() == seq![
                Effect::Rebuild,
                Effect::Draw,
            ]
            &&& overlay.deselect_effects().contains(Effect::Rebuild) <==> overlay.local_echo
            &&& overlay.deselect_effects().contains(Effect::Draw) <==> overlay.draw_mode
        },
        overlay.unscheduled() == (Overlay { frame: FrameGate { requested: false }, ..overlay }),
        overlay.without_selection() == (Overlay { selection: None, ..overlay }),
        overlay.drag_owner() is Some <==> overlay.selection is Some
            && overlay.selection->0.drag is Some,
        overlay.selection matches Some(selection) ==> overlay.drag_owner() == selection.drag,
{
    let effects = overlay.deselect_effects();
    if overlay.selection is Some {
        if overlay.local_echo {
            assert(effects[0] == Effect::Rebuild);
        }
        if overlay.draw_mode {
            assert(effects[effects.len() - 1] == Effect::Draw);
        }
        if overlay.local_echo && overlay.draw_mode {
            assert(effects =~= seq![Effect::Rebuild, Effect::Draw]);
        }
    }
}

/// A renderer that is made anew gets the history that is shown here, then the split before the
/// selected item, and then shows a frame while drawing and nothing otherwise.
pub proof fn law_a_new_renderer_shows_what_the_old_one_showed(overlay: Overlay)
    ensures
        ({
            let steps = overlay.restore_effects();
            &&& steps[0] == Effect::CreateRenderer
            &&& steps[1] == if overlay.local_echo {
                Effect::Rebuild
            } else {
                Effect::RebuildEmpty
            }
            &&& steps.contains(Effect::PrepareTransform) <==> overlay.local_echo
                && overlay.selection is Some
            &&& steps.contains(Effect::PrepareTransform) ==> steps[2] == Effect::PrepareTransform
            &&& steps.last() == if overlay.draw_mode {
                Effect::Draw
            } else {
                Effect::ClearFrame
            }
            &&& steps.len() == if overlay.local_echo && overlay.selection is Some {
                4int
            } else {
                3int
            }
        }),
{
    let steps = overlay.restore_effects();
    if overlay.local_echo && overlay.selection is Some {
        assert(steps[2] == Effect::PrepareTransform);
    }
}

/// A failing renderer is made anew, and again only after two seconds.
pub proof fn law_a_failing_renderer_is_made_anew(overlay: Overlay, last: u64, now: u64)
    ensures
        (Overlay { last_recovery: None, ..overlay }).recovers(now),
        (Overlay { last_recovery: Some(last), ..overlay }).recovers(now) <==> now - last
            >= 2_000_000_000,
{
}

/// A requested projector that has appeared starts drawing and is remembered as this program's own;
/// one that does not appear in time is given up. Before that nothing happens.
pub proof fn law_a_requested_projector_starts_drawing(
    overlay: Overlay,
    disposition: PollDisposition,
    input_under_way: bool,
)
    ensures
        ({
            let after = overlay.awaited(disposition);
            let effects = overlay.awaited_effects(disposition, input_under_way);
            &&& disposition == PollDisposition::Ready ==> {
                &&& after.draw_mode
                &&& after.projector_opened_by_us
                &&& effects[0] == Effect::StopPendingTimer
                &&& !overlay.draw_mode ==> effects.last() == Effect::Draw
            }
            &&& disposition != PollDisposition::Ready ==> after == overlay
            &&& disposition == PollDisposition::TimedOut ==> effects == seq![
                Effect::StopPendingTimer,
            ]
            &&& disposition == PollDisposition::Idle || disposition == PollDisposition::Waiting
                ==> effects.len() == 0
        }),
{
}

/// However drawing begins or ends, it does so whole: by the toggle, with the projector that goes,
/// and with the one that was asked for. Nothing else changes then but what is known of the
/// projector.
pub proof fn law_drawing_always_begins_and_ends_whole(
    overlay: Overlay,
    found: bool,
    input_under_way: bool,
)
    ensures
        overlay.draw_mode ==> overlay.toggled(false) == overlay.in_mode(false),
        overlay.draw_mode && !(overlay.close_projector && overlay.projector_opened_by_us)
            ==> overlay.toggle_effects(false, input_under_way) == overlay.mode_effects(
            false,
            input_under_way,
        ),
        overlay.draw_mode && overlay.close_projector && overlay.projector_opened_by_us
            ==> overlay.toggle_effects(false, input_under_way) == overlay.mode_effects(
            false,
            input_under_way,
        ).push(Effect::CloseProjector),
        !overlay.draw_mode && (!overlay.follow_projector || overlay.projector_visible)
            ==> overlay.toggled(false) == overlay.in_mode(true) && overlay.toggle_effects(
            false,
            input_under_way,
        ) == overlay.mode_effects(true, input_under_way),
        overlay.follow_projector && overlay.projector_visible ==> overlay.polled(false, false) == (
        Overlay {
            projector_visible: false,
            projector_opened_by_us: false,
            ..overlay.in_mode(false)
        }) && overlay.poll_effects(false, false, input_under_way) == overlay.mode_effects(
            false,
            input_under_way,
        ) + seq![Effect::HideOverlay, Effect::EnforceZOrder],
        overlay.follow_projector && !overlay.projector_visible ==> overlay.polled(true, false) == (
        Overlay { projector_visible: true, ..overlay }) && overlay.poll_effects(
            true,
            false,
            input_under_way,
        ) == seq![Effect::ShowOverlay, Effect::EnforceZOrder],
        found == overlay.projector_visible ==> overlay.polled(found, false) == overlay
            && overlay.poll_effects(found, false, input_under_way) == seq![Effect::EnforceZOrder],
        overlay.awaited(PollDisposition::Ready) == (Overlay {
            projector_opened_by_us: true,
            ..overlay.in_mode(true)
        }),
        overlay.awaited_effects(PollDisposition::Ready, input_under_way) == seq![
            Effect::StopPendingTimer,
        ] + overlay.mode_effects(true, input_under_way),
{
    assert(overlay.mode_effects(false, input_under_way) + Seq::<Effect>::empty()
        =~= overlay.mode_effects(false, input_under_way));
    assert(overlay.mode_effects(false, input_under_way) + seq![Effect::CloseProjector]
        =~= overlay.mode_effects(false, input_under_way).push(Effect::CloseProjector));
}

/// A restoration goes on from each step that succeeds to the next, and is over with the last. A
/// step that fails ends it, and drops what there is of the renderer; only the failure on a new
/// display is remembered.
pub proof fn law_a_restoration_goes_step_by_step(
    overlay: Overlay,
    restoration: Restoration,
    now: u64,
)
    requires
        restoration.well_formed(),
        restoration.steps@.len() <= usize::MAX,
    ensures
        ({
            let (after, progress, asked) = overlay.restore_next(restoration, true, now);
            &&& after == overlay
            &&& asked.len() == 0
            &&& restoration.done + 1 == restoration.steps@.len() ==> progress
                == RestoreProgress::Restored
            &&& restoration.done + 1 < restoration.steps@.len() ==> {
                &&& progress matches RestoreProgress::Continue(next)
                &&& next.done == restoration.done + 1
                &&& next.steps == restoration.steps
                &&& next.moved == restoration.moved
            }
        }),
        ({
            let (after, progress, asked) = overlay.restore_next(restoration, false, now);
            &&& progress == RestoreProgress::Failed
            &&& asked == seq![Effect::DropRenderer]
            &&& after == (Overlay {
                last_recovery: if restoration.moved {
                    Some(now)
                } else {
                    overlay.last_recovery
                },
                ..overlay
            })
        }),
        overlay.restoration_failed(now, true) == (Overlay { last_recovery: Some(now), ..overlay }),
        overlay.restoration_failed(now, false) == overlay,
{
}

} // verus!
