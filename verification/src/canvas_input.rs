//! What pointers do on the overlay: drawing, transforming an item, and the radial menu.

use vstd::prelude::*;

use crate::input::DrawingCancellation;
use crate::menu::{DrawTool, StampEntry};
use crate::monitor::Monitor;
use crate::overlay::{Effect, ItemSelection, Overlay};
use crate::radial_menu::{PointerSpot, RadialLayerEntry, RadialMenu, RadialRelease};

verus! {

#[derive(Clone, Copy, Debug, PartialEq, Eq, Structural)]
pub enum BrushTool {
    Pen,
    Marker,
    Eraser,
}

/// How a freehand tool draws. It travels with each stroke, so that every renderer draws the same.
/// Factors are in percent.
#[derive(Debug)]
pub struct BrushTuning {
    pub tool: BrushTool,
    pub color: String,
    pub opacity: u32,
    /// The width, as a multiple of the configured one.
    pub width_factor: u32,
    pub pressure_width: bool,
    pub pressure_min: u32,
    pub tilt_width: bool,
    pub tilt_max_scale: u32,
}

pub open spec fn freehand(tool: DrawTool) -> Option<BrushTool> {
    match tool {
        DrawTool::Pen => Some(BrushTool::Pen),
        DrawTool::Marker => Some(BrushTool::Marker),
        DrawTool::Eraser => Some(BrushTool::Eraser),
        _ => None,
    }
}

/// The brush of a freehand tool. Pressure narrows the pen, and the marker less; tilt broadens the
/// marker; the eraser is the same for every device.
pub fn brush_for_tool(tool: &DrawTool, color: &str) -> (brush: Option<BrushTuning>)
    ensures
        brush is Some == freehand(*tool) is Some,
        brush matches Some(brush) ==> {
            &&& freehand(*tool) == Some(brush.tool)
            &&& brush.color@ == if brush.tool == BrushTool::Eraser {
                "#000000"@
            } else {
                color@
            }
            &&& brush.opacity == if brush.tool == BrushTool::Marker {
                50u32
            } else {
                100
            }
            &&& brush.width_factor == if brush.tool == BrushTool::Pen {
                1u32
            } else {
                3
            }
            &&& brush.pressure_width == (brush.tool != BrushTool::Eraser)
            &&& brush.pressure_min == match brush.tool {
                BrushTool::Pen => 20u32,
                BrushTool::Marker => 65,
                BrushTool::Eraser => 100,
            }
            &&& brush.tilt_width == (brush.tool == BrushTool::Marker)
            &&& brush.tilt_max_scale == if brush.tool == BrushTool::Marker {
                175u32
            } else {
                100
            }
        },
{
    match tool {
        DrawTool::Pen => Some(
            BrushTuning {
                tool: BrushTool::Pen,
                color: color.to_owned(),
                opacity: 100,
                width_factor: 1,
                pressure_width: true,
                pressure_min: 20,
                tilt_width: false,
                tilt_max_scale: 100,
            },
        ),
        DrawTool::Marker => Some(
            BrushTuning {
                tool: BrushTool::Marker,
                color: color.to_owned(),
                opacity: 50,
                width_factor: 3,
                pressure_width: true,
                pressure_min: 65,
                tilt_width: true,
                tilt_max_scale: 175,
            },
        ),
        DrawTool::Eraser => Some(
            BrushTuning {
                tool: BrushTool::Eraser,
                color: "#000000".to_owned(),
                opacity: 100,
                width_factor: 3,
                pressure_width: false,
                pressure_min: 100,
                tilt_width: false,
                tilt_max_scale: 100,
            },
        ),
        _ => None,
    }
}

#[derive(Clone, Copy, Debug, PartialEq, Eq, Structural)]
pub enum ShapeKind {
    Line,
    Arrow,
    Rectangle,
    Ellipse,
}

/// What a press of the first button starts.
#[derive(Clone, Copy, Debug, PartialEq, Eq, Structural)]
pub enum PressPlan {
    Ignore,
    /// Choose or transform an item; see [`Overlay::begin_item_drag`].
    Transform,
    Freehand(BrushTool),
    Shape(ShapeKind),
    /// Place the registered stamp with this index.
    Stamp(usize),
}

#[derive(Clone, Copy, Debug, PartialEq, Eq, Structural)]
pub enum TransformCorner {
    NorthWest,
    NorthEast,
    SouthWest,
    SouthEast,
}

/// The part of a selected item that a pointer takes hold of.
#[derive(Clone, Copy, Debug, PartialEq, Eq, Structural)]
pub enum TransformHandle {
    Move,
    Scale(TransformCorner),
    Rotate,
}

#[derive(Clone, Copy, Debug, PartialEq, Eq, Structural)]
pub enum SelectionCursor {
    Arrow,
    Move,
    ScaleFalling,
    ScaleRising,
    Rotate,
}

/// Index of the first stamp with this identifier.
pub open spec fn is_first_stamp(stamps: Seq<StampEntry>, id: Seq<char>, index: int) -> bool {
    &&& 0 <= index < stamps.len()
    &&& stamps[index].id@ == id
    &&& forall|earlier: int| 0 <= earlier < index ==> stamps[earlier].id@ != id
}

fn find_stamp(stamps: &[StampEntry], id: &String) -> (found: Option<usize>)
    ensures
        match found {
            Some(index) => is_first_stamp(stamps@, id@, index as int),
            None => forall|i: int| 0 <= i < stamps@.len() ==> stamps@[i].id@ != id@,
        },
{
    for i in 0..stamps.len()
        invariant
            forall|earlier: int| 0 <= earlier < i ==> stamps@[earlier].id@ != id@,
    {
        if stamps[i].id == *id {
            return Some(i);
        }
    }
    None
}

impl Overlay {
    /// Whether a press of the first button can start anything.
    pub open spec fn accepts_press(self, input_under_way: bool) -> bool {
        self.draw_mode && !input_under_way && self.drag_owner() is None
    }

    /// What a press of the first button starts. Only the selection tool works outside of the
    /// canvas, because a selected item's handles may lie there.
    pub fn on_pointer_down(&self, input_under_way: bool, inside_canvas: bool, stamps: &[StampEntry])
        -> (plan: PressPlan)
        ensures
            !self.accepts_press(input_under_way) ==> plan == PressPlan::Ignore,
            self.accepts_press(input_under_way) && self.tool is Select ==> plan
                == PressPlan::Transform,
            self.accepts_press(input_under_way) && !(self.tool is Select) && !inside_canvas ==> plan
                == PressPlan::Ignore,
            self.accepts_press(input_under_way) && !(self.tool is Select) && inside_canvas ==> (
            match self.tool {
                DrawTool::Line => plan == PressPlan::Shape(ShapeKind::Line),
                DrawTool::Arrow => plan == PressPlan::Shape(ShapeKind::Arrow),
                DrawTool::Rectangle => plan == PressPlan::Shape(ShapeKind::Rectangle),
                DrawTool::Ellipse => plan == PressPlan::Shape(ShapeKind::Ellipse),
                DrawTool::Stamp(id) => match plan {
                    PressPlan::Stamp(index) => is_first_stamp(stamps@, id@, index as int),
                    _ => plan == PressPlan::Ignore && forall|i: int|
                        0 <= i < stamps@.len() ==> stamps@[i].id@ != id@,
                },
                _ => plan == PressPlan::Freehand(freehand(self.tool)->0),
            }),
    {
        if !self.draw_mode || input_under_way || self.item_drag_active() {
            return PressPlan::Ignore;
        }
        if let DrawTool::Select = &self.tool {
            return PressPlan::Transform;
        }
        if !inside_canvas {
            return PressPlan::Ignore;
        }
        match &self.tool {
            DrawTool::Select => PressPlan::Transform,
            DrawTool::Pen => PressPlan::Freehand(BrushTool::Pen),
            DrawTool::Marker => PressPlan::Freehand(BrushTool::Marker),
            DrawTool::Eraser => PressPlan::Freehand(BrushTool::Eraser),
            DrawTool::Line => PressPlan::Shape(ShapeKind::Line),
            DrawTool::Arrow => PressPlan::Shape(ShapeKind::Arrow),
            DrawTool::Rectangle => PressPlan::Shape(ShapeKind::Rectangle),
            DrawTool::Ellipse => PressPlan::Shape(ShapeKind::Ellipse),
            DrawTool::Stamp(id) => match find_stamp(stamps, id) {
                Some(index) => PressPlan::Stamp(index),
                None => PressPlan::Ignore,
            },
        }
    }

    /// Takes that the engine has begun a stroke or a shape.
    pub fn drawing_started(&mut self, rebuild_required: bool, effects: &mut Vec<Effect>)
        ensures
            *final(self) == old(self).unscheduled(),
            final(effects)@ == old(effects)@ + seq![Effect::SendMessages] + (if rebuild_required {
                old(self).rebuild_effects()
            } else {
                Seq::empty()
            }) + seq![Effect::StartFlushTimer] + old(self).draw_effects(),
            old(self).well_formed() ==> final(self).well_formed(),
    {
        effects.push(Effect::SendMessages);
        if rebuild_required {
            self.rebuild(effects);
        }
        effects.push(Effect::StartFlushTimer);
        self.render(effects);
        assert(effects@ =~= old(effects)@ + seq![Effect::SendMessages] + (if rebuild_required {
            old(self).rebuild_effects()
        } else {
            Seq::empty()
        }) + seq![Effect::StartFlushTimer] + old(self).draw_effects());
    }

    /// How a finished item reaches the layers: with everything drawn anew where the engine has
    /// dropped earlier items, else by itself.
    pub open spec fn finish_effects(self, rebuild_required: bool) -> Seq<Effect> {
        if rebuild_required {
            self.rebuild_effects()
        } else {
            self.bake_effects()
        }
    }

    fn finish(&self, rebuild_required: bool, effects: &mut Vec<Effect>)
        ensures
            final(effects)@ == old(effects)@ + self.finish_effects(rebuild_required),
    {
        if rebuild_required {
            self.rebuild(effects);
        } else {
            self.bake_last_done(effects);
        }
    }

    /// Takes that the engine has placed a stamp.
    pub fn stamp_placed(&mut self, rebuild_required: bool, effects: &mut Vec<Effect>)
        ensures
            *final(self) == old(self).unscheduled(),
            final(effects)@ == old(effects)@ + seq![Effect::SendMessages] + old(
                self,
            ).finish_effects(rebuild_required) + old(self).draw_effects(),
            old(self).well_formed() ==> final(self).well_formed(),
    {
        effects.push(Effect::SendMessages);
        self.finish(rebuild_required, effects);
        self.render(effects);
        assert(effects@ =~= old(effects)@ + seq![Effect::SendMessages] + old(self).finish_effects(
            rebuild_required,
        ) + old(self).draw_effects());
    }

    /// What a move of the drawing pointer asks for besides a frame. Messages mean that the engine
    /// has ended the stroke because the canvas is full.
    pub open spec fn moved_effects(self, has_messages: bool, rebuild_required: bool) -> Seq<
        Effect,
    > {
        if has_messages {
            seq![Effect::SendMessages, Effect::StopFlushTimer] + self.finish_effects(
                rebuild_required,
            )
        } else if rebuild_required {
            self.rebuild_effects()
        } else {
            Seq::empty()
        }
    }

    /// Takes that the engine has followed the drawing pointer.
    pub fn drawing_moved(
        &mut self,
        has_messages: bool,
        rebuild_required: bool,
        effects: &mut Vec<Effect>,
    )
        ensures
            final(self).frame.requested == (old(self).frame.requested || old(self).draw_mode),
            *final(self) == (Overlay { frame: final(self).frame, ..*old(self) }),
            final(effects)@ == old(effects)@ + old(self).moved_effects(
                has_messages,
                rebuild_required,
            ) + if old(self).draw_mode && !old(self).frame.requested {
                seq![Effect::Invalidate]
            } else {
                Seq::empty()
            },
            old(self).well_formed() ==> final(self).well_formed(),
    {
        if has_messages {
            effects.push(Effect::SendMessages);
            effects.push(Effect::StopFlushTimer);
            self.finish(rebuild_required, effects);
        } else if rebuild_required {
            self.rebuild(effects);
        }
        assert(effects@ =~= old(effects)@ + old(self).moved_effects(
            has_messages,
            rebuild_required,
        ));
        self.request_render(effects);
    }

    /// Takes that the engine has ended the stroke or shape.
    pub fn drawing_ended(&mut self, rebuild_required: bool, effects: &mut Vec<Effect>)
        ensures
            *final(self) == old(self).unscheduled(),
            final(effects)@ == old(effects)@ + seq![Effect::SendMessages, Effect::StopFlushTimer]
                + old(self).finish_effects(rebuild_required) + old(self).draw_effects(),
            old(self).well_formed() ==> final(self).well_formed(),
    {
        effects.push(Effect::SendMessages);
        effects.push(Effect::StopFlushTimer);
        self.finish(rebuild_required, effects);
        self.render(effects);
        assert(effects@ =~= old(effects)@ + seq![Effect::SendMessages, Effect::StopFlushTimer]
            + old(self).finish_effects(rebuild_required) + old(self).draw_effects());
    }

    /// Takes that the engine has canceled a drawing. Without messages there was none, and the
    /// window message goes on to the next attempt.
    pub fn drawing_canceled(
        &mut self,
        has_messages: bool,
        rebuild_required: bool,
        effects: &mut Vec<Effect>,
    ) -> (taken: bool)
        ensures
            taken == has_messages,
            !taken ==> *final(self) == *old(self) && final(effects)@ == old(effects)@,
            taken ==> *final(self) == old(self).unscheduled() && final(effects)@ == old(effects)@
                + seq![Effect::SendMessages, Effect::StopFlushTimer] + (if rebuild_required {
                old(self).rebuild_effects()
            } else {
                Seq::empty()
            }) + old(self).draw_effects(),
            old(self).well_formed() ==> final(self).well_formed(),
    {
        if !has_messages {
            return false;
        }
        effects.push(Effect::SendMessages);
        effects.push(Effect::StopFlushTimer);
        if rebuild_required {
            self.rebuild(effects);
        }
        self.render(effects);
        assert(effects@ =~= old(effects)@ + seq![Effect::SendMessages, Effect::StopFlushTimer] + (
        if rebuild_required {
            old(self).rebuild_effects()
        } else {
            Seq::empty()
        }) + old(self).draw_effects());
        true
    }

    /// Which item a press takes hold of, and by what: a handle of the selected item before
    /// anything else, then the topmost item under the pointer, then the selected item itself.
    pub open spec fn target(
        self,
        selected_hit: Option<TransformHandle>,
        topmost: Option<String>,
    ) -> Option<(String, TransformHandle)> {
        let selected = self.selection->0.item_id;
        match (self.selection, selected_hit) {
            (Some(_), Some(TransformHandle::Move)) => match topmost {
                Some(item) if item@ != selected@ => Some((item, TransformHandle::Move)),
                _ => Some((selected, TransformHandle::Move)),
            },
            (Some(_), Some(handle)) => Some((selected, handle)),
            _ => match topmost {
                Some(item) => Some((item, TransformHandle::Move)),
                None => None,
            },
        }
    }

    /// The item that a press takes hold of. `selected_hit` is the part of the selected item under
    /// the pointer, `topmost` the topmost item there.
    pub fn transform_target(
        &self,
        selected_hit: Option<TransformHandle>,
        topmost: Option<String>,
    ) -> (target: Option<(String, TransformHandle)>)
        ensures
            target == self.target(selected_hit, topmost),
    {
        match (&self.selection, selected_hit) {
            (Some(selection), Some(TransformHandle::Move)) => match topmost {
                Some(item) => if item != selection.item_id {
                    Some((item, TransformHandle::Move))
                } else {
                    Some((selection.item_id.clone(), TransformHandle::Move))
                },
                None => Some((selection.item_id.clone(), TransformHandle::Move)),
            },
            (Some(selection), Some(handle)) => Some((selection.item_id.clone(), handle)),
            _ => match topmost {
                Some(item) => Some((item, TransformHandle::Move)),
                None => None,
            },
        }
    }

    /// Takes that the engine has begun to transform `item_id` under a pointer.
    pub fn begin_item_drag(&mut self, pointer_id: u32, item_id: String, effects: &mut Vec<Effect>)
        requires
            old(self).well_formed(),
            old(self).draw_mode,
        ensures
            *final(self) == (Overlay {
                selection: Some(ItemSelection { item_id, drag: Some(pointer_id) }),
                ..old(self).unscheduled()
            }),
            final(effects)@ == old(effects)@ + (if old(self).local_echo && (old(
                self,
            ).selection is None || old(self).selection->0.item_id@ != item_id@) {
                seq![Effect::PrepareTransform]
            } else {
                Seq::empty()
            }) + seq![Effect::RegisterTransformEscape, Effect::StartFlushTimer, Effect::Draw],
            final(self).well_formed(),
    {
        let ghost wanted = (if old(self).local_echo && (old(self).selection is None || old(
            self,
        ).selection->0.item_id@ != item_id@) {
            seq![Effect::PrepareTransform]
        } else {
            Seq::empty()
        }) + seq![Effect::RegisterTransformEscape, Effect::StartFlushTimer, Effect::Draw];
        let changed = match &self.selection {
            Some(selection) => selection.item_id != item_id,
            None => true,
        };
        self.selection = Some(ItemSelection { item_id, drag: Some(pointer_id) });
        if changed && self.local_echo {
            effects.push(Effect::PrepareTransform);
        }
        effects.push(Effect::RegisterTransformEscape);
        effects.push(Effect::StartFlushTimer);
        self.render(effects);
        assert(effects@ =~= old(effects)@ + wanted);
    }

    /// Takes a move of a pointer; `true` when it is the one that transforms.
    pub fn update_item_drag(&self, pointer_id: u32, effects: &mut Vec<Effect>) -> (taken: bool)
        ensures
            taken == (self.drag_owner() == Some(pointer_id)),
            final(effects)@ == old(effects)@ + if taken {
                seq![Effect::PreviewTransform, Effect::ShowSelectionCursor]
            } else {
                Seq::empty()
            },
    {
        let taken = self.item_drag_owns(pointer_id);
        if taken {
            effects.push(Effect::PreviewTransform);
            effects.push(Effect::ShowSelectionCursor);
        }
        assert(effects@ =~= old(effects)@ + if taken {
            seq![Effect::PreviewTransform, Effect::ShowSelectionCursor]
        } else {
            Seq::empty()
        });
        taken
    }

    /// Takes whether the engine has applied a tried position.
    pub fn preview_answer(&mut self, applied: bool, effects: &mut Vec<Effect>)
        ensures
            !applied ==> *final(self) == *old(self) && final(effects)@ == old(effects)@,
            applied ==> *final(self) == (Overlay { frame: final(self).frame, ..*old(self) })
                && final(self).frame.requested == (old(self).frame.requested || old(
                self,
            ).draw_mode) && final(effects)@ == old(effects)@ + if old(self).draw_mode && !old(
                self,
            ).frame.requested {
                seq![Effect::Invalidate]
            } else {
                Seq::empty()
            },
            old(self).well_formed() ==> final(self).well_formed(),
    {
        if applied {
            self.request_render(effects);
        }
    }

    /// Takes the release of a pointer; `true` when it is the one that transforms. Its last
    /// position has been previewed before. Once the engine has ended the transformation,
    /// [`Overlay::drag_settled`] takes what became of the item.
    pub fn finish_item_drag(&mut self, pointer_id: u32, effects: &mut Vec<Effect>) -> (taken: bool)
        ensures
            taken == (old(self).drag_owner() == Some(pointer_id)),
            *final(self) == if taken {
                Overlay {
                    selection: Some(
                        ItemSelection { item_id: old(self).selection->0.item_id, drag: None },
                    ),
                    ..*old(self)
                }
            } else {
                *old(self)
            },
            final(effects)@ == old(effects)@ + if taken {
                seq![
                    Effect::EndTransform,
                    Effect::UnregisterTransformEscape,
                    Effect::StopFlushTimer,
                ]
            } else {
                Seq::empty()
            },
            old(self).well_formed() ==> final(self).well_formed(),
    {
        let taken = self.item_drag_owns(pointer_id);
        if taken {
            self.release_selection(true);
            effects.push(Effect::EndTransform);
            effects.push(Effect::UnregisterTransformEscape);
            effects.push(Effect::StopFlushTimer);
        }
        assert(effects@ =~= old(effects)@ + if taken {
            seq![
                Effect::EndTransform,
                Effect::UnregisterTransformEscape,
                Effect::StopFlushTimer,
            ]
        } else {
            Seq::empty()
        });
        taken
    }

    /// Takes whether the item is still there after its transformation; one that is gone is no
    /// longer selected.
    pub fn drag_settled(&mut self, survives: bool, effects: &mut Vec<Effect>)
        requires
            old(self).selection is Some,
        ensures
            *final(self) == (Overlay {
                selection: if survives {
                    Some(ItemSelection { item_id: old(self).selection->0.item_id, drag: None })
                } else {
                    None
                },
                ..old(self).unscheduled()
            }),
            final(effects)@ == old(effects)@ + (if survives {
                seq![Effect::RefreshSelection]
            } else {
                old(self).rebuild_effects()
            }) + old(self).draw_effects(),
            old(self).well_formed() ==> final(self).well_formed(),
    {
        self.release_selection(survives);
        if survives {
            effects.push(Effect::RefreshSelection);
            assert(effects@ =~= old(effects)@ + seq![Effect::RefreshSelection]);
        } else {
            self.rebuild(effects);
        }
        self.render(effects);
    }

    /// Keeps the selected item without its pointer, or gives it up.
    fn release_selection(&mut self, keep: bool)
        requires
            old(self).selection is Some,
        ensures
            *final(self) == (Overlay {
                selection: if keep {
                    Some(ItemSelection { item_id: old(self).selection->0.item_id, drag: None })
                } else {
                    None
                },
                ..*old(self)
            }),
    {
        if let Some(selection) = self.selection.take() {
            if keep {
                self.selection = Some(ItemSelection { item_id: selection.item_id, drag: None });
            }
        }
    }

    /// The overlay after the transformation under way has been abandoned.
    pub open spec fn drag_canceled(self) -> Self {
        if self.drag_owner() is Some {
            Overlay {
                selection: Some(ItemSelection { item_id: self.selection->0.item_id, drag: None }),
                ..self.unscheduled()
            }
        } else {
            self
        }
    }

    pub open spec fn drag_cancel_effects(self) -> Seq<Effect> {
        if self.drag_owner() is Some {
            seq![
                Effect::CancelInput,
                Effect::RefreshSelection,
                Effect::UnregisterTransformEscape,
                Effect::StopFlushTimer,
            ] + self.draw_effects()
        } else {
            Seq::empty()
        }
    }

    /// Abandons the transformation under way; `true` when there was one. The item stays selected.
    pub fn cancel_item_drag(&mut self, effects: &mut Vec<Effect>) -> (taken: bool)
        ensures
            taken == old(self).drag_owner() is Some,
            *final(self) == old(self).drag_canceled(),
            final(effects)@ == old(effects)@ + old(self).drag_cancel_effects(),
            old(self).well_formed() ==> final(self).well_formed(),
    {
        if !self.item_drag_active() {
            assert(effects@ =~= old(effects)@ + old(self).drag_cancel_effects());
            return false;
        }
        self.release_selection(true);
        effects.push(Effect::CancelInput);
        effects.push(Effect::RefreshSelection);
        effects.push(Effect::UnregisterTransformEscape);
        effects.push(Effect::StopFlushTimer);
        self.render(effects);
        assert(effects@ =~= old(effects)@ + old(self).drag_cancel_effects());
        true
    }

    /// The cursor of the selection tool: of the handle that is held, else of the one under the
    /// pointer, else of an item there. None where another cursor is in order.
    pub fn selection_cursor(
        &self,
        held: Option<TransformHandle>,
        hovered: Option<TransformHandle>,
        over_item: bool,
    ) -> (cursor: Option<SelectionCursor>)
        ensures
            cursor is Some == (self.draw_mode && self.tool is Select && self.radial_menu is None),
            cursor matches Some(cursor) ==> cursor == cursor_of(
                handle_under(self.selection, held, hovered, over_item),
            ),
    {
        let selecting = match &self.tool {
            DrawTool::Select => true,
            _ => false,
        };
        if !self.draw_mode || !selecting || self.radial_menu.is_some() {
            return None;
        }
        let handle = if self.selection.is_some() && held.is_some() {
            held
        } else if self.selection.is_some() && hovered.is_some() {
            hovered
        } else if over_item {
            Some(TransformHandle::Move)
        } else {
            None
        };
        let cursor = match handle {
            None => SelectionCursor::Arrow,
            Some(TransformHandle::Move) => SelectionCursor::Move,
            Some(TransformHandle::Rotate) => SelectionCursor::Rotate,
            Some(
                TransformHandle::Scale(TransformCorner::NorthWest),
            ) => SelectionCursor::ScaleFalling,
            Some(
                TransformHandle::Scale(TransformCorner::SouthEast),
            ) => SelectionCursor::ScaleFalling,
            Some(TransformHandle::Scale(_)) => SelectionCursor::ScaleRising,
        };
        Some(cursor)
    }
}

pub open spec fn handle_under(
    selection: Option<ItemSelection>,
    held: Option<TransformHandle>,
    hovered: Option<TransformHandle>,
    over_item: bool,
) -> Option<TransformHandle> {
    if selection is Some && held is Some {
        held
    } else if selection is Some && hovered is Some {
        hovered
    } else if over_item {
        Some(TransformHandle::Move)
    } else {
        None
    }
}

pub open spec fn cursor_of(handle: Option<TransformHandle>) -> SelectionCursor {
    match handle {
        None => SelectionCursor::Arrow,
        Some(TransformHandle::Move) => SelectionCursor::Move,
        Some(TransformHandle::Rotate) => SelectionCursor::Rotate,
        Some(TransformHandle::Scale(corner)) => if corner == TransformCorner::NorthWest || corner
            == TransformCorner::SouthEast {
            SelectionCursor::ScaleFalling
        } else {
            SelectionCursor::ScaleRising
        },
    }
}

/// Whom a canceling message lets the engine cancel.
#[derive(Clone, Copy, Debug, PartialEq, Eq, Structural)]
pub enum CancelCall {
    Pointer(u32),
    Any,
}

/// Whom the engine is to cancel; a loss that names no pointer is of no matter while none draws.
pub fn cancel_call(cancellation: Option<DrawingCancellation>, pointer_session: bool) -> (call:
    Option<CancelCall>)
    ensures
        call == match cancellation {
            Some(DrawingCancellation::Pointer(id)) => Some(CancelCall::Pointer(id)),
            Some(DrawingCancellation::AnyPointer) => if pointer_session {
                Some(CancelCall::Any)
            } else {
                None
            },
            None => None,
        },
{
    match cancellation {
        Some(DrawingCancellation::Pointer(id)) => Some(CancelCall::Pointer(id)),
        Some(DrawingCancellation::AnyPointer) => if pointer_session {
            Some(CancelCall::Any)
        } else {
            None
        },
        None => None,
    }
}

impl Overlay {
    /// Whether a press of the second button opens the radial menu.
    pub open spec fn can_open_radial(self, input_under_way: bool) -> bool {
        self.draw_mode && !input_under_way && self.drag_owner() is None && self.radial_menu is None
    }

    /// Opens the radial menu under a pointer, where nothing else is under way; `true` if it does.
    pub fn begin_radial_menu(
        &mut self,
        pointer_id: u32,
        input_under_way: bool,
        stamp_count: usize,
        command_available: (bool, bool, bool),
        layers: Vec<RadialLayerEntry>,
        active_layer_id: String,
        effects: &mut Vec<Effect>,
    ) -> (opened: bool)
        requires
            old(self).well_formed(),
        ensures
            opened == old(self).can_open_radial(input_under_way),
            !opened ==> *final(self) == *old(self) && final(effects)@ == old(effects)@,
            opened ==> {
                &&& final(self).radial_menu is Some
                &&& *final(self) == (Overlay {
                    radial_menu: final(self).radial_menu,
                    ..old(self).unscheduled()
                })
                &&& final(self).radial_menu->0 == (RadialMenu {
                    pointer_id: Some(pointer_id),
                    pinned: false,
                    stamp_count,
                    stamp_mode: false,
                    can_undo: command_available.0,
                    can_redo: command_available.1,
                    can_clear: command_available.2,
                    layers,
                    active_layer_id,
                    highlighted: Some(crate::radial_menu::RadialSelection::StandardMenu),
                    moved: false,
                })
                &&& final(effects)@ == old(effects)@ + seq![Effect::Draw]
            },
            final(self).well_formed(),
    {
        if !self.draw_mode || input_under_way || self.item_drag_active()
            || self.radial_menu.is_some() {
            return false;
        }
        self.radial_menu = Some(
            RadialMenu::new_with_layers(
                pointer_id,
                stamp_count,
                command_available,
                layers,
                active_layer_id,
            ),
        );
        self.render(effects);
        true
    }

    /// Starts a click on the pinned radial menu; `true` if it does.
    pub fn begin_radial_click(
        &mut self,
        pointer_id: u32,
        spot: PointerSpot,
        effects: &mut Vec<Effect>,
    ) -> (begun: bool)
        requires
            old(self).well_formed(),
        ensures
            begun == (old(self).radial_menu is Some && old(self).radial_menu->0.pinned && old(
                self,
            ).radial_menu->0.pointer_id is None),
            !begun ==> *final(self) == *old(self) && final(effects)@ == old(effects)@,
            begun ==> {
                let clicked = RadialMenu {
                    pointer_id: Some(pointer_id),
                    ..old(self).radial_menu->0
                };
                let changed = clicked.pointed(spot).highlighted != clicked.highlighted;
                &&& *final(self) == (Overlay {
                    radial_menu: Some(clicked.pointed(spot)),
                    ..(if changed {
                        old(self).unscheduled()
                    } else {
                        *old(self)
                    })
                })
                &&& final(effects)@ == old(effects)@ + if changed {
                    seq![Effect::Draw]
                } else {
                    Seq::empty()
                }
            },
            final(self).well_formed(),
    {
        let mut menu = match self.radial_menu.take() {
            Some(menu) => menu,
            None => {
                return false;
            },
        };
        if !menu.begin_click(pointer_id) {
            self.radial_menu = Some(menu);
            return false;
        }
        let changed = menu.update(spot);
        self.radial_menu = Some(menu);
        if changed {
            self.render(effects);
        }
        assert(effects@ =~= old(effects)@ + if changed {
            seq![Effect::Draw]
        } else {
            Seq::empty()
        });
        true
    }

    /// Whether the radial menu cares about a move of this pointer.
    pub open spec fn radial_follows(self, pointer_id: u32) -> bool {
        self.radial_menu is Some && match self.radial_menu->0.pointer_id {
            Some(owner) => owner == pointer_id,
            None => self.radial_menu->0.pinned,
        }
    }

    /// Takes a move of a pointer over the radial menu; `true` when the menu cares about it.
    pub fn update_radial_menu(
        &mut self,
        pointer_id: u32,
        spot: PointerSpot,
        effects: &mut Vec<Effect>,
    ) -> (taken: bool)
        requires
            old(self).well_formed(),
        ensures
            taken == old(self).radial_follows(pointer_id),
            !taken ==> *final(self) == *old(self) && final(effects)@ == old(effects)@,
            taken ==> {
                let menu = old(self).radial_menu->0;
                let changed = menu.pointed(spot).highlighted != menu.highlighted;
                &&& final(self).radial_menu == Some(menu.pointed(spot))
                &&& *final(self) == (Overlay {
                    radial_menu: final(self).radial_menu,
                    frame: final(self).frame,
                    ..*old(self)
                })
                &&& final(self).frame.requested == (old(self).frame.requested || changed)
                &&& final(effects)@ == old(effects)@ + if changed && !old(self).frame.requested {
                    seq![Effect::Invalidate]
                } else {
                    Seq::empty()
                }
            },
            final(self).well_formed(),
    {
        let mut menu = match self.radial_menu.take() {
            Some(menu) => menu,
            None => {
                return false;
            },
        };
        if !menu.accepts_update_from(pointer_id) {
            self.radial_menu = Some(menu);
            return false;
        }
        let changed = menu.update(spot);
        self.radial_menu = Some(menu);
        if changed {
            self.request_render(effects);
        }
        assert(effects@ =~= old(effects)@ + if changed && !old(self).frame.requested {
            seq![Effect::Invalidate]
        } else {
            Seq::empty()
        });
        true
    }

    /// Takes the release of a pointer; what it does, when the radial menu is under that pointer.
    pub fn release_radial_menu(
        &mut self,
        pointer_id: u32,
        spot: PointerSpot,
        effects: &mut Vec<Effect>,
    ) -> (release: Option<RadialRelease>)
        requires
            old(self).well_formed(),
        ensures
            release is Some == (old(self).radial_menu is Some && old(
                self,
            ).radial_menu->0.pointer_id == Some(pointer_id)),
            release is None ==> *final(self) == *old(self) && final(effects)@ == old(effects)@,
            release matches Some(release) ==> {
                let pointed = old(self).radial_menu->0.pointed(spot);
                &&& release == pointed.outcome()
                &&& *final(self) == (Overlay {
                    radial_menu: if release.stays() {
                        Some(pointed.let_go())
                    } else {
                        None
                    },
                    ..old(self).unscheduled()
                })
                &&& final(effects)@ == old(effects)@ + seq![Effect::Draw]
            },
            final(self).well_formed(),
    {
        let mut menu = match self.radial_menu.take() {
            Some(menu) => menu,
            None => {
                return None;
            },
        };
        if !menu.owns_pointer(pointer_id) {
            self.radial_menu = Some(menu);
            return None;
        }
        let release = menu.release(spot);
        if release.keeps_menu_open() {
            self.radial_menu = Some(menu);
        }
        self.render(effects);
        Some(release)
    }

    /// The overlay after the radial menu has lost its pointer: a pinned menu stays.
    pub open spec fn radial_canceled(self) -> Self {
        let menu = self.radial_menu->0;
        if self.radial_menu is None || menu.pointer_id is None {
            self
        } else {
            Overlay {
                radial_menu: if menu.pinned {
                    Some(RadialMenu { pointer_id: None, ..menu })
                } else {
                    None
                },
                ..self.unscheduled()
            }
        }
    }

    /// Takes the pointer of the radial menu away; `true` when there was one.
    pub fn cancel_radial_interaction(&mut self, effects: &mut Vec<Effect>) -> (taken: bool)
        requires
            old(self).well_formed(),
        ensures
            taken == (old(self).radial_menu is Some && old(
                self,
            ).radial_menu->0.pointer_id is Some),
            *final(self) == old(self).radial_canceled(),
            final(effects)@ == old(effects)@ + if taken {
                seq![Effect::Draw]
            } else {
                Seq::empty()
            },
            final(self).well_formed(),
    {
        let mut menu = match self.radial_menu.take() {
            Some(menu) => menu,
            None => {
                assert(effects@ =~= old(effects)@ + Seq::empty());
                return false;
            },
        };
        if !menu.has_active_pointer() {
            self.radial_menu = Some(menu);
            assert(effects@ =~= old(effects)@ + Seq::empty());
            return false;
        }
        menu.cancel_active_pointer();
        if menu.is_pinned() {
            self.radial_menu = Some(menu);
        }
        self.render(effects);
        true
    }

    /// Closes the radial menu; `true` when it was open.
    pub fn dismiss_radial_menu(&mut self, effects: &mut Vec<Effect>) -> (taken: bool)
        requires
            old(self).well_formed(),
        ensures
            taken == old(self).radial_menu is Some,
            *final(self) == if taken {
                Overlay { radial_menu: None, ..old(self).unscheduled() }
            } else {
                *old(self)
            },
            final(effects)@ == old(effects)@ + if taken {
                seq![Effect::Draw]
            } else {
                Seq::empty()
            },
            final(self).well_formed(),
    {
        if self.radial_menu.take().is_none() {
            assert(effects@ =~= old(effects)@ + Seq::empty());
            return false;
        }
        self.render(effects);
        true
    }

    pub fn radial_menu_owns(&self, pointer_id: u32) -> (owns: bool)
        ensures
            owns == (self.radial_menu is Some && self.radial_menu->0.pointer_id == Some(
                pointer_id,
            )),
    {
        match &self.radial_menu {
            Some(menu) => menu.owns_pointer(pointer_id),
            None => false,
        }
    }

    pub fn radial_menu_is_pinned(&self) -> (pinned: bool)
        ensures
            pinned == (self.radial_menu is Some && self.radial_menu->0.pinned),
    {
        match &self.radial_menu {
            Some(menu) => menu.is_pinned(),
            None => false,
        }
    }

    /// Shows the history and the layers as the engine has them on an open radial menu.
    pub fn sync_radial_history(
        &mut self,
        available: (bool, bool, bool),
        layers: Vec<RadialLayerEntry>,
        active_layer_id: String,
        effects: &mut Vec<Effect>,
    )
        requires
            old(self).well_formed(),
        ensures
            old(self).radial_menu is None ==> *final(self) == *old(self) && final(effects)@ == old(
                effects,
            )@,
            old(self).radial_menu matches Some(menu) ==> {
                let changed = menu.differs(available, layers@, active_layer_id@);
                &&& final(self).radial_menu is Some
                &&& final(self).radial_menu->0.shows(menu, available, layers@, active_layer_id@)
                &&& *final(self) == (Overlay {
                    radial_menu: final(self).radial_menu,
                    frame: final(self).frame,
                    ..*old(self)
                })
                &&& final(self).frame.requested == (old(self).frame.requested && !changed)
                &&& final(effects)@ == old(effects)@ + if changed {
                    seq![Effect::Draw]
                } else {
                    Seq::empty()
                }
            },
            final(self).well_formed(),
    {
        let mut menu = match self.radial_menu.take() {
            Some(menu) => menu,
            None => {
                return;
            },
        };
        let changed = menu.refresh(available, layers, active_layer_id);
        self.radial_menu = Some(menu);
        if changed {
            self.render(effects);
        }
        assert(effects@ =~= old(effects)@ + if changed {
            seq![Effect::Draw]
        } else {
            Seq::empty()
        });
    }

    pub open spec fn without_radial(self) -> Self {
        Overlay { radial_menu: None, ..self }
    }

    /// What a change of the displays asks for first. `selected` is the monitor to be on.
    pub open spec fn display_effects(
        self,
        selected: Option<(usize, Monitor)>,
        input_under_way: bool,
    ) -> Seq<Effect> {
        match selected {
            None => seq![Effect::CancelProjectorRequest] + self.mode_effects(
                false,
                input_under_way,
            ) + seq![Effect::ReleaseZOrder, Effect::HideOverlay],
            Some((_, monitor)) => if monitor == self.monitor {
                seq![Effect::PollProjector]
            } else {
                seq![Effect::CancelProjectorRequest]
                    + self.without_radial().drag_cancel_effects() + seq![Effect::MoveTo(monitor)]
            },
        }
    }

    /// Takes a change of the displays. Without a monitor the overlay hides; on a new one it is
    /// moved there.
    pub fn on_display_change(
        &mut self,
        selected: Option<(usize, Monitor)>,
        input_under_way: bool,
        effects: &mut Vec<Effect>,
    )
        requires
            old(self).well_formed(),
        ensures
            *final(self) == match selected {
                None => Overlay { projector_visible: false, ..old(self).in_mode(false) },
                Some((_, monitor)) => if monitor == old(self).monitor {
                    *old(self)
                } else {
                    old(self).without_radial().drag_canceled()
                },
            },
            final(effects)@ == old(effects)@ + old(self).display_effects(selected, input_under_way),
            final(self).well_formed(),
    {
        match selected {
            None => {
                effects.push(Effect::CancelProjectorRequest);
                self.set_draw_mode(false, input_under_way, effects);
                self.projector_visible = false;
                effects.push(Effect::ReleaseZOrder);
                effects.push(Effect::HideOverlay);
                assert(effects@ =~= old(effects)@ + old(self).display_effects(
                    selected,
                    input_under_way,
                ));
            },
            Some((_, monitor)) => {
                if monitor == self.monitor {
                    effects.push(Effect::PollProjector);
                } else {
                    self.leave_monitor(monitor, effects);
                }
                assert(effects@ =~= old(effects)@ + old(self).display_effects(
                    selected,
                    input_under_way,
                ));
            },
        }
    }

    fn leave_monitor(&mut self, monitor: Monitor, effects: &mut Vec<Effect>)
        requires
            old(self).well_formed(),
        ensures
            *final(self) == old(self).without_radial().drag_canceled(),
            final(effects)@ == old(effects)@ + (seq![Effect::CancelProjectorRequest] + old(
                self,
            ).without_radial().drag_cancel_effects() + seq![Effect::MoveTo(monitor)]),
            final(self).well_formed(),
    {
        effects.push(Effect::CancelProjectorRequest);
        self.radial_menu = None;
        self.cancel_item_drag(effects);
        effects.push(Effect::MoveTo(monitor));
        assert(effects@ =~= old(effects)@ + (seq![Effect::CancelProjectorRequest] + old(
            self,
        ).without_radial().drag_cancel_effects() + seq![Effect::MoveTo(monitor)]));
    }

    /// Takes whether the overlay could be moved to `monitor`: then the renderer is made anew for
    /// it, and the projector looked for.
    pub fn moved_answer(&mut self, monitor: Monitor, moved: bool, effects: &mut Vec<Effect>)
        ensures
            *final(self) == if moved {
                Overlay {
                    monitor,
                    projector_visible: false,
                    projector_opened_by_us: false,
                    last_recovery: None,
                    ..*old(self)
                }
            } else {
                *old(self)
            },
            final(effects)@ == old(effects)@ + if moved {
                seq![
                    Effect::DropRenderer,
                    Effect::RestoreRenderer { moved: true },
                    Effect::PollProjector,
                ]
            } else {
                Seq::empty()
            },
            old(self).well_formed() ==> final(self).well_formed(),
    {
        if moved {
            self.monitor = monitor;
            self.projector_visible = false;
            self.projector_opened_by_us = false;
            self.last_recovery = None;
            effects.push(Effect::DropRenderer);
            effects.push(Effect::RestoreRenderer { moved: true });
            effects.push(Effect::PollProjector);
        }
        assert(effects@ =~= old(effects)@ + if moved {
            seq![
                Effect::DropRenderer,
                Effect::RestoreRenderer { moved: true },
                Effect::PollProjector,
            ]
        } else {
            Seq::empty()
        });
    }
}

/// Number of items on a layer.
pub open spec fn items_on(item_layers: Seq<String>, layer_id: Seq<char>) -> nat
    decreases item_layers.len(),
{
    if item_layers.len() == 0 {
        0
    } else {
        items_on(item_layers.drop_last(), layer_id) + if item_layers.last()@ == layer_id {
            1nat
        } else {
            0
        }
    }
}

fn count_items(item_layers: &[String], layer_id: &String) -> (count: usize)
    ensures
        count == items_on(item_layers@, layer_id@),
        count <= item_layers@.len(),
{
    let mut count: usize = 0;
    for i in 0..item_layers.len()
        invariant
            count == items_on(item_layers@.take(i as int), layer_id@),
            count <= i,
    {
        assert(item_layers@.take(i + 1).drop_last() =~= item_layers@.take(i as int));
        if item_layers[i] == *layer_id {
            count = count + 1;
        }
    }
    assert(item_layers@.take(item_layers@.len() as int) =~= item_layers@);
    count
}

/// A layer of the canvas.
#[derive(Debug)]
pub struct LayerName {
    pub layer_id: String,
    pub name: String,
}

/// The lines of the layer panel: each layer with the number of its items. `item_layers` is the
/// layer of each item of the canvas.
pub fn radial_layer_entries(layers: &[LayerName], item_layers: &[String]) -> (entries: Vec<
    RadialLayerEntry,
>)
    ensures
        entries@.len() == layers@.len(),
        forall|i: int|
            0 <= i < layers@.len() ==> (#[trigger] entries@[i])@ == (
                layers@[i].layer_id@,
                layers@[i].name@,
                items_on(item_layers@, layers@[i].layer_id@) as usize,
            ),
        forall|i: int|
            0 <= i < layers@.len() ==> (#[trigger] entries@[i]).item_count == items_on(
                item_layers@,
                layers@[i].layer_id@,
            ),
{
    let mut entries: Vec<RadialLayerEntry> = Vec::new();
    for i in 0..layers.len()
        invariant
            entries@.len() == i,
            forall|j: int|
                0 <= j < i ==> (#[trigger] entries@[j])@ == (
                    layers@[j].layer_id@,
                    layers@[j].name@,
                    items_on(item_layers@, layers@[j].layer_id@) as usize,
                ),
            forall|j: int|
                0 <= j < i ==> (#[trigger] entries@[j]).item_count == items_on(
                    item_layers@,
                    layers@[j].layer_id@,
                ),
    {
        let layer = &layers[i];
        entries.push(
            RadialLayerEntry {
                layer_id: layer.layer_id.clone(),
                name: layer.name.clone(),
                item_count: count_items(item_layers, &layer.layer_id),
            },
        );
    }
    entries
}

/// A press on a corner or on the rotation handle of the selected item takes hold of that item by
/// that very handle, whatever lies on top. A press inside of it moves the topmost item there, and
/// the selected one where that is it or none is; without a selected item under the pointer the
/// topmost item is moved, if any.
pub proof fn law_a_handle_is_taken_before_what_lies_on_top(
    overlay: Overlay,
    hit: Option<TransformHandle>,
    topmost: Option<String>,
)
    ensures
        ({
            let target = overlay.target(hit, topmost);
            &&& overlay.selection matches Some(selection) ==> {
                &&& hit is Some && hit != Some(TransformHandle::Move) ==> target == Some(
                    (selection.item_id, hit->0),
                )
                &&& hit == Some(TransformHandle::Move) ==> {
                    &&& target matches Some((item, handle))
                    &&& handle == TransformHandle::Move
                    &&& item@ == if topmost is Some {
                        topmost->0@
                    } else {
                        selection.item_id@
                    }
                }
            }
            &&& overlay.selection is None || hit is None ==> {
                &&& target is Some == topmost is Some
                &&& topmost matches Some(item) ==> target == Some((item, TransformHandle::Move))
            }
        }),
{
}

/// The cursor tells what a press would take hold of: it is that of the handle in hand, of the one
/// under the pointer, or of an item that can be moved. Opposite corners have the same cursor, and
/// neighboring ones do not.
pub proof fn law_the_cursor_tells_what_a_press_takes(
    selection: ItemSelection,
    handle: TransformHandle,
    other: Option<TransformHandle>,
    over: bool,
)
    ensures
        handle_under(Some(selection), Some(handle), other, over) == Some(handle),
        handle_under(Some(selection), None, Some(handle), over) == Some(handle),
        handle_under(None, other, other, over) == if over {
            Some(TransformHandle::Move)
        } else {
            None
        },
        handle_under(Some(selection), None, None, over) == if over {
            Some(TransformHandle::Move)
        } else {
            None
        },
        cursor_of(None) == SelectionCursor::Arrow,
        cursor_of(Some(handle)) == SelectionCursor::Move <==> handle == TransformHandle::Move,
        cursor_of(Some(handle)) == SelectionCursor::Rotate <==> handle == TransformHandle::Rotate,
        cursor_of(Some(handle)) == SelectionCursor::ScaleFalling <==> handle
            == TransformHandle::Scale(TransformCorner::NorthWest) || handle
            == TransformHandle::Scale(TransformCorner::SouthEast),
        cursor_of(Some(handle)) == SelectionCursor::ScaleRising <==> handle
            == TransformHandle::Scale(TransformCorner::NorthEast) || handle
            == TransformHandle::Scale(TransformCorner::SouthWest),
{
}

/// Freehand tools draw with the brush of their own name, and no other tool draws freehand.
pub proof fn law_freehand_tools_have_their_own_brush(tool: DrawTool)
    ensures
        tool is Pen <==> freehand(tool) == Some(BrushTool::Pen),
        tool is Marker <==> freehand(tool) == Some(BrushTool::Marker),
        tool is Eraser <==> freehand(tool) == Some(BrushTool::Eraser),
{
}

/// One thing at a time: while drawing, a press starts something exactly where nothing is drawn or
/// transformed, and the radial menu opens exactly where it is not open besides.
pub proof fn law_one_input_at_a_time(overlay: Overlay, input_under_way: bool)
    ensures
        ({
            let transforming = overlay.selection matches Some(selection) && selection.drag is Some;
            let free = overlay.draw_mode && !input_under_way && !transforming;
            &&& overlay.accepts_press(input_under_way) == free
            &&& overlay.can_open_radial(input_under_way) == (free && overlay.radial_menu is None)
        }),
{
}

/// A finished item gets onto the canvas exactly once: by itself, or with everything drawn anew
/// where the engine says so. Without the canvas here, nothing is drawn at all. A stroke that the
/// engine has ended by itself while the pointer moved is sent, its timer stopped, and finished.
pub proof fn law_a_finished_item_is_drawn_once(
    overlay: Overlay,
    has_messages: bool,
    rebuild_required: bool,
)
    ensures
        overlay.local_echo ==> overlay.finish_effects(rebuild_required) == seq![
            if rebuild_required {
                Effect::Rebuild
            } else {
                Effect::BakeLastDone
            },
        ],
        !overlay.local_echo ==> overlay.finish_effects(rebuild_required).len() == 0,
        ({
            let moved = overlay.moved_effects(has_messages, rebuild_required);
            &&& has_messages ==> moved == seq![Effect::SendMessages, Effect::StopFlushTimer]
                + overlay.finish_effects(rebuild_required)
            &&& !has_messages && rebuild_required && overlay.local_echo ==> moved == seq![
                Effect::Rebuild,
            ]
            &&& !has_messages && (!rebuild_required || !overlay.local_echo) ==> moved.len() == 0
        }),
{
}

/// A transformation that is abandoned is undone by the engine and shown so; the item stays
/// selected, the pointer is let go, and what was reserved for it is given back. Where none is under
/// way nothing happens.
pub proof fn law_an_abandoned_transformation_is_undone(overlay: Overlay)
    requires
        overlay.draw_mode,
    ensures
        ({
            let after = overlay.drag_canceled();
            let effects = overlay.drag_cancel_effects();
            match overlay.selection {
                Some(selection) if selection.drag is Some => {
                    &&& after.selection == Some(
                        ItemSelection { item_id: selection.item_id, drag: None },
                    )
                    &&& !after.frame.requested
                    &&& effects == seq![
                        Effect::CancelInput,
                        Effect::RefreshSelection,
                        Effect::UnregisterTransformEscape,
                        Effect::StopFlushTimer,
                        Effect::Draw,
                    ]
                    &&& after == (Overlay {
                        selection: after.selection,
                        frame: after.frame,
                        ..overlay
                    })
                },
                _ => after == overlay && effects.len() == 0,
            }
        }),
{
    if overlay.selection is Some && overlay.selection->0.drag is Some {
        assert(overlay.drag_cancel_effects() =~= seq![
            Effect::CancelInput,
            Effect::RefreshSelection,
            Effect::UnregisterTransformEscape,
            Effect::StopFlushTimer,
            Effect::Draw,
        ]);
    }
}

/// A radial menu that loses its pointer closes unless it is pinned; a pinned one stays as it was,
/// without the pointer. A pinned menu follows every pointer that hovers over it, and while a
/// pointer is down the menu follows that one alone.
pub proof fn law_the_radial_menu_follows_its_pointer(overlay: Overlay, pointer_id: u32)
    ensures
        overlay.radial_menu matches Some(menu) ==> {
            &&& overlay.radial_follows(pointer_id) == (menu.pointer_id == Some(pointer_id) || (
            menu.pinned && menu.pointer_id is None))
            &&& menu.pointer_id is Some ==> overlay.radial_canceled() == (Overlay {
                radial_menu: if menu.pinned {
                    Some(RadialMenu { pointer_id: None, ..menu })
                } else {
                    None
                },
                frame: crate::frame::FrameGate { requested: false },
                ..overlay
            })
            &&& menu.pointer_id is None ==> overlay.radial_canceled() == overlay
        },
        overlay.radial_menu is None ==> !overlay.radial_follows(pointer_id)
            && overlay.radial_canceled() == overlay,
{
}

/// A display that changes takes the overlay with it: onto the monitor it is to be on, after the
/// request for a projector and the input under way have been given up. On the same monitor only
/// the projector is looked for; without any monitor drawing ends and the overlay hides.
pub proof fn law_the_overlay_follows_its_display(
    overlay: Overlay,
    index: usize,
    monitor: Monitor,
    input_under_way: bool,
)
    ensures
        ({
            let effects = overlay.display_effects(Some((index, monitor)), input_under_way);
            let gone = overlay.display_effects(None, input_under_way);
            &&& monitor == overlay.monitor ==> effects == seq![Effect::PollProjector]
            &&& monitor != overlay.monitor ==> effects[0] == Effect::CancelProjectorRequest
                && effects.last() == Effect::MoveTo(monitor)
            &&& gone[0] == Effect::CancelProjectorRequest
            &&& gone.last() == Effect::HideOverlay
            &&& gone[gone.len() - 2] == Effect::ReleaseZOrder
            &&& overlay.draw_mode ==> gone.contains(Effect::ClearFrame) && gone.contains(
                Effect::CancelInput,
            ) && gone.contains(Effect::SetTransparent(true))
        }),
        overlay.without_radial() == (Overlay { radial_menu: None, ..overlay }),
{
    let gone = overlay.display_effects(None, input_under_way);
    if overlay.draw_mode {
        let off = overlay.mode_effects(false, input_under_way);
        let at: int = if overlay.layer_clear_registered {
            2
        } else {
            1
        };
        assert(off[at] == Effect::CancelInput);
        assert(off[off.len() - 1] == Effect::ClearFrame);
        assert(off[off.len() - 2] == Effect::SetTransparent(true));
        assert(gone[1 + at] == Effect::CancelInput);
        assert(gone[off.len() as int] == Effect::ClearFrame);
        assert(gone[off.len() - 1] == Effect::SetTransparent(true));
    }
}

/// The layer panel counts each item on the layer that it is on: an item more on a layer is one more
/// there and none elsewhere.
pub proof fn law_items_count_on_their_own_layer(
    item_layers: Seq<String>,
    next: String,
    layer_id: Seq<char>,
)
    ensures
        items_on(Seq::empty(), layer_id) == 0,
        items_on(item_layers.push(next), layer_id) == items_on(item_layers, layer_id) + if next@
            == layer_id {
            1int
        } else {
            0int
        },
{
    assert(item_layers.push(next).drop_last() =~= item_layers);
}

/// The stamp that is placed is the one that was chosen: the first with its identifier, and no
/// other.
pub proof fn law_the_chosen_stamp_is_placed(
    stamps: Seq<StampEntry>,
    id: Seq<char>,
    index: int,
    other: int,
)
    requires
        is_first_stamp(stamps, id, index),
    ensures
        0 <= index < stamps.len(),
        stamps[index].id@ == id,
        0 <= other < index ==> stamps[other].id@ != id,
        is_first_stamp(stamps, id, other) ==> other == index,
{
}

/// Everything that a change of the displays ends is ended as it always is: the drawing where there
/// is no monitor any more, and the transformation, after the radial menu, where there is another.
pub proof fn law_a_display_change_ends_what_is_under_way(
    overlay: Overlay,
    index: usize,
    monitor: Monitor,
    input_under_way: bool,
)
    ensures
        overlay.display_effects(None, input_under_way) == seq![Effect::CancelProjectorRequest]
            + overlay.mode_effects(false, input_under_way) + seq![
            Effect::ReleaseZOrder,
            Effect::HideOverlay,
        ],
        monitor != overlay.monitor ==> overlay.display_effects(
            Some((index, monitor)),
            input_under_way,
        ) == seq![Effect::CancelProjectorRequest] + (Overlay {
            radial_menu: None,
            ..overlay
        }).drag_cancel_effects() + seq![Effect::MoveTo(monitor)],
{
}

} // verus!
