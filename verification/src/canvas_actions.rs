//! What the commands of the menus do to the overlay and to the canvas.

use vstd::prelude::*;

use crate::menu::{DrawTool, MenuAction, StampEntry};
use crate::overlay::{Effect, Overlay};
use crate::radial_menu::{RadialLayerEntry, RadialRelease};

verus! {

/// A change that the canvas engine is to make.
#[derive(Debug)]
pub enum EngineChange {
    SelectLayer(String),
    AddLayer,
    ClearLayer(String),
    DeleteLayer(String),
    Undo,
    Redo,
    Clear,
}

/// How a command goes on.
#[derive(Debug)]
pub enum ActionStep {
    /// The command is done.
    Done,
    /// The program is to end.
    Exit,
    /// Ask whether everything is to be cleared, and report to [`Overlay::clear_confirmed`].
    ConfirmClear,
    /// Let the engine make the change, send what it reports, and report whether anything has
    /// changed to [`Overlay::engine_changed`], with `deselected` as it is here.
    Engine { change: EngineChange, deselected: bool },
}

/// What releasing the pointer of the radial menu leads to.
#[derive(Debug)]
pub enum ReleaseStep {
    /// Carry the command out with [`Overlay::apply_menu_action`]; without one, report to
    /// [`Overlay::popup_menu_closed`].
    Menu(Option<MenuAction>),
    /// Open the popup menu.
    PopupMenu,
    Nothing,
    PollProjector,
}

/// What the engine is asked for by a command that is for the engine.
pub open spec fn change_of(action: MenuAction) -> Option<EngineChange> {
    match action {
        MenuAction::SelectLayer(id) => Some(EngineChange::SelectLayer(id)),
        MenuAction::AddLayer => Some(EngineChange::AddLayer),
        MenuAction::ClearLayer(id) => Some(EngineChange::ClearLayer(id)),
        MenuAction::DeleteLayer(id) => Some(EngineChange::DeleteLayer(id)),
        MenuAction::Undo => Some(EngineChange::Undo),
        MenuAction::Redo => Some(EngineChange::Redo),
        MenuAction::Clear => Some(EngineChange::Clear),
        _ => None,
    }
}

impl Overlay {
    /// Whether the tool in hand does not draw in color.
    pub open spec fn colorless(self) -> bool {
        self.tool is Select || self.tool is Eraser || self.tool is Stamp
    }

    /// The overlay after a command, as far as it does not go through the engine.
    pub open spec fn after_action(self, action: MenuAction, can_clear: bool, can_clear_layer: bool)
        -> Self {
        match action {
            MenuAction::SelectTool(tool) => if tool is Select {
                Overlay { tool, ..self }
            } else {
                Overlay { tool, ..self.deselected() }
            },
            MenuAction::SelectColor(color) => if self.colorless() {
                Overlay { tool: DrawTool::Pen, ..self.deselected() }
            } else {
                self
            },
            MenuAction::Exit => self,
            MenuAction::ClearLayer(_) => if can_clear_layer {
                self.without_selection()
            } else {
                self
            },
            MenuAction::Clear => if can_clear && !self.confirm_before_clear {
                self.without_selection()
            } else {
                self
            },
            _ => self.without_selection(),
        }
    }

    /// What a command asks for at once.
    pub open spec fn action_effects(self, action: MenuAction) -> Seq<Effect> {
        match action {
            MenuAction::SelectTool(tool) => if tool is Select {
                Seq::empty()
            } else {
                self.deselect_effects()
            },
            MenuAction::SelectColor(_) => if self.colorless() {
                self.deselect_effects()
            } else {
                Seq::empty()
            },
            _ => Seq::empty(),
        }
    }

    /// How a command goes on.
    pub open spec fn action_step(self, action: MenuAction, can_clear: bool, can_clear_layer: bool)
        -> ActionStep {
        let engine = ActionStep::Engine {
            change: change_of(action)->0,
            deselected: self.selection is Some,
        };
        match action {
            MenuAction::SelectTool(_) => ActionStep::Done,
            MenuAction::SelectColor(_) => ActionStep::Done,
            MenuAction::Exit => ActionStep::Exit,
            MenuAction::ClearLayer(_) => if can_clear_layer {
                engine
            } else {
                ActionStep::Done
            },
            MenuAction::Clear => if !can_clear {
                ActionStep::Done
            } else if self.confirm_before_clear {
                ActionStep::ConfirmClear
            } else {
                engine
            },
            _ => engine,
        }
    }

    fn through_engine(&mut self, change: EngineChange) -> (step: ActionStep)
        ensures
            *final(self) == old(self).without_selection(),
            step == (ActionStep::Engine { change, deselected: old(self).selection is Some }),
    {
        let deselected = self.selection.take().is_some();
        ActionStep::Engine { change, deselected }
    }

    /// Carries out a command. `can_clear` says whether there is anything to clear on the canvas,
    /// `can_clear_layer` whether there is on the layer that the command names.
    pub fn apply_menu_action(
        &mut self,
        action: MenuAction,
        can_clear: bool,
        can_clear_layer: bool,
        effects: &mut Vec<Effect>,
    ) -> (step: ActionStep)
        ensures
            action matches MenuAction::SelectColor(color) ==> final(self).color@ == color@,
            *final(self) == (Overlay {
                color: final(self).color,
                ..old(self).after_action(action, can_clear, can_clear_layer)
            }),
            !(action is SelectColor) ==> final(self).color == old(self).color,
            final(effects)@ == old(effects)@ + old(self).action_effects(action),
            step == old(self).action_step(action, can_clear, can_clear_layer),
            old(self).well_formed() ==> final(self).well_formed(),
    {
        let step = match action {
            MenuAction::SelectTool(tool) => {
                let selecting = match &tool {
                    DrawTool::Select => true,
                    _ => false,
                };
                if !selecting {
                    self.deselect(effects);
                }
                self.tool = tool;
                ActionStep::Done
            },
            MenuAction::SelectColor(color) => {
                let colorless = match &self.tool {
                    DrawTool::Select | DrawTool::Eraser | DrawTool::Stamp(_) => true,
                    _ => false,
                };
                if colorless {
                    self.deselect(effects);
                    self.tool = DrawTool::Pen;
                }
                self.color = color.to_owned();
                ActionStep::Done
            },
            MenuAction::SelectLayer(id) => self.through_engine(EngineChange::SelectLayer(id)),
            MenuAction::AddLayer => self.through_engine(EngineChange::AddLayer),
            MenuAction::ClearLayer(id) => if can_clear_layer {
                self.through_engine(EngineChange::ClearLayer(id))
            } else {
                ActionStep::Done
            },
            MenuAction::DeleteLayer(id) => self.through_engine(EngineChange::DeleteLayer(id)),
            MenuAction::Undo => self.through_engine(EngineChange::Undo),
            MenuAction::Redo => self.through_engine(EngineChange::Redo),
            MenuAction::Clear => if !can_clear {
                ActionStep::Done
            } else if crate::overlay::clear_confirmation_required(
                self.confirm_before_clear,
                can_clear,
            ) {
                ActionStep::ConfirmClear
            } else {
                self.through_engine(EngineChange::Clear)
            },
            MenuAction::Exit => ActionStep::Exit,
        };
        assert(effects@ =~= old(effects)@ + old(self).action_effects(action));
        step
    }

    /// Takes whether clearing everything was confirmed.
    pub fn clear_confirmed(&mut self, confirmed: bool) -> (step: ActionStep)
        ensures
            confirmed ==> *final(self) == old(self).without_selection() && step == (
            ActionStep::Engine {
                change: EngineChange::Clear,
                deselected: old(self).selection is Some,
            }),
            !confirmed ==> *final(self) == *old(self) && step == ActionStep::Done,
            old(self).well_formed() ==> final(self).well_formed(),
    {
        if confirmed {
            self.through_engine(EngineChange::Clear)
        } else {
            ActionStep::Done
        }
    }

    /// What a change made by the engine asks for. Another active layer always shows.
    pub open spec fn change_effects(self, change: EngineChange, deselected: bool, changed: bool)
        -> Seq<Effect> {
        if change is SelectLayer {
            (if deselected {
                self.rebuild_effects()
            } else {
                Seq::empty()
            }) + self.draw_effects()
        } else if deselected || changed {
            self.rebuild_effects() + self.draw_effects()
        } else {
            Seq::empty()
        }
    }

    /// Takes whether the engine has changed anything.
    pub fn engine_changed(
        &mut self,
        change: &EngineChange,
        deselected: bool,
        changed: bool,
        effects: &mut Vec<Effect>,
    )
        ensures
            *final(self) == if *change is SelectLayer || deselected || changed {
                old(self).unscheduled()
            } else {
                *old(self)
            },
            final(effects)@ == old(effects)@ + old(self).change_effects(
                *change,
                deselected,
                changed,
            ),
            old(self).well_formed() ==> final(self).well_formed(),
    {
        let always = match change {
            EngineChange::SelectLayer(_) => true,
            _ => false,
        };
        if deselected || (changed && !always) {
            self.rebuild(effects);
        }
        if always || deselected || changed {
            self.render(effects);
        }
        assert(effects@ =~= old(effects)@ + old(self).change_effects(*change, deselected, changed));
    }

    /// Whether the popup menu can be opened: not while something is drawn or transformed.
    pub fn popup_menu_allowed(&self, drawing: bool) -> (allowed: bool)
        ensures
            allowed == (!drawing && self.drag_owner() is None),
    {
        !drawing && !self.item_drag_active()
    }

    /// Says what a release of the radial menu leads to, with the registered stamps.
    pub fn released(&self, release: RadialRelease, stamps: &[StampEntry], drawing: bool) -> (step:
        ReleaseStep)
        ensures
            step == match release {
                RadialRelease::Action { action, .. } => ReleaseStep::Menu(Some(action)),
                RadialRelease::Stamp(index) => ReleaseStep::Menu(
                    if index < stamps@.len() {
                        Some(
                            MenuAction::SelectTool(DrawTool::Stamp(stamps@[index as int].id)),
                        )
                    } else {
                        None
                    },
                ),
                RadialRelease::LegacyMenu => if !drawing && self.drag_owner() is None {
                    ReleaseStep::PopupMenu
                } else {
                    ReleaseStep::Nothing
                },
                RadialRelease::Pin => ReleaseStep::PollProjector,
                RadialRelease::StayOpen => ReleaseStep::PollProjector,
                RadialRelease::Cancel => ReleaseStep::PollProjector,
            },
    {
        match release {
            RadialRelease::Action { action, .. } => ReleaseStep::Menu(Some(action)),
            RadialRelease::Stamp(index) => if index < stamps.len() {
                let id = stamps[index].id.clone();
                ReleaseStep::Menu(Some(MenuAction::SelectTool(DrawTool::Stamp(id))))
            } else {
                ReleaseStep::Menu(None)
            },
            RadialRelease::LegacyMenu => if self.popup_menu_allowed(drawing) {
                ReleaseStep::PopupMenu
            } else {
                ReleaseStep::Nothing
            },
            RadialRelease::Pin | RadialRelease::StayOpen | RadialRelease::Cancel => {
                ReleaseStep::PollProjector
            },
        }
    }

    /// The popup menu is gone and its command carried out: a radial menu that is still open is
    /// brought up to date, and the windows are put in order.
    pub fn popup_menu_closed(
        &mut self,
        available: (bool, bool, bool),
        layers: Vec<RadialLayerEntry>,
        active_layer_id: String,
        effects: &mut Vec<Effect>,
    )
        requires
            old(self).well_formed(),
        ensures
            old(self).radial_menu is None ==> {
                &&& *final(self) == *old(self)
                &&& final(effects)@ == old(effects)@ + seq![Effect::PollProjector]
            },
            old(self).radial_menu matches Some(menu) ==> {
                let changed = menu.differs(available, layers@, active_layer_id@);
                &&& final(self).radial_menu is Some
                &&& final(self).radial_menu->0.shows(menu, available, layers@, active_layer_id@)
                &&& *final(self) == (Overlay {
                    radial_menu: final(self).radial_menu,
                    frame: final(self).frame,
                    ..*old(self)
                })
                &&& final(self).frame.requested == (old(self).frame.requested && !changed)
                &&& final(effects)@ == old(effects)@ + (if changed {
                    seq![Effect::Draw]
                } else {
                    Seq::empty()
                }) + seq![Effect::PollProjector]
            },
            final(self).well_formed(),
    {
        self.sync_radial_history(available, layers, active_layer_id, effects);
        let ghost synced = effects@;
        effects.push(Effect::PollProjector);
        assert(effects@ =~= synced + seq![Effect::PollProjector]);
        assert(old(effects)@ + Seq::<Effect>::empty() =~= old(effects)@);
    }
}

/// Clearing everything never reaches the engine unconfirmed while confirmation is wanted, nor
/// where there is nothing to clear.
pub proof fn law_clearing_is_confirmed_first(
    overlay: Overlay,
    can_clear: bool,
    can_clear_layer: bool,
)
    ensures
        overlay.confirm_before_clear || !can_clear ==> !(overlay.action_step(
            MenuAction::Clear,
            can_clear,
            can_clear_layer,
        ) is Engine),
        can_clear ==> (overlay.action_step(MenuAction::Clear, can_clear, can_clear_layer)
            == ActionStep::ConfirmClear <==> overlay.confirm_before_clear),
{
}

/// Whatever goes to the engine, and any tool but the selection tool, gives up the selection.
pub proof fn law_changes_give_up_the_selection(
    overlay: Overlay,
    action: MenuAction,
    can_clear: bool,
    can_clear_layer: bool,
)
    requires
        overlay.action_step(action, can_clear, can_clear_layer) is Engine || (
        action matches MenuAction::SelectTool(tool) && !(tool is Select)),
    ensures
        overlay.after_action(action, can_clear, can_clear_layer).selection is None,
{
}

/// Choosing a color always leaves a tool in hand that draws in color.
pub proof fn law_choosing_a_color_means_to_draw(
    overlay: Overlay,
    color: &'static str,
    can_clear: bool,
    can_clear_layer: bool,
)
    ensures
        ({
            let after = overlay.after_action(
                MenuAction::SelectColor(color),
                can_clear,
                can_clear_layer,
            );
            &&& !after.colorless()
            &&& !overlay.colorless() ==> after.tool == overlay.tool
        }),
{
}

/// No frame is ever drawn outside of drawing: not by a change of mode that ends it, nor by looking
/// for the projector, nor by a command, nor by what the engine has changed.
pub proof fn law_nothing_is_drawn_outside_of_drawing(
    overlay: Overlay,
    action: MenuAction,
    change: EngineChange,
    found: bool,
    foreground_ui: bool,
    input_under_way: bool,
    deselected: bool,
    changed: bool,
)
    requires
        overlay.well_formed(),
        !overlay.draw_mode,
    ensures
        !overlay.mode_effects(false, input_under_way).contains(Effect::Draw),
        !overlay.poll_effects(found, foreground_ui, input_under_way).contains(Effect::Draw),
        !overlay.action_effects(action).contains(Effect::Draw),
        !overlay.change_effects(change, deselected, changed).contains(Effect::Draw),
        !overlay.restore_effects().contains(Effect::Draw),
{
}

/// Toggling drawing on and off again comes back to the same overlay, without a scheduled frame.
pub proof fn law_toggling_twice_returns(overlay: Overlay)
    requires
        overlay.well_formed(),
        overlay.enabled(),
        !overlay.draw_mode,
    ensures
        overlay.toggled(false).draw_mode,
        overlay.toggled(false).toggled(false) == overlay,
{
}

/// A projector that disappears ends drawing, whatever was under way.
pub proof fn law_drawing_ends_with_the_projector(overlay: Overlay)
    requires
        overlay.well_formed(),
        overlay.follow_projector,
        overlay.projector_visible,
    ensures
        !overlay.polled(false, false).draw_mode,
        !overlay.polled(false, false).enabled(),
        overlay.polled(false, false).selection is None,
        overlay.polled(false, false).radial_menu is None,
{
}

/// Each command that goes to the engine asks it for the change of its own name, on its own layer,
/// and says whether something was selected.
pub proof fn law_each_command_asks_for_its_own_change(
    overlay: Overlay,
    layer: String,
    can_clear: bool,
    can_clear_layer: bool,
)
    ensures
        ({
            let asked = |action: MenuAction| overlay.action_step(
                action,
                can_clear,
                can_clear_layer,
            );
            let engine = |change: EngineChange| ActionStep::Engine {
                change,
                deselected: overlay.selection is Some,
            };
            &&& asked(MenuAction::Undo) == engine(EngineChange::Undo)
            &&& asked(MenuAction::Redo) == engine(EngineChange::Redo)
            &&& asked(MenuAction::AddLayer) == engine(EngineChange::AddLayer)
            &&& asked(MenuAction::SelectLayer(layer)) == engine(EngineChange::SelectLayer(layer))
            &&& asked(MenuAction::DeleteLayer(layer)) == engine(EngineChange::DeleteLayer(layer))
            &&& can_clear_layer ==> asked(MenuAction::ClearLayer(layer)) == engine(
                EngineChange::ClearLayer(layer),
            )
            &&& !can_clear_layer ==> asked(MenuAction::ClearLayer(layer)) == ActionStep::Done
            &&& can_clear && !overlay.confirm_before_clear ==> asked(MenuAction::Clear) == engine(
                EngineChange::Clear,
            )
            &&& can_clear && overlay.confirm_before_clear ==> asked(MenuAction::Clear)
                == ActionStep::ConfirmClear
            &&& !can_clear ==> asked(MenuAction::Clear) == ActionStep::Done
        }),
{
}

/// Choosing a tool or a color is done at once and puts it in hand, a color with the pen where the
/// tool before does not draw in color; only leaving the program ends it. Nothing else about the
/// overlay changes but the selection and the scheduled frame.
pub proof fn law_a_choice_is_in_hand_at_once(
    overlay: Overlay,
    action: MenuAction,
    can_clear: bool,
    can_clear_layer: bool,
)
    ensures
        ({
            let after = overlay.after_action(action, can_clear, can_clear_layer);
            let step = overlay.action_step(action, can_clear, can_clear_layer);
            &&& after == (Overlay {
                tool: after.tool,
                selection: after.selection,
                frame: after.frame,
                ..overlay
            })
            &&& step == ActionStep::Exit <==> action is Exit
            &&& action matches MenuAction::SelectTool(tool) ==> after.tool == tool && step
                == ActionStep::Done
            &&& action is SelectColor ==> step == ActionStep::Done && after.tool == (
            match overlay.tool {
                DrawTool::Select => DrawTool::Pen,
                DrawTool::Eraser => DrawTool::Pen,
                DrawTool::Stamp(_) => DrawTool::Pen,
                tool => tool,
            })
            &&& !(action is SelectTool) && !(action is SelectColor) ==> after.tool == overlay.tool
        }),
{
}

/// What is selected stays so exactly where a command leaves the item be: while the selection tool
/// is chosen, while a color is chosen for a tool that has one, and where nothing is done yet. An
/// item that is given up by a choice is at once drawn back into its place.
pub proof fn law_a_selection_ends_visibly(
    overlay: Overlay,
    action: MenuAction,
    can_clear: bool,
    can_clear_layer: bool,
)
    requires
        overlay.selection is Some,
    ensures
        ({
            let after = overlay.after_action(action, can_clear, can_clear_layer);
            let effects = overlay.action_effects(action);
            let kept = match action {
                MenuAction::SelectTool(tool) => tool is Select,
                MenuAction::SelectColor(_) => !(overlay.tool is Select) && !(
                overlay.tool is Eraser) && !(overlay.tool is Stamp),
                MenuAction::ClearLayer(_) => !can_clear_layer,
                MenuAction::Clear => !can_clear || overlay.confirm_before_clear,
                MenuAction::Exit => true,
                _ => false,
            };
            &&& after.selection == if kept {
                overlay.selection
            } else {
                None
            }
            &&& (action is SelectTool || action is SelectColor) && !kept ==> {
                &&& overlay.local_echo && overlay.draw_mode ==> effects == seq![
                    Effect::Rebuild,
                    Effect::Draw,
                ]
                &&& !overlay.local_echo && overlay.draw_mode ==> effects == seq![Effect::Draw]
                &&& overlay.local_echo && !overlay.draw_mode ==> effects == seq![Effect::Rebuild]
                &&& !after.frame.requested
            }
            &&& kept || !(action is SelectTool || action is SelectColor) ==> effects.len() == 0
        }),
{
    let effects = overlay.action_effects(action);
    if overlay.local_echo && overlay.draw_mode && effects.len() > 0 {
        assert(effects =~= seq![Effect::Rebuild, Effect::Draw]);
    } else if overlay.local_echo && effects.len() > 0 {
        assert(effects =~= seq![Effect::Rebuild]);
    } else if effects.len() > 0 {
        assert(effects =~= seq![Effect::Draw]);
    }
}

/// What the engine has changed is drawn anew and shown; a change of the active layer is shown
/// without drawing anew. Where nothing has changed nothing is drawn.
pub proof fn law_a_change_is_shown(
    overlay: Overlay,
    change: EngineChange,
    deselected: bool,
    changed: bool,
)
    requires
        overlay.draw_mode,
        overlay.local_echo,
    ensures
        ({
            let effects = overlay.change_effects(change, deselected, changed);
            &&& deselected || (changed && !(change is SelectLayer)) ==> effects == seq![
                Effect::Rebuild,
                Effect::Draw,
            ]
            &&& change is SelectLayer && !deselected ==> effects == seq![Effect::Draw]
            &&& !(change is SelectLayer) && !deselected && !changed ==> effects.len() == 0
        }),
{
    let effects = overlay.change_effects(change, deselected, changed);
    if deselected || (changed && !(change is SelectLayer)) {
        assert(effects =~= seq![Effect::Rebuild, Effect::Draw]);
    } else if change is SelectLayer {
        assert(effects =~= seq![Effect::Draw]);
    }
}

/// What a command or a change asks for is what giving up a selection, drawing anew and showing a
/// frame ask for, on every overlay. Without a selection a command asks for nothing at once, and
/// leaves a scheduled frame scheduled.
pub proof fn law_commands_draw_as_everything_does(
    overlay: Overlay,
    action: MenuAction,
    change: EngineChange,
    deselected: bool,
    changed: bool,
    can_clear: bool,
    can_clear_layer: bool,
)
    ensures
        overlay.selection is None ==> overlay.action_effects(action).len() == 0
            && overlay.after_action(action, can_clear, can_clear_layer).frame == overlay.frame
            && overlay.after_action(action, can_clear, can_clear_layer).selection is None,
        overlay.action_effects(action).len() == 0 || overlay.action_effects(action)
            == overlay.deselect_effects(),
        action matches MenuAction::SelectTool(tool) && !(tool is Select) ==> overlay.action_effects(
            action,
        ) == overlay.deselect_effects(),
        change is SelectLayer && !deselected ==> overlay.change_effects(change, deselected, changed)
            == overlay.draw_effects(),
        deselected || (changed && !(change is SelectLayer)) ==> overlay.change_effects(
            change,
            deselected,
            changed,
        ) == overlay.rebuild_effects() + overlay.draw_effects(),
        !(change is SelectLayer) && !deselected && !changed ==> overlay.change_effects(
            change,
            deselected,
            changed,
        ).len() == 0,
{
    assert(Seq::<Effect>::empty() + overlay.draw_effects() =~= overlay.draw_effects());
}

} // verus!
