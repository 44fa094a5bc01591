//! The radial menu: which part a pointer is on, what a release does, and when the menu stays.
//!
//! The menu opens under a held pointer and can be pinned for clicks. Where its parts are drawn is
//! a matter of geometry that the caller works out; a pointer position comes in as a
//! [`PointerSpot`], which says what lies there.

use vstd::prelude::*;

use crate::menu::{DrawTool, MenuAction, COLORS, COLOR_COUNT};

verus! {

pub const DRAW_TOOL_COUNT: usize = 8;

/// Sectors of the tool ring: the tools and the stamp category.
pub const TOOL_COUNT: usize = DRAW_TOOL_COUNT + 1;

pub const STAMP_TOOL_INDEX: usize = DRAW_TOOL_COUNT;

pub const STAMPS_PER_RING: usize = 8;

/// Layers that a canvas can have.
pub const MAX_LAYERS: usize = 8;

#[derive(Clone, Copy, Debug, PartialEq, Eq, Structural)]
pub enum RadialCommand {
    Undo,
    Redo,
    Clear,
}

/// A part of the menu.
#[derive(Clone, Copy, Debug, PartialEq, Eq, Structural)]
pub enum RadialSelection {
    StandardMenu,
    Tool(usize),
    StampCategory,
    Stamp(usize),
    Color(usize),
    Command(RadialCommand),
    Layer(usize),
    LayerAdd,
    LayerDelete,
}

/// What releasing the pointer does.
#[derive(Debug, PartialEq)]
pub enum RadialRelease {
    Action { action: MenuAction, keep_open: bool },
    Stamp(usize),
    Pin,
    LegacyMenu,
    StayOpen,
    Cancel,
}

impl RadialRelease {
    /// Whether the menu is still shown afterwards.
    pub open spec fn stays(self) -> bool {
        match self {
            RadialRelease::Pin => true,
            RadialRelease::StayOpen => true,
            RadialRelease::Action { keep_open, .. } => keep_open,
            _ => false,
        }
    }

    pub fn keeps_menu_open(&self) -> (open: bool)
        ensures
            open == self.stays(),
    {
        match self {
            RadialRelease::Pin | RadialRelease::StayOpen => true,
            RadialRelease::Action { keep_open, .. } => *keep_open,
            _ => false,
        }
    }
}

/// A line of the layer panel.
#[derive(Debug, Clone, PartialEq, Eq)]
pub struct RadialLayerEntry {
    pub layer_id: String,
    pub name: String,
    pub item_count: usize,
}

impl View for RadialLayerEntry {
    type V = (Seq<char>, Seq<char>, usize);

    open spec fn view(&self) -> (Seq<char>, Seq<char>, usize) {
        (self.layer_id@, self.name@, self.item_count)
    }
}

pub open spec fn layer_models(layers: Seq<RadialLayerEntry>) -> Seq<
    (Seq<char>, Seq<char>, usize),
> {
    Seq::new(layers.len(), |i: int| layers[i]@)
}

/// What lies under a pointer that is beyond the tool ring. The ring meant is the one whose band
/// holds the pointer, or the outermost ring of stamps where the pointer is farther out.
#[derive(Clone, Copy, Debug, PartialEq, Eq, Structural)]
pub struct OuterSpot {
    /// The pointer has reached the inner edge of the color ring.
    pub reaches_colors: bool,
    /// The pointer has not passed the outer edge of the color ring.
    pub within_colors: bool,
    /// The sector of the color ring in the pointer's direction.
    pub color_sector: usize,
    /// How many bands of stamp rings lie before the pointer.
    pub band: usize,
    /// The pointer has reached the inner edge of the ring meant.
    pub reaches_ring: bool,
    /// The pointer has passed the outer edge of the ring meant.
    pub passes_ring: bool,
    /// The sector of a stamp ring in the pointer's direction.
    pub stamp_slot: usize,
}

/// The distance of a pointer from the center, as far as it matters.
#[derive(Clone, Copy, Debug, PartialEq, Eq, Structural)]
pub enum Zone {
    Center,
    ToolRing { sector: usize },
    Outer(OuterSpot),
}

/// What lies under a pointer.
#[derive(Clone, Copy, Debug, PartialEq, Eq, Structural)]
pub struct PointerSpot {
    /// The pointer is farther from where the gesture began than a press that does not move.
    pub left_anchor: bool,
    pub over_add: bool,
    /// On the delete button, which the row of the active layer carries.
    pub over_delete: bool,
    /// The row of the layer panel, counted from the top.
    pub layer_row: Option<usize>,
    /// The button of the command dock.
    pub command: Option<RadialCommand>,
    pub zone: Zone,
}

impl PointerSpot {
    /// Neither the layer panel nor the command dock lies under the pointer.
    pub open spec fn over_nothing_else(self) -> bool {
        !self.over_add && !self.over_delete && self.layer_row is None && self.command is None
    }
}

/// The state of an open menu.
#[derive(Debug)]
pub struct RadialMenu {
    pub pointer_id: Option<u32>,
    pub pinned: bool,
    pub stamp_count: usize,
    /// The outer rings show stamps in place of colors.
    pub stamp_mode: bool,
    pub can_undo: bool,
    pub can_redo: bool,
    pub can_clear: bool,
    pub layers: Vec<RadialLayerEntry>,
    pub active_layer_id: String,
    pub highlighted: Option<RadialSelection>,
    /// The pointer has been away from where the gesture began.
    pub moved: bool,
}

/// Rings that `count` stamps fill.
pub open spec fn ring_count(count: nat) -> nat {
    (count + STAMPS_PER_RING - 1) as nat / STAMPS_PER_RING as nat
}

/// Stamps on one ring.
pub open spec fn ring_items(count: int, ring: int) -> int {
    let rest = count - ring * STAMPS_PER_RING;
    if rest < 0 {
        0
    } else if rest > STAMPS_PER_RING {
        STAMPS_PER_RING as int
    } else {
        rest
    }
}

/// The tool of each sector of the tool ring.
pub open spec fn tool_model(index: int) -> Option<DrawTool> {
    if index == 0 {
        Some(DrawTool::Select)
    } else if index == 1 {
        Some(DrawTool::Pen)
    } else if index == 2 {
        Some(DrawTool::Marker)
    } else if index == 3 {
        Some(DrawTool::Eraser)
    } else if index == 4 {
        Some(DrawTool::Line)
    } else if index == 5 {
        Some(DrawTool::Arrow)
    } else if index == 6 {
        Some(DrawTool::Rectangle)
    } else if index == 7 {
        Some(DrawTool::Ellipse)
    } else {
        None
    }
}

pub fn tool_at(index: usize) -> (tool: Option<DrawTool>)
    ensures
        tool == tool_model(index as int),
{
    match index {
        0 => Some(DrawTool::Select),
        1 => Some(DrawTool::Pen),
        2 => Some(DrawTool::Marker),
        3 => Some(DrawTool::Eraser),
        4 => Some(DrawTool::Line),
        5 => Some(DrawTool::Arrow),
        6 => Some(DrawTool::Rectangle),
        7 => Some(DrawTool::Ellipse),
        _ => None,
    }
}

/// The label of each sector of the tool ring.
pub open spec fn tool_label_model(index: int) -> Option<Seq<char>> {
    match tool_model(index) {
        Some(DrawTool::Select) => Some("選択"@),
        Some(DrawTool::Pen) => Some("ペン"@),
        Some(DrawTool::Marker) => Some("マーカー"@),
        Some(DrawTool::Eraser) => Some("消しゴム"@),
        Some(DrawTool::Line) => Some("直線"@),
        Some(DrawTool::Arrow) => Some("矢印"@),
        Some(DrawTool::Rectangle) => Some("四角"@),
        Some(DrawTool::Ellipse) => Some("楕円"@),
        _ => if index == STAMP_TOOL_INDEX {
            Some("スタンプ"@)
        } else {
            None
        },
    }
}

pub fn tool_label(index: usize) -> (label: Option<&'static str>)
    ensures
        label is Some == tool_label_model(index as int) is Some,
        label matches Some(label) ==> tool_label_model(index as int) == Some(label@),
{
    match index {
        0 => Some("選択"),
        1 => Some("ペン"),
        2 => Some("マーカー"),
        3 => Some("消しゴム"),
        4 => Some("直線"),
        5 => Some("矢印"),
        6 => Some("四角"),
        7 => Some("楕円"),
        STAMP_TOOL_INDEX => Some("スタンプ"),
        _ => None,
    }
}

pub open spec fn command_label_model(command: RadialCommand) -> Seq<char> {
    match command {
        RadialCommand::Undo => "↶  元に戻す"@,
        RadialCommand::Redo => "↷  やり直す"@,
        RadialCommand::Clear => "全消去"@,
    }
}

pub fn command_label(command: RadialCommand) -> (label: &'static str)
    ensures
        label@ == command_label_model(command),
{
    match command {
        RadialCommand::Undo => "↶  元に戻す",
        RadialCommand::Redo => "↷  やり直す",
        RadialCommand::Clear => "全消去",
    }
}

pub(crate) fn same_selection(left: Option<RadialSelection>, right: Option<RadialSelection>)
    -> (same: bool)
    ensures
        same == (left == right),
{
    match (left, right) {
        (Some(left), Some(right)) => left == right,
        (None, None) => true,
        _ => false,
    }
}

fn same_layers(left: &[RadialLayerEntry], right: &[RadialLayerEntry]) -> (same: bool)
    ensures
        same == (layer_models(left@) == layer_models(right@)),
{
    if left.len() != right.len() {
        assert(layer_models(left@).len() != layer_models(right@).len());
        return false;
    }
    for i in 0..left.len()
        invariant
            left.len() == right.len(),
            forall|j: int| 0 <= j < i ==> left@[j]@ == right@[j]@,
    {
        let same = left[i].layer_id == right[i].layer_id && left[i].name == right[i].name
            && left[i].item_count == right[i].item_count;
        if !same {
            assert(layer_models(left@)[i as int] != layer_models(right@)[i as int]);
            return false;
        }
    }
    assert(layer_models(left@) =~= layer_models(right@));
    true
}

impl RadialMenu {
    /// Stamps are on the rings, and marked, only where stamps are registered.
    pub open spec fn well_formed(self) -> bool {
        &&& self.stamp_mode ==> self.stamp_count > 0
        &&& self.highlighted matches Some(RadialSelection::Stamp(index)) ==> index
            < self.stamp_count
    }

    pub open spec fn enabled(self, command: RadialCommand) -> bool {
        match command {
            RadialCommand::Undo => self.can_undo,
            RadialCommand::Redo => self.can_redo,
            RadialCommand::Clear => self.can_clear,
        }
    }

    /// The stamp ring meant by a band: the last one where there are fewer.
    pub open spec fn nearest_ring(self, band: int) -> int {
        if band < ring_count(self.stamp_count as nat) {
            band
        } else {
            ring_count(self.stamp_count as nat) - 1
        }
    }

    /// The stamp under a pointer beyond the tool ring. While the menu is not pinned, the last
    /// ring reaches outward without end.
    pub open spec fn stamp_under(self, spot: OuterSpot) -> Option<RadialSelection> {
        let ring = self.nearest_ring(spot.band as int);
        let last = ring == ring_count(self.stamp_count as nat) - 1;
        if self.stamp_count == 0 || !spot.reaches_colors || !spot.reaches_ring {
            None
        } else if spot.passes_ring && (self.pinned || !last) {
            None
        } else if spot.stamp_slot >= ring_items(self.stamp_count as int, ring) {
            None
        } else {
            Some(RadialSelection::Stamp((ring * STAMPS_PER_RING + spot.stamp_slot) as usize))
        }
    }

    /// The part under a pointer, and whether the outer rings show stamps from then on.
    pub open spec fn part_under(self, spot: PointerSpot) -> (Option<RadialSelection>, bool) {
        if spot.over_add {
            (Some(RadialSelection::LayerAdd), self.stamp_mode)
        } else if self.layers@.len() > 1 && spot.over_delete {
            (Some(RadialSelection::LayerDelete), self.stamp_mode)
        } else if spot.layer_row is Some && spot.layer_row->0 < self.layers@.len() {
            (
                Some(RadialSelection::Layer((self.layers@.len() - 1 - spot.layer_row->0) as usize)),
                self.stamp_mode,
            )
        } else if !self.stamp_mode && spot.command is Some {
            (Some(RadialSelection::Command(spot.command->0)), self.stamp_mode)
        } else {
            match spot.zone {
                Zone::Center => (Some(RadialSelection::StandardMenu), false),
                Zone::ToolRing { sector } => if sector == STAMP_TOOL_INDEX {
                    (Some(RadialSelection::StampCategory), self.stamp_count > 0)
                } else {
                    (Some(RadialSelection::Tool(sector)), false)
                },
                Zone::Outer(outer) => if self.stamp_mode {
                    (self.stamp_under(outer), true)
                } else if outer.reaches_colors && (!self.pinned || outer.within_colors) {
                    (Some(RadialSelection::Color(outer.color_sector)), false)
                } else {
                    (None, false)
                },
            }
        }
    }

    /// The menu after the pointer has come to `spot`.
    pub open spec fn pointed(self, spot: PointerSpot) -> Self {
        RadialMenu {
            moved: self.moved || spot.left_anchor,
            highlighted: self.part_under(spot).0,
            stamp_mode: self.part_under(spot).1,
            ..self
        }
    }

    /// The command behind a part, where it has one and that command can be given.
    pub open spec fn action_of(self, part: RadialSelection) -> Option<MenuAction> {
        match part {
            RadialSelection::Tool(index) => match tool_model(index as int) {
                Some(tool) => Some(MenuAction::SelectTool(tool)),
                None => None,
            },
            RadialSelection::Color(index) => if index < COLOR_COUNT {
                Some(MenuAction::SelectColor(COLORS@[index as int].1))
            } else {
                None
            },
            RadialSelection::Command(command) => if !self.enabled(command) {
                None
            } else {
                match command {
                    RadialCommand::Undo => Some(MenuAction::Undo),
                    RadialCommand::Redo => Some(MenuAction::Redo),
                    RadialCommand::Clear => Some(MenuAction::Clear),
                }
            },
            RadialSelection::Layer(index) => if index < self.layers@.len() {
                Some(MenuAction::SelectLayer(self.layers@[index as int].layer_id))
            } else {
                None
            },
            RadialSelection::LayerAdd => if self.layers@.len() < MAX_LAYERS {
                Some(MenuAction::AddLayer)
            } else {
                None
            },
            RadialSelection::LayerDelete => if self.layers@.len() > 1 {
                Some(MenuAction::DeleteLayer(self.active_layer_id))
            } else {
                None
            },
            RadialSelection::StandardMenu => None,
            RadialSelection::StampCategory => None,
            RadialSelection::Stamp(_) => None,
        }
    }

    /// Commands after which a pinned menu is still of use.
    pub open spec fn repeats(action: MenuAction) -> bool {
        action is Undo || action is Redo || action is SelectLayer || action is AddLayer
            || action is DeleteLayer
    }

    /// Parts that do nothing when clicked, but that are no reason to close a pinned menu.
    pub open spec fn inert(part: RadialSelection) -> bool {
        part is StampCategory || part is Command || part is Layer || part is LayerAdd
            || part is LayerDelete
    }

    /// Whether releasing the pointer on this state pins the menu: a hold that has not moved, or
    /// that came back to the center.
    pub open spec fn pins(self) -> bool {
        !self.pinned && (!self.moved || self.highlighted == Some(RadialSelection::StandardMenu))
    }

    /// What releasing the pointer on this state does.
    pub open spec fn outcome(self) -> RadialRelease {
        if self.pins() {
            RadialRelease::Pin
        } else {
            match self.highlighted {
                None => RadialRelease::Cancel,
                Some(RadialSelection::StandardMenu) => RadialRelease::LegacyMenu,
                Some(RadialSelection::Stamp(index)) => RadialRelease::Stamp(index),
                Some(part) => match self.action_of(part) {
                    Some(action) => RadialRelease::Action {
                        action,
                        keep_open: self.pinned && Self::repeats(action),
                    },
                    None => if self.pinned && Self::inert(part) {
                        RadialRelease::StayOpen
                    } else {
                        RadialRelease::Cancel
                    },
                },
            }
        }
    }

    /// The menu after the pointer has been released on this state.
    pub open spec fn let_go(self) -> Self {
        if self.pins() {
            RadialMenu {
                pointer_id: None,
                pinned: true,
                stamp_mode: false,
                highlighted: Some(RadialSelection::StandardMenu),
                ..self
            }
        } else {
            RadialMenu { pointer_id: None, ..self }
        }
    }

    /// A menu that opens under a held pointer.
    pub fn new_with_layers(
        pointer_id: u32,
        stamp_count: usize,
        command_available: (bool, bool, bool),
        layers: Vec<RadialLayerEntry>,
        active_layer_id: String,
    ) -> (menu: Self)
        ensures
            menu == (RadialMenu {
                pointer_id: Some(pointer_id),
                pinned: false,
                stamp_count,
                stamp_mode: false,
                can_undo: command_available.0,
                can_redo: command_available.1,
                can_clear: command_available.2,
                layers,
                active_layer_id,
                highlighted: Some(RadialSelection::StandardMenu),
                moved: false,
            }),
            menu.well_formed(),
    {
        RadialMenu {
            pointer_id: Some(pointer_id),
            pinned: false,
            stamp_count,
            stamp_mode: false,
            can_undo: command_available.0,
            can_redo: command_available.1,
            can_clear: command_available.2,
            layers,
            active_layer_id,
            highlighted: Some(RadialSelection::StandardMenu),
            moved: false,
        }
    }

    /// Starts a click on the pinned menu; refused while another pointer is down.
    pub fn begin_click(&mut self, pointer_id: u32) -> (begun: bool)
        ensures
            begun == (old(self).pinned && old(self).pointer_id is None),
            *final(self) == if begun {
                RadialMenu { pointer_id: Some(pointer_id), ..*old(self) }
            } else {
                *old(self)
            },
    {
        if !self.pinned || self.pointer_id.is_some() {
            return false;
        }
        self.pointer_id = Some(pointer_id);
        true
    }

    /// Takes a pointer position; `true` when another part is marked than before.
    pub fn update(&mut self, spot: PointerSpot) -> (changed: bool)
        requires
            old(self).well_formed(),
        ensures
            *final(self) == old(self).pointed(spot),
            changed == (final(self).highlighted != old(self).highlighted),
            final(self).well_formed(),
    {
        if spot.left_anchor {
            self.moved = true;
        }
        let next = self.selection_at(spot);
        if same_selection(next, self.highlighted) {
            return false;
        }
        self.highlighted = next;
        true
    }

    /// Takes the position at which the pointer is released and says what that does.
    pub fn release(&mut self, spot: PointerSpot) -> (release: RadialRelease)
        requires
            old(self).well_formed(),
        ensures
            release == old(self).pointed(spot).outcome(),
            *final(self) == old(self).pointed(spot).let_go(),
            final(self).well_formed(),
    {
        self.update(spot);
        self.pointer_id = None;
        let part = match self.highlighted {
            Some(part) => part,
            None => {
                if !self.pinned && !self.moved {
                    return self.pin();
                }
                return RadialRelease::Cancel;
            },
        };
        if !self.pinned && (!self.moved || part == RadialSelection::StandardMenu) {
            return self.pin();
        }
        if part == RadialSelection::StandardMenu {
            return RadialRelease::LegacyMenu;
        }
        if let RadialSelection::Stamp(index) = part {
            return RadialRelease::Stamp(index);
        }
        if let Some(action) = self.selection_action(part) {
            let repeats = match &action {
                MenuAction::Undo | MenuAction::Redo | MenuAction::SelectLayer(_)
                | MenuAction::AddLayer | MenuAction::DeleteLayer(_) => true,
                _ => false,
            };
            return RadialRelease::Action { action, keep_open: self.pinned && repeats };
        }
        let inert = match part {
            RadialSelection::StampCategory | RadialSelection::Command(_)
            | RadialSelection::Layer(_) | RadialSelection::LayerAdd
            | RadialSelection::LayerDelete => true,
            _ => false,
        };
        if self.pinned && inert {
            RadialRelease::StayOpen
        } else {
            RadialRelease::Cancel
        }
    }

    fn pin(&mut self) -> (release: RadialRelease)
        requires
            old(self).pins(),
            old(self).pointer_id is None,
        ensures
            release == RadialRelease::Pin,
            *final(self) == old(self).let_go(),
    {
        self.pinned = true;
        self.stamp_mode = false;
        self.highlighted = Some(RadialSelection::StandardMenu);
        RadialRelease::Pin
    }

    fn selection_at(&mut self, spot: PointerSpot) -> (part: Option<RadialSelection>)
        requires
            old(self).stamp_mode ==> old(self).stamp_count > 0,
        ensures
            part == old(self).part_under(spot).0,
            *final(self) == (RadialMenu { stamp_mode: old(self).part_under(spot).1, ..*old(self) }),
            final(self).stamp_mode ==> final(self).stamp_count > 0,
            part matches Some(RadialSelection::Stamp(index)) ==> index < final(self).stamp_count,
    {
        if spot.over_add {
            return Some(RadialSelection::LayerAdd);
        }
        if self.layers.len() > 1 && spot.over_delete {
            return Some(RadialSelection::LayerDelete);
        }
        if let Some(row) = spot.layer_row {
            if row < self.layers.len() {
                return Some(RadialSelection::Layer(self.layers.len() - 1 - row));
            }
        }
        if !self.stamp_mode {
            if let Some(command) = spot.command {
                return Some(RadialSelection::Command(command));
            }
        }
        match spot.zone {
            Zone::Center => {
                self.stamp_mode = false;
                Some(RadialSelection::StandardMenu)
            },
            Zone::ToolRing { sector } => {
                if sector == STAMP_TOOL_INDEX {
                    self.stamp_mode = self.stamp_count > 0;
                    return Some(RadialSelection::StampCategory);
                }
                self.stamp_mode = false;
                Some(RadialSelection::Tool(sector))
            },
            Zone::Outer(outer) => {
                if self.stamp_mode {
                    return self.stamp_selection_at(outer);
                }
                if outer.reaches_colors && (!self.pinned || outer.within_colors) {
                    return Some(RadialSelection::Color(outer.color_sector));
                }
                None
            },
        }
    }

    fn stamp_selection_at(&self, spot: OuterSpot) -> (part: Option<RadialSelection>)
        requires
            self.stamp_count > 0,
        ensures
            part == self.stamp_under(spot),
            part matches Some(RadialSelection::Stamp(index)) ==> index < self.stamp_count,
    {
        if !spot.reaches_colors {
            return None;
        }
        let last: usize = self.stamp_ring_count() - 1;
        let ring: usize = self.nearest_stamp_ring(spot.band);
        if !spot.reaches_ring || (spot.passes_ring && (self.pinned || ring < last)) {
            return None;
        }
        let slot: usize = spot.stamp_slot;
        if slot >= self.stamp_ring_item_count(ring) {
            return None;
        }
        Some(RadialSelection::Stamp(ring * STAMPS_PER_RING + slot))
    }

    fn selection_action(&self, selection: RadialSelection) -> (action: Option<MenuAction>)
        ensures
            action == self.action_of(selection),
    {
        match selection {
            RadialSelection::Tool(index) => match tool_at(index) {
                Some(tool) => Some(MenuAction::SelectTool(tool)),
                None => None,
            },
            RadialSelection::Color(index) => if index < COLOR_COUNT {
                Some(MenuAction::SelectColor(COLORS[index].1))
            } else {
                None
            },
            RadialSelection::Command(command) => if !self.command_enabled(command) {
                None
            } else {
                match command {
                    RadialCommand::Undo => Some(MenuAction::Undo),
                    RadialCommand::Redo => Some(MenuAction::Redo),
                    RadialCommand::Clear => Some(MenuAction::Clear),
                }
            },
            RadialSelection::Layer(index) => if index < self.layers.len() {
                Some(MenuAction::SelectLayer(self.layers[index].layer_id.clone()))
            } else {
                None
            },
            RadialSelection::LayerAdd => if self.layers.len() < MAX_LAYERS {
                Some(MenuAction::AddLayer)
            } else {
                None
            },
            RadialSelection::LayerDelete => if self.layers.len() > 1 {
                Some(MenuAction::DeleteLayer(self.active_layer_id.clone()))
            } else {
                None
            },
            RadialSelection::StandardMenu | RadialSelection::StampCategory
            | RadialSelection::Stamp(_) => None,
        }
    }

    /// Rings that the registered stamps fill.
    pub fn stamp_ring_count(&self) -> (rings: usize)
        ensures
            rings == ring_count(self.stamp_count as nat),
    {
        if self.stamp_count == 0 {
            0
        } else {
            (self.stamp_count - 1) / STAMPS_PER_RING + 1
        }
    }

    /// Stamps on one ring.
    pub fn stamp_ring_item_count(&self, ring: usize) -> (items: usize)
        requires
            ring * STAMPS_PER_RING <= usize::MAX,
        ensures
            items == ring_items(self.stamp_count as int, ring as int),
    {
        let rest: usize = self.stamp_count.saturating_sub(ring * STAMPS_PER_RING);
        if rest > STAMPS_PER_RING {
            STAMPS_PER_RING
        } else {
            rest
        }
    }

    /// The stamp ring meant by a band: the last one where there are fewer.
    pub fn nearest_stamp_ring(&self, band: usize) -> (ring: usize)
        requires
            self.stamp_count > 0,
        ensures
            ring == self.nearest_ring(band as int),
            ring < ring_count(self.stamp_count as nat),
    {
        let last: usize = self.stamp_ring_count() - 1;
        if band < last {
            band
        } else {
            last
        }
    }

    /// The layers in the order of the panel's rows: the topmost first.
    pub fn layer_rows(&self) -> (rows: Vec<usize>)
        ensures
            rows@ == Seq::new(
                self.layers@.len(),
                |row: int| (self.layers@.len() - 1 - row) as usize,
            ),
    {
        let mut rows: Vec<usize> = Vec::new();
        let count: usize = self.layers.len();
        for row in 0..count
            invariant
                count == self.layers@.len(),
                rows@ == Seq::new(row as nat, |row: int| (self.layers@.len() - 1 - row) as usize),
        {
            rows.push(count - 1 - row);
            assert(rows@ =~= Seq::new(
                (row + 1) as nat,
                |row: int| (self.layers@.len() - 1 - row) as usize,
            ));
        }
        rows
    }

    /// The row that carries the delete button: that of the active layer.
    pub fn active_row(&self) -> (row: Option<usize>)
        ensures
            match row {
                Some(row) => row < self.layers@.len() && self.layers@[self.layers@.len() - 1
                    - row].layer_id@ == self.active_layer_id@ && forall|later: int|
                    self.layers@.len() - 1 - row < later < self.layers@.len()
                        ==> self.layers@[later].layer_id@ != self.active_layer_id@,
                None => forall|i: int|
                    0 <= i < self.layers@.len() ==> self.layers@[i].layer_id@
                        != self.active_layer_id@,
            },
    {
        let count: usize = self.layers.len();
        for row in 0..count
            invariant
                count == self.layers@.len(),
                forall|later: int|
                    count - row <= later < count ==> self.layers@[later].layer_id@
                        != self.active_layer_id@,
        {
            if self.layers[count - 1 - row].layer_id == self.active_layer_id {
                return Some(row);
            }
        }
        None
    }

    pub fn owns_pointer(&self, pointer_id: u32) -> (owns: bool)
        ensures
            owns == (self.pointer_id == Some(pointer_id)),
    {
        match self.pointer_id {
            Some(owner) => owner == pointer_id,
            None => false,
        }
    }

    pub fn has_active_pointer(&self) -> (active: bool)
        ensures
            active == (self.pointer_id is Some),
    {
        self.pointer_id.is_some()
    }

    /// Forgets the pointer that is down; `true` when there was one.
    pub fn cancel_active_pointer(&mut self) -> (cancelled: bool)
        ensures
            cancelled == (old(self).pointer_id is Some),
            *final(self) == (RadialMenu { pointer_id: None, ..*old(self) }),
    {
        self.pointer_id.take().is_some()
    }

    /// Whether positions of this pointer matter: those of the pointer that is down, and while the
    /// pinned menu is only hovered over, those of any.
    pub fn accepts_update_from(&self, pointer_id: u32) -> (accepted: bool)
        ensures
            accepted == match self.pointer_id {
                Some(owner) => owner == pointer_id,
                None => self.pinned,
            },
    {
        match self.pointer_id {
            Some(owner) => owner == pointer_id,
            None => self.pinned,
        }
    }

    pub fn is_pinned(&self) -> (pinned: bool)
        ensures
            pinned == self.pinned,
    {
        self.pinned
    }

    pub fn highlighted(&self) -> (part: Option<RadialSelection>)
        ensures
            part == self.highlighted,
    {
        self.highlighted
    }

    pub fn stamp_mode(&self) -> (shown: bool)
        ensures
            shown == self.stamp_mode,
    {
        self.stamp_mode
    }

    pub fn stamp_count(&self) -> (count: usize)
        ensures
            count == self.stamp_count,
    {
        self.stamp_count
    }

    pub fn layers(&self) -> (layers: &[RadialLayerEntry])
        ensures
            layers@ == self.layers@,
    {
        self.layers.as_slice()
    }

    pub fn active_layer_id(&self) -> (id: &str)
        ensures
            id@ == self.active_layer_id@,
    {
        self.active_layer_id.as_str()
    }

    pub fn command_enabled(&self, command: RadialCommand) -> (enabled: bool)
        ensures
            enabled == self.enabled(command),
    {
        match command {
            RadialCommand::Undo => self.can_undo,
            RadialCommand::Redo => self.can_redo,
            RadialCommand::Clear => self.can_clear,
        }
    }

    /// `true` when the availability of some command has changed.
    pub fn set_command_availability(&mut self, can_undo: bool, can_redo: bool, can_clear: bool)
        -> (changed: bool)
        ensures
            *final(self) == (RadialMenu { can_undo, can_redo, can_clear, ..*old(self) }),
            changed == (*final(self) != *old(self)),
            old(self).well_formed() ==> final(self).well_formed(),
    {
        if self.can_undo == can_undo && self.can_redo == can_redo && self.can_clear == can_clear {
            return false;
        }
        self.can_undo = can_undo;
        self.can_redo = can_redo;
        self.can_clear = can_clear;
        true
    }

    /// `true` when the layers or the active one have changed.
    pub fn set_layers(&mut self, layers: Vec<RadialLayerEntry>, active_layer_id: String)
        -> (changed: bool)
        ensures
            changed == (layer_models(old(self).layers@) != layer_models(layers@) || old(
                self,
            ).active_layer_id@ != active_layer_id@),
            *final(self) == if changed {
                RadialMenu { layers, active_layer_id, ..*old(self) }
            } else {
                *old(self)
            },
            old(self).well_formed() ==> final(self).well_formed(),
    {
        if same_layers(&self.layers, &layers) && self.active_layer_id == active_layer_id {
            return false;
        }
        self.layers = layers;
        self.active_layer_id = active_layer_id;
        true
    }
}

impl RadialMenu {
    /// Whether the menu shows other commands or layers than these.
    pub open spec fn differs(
        self,
        available: (bool, bool, bool),
        layers: Seq<RadialLayerEntry>,
        active_layer_id: Seq<char>,
    ) -> bool {
        ||| (self.can_undo, self.can_redo, self.can_clear) != available
        ||| layer_models(self.layers@) != layer_models(layers)
        ||| self.active_layer_id@ != active_layer_id
    }

    /// Whether the menu shows exactly these commands and layers, and is otherwise as `before`.
    pub open spec fn shows(
        self,
        before: Self,
        available: (bool, bool, bool),
        layers: Seq<RadialLayerEntry>,
        active_layer_id: Seq<char>,
    ) -> bool {
        &&& !self.differs(available, layers, active_layer_id)
        &&& self == (RadialMenu {
            can_undo: self.can_undo,
            can_redo: self.can_redo,
            can_clear: self.can_clear,
            layers: self.layers,
            active_layer_id: self.active_layer_id,
            ..before
        })
    }

    /// Brings commands and layers up to date; `true` when something has changed.
    pub fn refresh(
        &mut self,
        available: (bool, bool, bool),
        layers: Vec<RadialLayerEntry>,
        active_layer_id: String,
    ) -> (changed: bool)
        requires
            old(self).well_formed(),
        ensures
            changed == old(self).differs(available, layers@, active_layer_id@),
            final(self).shows(*old(self), available, layers@, active_layer_id@),
            !changed ==> *final(self) == *old(self),
            final(self).well_formed(),
    {
        let commands = self.set_command_availability(available.0, available.1, available.2);
        let relayered = self.set_layers(layers, active_layer_id);
        commands || relayered
    }
}

/// The rings hold every stamp: eight to a ring, in order.
pub proof fn law_every_stamp_has_a_place(count: int, index: int)
    requires
        0 <= index < count,
    ensures
        index / 8 < ring_count(count as nat),
        index % 8 < ring_items(count, index / 8),
        (index / 8) * STAMPS_PER_RING + index % 8 == index,
{
}

/// While stamps are shown, pointing at a stamp's place marks that stamp, pinned or not.
pub proof fn law_every_stamp_is_selectable(menu: RadialMenu, spot: PointerSpot, index: usize)
    requires
        menu.well_formed(),
        menu.stamp_mode,
        index < menu.stamp_count,
        !spot.over_add,
        !spot.over_delete,
        spot.layer_row is None,
        spot.zone matches Zone::Outer(outer) && outer.reaches_colors && outer.reaches_ring
            && !outer.passes_ring && outer.band == index / STAMPS_PER_RING && outer.stamp_slot
            == index % STAMPS_PER_RING,
    ensures
        menu.pointed(spot).highlighted == Some(RadialSelection::Stamp(index)),
        (menu.pinned || menu.pointed(spot).moved) ==> menu.pointed(spot).outcome()
            == RadialRelease::Stamp(index),
{
    law_every_stamp_has_a_place(menu.stamp_count as int, index as int);
}

/// A stamp that a release chooses is a registered one.
pub proof fn law_a_chosen_stamp_is_registered(menu: RadialMenu, spot: PointerSpot)
    requires
        menu.well_formed(),
    ensures
        menu.pointed(spot).well_formed(),
        menu.pointed(spot).outcome() matches RadialRelease::Stamp(index) ==> index
            < menu.stamp_count,
{
    if menu.stamp_mode && spot.zone is Outer {
        let outer = spot.zone->Outer_0;
        let ring = menu.nearest_ring(outer.band as int);
        assert(0 <= ring < ring_count(menu.stamp_count as nat));
        assert(outer.stamp_slot < ring_items(menu.stamp_count as int, ring) ==> ring
            * STAMPS_PER_RING + outer.stamp_slot < menu.stamp_count);
    }
}

/// Passing over the stamp sector puts the stamps on the outer rings, where there are any, and they
/// stay there while the pointer goes outward. Another tool or the center brings the colors back.
pub proof fn law_the_stamp_sector_shows_the_stamps(
    menu: RadialMenu,
    spot: PointerSpot,
    next: PointerSpot,
)
    requires
        spot.over_nothing_else(),
        next.over_nothing_else(),
        spot.zone == (Zone::ToolRing { sector: STAMP_TOOL_INDEX }),
    ensures
        menu.pointed(spot).highlighted == Some(RadialSelection::StampCategory),
        menu.pointed(spot).stamp_mode == (menu.stamp_count > 0),
        next.zone is Outer ==> menu.pointed(spot).pointed(next).stamp_mode == (menu.stamp_count
            > 0),
        next.zone is Center ==> !menu.pointed(spot).pointed(next).stamp_mode,
        next.zone matches Zone::ToolRing { sector } && sector != STAMP_TOOL_INDEX
            ==> !menu.pointed(spot).pointed(next).stamp_mode,
{
}

/// Releasing a pointer on a tool or a color chooses it: after a hold that has moved, or with a
/// click on the pinned menu.
pub proof fn law_a_release_chooses_what_lies_under_the_pointer(menu: RadialMenu, spot: PointerSpot)
    requires
        spot.over_nothing_else(),
        menu.pinned || menu.moved || spot.left_anchor,
    ensures
        spot.zone matches Zone::ToolRing { sector } && sector < DRAW_TOOL_COUNT
            ==> menu.pointed(spot).outcome() == (RadialRelease::Action {
            action: MenuAction::SelectTool(tool_model(spot.zone->sector as int)->0),
            keep_open: false,
        }),
        spot.zone matches Zone::Outer(outer) && !menu.stamp_mode && outer.reaches_colors
            && outer.within_colors && outer.color_sector < COLOR_COUNT ==> menu.pointed(
            spot,
        ).outcome() == (RadialRelease::Action {
            action: MenuAction::SelectColor(COLORS@[spot.zone->Outer_0.color_sector as int].1),
            keep_open: false,
        }),
{
}

/// A press that does not move pins the menu, whatever lies under the pointer.
pub proof fn law_a_press_that_does_not_move_pins(menu: RadialMenu, spot: PointerSpot)
    requires
        !menu.pinned,
        !menu.moved,
        !spot.left_anchor,
    ensures
        menu.pointed(spot).outcome() == RadialRelease::Pin,
        menu.pointed(spot).let_go().pinned,
        !menu.pointed(spot).let_go().stamp_mode,
        menu.pointed(spot).let_go().highlighted == Some(RadialSelection::StandardMenu),
{
}

/// A held pointer that comes back to the center pins the menu; a click on the center of a pinned
/// menu opens the popup menu.
pub proof fn law_the_center_pins_and_opens_the_popup_menu(menu: RadialMenu, spot: PointerSpot)
    requires
        menu.part_under(spot).0 == Some(RadialSelection::StandardMenu),
    ensures
        !menu.pinned ==> menu.pointed(spot).outcome() == RadialRelease::Pin,
        menu.pinned ==> menu.pointed(spot).outcome() == RadialRelease::LegacyMenu,
{
}

/// A menu that is not pinned never outlives the release of its pointer except by being pinned,
/// and a release never leaves a pointer down.
pub proof fn law_a_hold_ends_with_its_release(menu: RadialMenu, spot: PointerSpot)
    ensures
        menu.pointed(spot).let_go().pointer_id is None,
        !menu.pinned && menu.pointed(spot).outcome().stays() ==> menu.pointed(spot).outcome()
            == RadialRelease::Pin,
        menu.pinned ==> menu.pointed(spot).outcome() != RadialRelease::Pin,
{
}

/// A pinned menu stays for commands that are given repeatedly and closes for the others.
pub proof fn law_a_pinned_menu_stays_for_repeatable_commands(menu: RadialMenu, spot: PointerSpot)
    requires
        menu.pinned,
    ensures
        menu.pointed(spot).outcome() matches RadialRelease::Action { action, keep_open }
            ==> keep_open == RadialMenu::repeats(action),
        menu.part_under(spot).0 == Some(RadialSelection::Command(RadialCommand::Clear))
            && menu.can_clear ==> menu.pointed(spot).outcome() == (RadialRelease::Action {
            action: MenuAction::Clear,
            keep_open: false,
        }),
{
}

/// A command that cannot be given does nothing, and leaves a pinned menu open.
pub proof fn law_a_disabled_command_does_nothing(
    menu: RadialMenu,
    spot: PointerSpot,
    command: RadialCommand,
)
    requires
        menu.part_under(spot).0 == Some(RadialSelection::Command(command)),
        !menu.enabled(command),
        menu.pinned || menu.moved || spot.left_anchor,
    ensures
        menu.pointed(spot).outcome() == if menu.pinned {
            RadialRelease::StayOpen
        } else {
            RadialRelease::Cancel
        },
{
}

/// The last layer cannot be deleted, and no layer is added beyond the limit.
pub proof fn law_layer_limits(menu: RadialMenu, spot: PointerSpot)
    ensures
        menu.layers@.len() <= 1 ==> !(menu.pointed(spot).outcome() matches RadialRelease::Action {
            action: MenuAction::DeleteLayer(_),
            ..
        }),
        menu.layers@.len() >= MAX_LAYERS ==> !(
        menu.pointed(spot).outcome() matches RadialRelease::Action {
            action: MenuAction::AddLayer,
            ..
        }),
{
}

/// The layer panel lies over all else, and in it the add button over the delete button over the
/// rows, whose topmost is the last layer. The command dock lies over the rings, but is hidden while
/// they show stamps. What lies below does not matter then.
pub proof fn law_the_panel_and_the_dock_lie_on_top(menu: RadialMenu, spot: PointerSpot)
    ensures
        ({
            let marked = menu.pointed(spot).highlighted;
            let count = menu.layers@.len();
            let deleting = spot.over_delete && count > 1;
            let on_row = spot.layer_row is Some && spot.layer_row->0 < count;
            &&& spot.over_add ==> marked == Some(RadialSelection::LayerAdd)
            &&& !spot.over_add && deleting ==> marked == Some(RadialSelection::LayerDelete)
            &&& !spot.over_add && !deleting && on_row ==> marked == Some(
                RadialSelection::Layer((count - 1 - spot.layer_row->0) as usize),
            )
            &&& spot.over_add || deleting || on_row ==> menu.pointed(spot).stamp_mode
                == menu.stamp_mode
            &&& !spot.over_add && !deleting && !on_row && !menu.stamp_mode
                && spot.command is Some ==> marked == Some(
                RadialSelection::Command(spot.command->0),
            )
            &&& menu.stamp_mode ==> menu.pointed(spot) == menu.pointed(
                PointerSpot { command: None, ..spot },
            )
        }),
{
}

/// On the rings a pointer marks what its direction and distance say: the center, a tool, the stamp
/// category, or a color. A pinned menu ends with its color ring; a held one reaches outward without
/// end. Between the rings nothing is marked.
pub proof fn law_the_rings_lie_around_the_center(menu: RadialMenu, spot: PointerSpot)
    requires
        !spot.over_add,
        !spot.over_delete,
        spot.layer_row is None,
        menu.stamp_mode || spot.command is None,
    ensures
        ({
            let after = menu.pointed(spot);
            match spot.zone {
                Zone::Center => after.highlighted == Some(RadialSelection::StandardMenu)
                    && !after.stamp_mode,
                Zone::ToolRing { sector } => if sector == DRAW_TOOL_COUNT {
                    after.highlighted == Some(RadialSelection::StampCategory) && (after.stamp_mode
                        <==> menu.stamp_count > 0)
                } else {
                    after.highlighted == Some(RadialSelection::Tool(sector)) && !after.stamp_mode
                },
                Zone::Outer(outer) => if menu.stamp_mode {
                    after.stamp_mode && (after.highlighted is None || after.highlighted->0 is Stamp)
                } else {
                    &&& !after.stamp_mode
                    &&& after.highlighted == if !outer.reaches_colors || (menu.pinned
                        && !outer.within_colors) {
                        None
                    } else {
                        Some(RadialSelection::Color(outer.color_sector))
                    }
                },
            }
        }),
{
}

/// Pointing changes what is marked, what the rings show, and whether the pointer has moved, which
/// it has for good once it has left where the gesture began; and nothing else.
pub proof fn law_pointing_only_marks(menu: RadialMenu, spot: PointerSpot, next: PointerSpot)
    ensures
        ({
            let after = menu.pointed(spot);
            &&& after == (RadialMenu {
                highlighted: after.highlighted,
                stamp_mode: after.stamp_mode,
                moved: after.moved,
                ..menu
            })
            &&& after.moved == (menu.moved || spot.left_anchor)
            &&& after.moved ==> after.pointed(next).moved
        }),
{
}

/// A command that can be given is given where its button is released, from a held menu and from a
/// pinned one, and it is the command of that button. A pinned menu stays open for undoing and
/// redoing. One that cannot be given does nothing.
pub proof fn law_a_button_gives_its_command(
    menu: RadialMenu,
    spot: PointerSpot,
    command: RadialCommand,
)
    requires
        !spot.over_add,
        !spot.over_delete,
        spot.layer_row is None,
        spot.command == Some(command),
        !menu.stamp_mode,
        menu.pinned || menu.moved || spot.left_anchor,
    ensures
        ({
            let release = menu.pointed(spot).outcome();
            let given = |action: MenuAction, keep_open: bool| release == RadialRelease::Action {
                action,
                keep_open,
            };
            let refused = release == if menu.pinned {
                RadialRelease::StayOpen
            } else {
                RadialRelease::Cancel
            };
            match command {
                RadialCommand::Undo => if menu.can_undo {
                    given(MenuAction::Undo, menu.pinned)
                } else {
                    refused
                },
                RadialCommand::Redo => if menu.can_redo {
                    given(MenuAction::Redo, menu.pinned)
                } else {
                    refused
                },
                RadialCommand::Clear => if menu.can_clear {
                    given(MenuAction::Clear, false)
                } else {
                    refused
                },
            }
        }),
        menu.enabled(RadialCommand::Undo) == menu.can_undo,
        menu.enabled(RadialCommand::Redo) == menu.can_redo,
        menu.enabled(RadialCommand::Clear) == menu.can_clear,
{
}

/// Releasing on a row of the layer panel chooses the layer that the row shows, on the add button
/// adds one while there are fewer than eight, and on the delete button deletes the active one while
/// there is another. A pinned menu stays open for all of these.
pub proof fn law_the_layer_panel_manages_layers(menu: RadialMenu, spot: PointerSpot)
    requires
        menu.layers@.len() <= usize::MAX,
        menu.pinned || menu.moved || spot.left_anchor,
    ensures
        ({
            let release = menu.pointed(spot).outcome();
            let count = menu.layers@.len();
            let given = |action: MenuAction| release == RadialRelease::Action {
                action,
                keep_open: menu.pinned,
            };
            &&& spot.over_add && count < 8 ==> given(MenuAction::AddLayer)
            &&& spot.over_add && count >= 8 ==> release == if menu.pinned {
                RadialRelease::StayOpen
            } else {
                RadialRelease::Cancel
            }
            &&& !spot.over_add && spot.over_delete && count > 1 ==> given(
                MenuAction::DeleteLayer(menu.active_layer_id),
            )
            &&& !spot.over_add && !spot.over_delete && spot.layer_row is Some && spot.layer_row->0
                < count ==> given(
                MenuAction::SelectLayer(menu.layers@[count - 1 - spot.layer_row->0].layer_id),
            )
        }),
{
}

/// The tool ring offers each tool but the stamps in a sector of its own, in the order of the
/// drawing tools, and the stamp category in the ninth, on which a release does nothing.
pub proof fn law_the_tool_ring_offers_every_tool(menu: RadialMenu, spot: PointerSpot)
    requires
        spot.over_nothing_else(),
        spot.zone is ToolRing,
        menu.pinned || menu.moved || spot.left_anchor,
    ensures
        ({
            let sector = spot.zone->sector;
            let release = menu.pointed(spot).outcome();
            let chosen = |tool: DrawTool| release == RadialRelease::Action {
                action: MenuAction::SelectTool(tool),
                keep_open: false,
            };
            &&& sector == 0 <==> chosen(DrawTool::Select)
            &&& sector == 1 <==> chosen(DrawTool::Pen)
            &&& sector == 2 <==> chosen(DrawTool::Marker)
            &&& sector == 3 <==> chosen(DrawTool::Eraser)
            &&& sector == 4 <==> chosen(DrawTool::Line)
            &&& sector == 5 <==> chosen(DrawTool::Arrow)
            &&& sector == 6 <==> chosen(DrawTool::Rectangle)
            &&& sector == 7 <==> chosen(DrawTool::Ellipse)
            &&& sector == 8 && menu.pinned ==> release == RadialRelease::StayOpen
            &&& sector == 8 && !menu.pinned ==> release == RadialRelease::Cancel
        }),
{
}

/// What a sector of the tool ring is called tells the tool that it chooses, and no two sectors are
/// called alike; the buttons of the dock have names of their own too.
pub proof fn law_labels_tell_what_is_chosen(index: int)
    ensures
        tool_model(index) == Some(DrawTool::Select) <==> tool_label_model(index) == Some("選択"@),
        tool_model(index) == Some(DrawTool::Pen) <==> tool_label_model(index) == Some("ペン"@),
        tool_model(index) == Some(DrawTool::Marker) <==> tool_label_model(index) == Some(
            "マーカー"@,
        ),
        tool_model(index) == Some(DrawTool::Eraser) <==> tool_label_model(index) == Some(
            "消しゴム"@,
        ),
        tool_model(index) == Some(DrawTool::Line) <==> tool_label_model(index) == Some("直線"@),
        tool_model(index) == Some(DrawTool::Arrow) <==> tool_label_model(index) == Some("矢印"@),
        tool_model(index) == Some(DrawTool::Rectangle) <==> tool_label_model(index) == Some(
            "四角"@,
        ),
        tool_model(index) == Some(DrawTool::Ellipse) <==> tool_label_model(index) == Some("楕円"@),
        index == 8 <==> tool_label_model(index) == Some("スタンプ"@),
        command_label_model(RadialCommand::Undo) == "↶  元に戻す"@,
        command_label_model(RadialCommand::Redo) == "↷  やり直す"@,
        command_label_model(RadialCommand::Clear) == "全消去"@,
{
    reveal_strlit("選択");
    reveal_strlit("ペン");
    reveal_strlit("マーカー");
    reveal_strlit("消しゴム");
    reveal_strlit("直線");
    reveal_strlit("矢印");
    reveal_strlit("四角");
    reveal_strlit("楕円");
    reveal_strlit("スタンプ");
    let names = seq![
        "選択"@,
        "ペン"@,
        "マーカー"@,
        "消しゴム"@,
        "直線"@,
        "矢印"@,
        "四角"@,
        "楕円"@,
        "スタンプ"@,
    ];
    assert(names[0][0] != names[4][0] && names[0][0] != names[5][0] && names[0][0] != names[6][0]
        && names[0][0] != names[7][0] && names[0][0] != names[1][0]);
    assert(names[1][0] != names[4][0] && names[1][0] != names[5][0] && names[1][0] != names[6][0]
        && names[1][0] != names[7][0]);
    assert(names[2][0] != names[3][0] && names[2][0] != names[8][0] && names[3][0] != names[8][0]);
    assert(names[4][0] != names[5][0] && names[4][0] != names[6][0] && names[4][0] != names[7][0]);
    assert(names[5][0] != names[6][0] && names[5][0] != names[7][0] && names[6][0] != names[7][0]);
    assert(0 <= index < 9 ==> tool_label_model(index) == Some(names[index]));
    assert(forall|i: int, j: int|
        0 <= i < 9 && 0 <= j < 9 && i != j ==> names[i].len() != names[j].len() || names[i][0]
            != names[j][0]);
}

/// The menu is still shown after it was pinned, after a click that did nothing, and after a command
/// for which it stays open; every other release closes it.
pub proof fn law_the_menu_closes_with_its_task(release: RadialRelease)
    ensures
        release.stays() == (match release {
            RadialRelease::Pin => true,
            RadialRelease::StayOpen => true,
            RadialRelease::Action { keep_open, .. } => keep_open,
            RadialRelease::Stamp(_) => false,
            RadialRelease::LegacyMenu => false,
            RadialRelease::Cancel => false,
        }),
{
}

/// Releasing beside everything closes the menu. Releasing a pinned menu's pointer leaves the menu
/// as it was, without the pointer; pinning puts the center and the colors back.
pub proof fn law_a_release_lets_the_menu_be(menu: RadialMenu, spot: PointerSpot)
    ensures
        ({
            let pointed = menu.pointed(spot);
            &&& pointed.highlighted is None && (menu.pinned || pointed.moved) ==> pointed.outcome()
                == RadialRelease::Cancel
            &&& menu.pinned ==> pointed.let_go() == (RadialMenu { pointer_id: None, ..pointed })
            &&& pointed.outcome() == RadialRelease::Pin ==> pointed.let_go() == (RadialMenu {
                pointer_id: None,
                pinned: true,
                stamp_mode: false,
                highlighted: Some(RadialSelection::StandardMenu),
                ..pointed
            })
            &&& pointed.outcome() == RadialRelease::Pin <==> !menu.pinned && (!pointed.moved
                || pointed.highlighted == Some(RadialSelection::StandardMenu))
        }),
{
}

/// Beyond the last ring of a held menu its stamps can still be chosen, and of a pinned one they
/// cannot. Before a ring, past an inner one, and on a place without a stamp there is none.
pub proof fn law_stamps_are_chosen_on_their_ring(menu: RadialMenu, spot: PointerSpot)
    requires
        menu.well_formed(),
        menu.stamp_mode,
        !spot.over_add,
        !spot.over_delete,
        spot.layer_row is None,
        spot.zone is Outer,
    ensures
        ({
            let outer = spot.zone->Outer_0;
            let marked = menu.pointed(spot).highlighted;
            let last = (menu.stamp_count - 1) / 8;
            let ring = if outer.band < last {
                outer.band as int
            } else {
                last
            };
            let index = ring * 8 + outer.stamp_slot;
            let there = outer.stamp_slot < 8 && index < menu.stamp_count;
            let reached = outer.reaches_colors && outer.reaches_ring;
            &&& marked is Some ==> marked == Some(RadialSelection::Stamp(index as usize))
            &&& marked is Some <==> there && reached && (!outer.passes_ring || (!menu.pinned && ring
                == last))
        }),
{
    let last = (menu.stamp_count - 1) / 8;
    assert(ring_count(menu.stamp_count as nat) == last + 1);
}

/// Eight stamps to a ring, no ring without a stamp, and no stamp without a ring.
pub proof fn law_rings_are_filled_in_turn(count: nat, ring: int)
    requires
        0 <= ring,
    ensures
        ring < ring_count(count) <==> ring * 8 < count,
        0 <= ring_items(count as int, ring) <= 8,
        ring_items(count as int, ring) > 0 <==> ring < ring_count(count),
        ring + 1 < ring_count(count) ==> ring_items(count as int, ring) == 8,
        ring + 1 == ring_count(count) ==> ring * 8 + ring_items(count as int, ring) == count,
{
}

/// A menu that was brought up to date shows the commands and layers as they are, line for line, and
/// is otherwise as before; it counts as changed exactly where it showed something else.
pub proof fn law_an_open_menu_shows_what_there_is(
    menu: RadialMenu,
    before: RadialMenu,
    available: (bool, bool, bool),
    layers: Seq<RadialLayerEntry>,
    active_layer_id: Seq<char>,
)
    ensures
        menu.shows(before, available, layers, active_layer_id) ==> {
            &&& menu.can_undo == available.0 && menu.can_redo == available.1 && menu.can_clear
                == available.2
            &&& menu.active_layer_id@ == active_layer_id
            &&& menu.layers@.len() == layers.len()
            &&& forall|i: int|
                0 <= i < layers.len() ==> (#[trigger] menu.layers@[i]).layer_id@
                    == layers[i].layer_id@ && menu.layers@[i].name@ == layers[i].name@
                    && menu.layers@[i].item_count == layers[i].item_count
            &&& menu.highlighted == before.highlighted && menu.pinned == before.pinned
                && menu.pointer_id == before.pointer_id && menu.stamp_mode == before.stamp_mode
                && menu.stamp_count == before.stamp_count && menu.moved == before.moved
        },
        menu.can_undo != available.0 || menu.can_redo != available.1 || menu.can_clear
            != available.2 || menu.active_layer_id@ != active_layer_id || menu.layers@.len()
            != layers.len() ==> menu.differs(available, layers, active_layer_id),
        !menu.differs(available, layers, active_layer_id) <==> menu.shows(
            menu,
            available,
            layers,
            active_layer_id,
        ),
{
    if menu.shows(before, available, layers, active_layer_id) {
        let left = layer_models(menu.layers@);
        let right = layer_models(layers);
        assert(left.len() == right.len());
        assert forall|i: int| 0 <= i < layers.len() implies (#[trigger] menu.layers@[i]).layer_id@
            == layers[i].layer_id@ && menu.layers@[i].name@ == layers[i].name@
            && menu.layers@[i].item_count == layers[i].item_count by {
            assert(left[i] == right[i]);
            assert(left[i] == menu.layers@[i]@ && right[i] == layers[i]@);
        }
    }
    if menu.layers@.len() != layers.len() {
        assert(layer_models(menu.layers@).len() != layer_models(layers).len());
    }
}

/// Whatever color is marked is chosen by a release, also from beyond the color ring of a held menu;
/// a sector without a color or a tool gives nothing and closes the menu. The menu closes for both
/// tools and colors.
pub proof fn law_a_marked_color_is_chosen(menu: RadialMenu, spot: PointerSpot)
    requires
        menu.pinned || menu.moved || spot.left_anchor,
    ensures
        ({
            let pointed = menu.pointed(spot);
            &&& pointed.highlighted matches Some(RadialSelection::Color(index)) ==> (if index < 10 {
                pointed.outcome() == (RadialRelease::Action {
                    action: MenuAction::SelectColor(COLORS@[index as int].1),
                    keep_open: false,
                })
            } else {
                pointed.outcome() == RadialRelease::Cancel
            })
            &&& pointed.highlighted matches Some(RadialSelection::Tool(index)) ==> index >= 8
                ==> pointed.outcome() == RadialRelease::Cancel
            &&& pointed.highlighted matches Some(RadialSelection::Stamp(index))
                ==> pointed.outcome() == RadialRelease::Stamp(index)
        }),
{
}

/// A delete button without a layer to spare and a row without a layer are not there: what lies
/// below them is marked.
pub proof fn law_missing_parts_cover_nothing(menu: RadialMenu, spot: PointerSpot)
    ensures
        menu.layers@.len() <= 1 ==> menu.pointed(spot) == menu.pointed(
            PointerSpot { over_delete: false, ..spot },
        ),
        spot.layer_row is Some && spot.layer_row->0 >= menu.layers@.len() ==> menu.pointed(spot)
            == menu.pointed(PointerSpot { layer_row: None, ..spot }),
{
}

} // verus!
