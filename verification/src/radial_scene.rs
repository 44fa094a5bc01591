//! How the parts of the radial menu look: their colors, outlines and labels. Where they lie is a
//! matter of geometry that the caller works out.

use vstd::prelude::*;

use crate::menu;
use crate::menu::{DrawTool, StampEntry, COLORS, COLOR_COUNT};
use crate::radial_menu;
use crate::radial_menu::{
    same_selection, tool_label, RadialCommand, RadialMenu, RadialSelection, STAMPS_PER_RING,
    STAMP_TOOL_INDEX, TOOL_COUNT,
};
use crate::text;

verus! {

/// A color with its opacity, in thousandths.
#[derive(Clone, Copy, Debug, PartialEq, Eq, Structural)]
pub struct Shade {
    pub red: u32,
    pub green: u32,
    pub blue: u32,
    pub alpha: u32,
}

pub open spec fn shade_of(red: u32, green: u32, blue: u32, alpha: u32) -> Shade {
    Shade { red, green, blue, alpha }
}

fn shade(red: u32, green: u32, blue: u32, alpha: u32) -> (shade: Shade)
    ensures
        shade == shade_of(red, green, blue, alpha),
{
    Shade { red, green, blue, alpha }
}

/// A part of a ring. Widths are in tenths.
#[derive(Clone, Copy, Debug, PartialEq, Eq, Structural)]
pub struct PartLook {
    pub highlighted: bool,
    /// The tool, color or stamp in use.
    pub current: bool,
    pub fill: Shade,
    pub outline_width: u32,
}

pub open spec fn outline_width(highlighted: bool) -> u32 {
    if highlighted {
        30
    } else {
        15
    }
}

/// The fill of a tool or a stamp.
pub open spec fn part_fill(highlighted: bool, current: bool, enabled: bool) -> Shade {
    if highlighted {
        shade_of(120, 520, 760, 980)
    } else if current {
        shade_of(80, 260, 360, 960)
    } else if !enabled {
        shade_of(35, 40, 50, 780)
    } else {
        shade_of(55, 65, 85, 940)
    }
}

fn fill_for(highlighted: bool, current: bool, enabled: bool) -> (fill: Shade)
    ensures
        fill == part_fill(highlighted, current, enabled),
{
    if highlighted {
        shade(120, 520, 760, 980)
    } else if current {
        shade(80, 260, 360, 960)
    } else if !enabled {
        shade(35, 40, 50, 780)
    } else {
        shade(55, 65, 85, 940)
    }
}

/// Whether a sector of the tool ring stands for the tool in use.
pub open spec fn is_current_tool(index: int, tool: DrawTool) -> bool {
    if index == STAMP_TOOL_INDEX {
        tool is Stamp
    } else {
        radial_menu::tool_model(index) == Some(tool)
    }
}

fn same_tool(index: usize, tool: &DrawTool) -> (same: bool)
    ensures
        same == is_current_tool(index as int, *tool),
{
    match tool {
        DrawTool::Select => index == 0,
        DrawTool::Pen => index == 1,
        DrawTool::Marker => index == 2,
        DrawTool::Eraser => index == 3,
        DrawTool::Line => index == 4,
        DrawTool::Arrow => index == 5,
        DrawTool::Rectangle => index == 6,
        DrawTool::Ellipse => index == 7,
        DrawTool::Stamp(_) => index == STAMP_TOOL_INDEX,
    }
}

/// The look of a sector of the tool ring. Without registered stamps their sector is disabled.
pub fn tool_sector(
    menu: &RadialMenu,
    index: usize,
    current_tool: &DrawTool,
    stamps: &[StampEntry],
) -> (look: PartLook)
    requires
        index < TOOL_COUNT,
    ensures
        ({
            let of_stamps = index == STAMP_TOOL_INDEX;
            let enabled = !of_stamps || stamps@.len() > 0;
            let part = if of_stamps {
                RadialSelection::StampCategory
            } else {
                RadialSelection::Tool(index)
            };
            &&& look.highlighted == (enabled && (menu.highlighted == Some(part) || (of_stamps
                && menu.stamp_mode)))
            &&& look.current == is_current_tool(index as int, *current_tool)
            &&& look.fill == part_fill(look.highlighted, look.current, enabled)
            &&& look.outline_width == outline_width(look.highlighted)
        }),
{
    let of_stamps = index == STAMP_TOOL_INDEX;
    let enabled = !of_stamps || stamps.len() > 0;
    let part = if of_stamps {
        RadialSelection::StampCategory
    } else {
        RadialSelection::Tool(index)
    };
    let highlighted = enabled && (same_selection(menu.highlighted(), Some(part)) || (of_stamps
        && menu.stamp_mode()));
    let current = same_tool(index, current_tool);
    PartLook {
        highlighted,
        current,
        fill: fill_for(highlighted, current, enabled),
        outline_width: if highlighted {
            30
        } else {
            15
        },
    }
}

/// Whether a color of the palette is pointed at, and whether it is the one in use.
pub fn color_sector(menu: &RadialMenu, index: usize, current_color: &str) -> (marked: (bool, bool))
    requires
        index < COLOR_COUNT,
    ensures
        marked.0 == (menu.highlighted == Some(RadialSelection::Color(index))),
        marked.1 == text::same_ignoring_ascii_case(COLORS@[index as int].1@, current_color@),
{
    (
        same_selection(menu.highlighted(), Some(RadialSelection::Color(index))),
        text::eq_ignore_ascii_case(COLORS[index].1, current_color),
    )
}

/// A stamp on the stamp rings.
#[derive(Clone, Copy, Debug, PartialEq, Eq, Structural)]
pub struct StampSector {
    pub index: usize,
    pub ring: usize,
    pub slot: usize,
    pub look: PartLook,
}

pub open spec fn stamp_sector_model(
    menu: RadialMenu,
    index: int,
    tool: DrawTool,
    stamps: Seq<StampEntry>,
) -> StampSector {
    let highlighted = menu.highlighted == Some(RadialSelection::Stamp(index as usize));
    let current = menu::is_stamp(tool, stamps[index].id@);
    StampSector {
        index: index as usize,
        ring: (index / STAMPS_PER_RING as int) as usize,
        slot: (index % STAMPS_PER_RING as int) as usize,
        look: PartLook {
            highlighted,
            current,
            fill: part_fill(highlighted, current, true),
            outline_width: 15,
        },
    }
}

/// The stamps on the rings, from the innermost ring outwards.
pub fn stamp_sectors(menu: &RadialMenu, current_tool: &DrawTool, stamps: &[StampEntry]) -> (sectors:
    Vec<StampSector>)
    ensures
        sectors@ == Seq::new(
            if menu.stamp_count < stamps@.len() {
                menu.stamp_count as nat
            } else {
                stamps@.len()
            },
            |i: int| stamp_sector_model(*menu, i, *current_tool, stamps@),
        ),
{
    let count: usize = if menu.stamp_count() < stamps.len() {
        menu.stamp_count()
    } else {
        stamps.len()
    };
    let mut sectors: Vec<StampSector> = Vec::new();
    for index in 0..count
        invariant
            count <= stamps@.len(),
            sectors@.len() == index,
            forall|i: int|
                0 <= i < index ==> #[trigger] sectors@[i] == stamp_sector_model(
                    *menu,
                    i,
                    *current_tool,
                    stamps@,
                ),
    {
        let highlighted = same_selection(menu.highlighted(), Some(RadialSelection::Stamp(index)));
        let current = match current_tool {
            DrawTool::Stamp(id) => *id == stamps[index].id,
            _ => false,
        };
        sectors.push(
            StampSector {
                index,
                ring: index / STAMPS_PER_RING,
                slot: index % STAMPS_PER_RING,
                look: PartLook {
                    highlighted,
                    current,
                    fill: fill_for(highlighted, current, true),
                    outline_width: 15,
                },
            },
        );
    }
    assert(sectors@ =~= Seq::new(
        if menu.stamp_count < stamps@.len() {
            menu.stamp_count as nat
        } else {
            stamps@.len()
        },
        |i: int| stamp_sector_model(*menu, i, *current_tool, stamps@),
    ));
    sectors
}

/// The frame around a color or a stamp: white where it is pointed at, else blue where it is the
/// one in use.
pub fn radial_indicator(highlighted: bool, current: bool) -> (indicator: Option<(Shade, u32)>)
    ensures
        indicator == if highlighted {
            Some((shade_of(1000, 1000, 1000, 1000), 50u32))
        } else if current {
            Some((shade_of(230, 700, 930, 1000), 30u32))
        } else {
            None
        },
{
    if highlighted {
        Some((shade(1000, 1000, 1000, 1000), 50))
    } else if current {
        Some((shade(230, 700, 930, 1000), 30))
    } else {
        None
    }
}

/// A button of the command dock. Widths are in tenths.
#[derive(Clone, Copy, Debug, PartialEq, Eq, Structural)]
pub struct ButtonLook {
    pub enabled: bool,
    pub fill: Shade,
    pub accent: Shade,
    pub outline_width: u32,
}

pub open spec fn command_fill(command: RadialCommand, highlighted: bool, enabled: bool) -> Shade {
    if highlighted {
        match command {
            RadialCommand::Undo => shade_of(100, 450, 700, 980),
            RadialCommand::Redo => shade_of(80, 520, 400, 980),
            RadialCommand::Clear => shade_of(720, 120, 170, 980),
        }
    } else if !enabled {
        shade_of(35, 40, 50, 780)
    } else if command == RadialCommand::Clear {
        shade_of(200, 55, 75, 960)
    } else {
        shade_of(55, 65, 85, 960)
    }
}

pub open spec fn command_accent(command: RadialCommand, enabled: bool) -> Shade {
    if !enabled {
        shade_of(160, 180, 220, 800)
    } else {
        match command {
            RadialCommand::Undo => shade_of(230, 700, 930, 1000),
            RadialCommand::Redo => shade_of(300, 820, 620, 1000),
            RadialCommand::Clear => shade_of(1000, 300, 380, 1000),
        }
    }
}

/// The look of a button. One whose command cannot be given is never highlighted.
pub fn command_button(menu: &RadialMenu, command: RadialCommand) -> (look: ButtonLook)
    ensures
        ({
            let enabled = menu.enabled(command);
            let highlighted = enabled && menu.highlighted == Some(
                RadialSelection::Command(command),
            );
            &&& look.enabled == enabled
            &&& look.fill == command_fill(command, highlighted, enabled)
            &&& look.accent == command_accent(command, enabled)
            &&& look.outline_width == outline_width(highlighted)
        }),
{
    let enabled = menu.command_enabled(command);
    let highlighted = enabled && same_selection(
        menu.highlighted(),
        Some(RadialSelection::Command(command)),
    );
    let fill = if highlighted {
        match command {
            RadialCommand::Undo => shade(100, 450, 700, 980),
            RadialCommand::Redo => shade(80, 520, 400, 980),
            RadialCommand::Clear => shade(720, 120, 170, 980),
        }
    } else if !enabled {
        shade(35, 40, 50, 780)
    } else {
        match command {
            RadialCommand::Clear => shade(200, 55, 75, 960),
            _ => shade(55, 65, 85, 960),
        }
    };
    let accent = if !enabled {
        shade(160, 180, 220, 800)
    } else {
        match command {
            RadialCommand::Undo => shade(230, 700, 930, 1000),
            RadialCommand::Redo => shade(300, 820, 620, 1000),
            RadialCommand::Clear => shade(1000, 300, 380, 1000),
        }
    };
    ButtonLook {
        enabled,
        fill,
        accent,
        outline_width: if highlighted {
            30
        } else {
            15
        },
    }
}

/// The fill and the outline of the center.
pub fn center_look(menu: &RadialMenu) -> (look: (Shade, u32))
    ensures
        look == if menu.highlighted == Some(RadialSelection::StandardMenu) {
            (shade_of(100, 380, 560, 980), 30u32)
        } else {
            (shade_of(55, 65, 85, 960), 15u32)
        },
{
    if same_selection(menu.highlighted(), Some(RadialSelection::StandardMenu)) {
        (shade(100, 380, 560, 980), 30)
    } else {
        (shade(55, 65, 85, 960), 15)
    }
}

/// The text in the center: what is pointed at. The parts of the layer panel carry their own.
pub open spec fn center_text(menu: RadialMenu, stamps: Seq<StampEntry>) -> Seq<char> {
    match menu.highlighted {
        None => if menu.stamp_mode {
            "スタンプ\n選択"@
        } else {
            "標準\nメニュー"@
        },
        Some(RadialSelection::StandardMenu) => "標準\nメニュー"@,
        Some(RadialSelection::Tool(index)) => match radial_menu::tool_label_model(index as int) {
            Some(label) => label,
            None => ""@,
        },
        Some(RadialSelection::StampCategory) => if stamps.len() == 0 {
            "スタンプ\n未登録"@
        } else {
            "スタンプ\n外へ"@
        },
        Some(RadialSelection::Stamp(index)) => if index < stamps.len() {
            stamps[index as int].name@
        } else {
            ""@
        },
        Some(RadialSelection::Color(index)) => if index < COLOR_COUNT {
            COLORS@[index as int].0@
        } else {
            ""@
        },
        Some(RadialSelection::Command(RadialCommand::Undo)) => "元に\n戻す"@,
        Some(RadialSelection::Command(RadialCommand::Redo)) => "やり\n直す"@,
        Some(RadialSelection::Command(RadialCommand::Clear)) => "全消去"@,
        Some(RadialSelection::Layer(_)) => ""@,
        Some(RadialSelection::LayerAdd) => ""@,
        Some(RadialSelection::LayerDelete) => ""@,
    }
}

pub fn center_label(menu: &RadialMenu, stamps: &[StampEntry]) -> (label: String)
    ensures
        label@ == center_text(*menu, stamps@),
{
    match menu.highlighted() {
        None => if menu.stamp_mode() {
            "スタンプ\n選択".to_owned()
        } else {
            "標準\nメニュー".to_owned()
        },
        Some(RadialSelection::StandardMenu) => "標準\nメニュー".to_owned(),
        Some(RadialSelection::Tool(index)) => match tool_label(index) {
            Some(label) => label.to_owned(),
            None => "".to_owned(),
        },
        Some(RadialSelection::StampCategory) => if stamps.len() == 0 {
            "スタンプ\n未登録".to_owned()
        } else {
            "スタンプ\n外へ".to_owned()
        },
        Some(RadialSelection::Stamp(index)) => if index < stamps.len() {
            stamps[index].name.clone()
        } else {
            "".to_owned()
        },
        Some(RadialSelection::Color(index)) => if index < COLOR_COUNT {
            COLORS[index].0.to_owned()
        } else {
            "".to_owned()
        },
        Some(RadialSelection::Command(command)) => match command {
            RadialCommand::Undo => "元に\n戻す".to_owned(),
            RadialCommand::Redo => "やり\n直す".to_owned(),
            RadialCommand::Clear => "全消去".to_owned(),
        },
        Some(RadialSelection::Layer(_)) => "".to_owned(),
        Some(RadialSelection::LayerAdd) => "".to_owned(),
        Some(RadialSelection::LayerDelete) => "".to_owned(),
    }
}

/// Of the sectors of the tool ring exactly the one of the tool in use is marked.
pub proof fn law_one_sector_stands_for_the_tool(tool: DrawTool)
    ensures
        exists|index: int|
            0 <= index < TOOL_COUNT && #[trigger] is_current_tool(index, tool) && forall|other: int|
                0 <= other < TOOL_COUNT && #[trigger] is_current_tool(other, tool) ==> other
                    == index,
{
    let index: int = match tool {
        DrawTool::Select => 0,
        DrawTool::Pen => 1,
        DrawTool::Marker => 2,
        DrawTool::Eraser => 3,
        DrawTool::Line => 4,
        DrawTool::Arrow => 5,
        DrawTool::Rectangle => 6,
        DrawTool::Ellipse => 7,
        DrawTool::Stamp(_) => 8,
    };
    assert(is_current_tool(index, tool));
}

/// The sector of each tool is its own, and that of the stamps stands for every stamp.
pub proof fn law_each_tool_has_its_own_sector(index: int, tool: DrawTool)
    ensures
        is_current_tool(index, tool) <==> match tool {
            DrawTool::Select => index == 0,
            DrawTool::Pen => index == 1,
            DrawTool::Marker => index == 2,
            DrawTool::Eraser => index == 3,
            DrawTool::Line => index == 4,
            DrawTool::Arrow => index == 5,
            DrawTool::Rectangle => index == 6,
            DrawTool::Ellipse => index == 7,
            DrawTool::Stamp(_) => index == 8,
        },
{
}

/// What is pointed at looks like nothing else, then what is in use, then what cannot be chosen; and
/// what is pointed at has the wider outline. A button that is pointed at shows which it is, and the
/// one that clears everything always stands out.
pub proof fn law_looks_tell_parts_apart(
    current: bool,
    enabled: bool,
    command: RadialCommand,
    other: RadialCommand,
)
    ensures
        part_fill(true, current, enabled) == part_fill(true, !current, !enabled),
        part_fill(true, current, enabled) != part_fill(false, current, enabled),
        part_fill(false, true, enabled) == part_fill(false, true, !enabled),
        part_fill(false, true, enabled) != part_fill(false, false, enabled),
        part_fill(false, false, true) != part_fill(false, false, false),
        outline_width(true) > outline_width(false) > 0,
        command_fill(command, true, true) != command_fill(command, false, true),
        command_fill(command, false, true) != command_fill(command, false, false),
        command != other ==> command_fill(command, true, true) != command_fill(other, true, true),
        command != other ==> command_accent(command, true) != command_accent(other, true),
        command_accent(command, true) != command_accent(command, false),
        command != RadialCommand::Clear ==> command_fill(command, false, true) != command_fill(
            RadialCommand::Clear,
            false,
            true,
        ),
{
}

/// Stamps stand on their rings in order, eight to a ring, and the one pointed at and the one in use
/// are marked.
pub proof fn law_stamps_stand_in_order(
    menu: RadialMenu,
    index: int,
    tool: DrawTool,
    stamps: Seq<StampEntry>,
)
    requires
        0 <= index < stamps.len(),
        index <= usize::MAX,
    ensures
        ({
            let sector = stamp_sector_model(menu, index, tool, stamps);
            &&& sector.index == index
            &&& sector.ring * 8 + sector.slot == index
            &&& sector.slot < 8
            &&& sector.look.highlighted <==> menu.highlighted == Some(
                RadialSelection::Stamp(index as usize),
            )
            &&& sector.look.current <==> tool is Stamp && tool->Stamp_0@ == stamps[index].id@
            &&& sector.look.fill == part_fill(sector.look.highlighted, sector.look.current, true)
        }),
{
}

/// The center tells what is pointed at: the tool by its label, the stamp and the color by their
/// names, a command by its own, and otherwise what the center itself is for.
pub proof fn law_the_center_tells_what_is_pointed_at(menu: RadialMenu, stamps: Seq<StampEntry>)
    ensures
        match menu.highlighted {
            Some(RadialSelection::Tool(index)) => index < 8 ==> radial_menu::tool_label_model(
                index as int,
            ) == Some(center_text(menu, stamps)),
            Some(RadialSelection::Stamp(index)) => index < stamps.len() ==> center_text(
                menu,
                stamps,
            ) == stamps[index as int].name@,
            Some(RadialSelection::Color(index)) => index < 10 ==> center_text(menu, stamps)
                == COLORS@[index as int].0@,
            Some(RadialSelection::Command(command)) => center_text(menu, stamps) == match command {
                RadialCommand::Undo => "元に\n戻す"@,
                RadialCommand::Redo => "やり\n直す"@,
                RadialCommand::Clear => "全消去"@,
            },
            Some(RadialSelection::StandardMenu) => center_text(menu, stamps)
                == "標準\nメニュー"@,
            Some(RadialSelection::StampCategory) => center_text(menu, stamps) == if stamps.len()
                > 0 {
                "スタンプ\n外へ"@
            } else {
                "スタンプ\n未登録"@
            },
            None => center_text(menu, stamps) == if menu.stamp_mode {
                "スタンプ\n選択"@
            } else {
                "標準\nメニュー"@
            },
            _ => true,
        },
{
}

/// Each state of a part has its shade, by the first that holds of it: pointed at, in use, not to be
/// chosen, and any other.
pub proof fn law_each_state_has_its_shade(
    highlighted: bool,
    current: bool,
    enabled: bool,
    command: RadialCommand,
)
    ensures
        part_fill(highlighted, current, enabled) == (if highlighted {
            Shade { red: 120, green: 520, blue: 760, alpha: 980 }
        } else if current {
            Shade { red: 80, green: 260, blue: 360, alpha: 960 }
        } else if enabled {
            Shade { red: 55, green: 65, blue: 85, alpha: 940 }
        } else {
            Shade { red: 35, green: 40, blue: 50, alpha: 780 }
        }),
        outline_width(highlighted) == if highlighted {
            30u32
        } else {
            15
        },
        !enabled && !highlighted ==> command_fill(command, highlighted, enabled) == part_fill(
            false,
            false,
            false,
        ),
        enabled && !highlighted && command != RadialCommand::Clear ==> command_fill(
            command,
            highlighted,
            enabled,
        ) == (Shade { alpha: 960, ..part_fill(false, false, true) }),
        command_fill(RadialCommand::Clear, false, true) == (Shade {
            red: 200,
            green: 55,
            blue: 75,
            alpha: 960,
        }),
        command_fill(RadialCommand::Undo, true, enabled) == (Shade {
            red: 100,
            green: 450,
            blue: 700,
            alpha: 980,
        }),
        command_fill(RadialCommand::Redo, true, enabled) == (Shade {
            red: 80,
            green: 520,
            blue: 400,
            alpha: 980,
        }),
        command_fill(RadialCommand::Clear, true, enabled) == (Shade {
            red: 720,
            green: 120,
            blue: 170,
            alpha: 980,
        }),
        command_accent(command, enabled) == (if !enabled {
            Shade { red: 160, green: 180, blue: 220, alpha: 800 }
        } else {
            match command {
                RadialCommand::Undo => Shade { red: 230, green: 700, blue: 930, alpha: 1000 },
                RadialCommand::Redo => Shade { red: 300, green: 820, blue: 620, alpha: 1000 },
                RadialCommand::Clear => Shade { red: 1000, green: 300, blue: 380, alpha: 1000 },
            }
        }),
{
}

/// The center keeps silent about the layer panel, whose parts carry their own texts, and about
/// what does not exist; a stamp that is shown has the outline of any part.
pub proof fn law_the_center_keeps_silent_about_layers(
    menu: RadialMenu,
    index: usize,
    tool: DrawTool,
    stamps: Seq<StampEntry>,
)
    ensures
        match menu.highlighted {
            Some(RadialSelection::Layer(_)) => center_text(menu, stamps).len() == 0,
            Some(RadialSelection::LayerAdd) => center_text(menu, stamps).len() == 0,
            Some(RadialSelection::LayerDelete) => center_text(menu, stamps).len() == 0,
            Some(RadialSelection::Stamp(at)) => at >= stamps.len() ==> center_text(
                menu,
                stamps,
            ).len() == 0,
            Some(RadialSelection::Color(at)) => at >= 10 ==> center_text(menu, stamps).len() == 0,
            _ => true,
        },
        stamp_sector_model(menu, index as int, tool, stamps).look.outline_width == outline_width(
            false,
        ),
{
    reveal_strlit("");
}

} // verus!
