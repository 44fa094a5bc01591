//! The classic popup menu: what it shows and what each entry does.

use vstd::prelude::*;

use crate::text;

verus! {

/// What the pointer draws with.
#[derive(Debug, PartialEq, Eq)]
pub enum DrawTool {
    Select,
    Pen,
    Marker,
    Eraser,
    Line,
    Arrow,
    Rectangle,
    Ellipse,
    Stamp(String),
}

impl Clone for DrawTool {
    fn clone(&self) -> (copy: Self)
        ensures
            copy == *self,
    {
        match self {
            DrawTool::Select => DrawTool::Select,
            DrawTool::Pen => DrawTool::Pen,
            DrawTool::Marker => DrawTool::Marker,
            DrawTool::Eraser => DrawTool::Eraser,
            DrawTool::Line => DrawTool::Line,
            DrawTool::Arrow => DrawTool::Arrow,
            DrawTool::Rectangle => DrawTool::Rectangle,
            DrawTool::Ellipse => DrawTool::Ellipse,
            DrawTool::Stamp(id) => DrawTool::Stamp(id.clone()),
        }
    }
}

/// A command of the popup menu or of the radial menu.
#[derive(Debug, PartialEq)]
pub enum MenuAction {
    SelectTool(DrawTool),
    SelectColor(&'static str),
    Undo,
    Redo,
    Clear,
    SelectLayer(String),
    AddLayer,
    ClearLayer(String),
    DeleteLayer(String),
    Exit,
}

/// A registered stamp as the menu shows it.
#[derive(Debug)]
pub struct StampEntry {
    pub id: String,
    pub name: String,
}

pub const COLOR_COUNT: usize = 10;

/// The palette: name and value of each color.
pub const COLORS: [(&'static str, &'static str); 10] = [
    ("ピンク", "#ff4d6d"),
    ("レッド", "#e5484d"),
    ("オレンジ", "#ff8a3d"),
    ("イエロー", "#ffd43b"),
    ("グリーン", "#51cf66"),
    ("スカイ", "#3bb2ed"),
    ("ブルー", "#4c6ef5"),
    ("パープル", "#9775fa"),
    ("ホワイト", "#ffffff"),
    ("ブラック", "#111111"),
];

pub const ID_TOOL_PEN: usize = 10;

pub const ID_TOOL_MARKER: usize = 11;

pub const ID_TOOL_ERASER: usize = 12;

pub const ID_TOOL_LINE: usize = 13;

pub const ID_TOOL_ARROW: usize = 14;

pub const ID_TOOL_RECTANGLE: usize = 15;

pub const ID_TOOL_ELLIPSE: usize = 16;

pub const ID_UNDO: usize = 20;

pub const ID_CLEAR: usize = 21;

pub const ID_EXIT: usize = 30;

pub const ID_COLOR_BASE: usize = 100;

pub const ID_STAMP_BASE: usize = 1000;

/// An entry that can be chosen.
#[derive(Debug)]
pub struct MenuItem {
    pub id: usize,
    pub label: String,
    pub checked: bool,
}

/// A line of the menu.
#[derive(Debug)]
pub enum MenuEntry {
    Item(MenuItem),
    Submenu { label: &'static str, items: Vec<MenuItem> },
    Separator,
}

/// What an item shows.
pub struct ItemModel {
    pub id: int,
    pub label: Seq<char>,
    pub checked: bool,
}

/// What a line shows.
pub enum EntryModel {
    Item(ItemModel),
    Submenu(Seq<char>, Seq<ItemModel>),
    Separator,
}

impl View for MenuItem {
    type V = ItemModel;

    open spec fn view(&self) -> ItemModel {
        ItemModel { id: self.id as int, label: self.label@, checked: self.checked }
    }
}

impl View for MenuEntry {
    type V = EntryModel;

    open spec fn view(&self) -> EntryModel {
        match self {
            MenuEntry::Item(item) => EntryModel::Item(item@),
            MenuEntry::Submenu { label, items } => EntryModel::Submenu(
                label@,
                item_models(items@),
            ),
            MenuEntry::Separator => EntryModel::Separator,
        }
    }
}

pub open spec fn item_models(items: Seq<MenuItem>) -> Seq<ItemModel> {
    Seq::new(items.len(), |i: int| items[i]@)
}

pub open spec fn entry_models(entries: Seq<MenuEntry>) -> Seq<EntryModel> {
    Seq::new(entries.len(), |i: int| entries[i]@)
}

pub open spec fn item_model(id: usize, label: Seq<char>, checked: bool) -> ItemModel {
    ItemModel { id: id as int, label, checked }
}

pub open spec fn is_stamp(tool: DrawTool, id: Seq<char>) -> bool {
    tool is Stamp && tool->Stamp_0@ == id
}

/// The shapes submenu: the shape in use is checked.
pub open spec fn shape_items(tool: DrawTool) -> Seq<ItemModel> {
    seq![
        item_model(ID_TOOL_LINE, "直線"@, tool is Line),
        item_model(ID_TOOL_ARROW, "矢印"@, tool is Arrow),
        item_model(ID_TOOL_RECTANGLE, "四角形"@, tool is Rectangle),
        item_model(ID_TOOL_ELLIPSE, "楕円"@, tool is Ellipse),
    ]
}

/// The stamps submenu: one item per registered stamp, in order.
pub open spec fn stamp_items(tool: DrawTool, stamps: Seq<StampEntry>) -> Seq<ItemModel> {
    Seq::new(
        stamps.len(),
        |i: int|
            ItemModel {
                id: ID_STAMP_BASE + i,
                label: text::escaped(stamps[i].name@),
                checked: is_stamp(tool, stamps[i].id@),
            },
    )
}

/// The colors submenu: one item per color of the palette, in order.
pub open spec fn color_items(color: Seq<char>) -> Seq<ItemModel> {
    Seq::new(
        COLOR_COUNT as nat,
        |i: int|
            ItemModel {
                id: ID_COLOR_BASE + i,
                label: COLORS@[i].0@,
                checked: text::same_ignoring_ascii_case(COLORS@[i].1@, color),
            },
    )
}

/// The whole menu. Without registered stamps there is no submenu for them.
pub open spec fn menu_model(
    tool: DrawTool,
    color: Seq<char>,
    stamps: Seq<StampEntry>,
) -> Seq<EntryModel> {
    seq![
        EntryModel::Item(item_model(ID_TOOL_PEN, "ペン"@, tool is Pen)),
        EntryModel::Item(item_model(ID_TOOL_MARKER, "マーカー"@, tool is Marker)),
        EntryModel::Item(item_model(ID_TOOL_ERASER, "消しゴム"@, tool is Eraser)),
        EntryModel::Submenu("図形"@, shape_items(tool)),
    ] + (if stamps.len() > 0 {
        seq![EntryModel::Submenu("スタンプ"@, stamp_items(tool, stamps))]
    } else {
        Seq::empty()
    }) + seq![
        EntryModel::Separator,
        EntryModel::Submenu("色"@, color_items(color)),
        EntryModel::Separator,
        EntryModel::Item(item_model(ID_UNDO, "元に戻す"@, false)),
        EntryModel::Item(item_model(ID_CLEAR, "全消去"@, false)),
        EntryModel::Separator,
        EntryModel::Item(item_model(ID_EXIT, "終了"@, false)),
    ]
}

fn item(id: usize, label: &str, checked: bool) -> (item: MenuItem)
    ensures
        item@ == item_model(id, label@, checked),
{
    MenuItem { id, label: label.to_owned(), checked }
}

/// The entries to show for the tool and color in use.
pub fn entries(tool: &DrawTool, color: &str, stamps: &[StampEntry]) -> (entries: Vec<MenuEntry>)
    requires
        ID_STAMP_BASE + stamps@.len() <= usize::MAX,
    ensures
        entry_models(entries@) == menu_model(*tool, color@, stamps@),
{
    let mut entries: Vec<MenuEntry> = Vec::new();
    entries.push(MenuEntry::Item(item(ID_TOOL_PEN, "ペン", matches!(tool, DrawTool::Pen))));
    entries.push(
        MenuEntry::Item(item(ID_TOOL_MARKER, "マーカー", matches!(tool, DrawTool::Marker))),
    );
    entries.push(
        MenuEntry::Item(item(ID_TOOL_ERASER, "消しゴム", matches!(tool, DrawTool::Eraser))),
    );

    let mut shapes: Vec<MenuItem> = Vec::new();
    shapes.push(item(ID_TOOL_LINE, "直線", matches!(tool, DrawTool::Line)));
    shapes.push(item(ID_TOOL_ARROW, "矢印", matches!(tool, DrawTool::Arrow)));
    shapes.push(item(ID_TOOL_RECTANGLE, "四角形", matches!(tool, DrawTool::Rectangle)));
    shapes.push(item(ID_TOOL_ELLIPSE, "楕円", matches!(tool, DrawTool::Ellipse)));
    assert(item_models(shapes@) =~= shape_items(*tool));
    entries.push(MenuEntry::Submenu { label: "図形", items: shapes });

    if stamps.len() > 0 {
        let mut items: Vec<MenuItem> = Vec::new();
        for i in 0..stamps.len()
            invariant
                ID_STAMP_BASE + stamps@.len() <= usize::MAX,
                items@.len() == i,
                forall|j: int|
                    0 <= j < i ==> (#[trigger] items@[j])@ == stamp_items(*tool, stamps@)[j],
        {
            let stamp = &stamps[i];
            let checked = match tool {
                DrawTool::Stamp(id) => *id == stamp.id,
                _ => false,
            };
            items.push(
                MenuItem {
                    id: ID_STAMP_BASE + i,
                    label: text::escape_ampersands(&stamp.name),
                    checked,
                },
            );
        }
        assert(item_models(items@) =~= stamp_items(*tool, stamps@));
        entries.push(MenuEntry::Submenu { label: "スタンプ", items });
    }
    entries.push(MenuEntry::Separator);

    let mut palette: Vec<MenuItem> = Vec::new();
    for i in 0..COLOR_COUNT
        invariant
            palette@.len() == i,
            forall|j: int| 0 <= j < i ==> (#[trigger] palette@[j])@ == color_items(color@)[j],
    {
        let (name, value) = COLORS[i];
        palette.push(
            MenuItem {
                id: ID_COLOR_BASE + i,
                label: name.to_owned(),
                checked: text::eq_ignore_ascii_case(value, color),
            },
        );
    }
    assert(item_models(palette@) =~= color_items(color@));
    entries.push(MenuEntry::Submenu { label: "色", items: palette });
    entries.push(MenuEntry::Separator);
    entries.push(MenuEntry::Item(item(ID_UNDO, "元に戻す", false)));
    entries.push(MenuEntry::Item(item(ID_CLEAR, "全消去", false)));
    entries.push(MenuEntry::Separator);
    entries.push(MenuEntry::Item(item(ID_EXIT, "終了", false)));
    assert(entry_models(entries@) =~= menu_model(*tool, color@, stamps@));
    entries
}

/// What choosing an identifier means.
pub open spec fn action_model(selected: usize, stamps: Seq<StampEntry>) -> Option<MenuAction> {
    if selected == ID_TOOL_PEN {
        Some(MenuAction::SelectTool(DrawTool::Pen))
    } else if selected == ID_TOOL_MARKER {
        Some(MenuAction::SelectTool(DrawTool::Marker))
    } else if selected == ID_TOOL_ERASER {
        Some(MenuAction::SelectTool(DrawTool::Eraser))
    } else if selected == ID_TOOL_LINE {
        Some(MenuAction::SelectTool(DrawTool::Line))
    } else if selected == ID_TOOL_ARROW {
        Some(MenuAction::SelectTool(DrawTool::Arrow))
    } else if selected == ID_TOOL_RECTANGLE {
        Some(MenuAction::SelectTool(DrawTool::Rectangle))
    } else if selected == ID_TOOL_ELLIPSE {
        Some(MenuAction::SelectTool(DrawTool::Ellipse))
    } else if selected == ID_UNDO {
        Some(MenuAction::Undo)
    } else if selected == ID_CLEAR {
        Some(MenuAction::Clear)
    } else if selected == ID_EXIT {
        Some(MenuAction::Exit)
    } else if ID_COLOR_BASE <= selected < ID_COLOR_BASE + COLOR_COUNT {
        Some(MenuAction::SelectColor(COLORS@[selected - ID_COLOR_BASE].1))
    } else if ID_STAMP_BASE <= selected < ID_STAMP_BASE + stamps.len() {
        Some(MenuAction::SelectTool(DrawTool::Stamp(stamps[selected - ID_STAMP_BASE].id)))
    } else {
        None
    }
}

/// The command behind the identifier that was chosen, if any.
pub fn action_for(selected: usize, stamps: &[StampEntry]) -> (action: Option<MenuAction>)
    ensures
        action == action_model(selected, stamps@),
{
    match selected {
        ID_TOOL_PEN => Some(MenuAction::SelectTool(DrawTool::Pen)),
        ID_TOOL_MARKER => Some(MenuAction::SelectTool(DrawTool::Marker)),
        ID_TOOL_ERASER => Some(MenuAction::SelectTool(DrawTool::Eraser)),
        ID_TOOL_LINE => Some(MenuAction::SelectTool(DrawTool::Line)),
        ID_TOOL_ARROW => Some(MenuAction::SelectTool(DrawTool::Arrow)),
        ID_TOOL_RECTANGLE => Some(MenuAction::SelectTool(DrawTool::Rectangle)),
        ID_TOOL_ELLIPSE => Some(MenuAction::SelectTool(DrawTool::Ellipse)),
        ID_UNDO => Some(MenuAction::Undo),
        ID_CLEAR => Some(MenuAction::Clear),
        ID_EXIT => Some(MenuAction::Exit),
        _ => {
            if ID_COLOR_BASE <= selected && selected < ID_COLOR_BASE + COLOR_COUNT {
                Some(MenuAction::SelectColor(COLORS[selected - ID_COLOR_BASE].1))
            } else if ID_STAMP_BASE <= selected && selected - ID_STAMP_BASE < stamps.len() {
                Some(
                    MenuAction::SelectTool(
                        DrawTool::Stamp(stamps[selected - ID_STAMP_BASE].id.clone()),
                    ),
                )
            } else {
                None
            }
        },
    }
}

/// Whether a line offers this identifier.
pub open spec fn offers(entry: EntryModel, id: int) -> bool {
    match entry {
        EntryModel::Item(item) => item.id == id,
        EntryModel::Submenu(_, items) => exists|j: int|
            0 <= j < items.len() && (#[trigger] items[j]).id == id,
        EntryModel::Separator => false,
    }
}

/// Whether an item with this identifier is somewhere in the menu.
pub open spec fn shows(model: Seq<EntryModel>, id: int) -> bool {
    exists|i: int| 0 <= i < model.len() && #[trigger] offers(model[i], id)
}

/// Every item of the menu has a command, and every command of the menu has an item.
pub proof fn law_the_menu_offers_exactly_its_commands(
    tool: DrawTool,
    color: Seq<char>,
    stamps: Seq<StampEntry>,
    selected: usize,
)
    ensures
        shows(menu_model(tool, color, stamps), selected as int) <==> action_model(
            selected,
            stamps,
        ) is Some,
{
    let id = selected as int;
    let model = menu_model(tool, color, stamps);
    let tail: int = if stamps.len() > 0 {
        5
    } else {
        4
    };
    let shapes = shape_items(tool);
    assert(model.len() == tail + 7);
    assert(model[3] == EntryModel::Submenu("図形"@, shapes));
    assert(stamps.len() > 0 ==> model[4] == EntryModel::Submenu(
        "スタンプ"@,
        stamp_items(tool, stamps),
    ));
    assert(model[tail + 1] == EntryModel::Submenu("色"@, color_items(color)));
    if shows(model, id) {
        let i = choose|i: int| 0 <= i < model.len() && #[trigger] offers(model[i], id);
        if model[i] is Submenu {
            let items = model[i]->Submenu_1;
            let j = choose|j: int| 0 <= j < items.len() && (#[trigger] items[j]).id == id;
            assert(i == 3 || i == tail + 1 || (i == 4 && stamps.len() > 0));
        }
    }
    if action_model(selected, stamps) is Some {
        if id <= ID_TOOL_ERASER {
            assert(offers(model[id - ID_TOOL_PEN], id));
        } else if id <= ID_TOOL_ELLIPSE {
            assert(model[3]->Submenu_1[id - ID_TOOL_LINE].id == id);
            assert(offers(model[3], id));
        } else if id == ID_UNDO {
            assert(offers(model[tail + 3], id));
        } else if id == ID_CLEAR {
            assert(offers(model[tail + 4], id));
        } else if id == ID_EXIT {
            assert(offers(model[tail + 6], id));
        } else if id < ID_STAMP_BASE {
            assert(model[tail + 1]->Submenu_1[id - ID_COLOR_BASE].id == id);
            assert(offers(model[tail + 1], id));
        } else {
            assert(model[4]->Submenu_1[id - ID_STAMP_BASE].id == id);
            assert(offers(model[4], id));
        }
    }
}

/// Each item does what its label says, and the item of the tool in use is checked, and no other
/// tool's.
pub proof fn law_an_item_does_what_it_says(
    tool: DrawTool,
    color: Seq<char>,
    stamps: Seq<StampEntry>,
)
    ensures
        ({
            let model = menu_model(tool, color, stamps);
            let action = |item: ItemModel| action_model(item.id as usize, stamps);
            let chooses = |item: ItemModel, label: Seq<char>, chosen: DrawTool| {
                &&& item.label == label
                &&& action(item) == Some(MenuAction::SelectTool(chosen))
                &&& item.checked == (tool == chosen)
            };
            let end = model.len();
            &&& model[0] is Item && chooses(model[0]->Item_0, "ペン"@, DrawTool::Pen)
            &&& model[1] is Item && chooses(model[1]->Item_0, "マーカー"@, DrawTool::Marker)
            &&& model[2] is Item && chooses(model[2]->Item_0, "消しゴム"@, DrawTool::Eraser)
            &&& model[3] is Submenu && {
                let shapes = model[3]->Submenu_1;
                &&& shapes.len() == 4
                &&& chooses(shapes[0], "直線"@, DrawTool::Line)
                &&& chooses(shapes[1], "矢印"@, DrawTool::Arrow)
                &&& chooses(shapes[2], "四角形"@, DrawTool::Rectangle)
                &&& chooses(shapes[3], "楕円"@, DrawTool::Ellipse)
            }
            &&& model[end - 4] is Item && model[end - 4]->Item_0.label == "元に戻す"@ && action(
                model[end - 4]->Item_0,
            ) == Some(MenuAction::Undo) && !model[end - 4]->Item_0.checked
            &&& model[end - 3] is Item && model[end - 3]->Item_0.label == "全消去"@ && action(
                model[end - 3]->Item_0,
            ) == Some(MenuAction::Clear) && !model[end - 3]->Item_0.checked
            &&& model[end - 1] is Item && model[end - 1]->Item_0.label == "終了"@ && action(
                model[end - 1]->Item_0,
            ) == Some(MenuAction::Exit) && !model[end - 1]->Item_0.checked
        }),
{
    let model = menu_model(tool, color, stamps);
    let shapes = shape_items(tool);
    assert(model[3] == EntryModel::Submenu("図形"@, shapes));
}

/// The palette offers its ten colors by name, each chooses its own value, and the one in use is
/// checked, in whichever case it is written.
pub proof fn law_the_palette_offers_every_color(
    tool: DrawTool,
    color: Seq<char>,
    stamps: Seq<StampEntry>,
    i: int,
)
    requires
        0 <= i < 10,
    ensures
        ({
            let model = menu_model(tool, color, stamps);
            let palette = model[model.len() - 6];
            &&& palette is Submenu
            &&& palette->Submenu_0 == "色"@
            &&& palette->Submenu_1.len() == 10
            &&& palette->Submenu_1[i].label == COLORS@[i].0@
            &&& palette->Submenu_1[i].checked == text::same_ignoring_ascii_case(
                COLORS@[i].1@,
                color,
            )
            &&& action_model(palette->Submenu_1[i].id as usize, stamps) == Some(
                MenuAction::SelectColor(COLORS@[i].1),
            )
        }),
{
}

/// Registered stamps have a submenu, with an item for each in order, that takes that very stamp in
/// hand and is checked where it is; without any there is none.
pub proof fn law_the_menu_offers_every_stamp(
    tool: DrawTool,
    color: Seq<char>,
    stamps: Seq<StampEntry>,
    i: int,
)
    requires
        ID_STAMP_BASE + stamps.len() <= usize::MAX,
    ensures
        ({
            let model = menu_model(tool, color, stamps);
            &&& stamps.len() == 0 ==> model.len() == 11 && model[4] is Separator
            &&& stamps.len() > 0 ==> {
                &&& model.len() == 12
                &&& model[4] is Submenu
                &&& model[4]->Submenu_0 == "スタンプ"@
                &&& model[4]->Submenu_1.len() == stamps.len()
            }
            &&& 0 <= i < stamps.len() ==> {
                let item = model[4]->Submenu_1[i];
                &&& item.label == text::escaped(stamps[i].name@)
                &&& item.checked == (tool is Stamp && tool->Stamp_0@ == stamps[i].id@)
                &&& action_model(item.id as usize, stamps) == Some(
                    MenuAction::SelectTool(DrawTool::Stamp(stamps[i].id)),
                )
            }
        }),
{
}

} // verus!
