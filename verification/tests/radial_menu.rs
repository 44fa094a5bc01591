//! The radial menu under a pointer, at the size that it has on a full HD screen, and its looks.

use std::f64::consts::{PI, TAU};
use stream_painter::menu::{DrawTool, MenuAction, StampEntry, COLORS, COLOR_COUNT};
use stream_painter::radial_menu::{
    command_label, tool_at, tool_label, OuterSpot, PointerSpot, RadialCommand, RadialLayerEntry,
    RadialMenu, RadialRelease, RadialSelection, Zone, DRAW_TOOL_COUNT, MAX_LAYERS,
    STAMPS_PER_RING, STAMP_TOOL_INDEX, TOOL_COUNT,
};
use stream_painter::radial_scene::{
    center_label, center_look, color_sector, command_button, radial_indicator, stamp_sectors,
    tool_sector, Shade,
};

const TOOL_INNER: f64 = 38.0;
const TOOL_OUTER: f64 = 104.0;
const COLOR_INNER: f64 = 116.0;
const COLOR_OUTER: f64 = 174.0;
const RING_STEP: f64 = 65.0;
const TOLERANCE: f64 = 8.0;

fn sector_index(dx: f64, dy: f64, count: usize) -> usize {
    let width = TAU / count as f64;
    let from_top = (dy.atan2(dx) + PI / 2.0 + width / 2.0).rem_euclid(TAU);
    (from_top / width).floor() as usize % count
}

fn point(index: usize, count: usize, radius: f64) -> (f64, f64) {
    let angle = -PI / 2.0 + index as f64 * TAU / count as f64;
    (radius * angle.cos(), radius * angle.sin())
}

/// What lies at a point, seen from the center, of a menu that opened there.
fn spot(menu: &RadialMenu, (dx, dy): (f64, f64)) -> PointerSpot {
    let distance = dx.hypot(dy);
    let zone = if distance < TOOL_INNER {
        Zone::Center
    } else if distance <= TOOL_OUTER {
        Zone::ToolRing { sector: sector_index(dx, dy, TOOL_COUNT) }
    } else {
        let band = ((distance - COLOR_INNER) / RING_STEP).floor().max(0.0) as usize;
        let ring = if menu.stamp_count() > 0 { menu.nearest_stamp_ring(band) } else { 0 };
        let inner = COLOR_INNER + ring as f64 * RING_STEP;
        Zone::Outer(OuterSpot {
            reaches_colors: distance >= COLOR_INNER,
            within_colors: distance <= COLOR_OUTER,
            color_sector: sector_index(dx, dy, COLOR_COUNT),
            band,
            reaches_ring: distance >= inner,
            passes_ring: distance > inner + (COLOR_OUTER - COLOR_INNER),
            stamp_slot: sector_index(dx, dy, STAMPS_PER_RING),
        })
    };
    PointerSpot {
        left_anchor: distance >= TOLERANCE,
        over_add: false,
        over_delete: false,
        layer_row: None,
        command: None,
        zone,
    }
}

fn update(menu: &mut RadialMenu, point: (f64, f64)) -> bool {
    let spot = spot(menu, point);
    menu.update(spot)
}

fn release(menu: &mut RadialMenu, point: (f64, f64)) -> RadialRelease {
    let spot = spot(menu, point);
    menu.release(spot)
}

/// A place beside the rings.
fn beside() -> PointerSpot {
    PointerSpot {
        left_anchor: true,
        over_add: false,
        over_delete: false,
        layer_row: None,
        command: None,
        zone: Zone::Outer(OuterSpot {
            reaches_colors: true,
            within_colors: false,
            color_sector: 0,
            band: 9,
            reaches_ring: true,
            passes_ring: true,
            stamp_slot: 0,
        }),
    }
}

fn command_point(command: RadialCommand) -> PointerSpot {
    PointerSpot { command: Some(command), ..beside() }
}

fn layer_row(row: usize) -> PointerSpot {
    PointerSpot { layer_row: Some(row), ..beside() }
}

fn menu_with_history(stamp_count: usize, undo: bool, redo: bool, clear: bool) -> RadialMenu {
    RadialMenu::new_with_layers(1, stamp_count, (undo, redo, clear), Vec::new(), String::new())
}

fn menu(stamp_count: usize) -> RadialMenu {
    menu_with_history(stamp_count, false, false, false)
}

fn layer_entries(count: usize) -> Vec<RadialLayerEntry> {
    (0..count)
        .map(|index| RadialLayerEntry {
            layer_id: format!("layer-{index}"),
            name: format!("Layer {}", index + 1),
            item_count: index * 3,
        })
        .collect()
}

fn layer_menu(count: usize, active: usize) -> RadialMenu {
    RadialMenu::new_with_layers(
        1,
        0,
        (true, true, true),
        layer_entries(count),
        format!("layer-{active}"),
    )
}

fn pin(mut menu: RadialMenu) -> RadialMenu {
    assert_eq!(release(&mut menu, (3.0, -2.0)), RadialRelease::Pin);
    assert!(menu.is_pinned());
    menu
}

#[test]
fn tool_ring_selects_each_tool_by_direction() {
    for index in 0..DRAW_TOOL_COUNT {
        let mut menu = menu(0);
        update(&mut menu, point(index, TOOL_COUNT, 72.0));
        assert_eq!(menu.highlighted(), Some(RadialSelection::Tool(index)));
        assert_eq!(
            release(&mut menu, point(index, TOOL_COUNT, 72.0)),
            RadialRelease::Action {
                action: MenuAction::SelectTool(tool_at(index).unwrap()),
                keep_open: false,
            }
        );
    }
}

#[test]
fn outer_ring_selects_each_color_by_direction() {
    for (index, (_, color)) in COLORS.iter().enumerate() {
        let mut menu = menu(0);
        update(&mut menu, point(index, COLOR_COUNT, 145.0));
        assert_eq!(menu.highlighted(), Some(RadialSelection::Color(index)));
        assert_eq!(
            release(&mut menu, point(index, COLOR_COUNT, 145.0)),
            RadialRelease::Action { action: MenuAction::SelectColor(color), keep_open: false }
        );
    }
}

#[test]
fn center_release_pins_then_center_click_opens_the_legacy_menu() {
    let mut menu = pin(menu(0));
    assert!(menu.begin_click(2));
    assert_eq!(release(&mut menu, (3.0, -2.0)), RadialRelease::LegacyMenu);
}

#[test]
fn pinned_menu_accepts_a_left_or_right_click_selection() {
    let mut menu = pin(menu(0));
    assert!(menu.begin_click(2));
    let target = point(2, TOOL_COUNT, 72.0);
    update(&mut menu, target);
    assert_eq!(
        release(&mut menu, target),
        RadialRelease::Action {
            action: MenuAction::SelectTool(DrawTool::Marker),
            keep_open: false,
        }
    );
}

#[test]
fn undo_and_redo_stay_open_but_clear_closes() {
    for (command, action, keep_open) in [
        (RadialCommand::Undo, MenuAction::Undo, true),
        (RadialCommand::Redo, MenuAction::Redo, true),
        (RadialCommand::Clear, MenuAction::Clear, false),
    ] {
        let mut menu = pin(menu_with_history(0, true, true, true));
        let target = command_point(command);
        assert!(menu.begin_click(2));
        menu.update(target);
        let outcome = menu.release(target);
        assert_eq!(outcome.keeps_menu_open(), keep_open);
        assert_eq!(outcome, RadialRelease::Action { action, keep_open });
    }
}

#[test]
fn disabled_history_command_keeps_the_pinned_menu_open() {
    let mut menu = pin(menu(0));
    let target = command_point(RadialCommand::Undo);
    assert!(menu.begin_click(2));
    menu.update(target);
    assert_eq!(menu.highlighted(), Some(RadialSelection::Command(RadialCommand::Undo)));
    assert_eq!(menu.release(target), RadialRelease::StayOpen);
}

#[test]
fn clear_availability_is_independent_from_undo_history() {
    let mut menu = menu_with_history(0, false, true, true);
    assert!(!menu.command_enabled(RadialCommand::Undo));
    assert!(menu.command_enabled(RadialCommand::Redo));
    assert!(menu.command_enabled(RadialCommand::Clear));

    assert!(menu.set_command_availability(true, false, false));
    assert!(menu.command_enabled(RadialCommand::Undo));
    assert!(!menu.command_enabled(RadialCommand::Redo));
    assert!(!menu.command_enabled(RadialCommand::Clear));
    assert!(!menu.set_command_availability(true, false, false));
}

#[test]
fn releasing_in_the_gap_after_a_gesture_cancels() {
    assert_eq!(release(&mut menu(0), (110.0, 0.0)), RadialRelease::Cancel);
}

#[test]
fn stamp_category_is_disabled_without_registered_stamps() {
    let mut menu = menu(0);
    let category = point(STAMP_TOOL_INDEX, TOOL_COUNT, 72.0);
    update(&mut menu, category);
    assert_eq!(menu.highlighted(), Some(RadialSelection::StampCategory));
    assert!(!menu.stamp_mode());
    assert_eq!(release(&mut menu, category), RadialRelease::Cancel);
}

#[test]
fn stamp_category_switches_the_outer_rings_to_stamps() {
    let mut menu = menu(9);
    update(&mut menu, point(STAMP_TOOL_INDEX, TOOL_COUNT, 72.0));
    assert!(menu.stamp_mode());
    assert_eq!(menu.stamp_ring_count(), 2);

    update(&mut menu, point(3, STAMPS_PER_RING, 145.0));
    assert_eq!(menu.highlighted(), Some(RadialSelection::Stamp(3)));
    assert_eq!(
        release(&mut menu, point(3, STAMPS_PER_RING, 145.0)),
        RadialRelease::Stamp(3)
    );
}

#[test]
fn all_four_stamp_rings_are_selectable() {
    for index in 0..32 {
        let ring = index / STAMPS_PER_RING;
        let slot = index % STAMPS_PER_RING;
        let mut menu = menu(32);
        update(&mut menu, point(STAMP_TOOL_INDEX, TOOL_COUNT, 72.0));
        let middle = COLOR_INNER + ring as f64 * RING_STEP + (COLOR_OUTER - COLOR_INNER) / 2.0;
        let target = point(slot, STAMPS_PER_RING, middle);
        update(&mut menu, target);
        assert_eq!(menu.highlighted(), Some(RadialSelection::Stamp(index)));
        assert_eq!(release(&mut menu, target), RadialRelease::Stamp(index));
    }
}

#[test]
fn returning_to_the_center_restores_color_selection() {
    let mut menu = menu(8);
    update(&mut menu, point(STAMP_TOOL_INDEX, TOOL_COUNT, 72.0));
    assert!(menu.stamp_mode());
    update(&mut menu, (0.0, 0.0));
    assert!(!menu.stamp_mode());
    assert_eq!(menu.highlighted(), Some(RadialSelection::StandardMenu));
    update(&mut menu, point(2, COLOR_COUNT, 145.0));
    assert_eq!(menu.highlighted(), Some(RadialSelection::Color(2)));
}

#[test]
fn pinned_outer_ring_does_not_capture_clicks_far_outside() {
    let mut menu = pin(menu(0));
    update(&mut menu, (400.0, 0.0));
    assert_eq!(menu.highlighted(), None);
    assert!(menu.begin_click(2));
    assert_eq!(release(&mut menu, (400.0, 0.0)), RadialRelease::Cancel);
}

#[test]
fn adjusted_center_preserves_hold_pin_legacy_menu_and_pinned_clicks() {
    // The menu has moved away from where the gesture began: the pointer is on another part, but
    // has not moved.
    let anchor = PointerSpot { left_anchor: false, zone: Zone::ToolRing { sector: 1 }, ..beside() };
    let opened = || menu_with_history(32, true, true, true);
    let mut menu = opened();
    assert_eq!(menu.release(anchor), RadialRelease::Pin);
    assert!(menu.begin_click(2));
    let center = PointerSpot { zone: Zone::Center, ..beside() };
    assert_eq!(menu.release(center), RadialRelease::LegacyMenu);

    let mut menu = opened();
    assert_eq!(menu.release(anchor), RadialRelease::Pin);
    assert!(menu.begin_click(2));
    let target = PointerSpot { zone: Zone::ToolRing { sector: 2 }, ..beside() };
    assert_eq!(
        menu.release(target),
        RadialRelease::Action {
            action: MenuAction::SelectTool(DrawTool::Marker),
            keep_open: false,
        }
    );
}

#[test]
fn returning_to_the_adjusted_visual_center_pins_the_hold_menu() {
    let mut menu = menu(32);
    menu.update(PointerSpot { zone: Zone::ToolRing { sector: 1 }, ..beside() });
    let center = PointerSpot { zone: Zone::Center, ..beside() };
    assert_eq!(menu.release(center), RadialRelease::Pin);
}

#[test]
fn pinned_layer_rows_add_and_delete_are_directly_hittable() {
    let mut menu = pin(layer_menu(3, 1));
    assert_eq!(menu.layer_rows(), vec![2, 1, 0]);
    for (row, index) in menu.layer_rows().into_iter().enumerate() {
        assert!(menu.begin_click(10 + index as u32));
        let target = layer_row(row);
        menu.update(target);
        assert_eq!(menu.highlighted(), Some(RadialSelection::Layer(index)));
        assert_eq!(
            menu.release(target),
            RadialRelease::Action {
                action: MenuAction::SelectLayer(format!("layer-{index}")),
                keep_open: true,
            }
        );
    }

    assert!(menu.begin_click(20));
    let add = PointerSpot { over_add: true, ..beside() };
    menu.update(add);
    assert_eq!(menu.highlighted(), Some(RadialSelection::LayerAdd));
    assert_eq!(
        menu.release(add),
        RadialRelease::Action { action: MenuAction::AddLayer, keep_open: true }
    );

    assert!(menu.begin_click(21));
    assert_eq!(menu.active_row(), Some(1));
    let delete = PointerSpot { over_delete: true, ..layer_row(1) };
    menu.update(delete);
    assert_eq!(menu.highlighted(), Some(RadialSelection::LayerDelete));
    assert_eq!(
        menu.release(delete),
        RadialRelease::Action {
            action: MenuAction::DeleteLayer("layer-1".into()),
            keep_open: true,
        },
        "confirmation No/Yes can keep the pinned layer panel open"
    );
}

#[test]
fn layer_row_works_for_hold_and_pinned_left_or_right_clicks() {
    let mut hold = layer_menu(2, 0);
    let target = layer_row(0);
    hold.update(target);
    assert_eq!(
        hold.release(target),
        RadialRelease::Action {
            action: MenuAction::SelectLayer("layer-1".into()),
            keep_open: false,
        }
    );

    for pointer_id in [2, 3] {
        let mut pinned = pin(layer_menu(2, 0));
        assert!(pinned.begin_click(pointer_id));
        pinned.update(target);
        assert_eq!(
            pinned.release(target),
            RadialRelease::Action {
                action: MenuAction::SelectLayer("layer-1".into()),
                keep_open: true,
            }
        );
    }
}

#[test]
fn layer_limits_disable_add_and_last_layer_delete() {
    let mut maximum = pin(layer_menu(MAX_LAYERS, 7));
    assert!(maximum.begin_click(2));
    let add = PointerSpot { over_add: true, ..beside() };
    maximum.update(add);
    assert_eq!(maximum.highlighted(), Some(RadialSelection::LayerAdd));
    assert_eq!(maximum.release(add), RadialRelease::StayOpen);

    let mut last = pin(layer_menu(1, 0));
    assert!(last.begin_click(2));
    let delete = PointerSpot { over_delete: true, ..layer_row(0) };
    last.update(delete);
    assert_eq!(last.highlighted(), Some(RadialSelection::Layer(0)));
    assert_eq!(
        last.release(delete),
        RadialRelease::Action {
            action: MenuAction::SelectLayer("layer-0".into()),
            keep_open: true,
        }
    );
}

#[test]
fn set_layers_refreshes_active_layer_names_and_counts() {
    let mut menu = layer_menu(2, 0);
    let refreshed = vec![
        RadialLayerEntry {
            layer_id: "layer-0".into(),
            name: "Background".into(),
            item_count: 42,
        },
        RadialLayerEntry {
            layer_id: "layer-1".into(),
            name: "Foreground".into(),
            item_count: 7,
        },
        RadialLayerEntry { layer_id: "layer-2".into(), name: "Notes".into(), item_count: 1 },
    ];
    assert!(menu.set_layers(refreshed.clone(), "layer-2".into()));
    assert_eq!(menu.layers(), refreshed);
    assert_eq!(menu.active_layer_id(), "layer-2");
    assert!(!menu.set_layers(refreshed, "layer-2".into()));
}

#[test]
fn rings_hold_eight_stamps_each() {
    let menu = menu(11);
    assert_eq!(menu.stamp_ring_count(), 2);
    assert_eq!(menu.stamp_ring_item_count(0), 8);
    assert_eq!(menu.stamp_ring_item_count(1), 3);
    assert_eq!(menu.stamp_ring_item_count(2), 0);
    assert_eq!(menu.nearest_stamp_ring(5), 1);
    // A place of the second ring that no stamp fills.
    let mut open = RadialMenu::new_with_layers(1, 11, (false, false, false), vec![], String::new());
    update(&mut open, point(STAMP_TOOL_INDEX, TOOL_COUNT, 72.0));
    update(&mut open, point(5, STAMPS_PER_RING, 210.0));
    assert_eq!(open.highlighted(), None);
    // While it is held, the last ring reaches outward without end.
    update(&mut open, point(2, STAMPS_PER_RING, 900.0));
    assert_eq!(open.highlighted(), Some(RadialSelection::Stamp(10)));
}

#[test]
fn the_menu_knows_its_pointers() {
    let mut menu = menu(0);
    assert!(menu.owns_pointer(1) && !menu.owns_pointer(2));
    assert!(menu.accepts_update_from(1) && !menu.accepts_update_from(2));
    assert!(!menu.begin_click(2));
    assert!(menu.has_active_pointer());
    let mut pinned = pin(menu_with_history(0, true, true, true));
    assert!(!pinned.has_active_pointer());
    assert!(pinned.accepts_update_from(7));
    assert!(pinned.begin_click(3));
    assert!(!pinned.accepts_update_from(7));
    assert!(pinned.cancel_active_pointer());
    assert!(!pinned.cancel_active_pointer());
    assert!(menu.cancel_active_pointer());
}

#[test]
fn parts_have_their_labels() {
    assert_eq!(tool_at(DRAW_TOOL_COUNT), None);
    assert_eq!(tool_at(0), Some(DrawTool::Select));
    assert_eq!(tool_label(STAMP_TOOL_INDEX), Some("スタンプ"));
    assert_eq!(tool_label(TOOL_COUNT), None);
    assert_eq!(tool_label(3), Some("消しゴム"));
    assert_eq!(command_label(RadialCommand::Undo), "↶  元に戻す");
    assert_eq!(command_label(RadialCommand::Redo), "↷  やり直す");
    assert_eq!(command_label(RadialCommand::Clear), "全消去");
}

fn stamps() -> Vec<StampEntry> {
    ["heart", "star"]
        .iter()
        .map(|id| StampEntry { id: (*id).to_owned(), name: format!("{id} stamp") })
        .collect()
}

fn shade(red: u32, green: u32, blue: u32, alpha: u32) -> Shade {
    Shade { red, green, blue, alpha }
}

#[test]
fn tools_are_shown_by_their_state() {
    let mut menu = menu(2);
    update(&mut menu, point(1, TOOL_COUNT, 72.0));
    let pointed = tool_sector(&menu, 1, &DrawTool::Eraser, &stamps());
    assert!(pointed.highlighted && !pointed.current);
    assert_eq!(pointed.fill, shade(120, 520, 760, 980));
    assert_eq!(pointed.outline_width, 30);
    let in_use = tool_sector(&menu, 3, &DrawTool::Eraser, &stamps());
    assert!(!in_use.highlighted && in_use.current);
    assert_eq!(in_use.fill, shade(80, 260, 360, 960));
    assert_eq!(in_use.outline_width, 15);
    let plain = tool_sector(&menu, 4, &DrawTool::Eraser, &stamps());
    assert_eq!(plain.fill, shade(55, 65, 85, 940));
    let disabled = tool_sector(&menu, STAMP_TOOL_INDEX, &DrawTool::Eraser, &[]);
    assert_eq!(disabled.fill, shade(35, 40, 50, 780));
    let stamp = DrawTool::Stamp("star".to_owned());
    assert!(tool_sector(&menu, STAMP_TOOL_INDEX, &stamp, &stamps()).current);
    // With the stamps on the rings their sector stays marked.
    update(&mut menu, point(STAMP_TOOL_INDEX, TOOL_COUNT, 72.0));
    update(&mut menu, point(0, STAMPS_PER_RING, 145.0));
    assert!(tool_sector(&menu, STAMP_TOOL_INDEX, &DrawTool::Pen, &stamps()).highlighted);
}

#[test]
fn stamps_and_colors_are_shown_by_their_state() {
    let mut menu = menu(2);
    update(&mut menu, point(STAMP_TOOL_INDEX, TOOL_COUNT, 72.0));
    update(&mut menu, point(1, STAMPS_PER_RING, 145.0));
    let sectors = stamp_sectors(&menu, &DrawTool::Stamp("heart".to_owned()), &stamps());
    assert_eq!(sectors.len(), 2);
    assert_eq!((sectors[1].index, sectors[1].ring, sectors[1].slot), (1, 0, 1));
    assert!(sectors[0].look.current && !sectors[0].look.highlighted);
    assert!(sectors[1].look.highlighted && !sectors[1].look.current);
    assert_eq!(sectors[1].look.fill, shade(120, 520, 760, 980));
    let many = RadialMenu::new_with_layers(1, 32, (true, true, true), vec![], String::new());
    let registered: Vec<StampEntry> = (0..32)
        .map(|index| StampEntry { id: format!("{index}"), name: String::new() })
        .collect();
    let last = stamp_sectors(&many, &DrawTool::Pen, &registered)[31];
    assert_eq!((last.ring, last.slot), (3, 7));

    update(&mut menu, (0.0, 0.0));
    update(&mut menu, point(4, COLOR_COUNT, 145.0));
    assert_eq!(color_sector(&menu, 4, "#51CF66"), (true, true));
    assert_eq!(color_sector(&menu, 5, "#51CF66"), (false, false));
    assert_eq!(radial_indicator(true, true), Some((shade(1000, 1000, 1000, 1000), 50)));
    assert_eq!(radial_indicator(false, true), Some((shade(230, 700, 930, 1000), 30)));
    assert_eq!(radial_indicator(false, false), None);
}

#[test]
fn buttons_are_shown_by_their_state() {
    let mut menu = menu_with_history(0, true, false, true);
    let undo = command_button(&menu, RadialCommand::Undo);
    assert_eq!(undo.fill, shade(55, 65, 85, 960));
    assert_eq!(undo.accent, shade(230, 700, 930, 1000));
    let redo = command_button(&menu, RadialCommand::Redo);
    assert!(!redo.enabled);
    assert_eq!(redo.fill, shade(35, 40, 50, 780));
    assert_eq!(redo.accent, shade(160, 180, 220, 800));
    assert_eq!(command_button(&menu, RadialCommand::Clear).fill, shade(200, 55, 75, 960));
    menu.update(command_point(RadialCommand::Clear));
    let clear = command_button(&menu, RadialCommand::Clear);
    assert_eq!(clear.fill, shade(720, 120, 170, 980));
    assert_eq!(clear.outline_width, 30);
    // A command that cannot be given is not marked, even under the pointer.
    menu.update(command_point(RadialCommand::Redo));
    assert_eq!(command_button(&menu, RadialCommand::Redo).outline_width, 15);
}

#[test]
fn the_center_says_what_is_pointed_at() {
    let mut menu = menu(2);
    assert_eq!(center_label(&menu, &stamps()), "標準\nメニュー");
    assert_eq!(center_look(&menu), (shade(100, 380, 560, 980), 30));
    update(&mut menu, point(2, TOOL_COUNT, 72.0));
    assert_eq!(center_label(&menu, &stamps()), "マーカー");
    assert_eq!(center_look(&menu), (shade(55, 65, 85, 960), 15));
    update(&mut menu, point(6, COLOR_COUNT, 145.0));
    assert_eq!(center_label(&menu, &stamps()), "ブルー");
    update(&mut menu, point(STAMP_TOOL_INDEX, TOOL_COUNT, 72.0));
    assert_eq!(center_label(&menu, &stamps()), "スタンプ\n外へ");
    assert_eq!(center_label(&menu, &[]), "スタンプ\n未登録");
    update(&mut menu, (110.0, 0.0));
    assert_eq!(center_label(&menu, &stamps()), "スタンプ\n選択");
    update(&mut menu, point(1, STAMPS_PER_RING, 145.0));
    assert_eq!(center_label(&menu, &stamps()), "star stamp");
    update(&mut menu, (0.0, 0.0));
    menu.update(command_point(RadialCommand::Undo));
    assert_eq!(center_label(&menu, &stamps()), "元に\n戻す");
    menu.update(command_point(RadialCommand::Redo));
    assert_eq!(center_label(&menu, &stamps()), "やり\n直す");
    menu.update(command_point(RadialCommand::Clear));
    assert_eq!(center_label(&menu, &stamps()), "全消去");
    menu.update(layer_row(0));
    menu.update(PointerSpot { over_add: true, ..beside() });
    assert_eq!(center_label(&menu, &stamps()), "");
}
