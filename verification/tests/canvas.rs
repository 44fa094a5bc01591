//! Drawing, transforming and the menus on the overlay.

use stream_painter::canvas_actions::ReleaseStep;
use stream_painter::canvas_input::{
    brush_for_tool, cancel_call, radial_layer_entries, BrushTool, CancelCall, LayerName, PressPlan,
    SelectionCursor, ShapeKind, TransformCorner, TransformHandle,
};
use stream_painter::input::DrawingCancellation;
use stream_painter::menu::{
    action_for, entries, DrawTool, MenuAction, MenuEntry, StampEntry, COLORS, COLOR_COUNT, ID_CLEAR,
    ID_COLOR_BASE, ID_EXIT, ID_STAMP_BASE, ID_TOOL_ARROW, ID_TOOL_PEN, ID_UNDO,
};
use stream_painter::monitor::Monitor;
use stream_painter::overlay::{Effect, Overlay};
use stream_painter::radial_menu::{PointerSpot, RadialLayerEntry, RadialRelease, Zone};
use stream_painter::tray::{TrayCommand, TrayService};

fn drawing() -> Overlay {
    let monitor = Monitor { x: 0, y: 0, width: 1920, height: 1080, primary: true };
    let mut overlay =
        Overlay::new("#ff4d6d".to_owned(), true, true, false, false, false, 0, monitor);
    let mut effects = Vec::new();
    overlay.toggle_mode(false, false, &mut effects);
    overlay
}

fn stamps() -> Vec<StampEntry> {
    vec![
        StampEntry { id: "heart".to_owned(), name: "Heart".to_owned() },
        StampEntry { id: "star".to_owned(), name: "R&B".to_owned() },
    ]
}

#[test]
fn freehand_tools_serialize_their_pointer_dynamics_tuning() {
    let factor = |percent: u32| f64::from(percent) / 100.0;
    let pen = brush_for_tool(&DrawTool::Pen, "#123456").unwrap();
    assert_eq!(pen.tool, BrushTool::Pen);
    assert!(pen.pressure_width);
    assert_eq!(factor(pen.pressure_min), 0.2);
    assert!(!pen.tilt_width);

    let marker = brush_for_tool(&DrawTool::Marker, "#123456").unwrap();
    assert_eq!(marker.tool, BrushTool::Marker);
    assert!(marker.pressure_width);
    assert_eq!(factor(marker.pressure_min), 0.65);
    assert!(marker.tilt_width);
    assert_eq!(factor(marker.tilt_max_scale), 1.75);

    let eraser = brush_for_tool(&DrawTool::Eraser, "#123456").unwrap();
    assert_eq!(eraser.tool, BrushTool::Eraser);
    assert!(!eraser.pressure_width);
    assert!(!eraser.tilt_width);
    assert_eq!(factor(eraser.pressure_min), 1.0);
    assert_eq!(factor(eraser.tilt_max_scale), 1.0);
}

#[test]
fn brushes_have_their_color_width_and_opacity() {
    let pen = brush_for_tool(&DrawTool::Pen, "#123456").unwrap();
    assert_eq!((pen.color.as_str(), pen.opacity, pen.width_factor), ("#123456", 100, 1));
    let marker = brush_for_tool(&DrawTool::Marker, "#123456").unwrap();
    assert_eq!((marker.color.as_str(), marker.opacity, marker.width_factor), ("#123456", 50, 3));
    let eraser = brush_for_tool(&DrawTool::Eraser, "#123456").unwrap();
    assert_eq!((eraser.color.as_str(), eraser.opacity, eraser.width_factor), ("#000000", 100, 3));
    assert!(brush_for_tool(&DrawTool::Line, "#123456").is_none());
    assert!(brush_for_tool(&DrawTool::Stamp("x".to_owned()), "#123456").is_none());
}

#[test]
fn a_press_starts_what_the_tool_does() {
    let mut overlay = drawing();
    let plan = |overlay: &Overlay| overlay.on_pointer_down(false, true, &stamps());
    assert_eq!(plan(&overlay), PressPlan::Freehand(BrushTool::Pen));
    overlay.tool = DrawTool::Ellipse;
    assert_eq!(plan(&overlay), PressPlan::Shape(ShapeKind::Ellipse));
    overlay.tool = DrawTool::Stamp("star".to_owned());
    assert_eq!(plan(&overlay), PressPlan::Stamp(1));
    overlay.tool = DrawTool::Stamp("gone".to_owned());
    assert_eq!(plan(&overlay), PressPlan::Ignore);
    overlay.tool = DrawTool::Marker;
    assert_eq!(overlay.on_pointer_down(false, false, &stamps()), PressPlan::Ignore);
    assert_eq!(overlay.on_pointer_down(true, true, &stamps()), PressPlan::Ignore);
    // The handles of a selected item may lie beside the canvas.
    overlay.tool = DrawTool::Select;
    assert_eq!(overlay.on_pointer_down(false, false, &stamps()), PressPlan::Transform);
}

#[test]
fn a_stroke_is_drawn_from_press_to_release() {
    let mut overlay = drawing();
    let mut effects = Vec::new();
    overlay.drawing_started(false, &mut effects);
    assert_eq!(effects, vec![Effect::SendMessages, Effect::StartFlushTimer, Effect::Draw]);
    effects.clear();
    overlay.drawing_moved(false, false, &mut effects);
    overlay.drawing_moved(false, false, &mut effects);
    assert_eq!(effects, vec![Effect::Invalidate]);
    effects.clear();
    overlay.drawing_ended(false, &mut effects);
    assert_eq!(
        effects,
        vec![
            Effect::SendMessages,
            Effect::StopFlushTimer,
            Effect::BakeLastDone,
            Effect::Draw,
        ]
    );
    // A stroke that fills the canvas ends by itself.
    effects.clear();
    overlay.drawing_moved(true, true, &mut effects);
    assert_eq!(
        effects,
        vec![
            Effect::SendMessages,
            Effect::StopFlushTimer,
            Effect::Rebuild,
            Effect::Invalidate,
        ]
    );
    effects.clear();
    overlay.stamp_placed(true, &mut effects);
    assert_eq!(effects, vec![Effect::SendMessages, Effect::Rebuild, Effect::Draw]);
}

#[test]
fn a_canceled_stroke_is_taken_only_where_there_is_one() {
    let mut overlay = drawing();
    let mut effects = Vec::new();
    assert!(!overlay.drawing_canceled(false, false, &mut effects));
    assert!(effects.is_empty());
    assert!(overlay.drawing_canceled(true, true, &mut effects));
    assert_eq!(
        effects,
        vec![Effect::SendMessages, Effect::StopFlushTimer, Effect::Rebuild, Effect::Draw]
    );
    assert_eq!(
        cancel_call(Some(DrawingCancellation::Pointer(4)), false),
        Some(CancelCall::Pointer(4))
    );
    assert_eq!(cancel_call(Some(DrawingCancellation::AnyPointer), true), Some(CancelCall::Any));
    assert_eq!(cancel_call(Some(DrawingCancellation::AnyPointer), false), None);
    assert_eq!(cancel_call(None, true), None);
}

#[test]
fn an_item_is_dragged_from_press_to_release() {
    let mut overlay = drawing();
    overlay.tool = DrawTool::Select;
    let mut effects = Vec::new();
    assert_eq!(
        overlay.transform_target(None, Some("item-1".to_owned())),
        Some(("item-1".to_owned(), TransformHandle::Move))
    );
    assert_eq!(overlay.transform_target(None, None), None);
    overlay.begin_item_drag(7, "item-1".to_owned(), &mut effects);
    assert_eq!(
        effects,
        vec![
            Effect::PrepareTransform,
            Effect::RegisterTransformEscape,
            Effect::StartFlushTimer,
            Effect::Draw,
        ]
    );
    assert!(overlay.item_drag_active() && overlay.item_drag_owns(7) && !overlay.item_drag_owns(8));

    effects.clear();
    assert!(!overlay.update_item_drag(8, &mut effects));
    assert!(overlay.update_item_drag(7, &mut effects));
    assert_eq!(effects, vec![Effect::PreviewTransform, Effect::ShowSelectionCursor]);
    effects.clear();
    overlay.preview_answer(false, &mut effects);
    assert!(effects.is_empty());
    overlay.preview_answer(true, &mut effects);
    assert_eq!(effects, vec![Effect::Invalidate]);

    effects.clear();
    assert!(!overlay.finish_item_drag(8, &mut effects));
    assert!(overlay.finish_item_drag(7, &mut effects));
    assert_eq!(
        effects,
        vec![
            Effect::EndTransform,
            Effect::UnregisterTransformEscape,
            Effect::StopFlushTimer,
        ]
    );
    effects.clear();
    overlay.drag_settled(true, &mut effects);
    assert_eq!(effects, vec![Effect::RefreshSelection, Effect::Draw]);
    assert!(overlay.selection.is_some() && !overlay.item_drag_active());
    // The selected item stays in hand where nothing else lies on top.
    assert_eq!(
        overlay.transform_target(Some(TransformHandle::Rotate), Some("item-2".to_owned())),
        Some(("item-1".to_owned(), TransformHandle::Rotate))
    );
    assert_eq!(
        overlay.transform_target(Some(TransformHandle::Move), Some("item-2".to_owned())),
        Some(("item-2".to_owned(), TransformHandle::Move))
    );
    assert_eq!(
        overlay.transform_target(Some(TransformHandle::Move), None),
        Some(("item-1".to_owned(), TransformHandle::Move))
    );
    // One that is gone is no longer selected.
    effects.clear();
    overlay.drag_settled(false, &mut effects);
    assert_eq!(effects, vec![Effect::Rebuild, Effect::Draw]);
    assert!(overlay.selection.is_none());
}

#[test]
fn a_drag_can_be_abandoned() {
    let mut overlay = drawing();
    let mut effects = Vec::new();
    assert!(!overlay.cancel_item_drag(&mut effects));
    overlay.begin_item_drag(7, "item-1".to_owned(), &mut effects);
    effects.clear();
    assert!(overlay.cancel_item_drag(&mut effects));
    assert_eq!(
        effects,
        vec![
            Effect::CancelInput,
            Effect::RefreshSelection,
            Effect::UnregisterTransformEscape,
            Effect::StopFlushTimer,
            Effect::Draw,
        ]
    );
    assert!(overlay.selection.is_some());
    // Choosing a tool gives the selection up.
    effects.clear();
    overlay.apply_menu_action(MenuAction::SelectTool(DrawTool::Pen), true, true, &mut effects);
    assert!(overlay.selection.is_none());
    assert_eq!(effects, vec![Effect::Rebuild, Effect::Draw]);
}

#[test]
fn the_selection_tool_shows_what_it_would_do() {
    let mut overlay = drawing();
    assert_eq!(overlay.selection_cursor(None, None, true), None);
    overlay.tool = DrawTool::Select;
    assert_eq!(overlay.selection_cursor(None, None, false), Some(SelectionCursor::Arrow));
    assert_eq!(overlay.selection_cursor(None, None, true), Some(SelectionCursor::Move));
    let mut effects = Vec::new();
    overlay.begin_item_drag(7, "item-1".to_owned(), &mut effects);
    let corner = |corner| Some(TransformHandle::Scale(corner));
    assert_eq!(
        overlay.selection_cursor(corner(TransformCorner::NorthWest), None, true),
        Some(SelectionCursor::ScaleFalling)
    );
    assert_eq!(
        overlay.selection_cursor(None, corner(TransformCorner::NorthEast), true),
        Some(SelectionCursor::ScaleRising)
    );
    assert_eq!(
        overlay.selection_cursor(Some(TransformHandle::Rotate), None, false),
        Some(SelectionCursor::Rotate)
    );
}

fn center(left_anchor: bool) -> PointerSpot {
    PointerSpot {
        left_anchor,
        over_add: false,
        over_delete: false,
        layer_row: None,
        command: None,
        zone: Zone::Center,
    }
}

fn open(overlay: &mut Overlay, effects: &mut Vec<Effect>) -> bool {
    overlay.begin_radial_menu(
        3,
        false,
        0,
        (true, false, true),
        vec![RadialLayerEntry {
            layer_id: "layer-0".to_owned(),
            name: "Layer 1".to_owned(),
            item_count: 2,
        }],
        "layer-0".to_owned(),
        effects,
    )
}

#[test]
fn the_radial_menu_lives_on_the_overlay() {
    let mut overlay = drawing();
    let mut effects = Vec::new();
    assert!(open(&mut overlay, &mut effects));
    assert_eq!(effects, vec![Effect::Draw]);
    assert!(!open(&mut overlay, &mut effects));
    assert!(overlay.radial_menu_owns(3) && !overlay.radial_menu_is_pinned());
    assert!(!overlay.can_handle_layer_clear_hotkey(false, false, true));

    // A press that does not move pins it.
    let release = overlay.release_radial_menu(3, center(false), &mut effects);
    assert_eq!(release, Some(RadialRelease::Pin));
    assert!(overlay.radial_menu_is_pinned());
    assert_eq!(overlay.release_radial_menu(3, center(false), &mut effects), None);

    effects.clear();
    let tool = PointerSpot { zone: Zone::ToolRing { sector: 2 }, ..center(true) };
    assert!(overlay.update_radial_menu(9, tool, &mut effects));
    assert_eq!(effects, vec![Effect::Invalidate]);
    assert!(overlay.begin_radial_click(4, center(true), &mut effects));
    assert!(!overlay.begin_radial_click(5, center(true), &mut effects));
    assert!(!overlay.update_radial_menu(9, tool, &mut effects));
    assert!(overlay.cancel_radial_interaction(&mut effects));
    assert!(!overlay.cancel_radial_interaction(&mut effects));
    assert!(overlay.radial_menu_is_pinned());

    effects.clear();
    assert!(overlay.begin_radial_click(4, tool, &mut effects));
    let release = overlay.release_radial_menu(4, tool, &mut effects);
    assert_eq!(
        release,
        Some(RadialRelease::Action {
            action: MenuAction::SelectTool(DrawTool::Marker),
            keep_open: false,
        })
    );
    assert!(overlay.radial_menu.is_none());
    assert!(!overlay.dismiss_radial_menu(&mut effects));
}

#[test]
fn a_held_radial_menu_goes_with_its_pointer() {
    let mut overlay = drawing();
    let mut effects = Vec::new();
    assert!(open(&mut overlay, &mut effects));
    assert!(overlay.cancel_radial_interaction(&mut effects));
    assert!(overlay.radial_menu.is_none());
    assert!(open(&mut overlay, &mut effects));
    assert!(overlay.dismiss_radial_menu(&mut effects));
    assert!(overlay.radial_menu.is_none());
}

#[test]
fn the_radial_menu_follows_the_history() {
    let mut overlay = drawing();
    let mut effects = Vec::new();
    open(&mut overlay, &mut effects);
    effects.clear();
    let layers = || {
        vec![RadialLayerEntry {
            layer_id: "layer-0".to_owned(),
            name: "Layer 1".to_owned(),
            item_count: 3,
        }]
    };
    overlay.sync_radial_history((true, false, true), layers(), "layer-0".to_owned(), &mut effects);
    assert_eq!(effects, vec![Effect::Draw]);
    effects.clear();
    overlay.sync_radial_history((true, false, true), layers(), "layer-0".to_owned(), &mut effects);
    assert!(effects.is_empty());
    overlay.popup_menu_closed((false, true, true), layers(), "layer-0".to_owned(), &mut effects);
    assert_eq!(effects, vec![Effect::Draw, Effect::PollProjector]);
    assert!(overlay.popup_menu_allowed(false) && !overlay.popup_menu_allowed(true));
}

#[test]
fn layers_are_listed_with_their_items() {
    let layers = vec![
        LayerName { layer_id: "a".to_owned(), name: "A".to_owned() },
        LayerName { layer_id: "b".to_owned(), name: "B".to_owned() },
    ];
    let item_layers = vec!["b".to_owned(), "a".to_owned(), "b".to_owned(), "gone".to_owned()];
    let entries = radial_layer_entries(&layers, &item_layers);
    assert_eq!(entries.len(), 2);
    assert_eq!((entries[0].layer_id.as_str(), entries[0].item_count), ("a", 1));
    assert_eq!((entries[1].name.as_str(), entries[1].item_count), ("B", 2));
}

#[test]
fn the_tray_ends_drawing_where_something_opens() {
    let mut overlay = drawing();
    let mut effects = Vec::new();
    assert_eq!(
        overlay.on_tray(Some(TrayCommand::CopyOverlayUrl), false, false, &mut effects),
        TrayService::CopyOverlayUrl
    );
    assert!(overlay.draw_mode && effects.is_empty());
    assert_eq!(
        overlay.on_tray(Some(TrayCommand::Settings), false, false, &mut effects),
        TrayService::OpenSettings
    );
    assert!(!overlay.draw_mode);
    assert_eq!(effects.first(), Some(&Effect::CancelProjectorRequest));
    assert_eq!(overlay.on_tray(None, false, false, &mut effects), TrayService::Nothing);
    assert_eq!(
        overlay.on_tray(Some(TrayCommand::Exit), false, false, &mut effects),
        TrayService::Destroy
    );
    assert_eq!(
        overlay.on_tray(Some(TrayCommand::ToggleMode), false, false, &mut effects),
        TrayService::Nothing
    );
    assert!(overlay.draw_mode);
    assert_eq!(TrayService::Destroy.follow_up(), None);
    for service in [TrayService::Nothing, TrayService::CopyOverlayUrl, TrayService::OpenLogs] {
        assert_eq!(service.follow_up(), Some(Effect::PollProjector));
    }
}

#[test]
fn a_release_of_the_radial_menu_is_followed_up() {
    let overlay = drawing();
    let action = RadialRelease::Action { action: MenuAction::Undo, keep_open: true };
    assert!(matches!(
        overlay.released(action, &stamps(), false),
        ReleaseStep::Menu(Some(MenuAction::Undo))
    ));
    match overlay.released(RadialRelease::Stamp(1), &stamps(), false) {
        ReleaseStep::Menu(Some(MenuAction::SelectTool(DrawTool::Stamp(id)))) => {
            assert_eq!(id, stamps()[1].id);
        }
        other => panic!("{other:?}"),
    }
    let missing = RadialRelease::Stamp(stamps().len());
    assert!(matches!(overlay.released(missing, &stamps(), false), ReleaseStep::Menu(None)));
    assert!(matches!(
        overlay.released(RadialRelease::LegacyMenu, &[], false),
        ReleaseStep::PopupMenu
    ));
    assert!(matches!(
        overlay.released(RadialRelease::LegacyMenu, &[], true),
        ReleaseStep::Nothing
    ));
    for release in [RadialRelease::Pin, RadialRelease::StayOpen, RadialRelease::Cancel] {
        assert!(matches!(overlay.released(release, &[], true), ReleaseStep::PollProjector));
    }
}

#[test]
fn shutting_down_gives_back_what_is_held() {
    let mut overlay = drawing();
    overlay.layer_clear_answer(true);
    let mut effects = Vec::new();
    overlay.shut_down(&mut effects);
    assert_eq!(
        effects,
        vec![
            Effect::UnregisterLayerClear,
            Effect::CancelProjectorRequest,
            Effect::StopPendingTimer,
        ]
    );
    effects.clear();
    overlay.shut_down(&mut effects);
    assert_eq!(effects, vec![Effect::CancelProjectorRequest, Effect::StopPendingTimer]);
}

#[test]
fn the_popup_menu_shows_what_is_in_use() {
    let menu = entries(&DrawTool::Stamp("star".to_owned()), "#51CF66", &stamps());
    assert_eq!(menu.len(), 12);
    match &menu[4] {
        MenuEntry::Submenu { label, items } => {
            assert_eq!(*label, "スタンプ");
            assert_eq!(items[1].label, "R&&B");
            assert!(items[1].checked && !items[0].checked);
            assert_eq!(items[1].id, ID_STAMP_BASE + 1);
        }
        other => panic!("{other:?}"),
    }
    match &menu[6] {
        MenuEntry::Submenu { items, .. } => {
            assert_eq!(items.len(), COLOR_COUNT);
            let checked: Vec<usize> = items.iter().filter(|i| i.checked).map(|i| i.id).collect();
            assert_eq!(checked, vec![ID_COLOR_BASE + 4]);
        }
        other => panic!("{other:?}"),
    }
    assert_eq!(entries(&DrawTool::Pen, "", &[]).len(), 11);
}

#[test]
fn choices_become_commands() {
    assert_eq!(action_for(ID_TOOL_PEN, &[]), Some(MenuAction::SelectTool(DrawTool::Pen)));
    assert_eq!(action_for(ID_TOOL_ARROW, &[]), Some(MenuAction::SelectTool(DrawTool::Arrow)));
    assert_eq!(action_for(ID_UNDO, &[]), Some(MenuAction::Undo));
    assert_eq!(action_for(ID_CLEAR, &[]), Some(MenuAction::Clear));
    assert_eq!(action_for(ID_EXIT, &[]), Some(MenuAction::Exit));
    for (index, (_, value)) in COLORS.iter().enumerate() {
        assert_eq!(action_for(ID_COLOR_BASE + index, &[]), Some(MenuAction::SelectColor(value)));
    }
    assert_eq!(action_for(ID_COLOR_BASE + COLOR_COUNT, &[]), None);
    assert_eq!(
        action_for(ID_STAMP_BASE + 1, &stamps()),
        Some(MenuAction::SelectTool(DrawTool::Stamp("star".to_owned())))
    );
    assert_eq!(action_for(ID_STAMP_BASE + 2, &stamps()), None);
    assert_eq!(action_for(0, &stamps()), None);
}
