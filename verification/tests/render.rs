//! What frames are composed of, on bitmaps that remember what was drawn on them.

use stream_painter::canvas_input::BrushTool;
use stream_painter::pixels::{check_dimensions, parse_color, to_premultiplied_bgra, ItemColor};
use stream_painter::render::{
    last_done, transaction_result, ActiveStrokeState, BakePlan, BrushLook, CanvasItem, ItemKind,
    ItemRef, Operation, Renderer, ScratchBase, StrokeSync, Surface, UiPart,
};

const OPAQUE_PEN: BrushLook = BrushLook { tool: BrushTool::Pen, translucent: false, id: 1 };
const MARKER: BrushLook = BrushLook { tool: BrushTool::Marker, translucent: true, id: 2 };
const ERASER: BrushLook = BrushLook { tool: BrushTool::Eraser, translucent: false, id: 3 };

fn item(id: &str, kind: ItemKind, done: bool) -> CanvasItem {
    CanvasItem { item_id: id.to_owned(), kind, done }
}

/// The bitmaps as lists of what was drawn on them, and whether by way of the scratch.
#[derive(Default)]
struct Bitmaps {
    frame: Vec<(String, bool)>,
    baked: Vec<(String, bool)>,
}

impl Bitmaps {
    fn on(&mut self, surface: &Surface) -> &mut Vec<(String, bool)> {
        match surface {
            Surface::Frame => &mut self.frame,
            Surface::Baked => &mut self.baked,
        }
    }

    fn run(
        &mut self,
        operations: &[Operation],
        items: &[CanvasItem],
        selected: Option<&CanvasItem>,
    ) {
        let name = |item: &ItemRef| match item {
            ItemRef::History(index) => items[*index].item_id.clone(),
            ItemRef::Selected => format!("{} moved", selected.unwrap().item_id),
        };
        for operation in operations {
            match operation {
                Operation::Clear(surface) => self.on(surface).clear(),
                Operation::CopyBaked(surface) => {
                    let baked = self.baked.clone();
                    self.on(surface).extend(baked);
                }
                Operation::Draw { onto, items } => {
                    let names: Vec<_> = items.iter().map(|item| (name(item), false)).collect();
                    self.on(onto).extend(names);
                }
                Operation::Composite { onto, item } => self.on(onto).push((name(item), true)),
                Operation::CopyScratch { opaque } => self.frame.push(("scratch".into(), !opaque)),
                Operation::Ui(part) => self.frame.push((format!("{part:?}"), false)),
                Operation::Present => {}
            }
        }
    }
}

fn names(marks: &[(String, bool)]) -> Vec<&str> {
    marks.iter().map(|(name, _)| name.as_str()).collect()
}

#[test]
fn native_transform_preview_keeps_suffix_eraser_and_stroke_history_order() {
    let mut renderer = Renderer::new();
    let items = vec![
        item("prefix", ItemKind::Shape, true),
        item("selected", ItemKind::Shape, true),
        item("later-eraser", ItemKind::Stroke(ERASER), true),
        item("later-pen", ItemKind::Stroke(OPAQUE_PEN), true),
    ];
    let selected = item("selected", ItemKind::Shape, true);
    let mut bitmaps = Bitmaps::default();

    let prepared = renderer.rebuild_baked_prefix(&items, Some("selected"));
    bitmaps.run(&prepared, &items, None);
    assert_eq!(names(&bitmaps.baked), vec!["prefix"]);
    let preview = renderer.draw_frame(&items, false, Some(&selected), false);
    bitmaps.run(&preview, &items, Some(&selected));
    let preview: Vec<String> =
        names(&bitmaps.frame).iter().map(|name| name.replace(" moved", "")).collect();

    let rebuilt = renderer.rebuild_baked(&items);
    bitmaps.run(&rebuilt, &items, None);
    let mut committed = names(&bitmaps.baked);
    assert_eq!(committed, vec!["prefix", "selected", "later-eraser", "later-pen"]);
    committed.push("SelectionBox");
    assert_eq!(preview, committed);
}

#[test]
fn native_active_scratch_is_incremental_rebuildable_and_cancel_safe() {
    let mut renderer = Renderer::new();
    renderer.rebuild_baked(&[]);
    let cursor = |renderer: &Renderer| renderer.active_stroke.as_ref().map(|a| a.next_segment);

    // Of three points the last segment is still open: one is stable.
    let marker = vec![item("marker", ItemKind::Stroke(MARKER), false)];
    let sync = renderer.sync_active_stroke(&marker).unwrap();
    assert_eq!(
        sync,
        StrokeSync { item: 0, reset: Some(ScratchBase::Transparent), from_segment: 1 }
    );
    renderer.segments_drawn(1);
    assert_eq!(cursor(&renderer), Some(2));

    // The same points again draw nothing anew.
    let sync = renderer.sync_active_stroke(&marker).unwrap();
    assert_eq!(sync, StrokeSync { item: 0, reset: None, from_segment: 2 });
    renderer.segments_drawn(0);
    assert_eq!(cursor(&renderer), Some(2));
    renderer.sync_active_stroke(&marker);
    renderer.segments_drawn(1);
    assert_eq!(cursor(&renderer), Some(3));

    // Drawing the finished items anew gives the cursor up; it can be reached again.
    renderer.rebuild_baked(&[]);
    assert!(renderer.active_stroke.is_none());
    let sync = renderer.sync_active_stroke(&marker).unwrap();
    assert_eq!(sync.from_segment, 1);
    renderer.segments_drawn(2);
    assert_eq!(cursor(&renderer), Some(3));

    let done = item("marker", ItemKind::Stroke(MARKER), true);
    assert_eq!(
        renderer.bake_item(&done),
        BakePlan::FinishScratch { from_segment: 3, replace: false }
    );
    assert!(renderer.active_stroke.is_none());

    // An eraser works on a copy, so that giving it up leaves everything as it was.
    let eraser = vec![item("eraser", ItemKind::Stroke(ERASER), false)];
    let sync = renderer.sync_active_stroke(&eraser).unwrap();
    assert_eq!(sync.reset, Some(ScratchBase::CopyOfBaked));
    assert!(renderer.sync_active_stroke(&[]).is_none());
    assert!(renderer.active_stroke.is_none());
    renderer.sync_active_stroke(&eraser);
    let done = item("eraser", ItemKind::Stroke(ERASER), true);
    assert_eq!(
        renderer.bake_item(&done),
        BakePlan::FinishScratch { from_segment: 1, replace: true }
    );
}

#[test]
fn ten_thousand_point_native_scratch_measures_only_the_new_segment() {
    let mut renderer = Renderer::new();
    let items = vec![item("long-stroke", ItemKind::Stroke(OPAQUE_PEN), false)];
    assert_eq!(renderer.sync_active_stroke(&items).unwrap().from_segment, 1);
    renderer.segments_drawn(9_997);
    assert_eq!(renderer.active_stroke.as_ref().unwrap().next_segment, 9_998);
    let sync = renderer.sync_active_stroke(&items).unwrap();
    assert_eq!(sync, StrokeSync { item: 0, reset: None, from_segment: 9_998 });
    renderer.segments_drawn(1);
    assert_eq!(renderer.active_stroke.as_ref().unwrap().next_segment, 9_999);
}

#[test]
fn another_stroke_or_brush_starts_the_scratch_anew() {
    let mut renderer = Renderer::new();
    let first = vec![item("a", ItemKind::Stroke(OPAQUE_PEN), false)];
    renderer.sync_active_stroke(&first);
    renderer.segments_drawn(5);
    let other = vec![
        item("x", ItemKind::Shape, false),
        item("b", ItemKind::Stroke(OPAQUE_PEN), false),
    ];
    let sync = renderer.sync_active_stroke(&other).unwrap();
    assert_eq!((sync.item, sync.from_segment), (1, 1));
    assert!(sync.reset.is_some());
    renderer.segments_drawn(5);
    let thicker = BrushLook { id: 9, ..OPAQUE_PEN };
    let changed = vec![item("b", ItemKind::Stroke(thicker), false)];
    assert!(renderer.sync_active_stroke(&changed).unwrap().reset.is_some());
    renderer.abandon_active_stroke();
    assert!(renderer.active_stroke.is_none());
    renderer.segments_drawn(1);
    assert!(renderer.active_stroke.is_none());
}

#[test]
fn items_are_drawn_together_between_translucent_strokes() {
    let items = vec![
        item("a", ItemKind::Shape, true),
        item("b", ItemKind::Stroke(OPAQUE_PEN), true),
        item("c", ItemKind::Stroke(MARKER), true),
        item("d", ItemKind::Stroke(MARKER), true),
        item("live", ItemKind::Shape, false),
        item("e", ItemKind::Stamp, true),
        item("f", ItemKind::Stroke(ERASER), true),
    ];
    let operations = Renderer::new().rebuild_baked(&items);
    assert_eq!(operations.len(), 5);
    assert!(matches!(&operations[0], Operation::Clear(Surface::Baked)));
    assert!(matches!(&operations[1], Operation::Draw { items, .. }
        if *items == vec![ItemRef::History(0), ItemRef::History(1)]));
    assert!(matches!(&operations[2], Operation::Composite { item: ItemRef::History(2), .. }));
    assert!(matches!(&operations[3], Operation::Composite { item: ItemRef::History(3), .. }));
    assert!(matches!(&operations[4], Operation::Draw { items, .. }
        if *items == vec![ItemRef::History(5), ItemRef::History(6)]));
    // A translucent eraser still erases directly.
    let eraser = ItemKind::Stroke(BrushLook { translucent: true, ..ERASER });
    assert!(!eraser.uses_opacity_scratch());
    assert!(ItemKind::Stroke(MARKER).uses_opacity_scratch());
    assert!(!ItemKind::Stamp.uses_opacity_scratch());
}

#[test]
fn finished_items_are_baked_one_by_one() {
    let mut renderer = Renderer {
        active_stroke: Some(ActiveStrokeState {
            stroke_id: "now".to_owned(),
            brush: OPAQUE_PEN,
            next_segment: 4,
        }),
    };
    assert_eq!(renderer.bake_item(&item("s", ItemKind::Stamp, true)), BakePlan::Draw);
    assert_eq!(
        renderer.bake_item(&item("p", ItemKind::Stroke(OPAQUE_PEN), true)),
        BakePlan::Draw
    );
    assert!(renderer.active_stroke.is_some());
    assert_eq!(
        renderer.bake_item(&item("m", ItemKind::Stroke(MARKER), true)),
        BakePlan::Composite
    );
    assert!(renderer.active_stroke.is_none());
    let items = vec![
        item("a", ItemKind::Shape, true),
        item("b", ItemKind::Shape, true),
        item("c", ItemKind::Shape, false),
    ];
    assert_eq!(last_done(&items), Some(1));
    assert_eq!(last_done(&items[2..]), None);
}

/// Draws the items one after the other, with a frame for each number of segments, and says what is
/// then on the bitmap of finished items.
fn baked_one_by_one(items: &[(&str, ItemKind, &[usize])]) -> Vec<(String, bool)> {
    let mut renderer = Renderer::new();
    let mut baked: Vec<(String, bool)> = Vec::new();
    for (id, kind, frames) in items {
        let mut under: Vec<(String, bool)> = Vec::new();
        let mut segments: Vec<usize> = Vec::new();
        for count in *frames {
            let Some(sync) = renderer.sync_active_stroke(&[item(id, *kind, false)]) else {
                continue;
            };
            match sync.reset {
                Some(ScratchBase::Transparent) => (under, segments) = (Vec::new(), Vec::new()),
                Some(ScratchBase::CopyOfBaked) => (under, segments) = (baked.clone(), Vec::new()),
                None => {}
            }
            segments.extend(sync.from_segment..sync.from_segment + count);
            renderer.segments_drawn(*count);
        }
        let end = frames.iter().sum::<usize>() + 3;
        match renderer.bake_item(&item(id, *kind, true)) {
            BakePlan::FinishScratch { from_segment, replace } => {
                segments.extend(from_segment..end);
                assert_eq!(segments, (1..end).collect::<Vec<_>>());
                if replace {
                    baked = under;
                } else {
                    assert!(under.is_empty());
                }
                baked.push(((*id).to_owned(), kind.uses_opacity_scratch()));
            }
            BakePlan::Composite => baked.push(((*id).to_owned(), true)),
            BakePlan::Draw => baked.push(((*id).to_owned(), false)),
        }
    }
    baked
}

#[test]
fn baking_one_by_one_leaves_what_a_rebuild_leaves() {
    let drawn: Vec<(&str, ItemKind, &[usize])> = vec![
        ("shape", ItemKind::Shape, &[1, 1]),
        ("marker", ItemKind::Stroke(MARKER), &[1, 0, 4]),
        ("unseen marker", ItemKind::Stroke(MARKER), &[]),
        ("eraser", ItemKind::Stroke(ERASER), &[2, 2]),
        ("pen", ItemKind::Stroke(OPAQUE_PEN), &[0]),
        ("stamp", ItemKind::Stamp, &[]),
    ];
    let items: Vec<_> = drawn.iter().map(|(id, kind, _)| item(id, *kind, true)).collect();
    let mut bitmaps = Bitmaps::default();
    bitmaps.run(&Renderer::new().rebuild_baked(&items), &items, None);
    assert_eq!(baked_one_by_one(&drawn), bitmaps.baked);
}

#[test]
fn both_errors_of_a_drawing_are_told() {
    let error = |text: &str| Err(text.to_owned());
    assert_eq!(transaction_result(Ok(()), Ok(())), Ok(()));
    assert_eq!(transaction_result(error("draw"), Ok(())), error("draw"));
    assert_eq!(transaction_result(Ok(()), error("end")), error("end"));
    assert_eq!(
        transaction_result(error("draw"), error("end")),
        error("Direct2D EndDraw also failed: end: draw")
    );
}

#[test]
fn frames_show_the_canvas_below_the_interface() {
    let items = vec![
        item("done", ItemKind::Shape, true),
        item("live", ItemKind::Shape, false),
        item("stroke", ItemKind::Stroke(MARKER), false),
    ];
    let mut renderer = Renderer::new();
    let mut bitmaps = Bitmaps::default();
    bitmaps.run(&renderer.rebuild_baked(&items), &items, None);
    renderer.sync_active_stroke(&items);
    let operations = renderer.draw_frame(&items, true, None, true);
    assert!(matches!(operations.last(), Some(Operation::Present)));
    bitmaps.run(&operations, &items, None);
    assert_eq!(
        names(&bitmaps.frame),
        vec!["done", "scratch", "live", "ModeBorder", "RadialMenu"]
    );
    assert_eq!(names(&bitmaps.baked), vec!["done"]);
    // An eraser's scratch is shown in place of what it was copied from.
    let erasing = vec![
        item("done", ItemKind::Shape, true),
        item("eraser", ItemKind::Stroke(ERASER), false),
    ];
    renderer.sync_active_stroke(&erasing);
    bitmaps.run(&renderer.draw_frame(&erasing, true, None, false), &erasing, None);
    assert_eq!(names(&bitmaps.frame), vec!["scratch", "ModeBorder"]);
    // With a stroke under way a selected item is drawn on top.
    let chosen = item("done", ItemKind::Shape, true);
    bitmaps.run(&renderer.draw_frame(&erasing, false, Some(&chosen), false), &erasing, Some(&chosen));
    assert_eq!(names(&bitmaps.frame), vec!["scratch", "done moved", "SelectionBox"]);
    let cleared = renderer.clear_frame();
    bitmaps.run(&cleared, &erasing, None);
    assert!(bitmaps.frame.is_empty() && renderer.active_stroke.is_none());
    assert_eq!(names(&bitmaps.baked), vec!["done"]);
    assert_eq!(format!("{:?}", UiPart::ModeBorder), "ModeBorder");
}

#[test]
fn pixels_are_premultiplied_and_reordered() {
    let mut bytes = vec![
        255, 128, 0, 255, // opaque
        200, 100, 50, 128, // half
        255, 255, 255, 0, // transparent
        9, 8, 7, // no pixel
    ];
    to_premultiplied_bgra(&mut bytes);
    assert_eq!(
        bytes,
        vec![0, 128, 255, 255, 25, 50, 100, 128, 0, 0, 0, 0, 9, 8, 7]
    );
    for channel in 0..=255u8 {
        for alpha in 0..=255u8 {
            let mut pixel = vec![channel, channel, channel, alpha];
            to_premultiplied_bgra(&mut pixel);
            assert!(pixel[0] <= alpha);
            let exact = f64::from(channel) * f64::from(alpha) / 255.0;
            assert!((f64::from(pixel[0]) - exact).abs() <= 0.5 + 1.0 / 255.0);
        }
    }
}

#[test]
fn images_keep_their_size() {
    assert_eq!(check_dimensions((64, 32), (64, 32)), None);
    assert_eq!(
        check_dimensions((64, 32), (64, 33)).unwrap(),
        "image dimensions changed (config 64x32, file 64x33)"
    );
}

#[test]
fn colors_are_read() {
    assert_eq!(parse_color("#ff8A3d"), ItemColor::Rgb(0xff, 0x8a, 0x3d));
    assert_eq!(parse_color("##000102"), ItemColor::Rgb(0, 1, 2));
    assert_eq!(parse_color("zz10+f"), ItemColor::Rgb(0, 0x10, 0x0f));
    assert_eq!(parse_color("-110f-"), ItemColor::Rgb(0, 0x10, 0));
    assert_eq!(parse_color("éé10"), ItemColor::Rgb(0, 0, 0x10));
    assert_eq!(parse_color("#fff"), ItemColor::Fallback);
    assert_eq!(parse_color(""), ItemColor::Fallback);
    assert_eq!(parse_color("#ff8a3d00"), ItemColor::Fallback);
}
