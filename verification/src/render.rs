//! What a frame is composed of, and in which order.
//!
//! Finished items are drawn once, onto a bitmap that stays. The stroke under way has a bitmap of
//! its own, the scratch, to which only new segments are added. A frame is then these two and
//! little more. A stroke that is not opaque is drawn opaquely onto the scratch first and becomes
//! translucent as a whole, so that it does not darken where it crosses itself.
//!
//! The operations are handed out as data, in the order in which they are to be carried out.

use vstd::prelude::*;

use crate::canvas_input::BrushTool;

verus! {

/// A brush, as far as it decides how a stroke is composed.
#[derive(Clone, Copy, Debug, PartialEq, Eq, Structural)]
pub struct BrushLook {
    pub tool: BrushTool,
    /// The brush is not fully opaque.
    pub translucent: bool,
    /// Equal for two brushes that are equal in every respect.
    pub id: u64,
}

#[derive(Clone, Copy, Debug, PartialEq, Eq, Structural)]
pub enum ItemKind {
    Stroke(BrushLook),
    Shape,
    Stamp,
}

#[derive(Debug)]
pub struct CanvasItem {
    pub item_id: String,
    pub kind: ItemKind,
    pub done: bool,
}

/// A bitmap that can be drawn on.
#[derive(Clone, Copy, Debug, PartialEq, Eq, Structural)]
pub enum Surface {
    Frame,
    Baked,
}

#[derive(Clone, Copy, Debug, PartialEq, Eq, Structural)]
pub enum ItemRef {
    /// The item at this place of the history.
    History(usize),
    /// The item under transformation, as it is at the moment.
    Selected,
}

/// An item that is drawn, and whether by way of the scratch.
#[derive(Clone, Copy, Debug, PartialEq, Eq, Structural)]
pub struct VisibleItem {
    pub item: ItemRef,
    pub scratch: bool,
}

#[derive(Clone, Copy, Debug, PartialEq, Eq, Structural)]
pub enum UiPart {
    SelectionBox,
    ModeBorder,
    RadialMenu,
}

#[derive(Debug)]
pub enum Operation {
    Clear(Surface),
    /// Copy the bitmap of finished items.
    CopyBaked(Surface),
    /// Draw the items, one over the other.
    Draw { onto: Surface, items: Vec<ItemRef> },
    /// Draw a stroke opaquely on the cleared scratch, then the scratch with the stroke's opacity.
    Composite { onto: Surface, item: ItemRef },
    /// Lay the stroke under way over the frame, with its brush's opacity or opaquely.
    CopyScratch { opaque: bool },
    /// Draw a part of the user interface onto the frame, also beside the canvas.
    Ui(UiPart),
    Present,
}

/// A thing that can be seen on a bitmap.
#[derive(Clone, Copy, Debug, PartialEq, Eq, Structural)]
pub enum Mark {
    Item(VisibleItem),
    Scratch { opaque: bool },
    Ui(UiPart),
}

/// What has been drawn on the bitmaps since they were cleared, from the back to the front.
#[verifier::ext_equal]
pub struct Surfaces {
    pub frame: Seq<Mark>,
    pub baked: Seq<Mark>,
}

impl Surfaces {
    pub open spec fn on(self, surface: Surface) -> Seq<Mark> {
        match surface {
            Surface::Frame => self.frame,
            Surface::Baked => self.baked,
        }
    }

    pub open spec fn set(self, surface: Surface, marks: Seq<Mark>) -> Self {
        match surface {
            Surface::Frame => Surfaces { frame: marks, ..self },
            Surface::Baked => Surfaces { baked: marks, ..self },
        }
    }
}

impl Operation {
    /// What an operation adds to its surface.
    pub open spec fn marks(self) -> Seq<Mark> {
        match self {
            Operation::Draw { items, .. } => Seq::new(
                items@.len(),
                |i: int| Mark::Item(VisibleItem { item: items@[i], scratch: false }),
            ),
            Operation::Composite { item, .. } => seq![
                Mark::Item(VisibleItem { item, scratch: true }),
            ],
            Operation::CopyScratch { opaque } => seq![Mark::Scratch { opaque }],
            Operation::Ui(part) => seq![Mark::Ui(part)],
            _ => Seq::empty(),
        }
    }

    pub open spec fn applied(self, surfaces: Surfaces) -> Surfaces {
        match self {
            Operation::Clear(surface) => surfaces.set(surface, Seq::empty()),
            Operation::CopyBaked(surface) => surfaces.set(
                surface,
                surfaces.on(surface) + surfaces.baked,
            ),
            Operation::Draw { onto, .. } => surfaces.set(onto, surfaces.on(onto) + self.marks()),
            Operation::Composite { onto, .. } => surfaces.set(
                onto,
                surfaces.on(onto) + self.marks(),
            ),
            Operation::CopyScratch { .. } | Operation::Ui(_) => surfaces.set(
                Surface::Frame,
                surfaces.frame + self.marks(),
            ),
            Operation::Present => surfaces,
        }
    }
}

/// The bitmaps after some operations.
pub open spec fn run(operations: Seq<Operation>, surfaces: Surfaces) -> Surfaces
    decreases operations.len(),
{
    if operations.len() == 0 {
        surfaces
    } else {
        operations.last().applied(run(operations.drop_last(), surfaces))
    }
}

/// All that some operations add.
pub open spec fn added(operations: Seq<Operation>) -> Seq<Mark>
    decreases operations.len(),
{
    if operations.len() == 0 {
        Seq::empty()
    } else {
        added(operations.drop_last()) + operations.last().marks()
    }
}

pub open spec fn item_marks(visible: Seq<VisibleItem>) -> Seq<Mark> {
    Seq::new(visible.len(), |i: int| Mark::Item(visible[i]))
}

/// An operation that composes items onto a surface: several that need no scratch, or one that
/// does.
pub open spec fn composes_onto(operation: Operation, onto: Surface) -> bool {
    match operation {
        Operation::Draw { onto: surface, items } => surface == onto && items@.len() > 0,
        Operation::Composite { onto: surface, .. } => surface == onto,
        _ => false,
    }
}

/// The items are drawn in their order, and those that need no scratch together, as far as none
/// that needs it lies between them.
pub open spec fn composes(
    operations: Seq<Operation>,
    onto: Surface,
    visible: Seq<VisibleItem>,
) -> bool {
    &&& forall|i: int| 0 <= i < operations.len() ==> composes_onto(#[trigger] operations[i], onto)
    &&& forall|i: int, j: int|
        0 <= i && j == i + 1 && j < operations.len() ==> !(#[trigger] operations[i] is Draw
            && #[trigger] operations[j] is Draw)
    &&& added(operations) == item_marks(visible)
}

/// What came of drawing that was begun and ended: it is ended also where drawing fails, so both can
/// fail. The drawing's error is then told in the context of the other.
pub fn transaction_result(drawn: Result<(), String>, ended: Result<(), String>) -> (result: Result<
    (),
    String,
>)
    ensures
        result is Ok <==> drawn is Ok && ended is Ok,
        drawn is Err && ended is Ok ==> result == drawn,
        drawn is Ok && ended is Err ==> result == ended,
        drawn is Err && ended is Err ==> result->Err_0@ == "Direct2D EndDraw also failed: "@
            + ended->Err_0@ + ": "@ + drawn->Err_0@,
{
    match (drawn, ended) {
        (Ok(_), ended) => ended,
        (drawn, Ok(_)) => drawn,
        (Err(drawn), Err(ended)) => {
            let mut message = "Direct2D EndDraw also failed: ".to_owned();
            message.append(ended.as_str());
            message.append(": ");
            message.append(drawn.as_str());
            Err(message)
        },
    }
}

impl ItemKind {
    pub open spec fn needs_scratch(self) -> bool {
        self matches ItemKind::Stroke(brush) && brush.tool != BrushTool::Eraser
            && brush.translucent
    }

    /// Whether an item is a stroke that is drawn by way of the scratch: it is not opaque and does
    /// not erase.
    pub fn uses_opacity_scratch(&self) -> (uses: bool)
        ensures
            uses == self.needs_scratch(),
    {
        match self {
            ItemKind::Stroke(brush) => !matches!(brush.tool, BrushTool::Eraser)
                && brush.translucent,
            _ => false,
        }
    }
}

/// The first place, from `start` on, of an item with this identifier.
pub open spec fn place(items: Seq<CanvasItem>, item_id: Seq<char>, start: int) -> int
    decreases items.len() - start,
{
    if start < 0 || start >= items.len() {
        items.len() as int
    } else if items[start].item_id@ == item_id {
        start
    } else {
        place(items, item_id, start + 1)
    }
}

/// The first place, from `start` on, of a finished item with this identifier.
pub open spec fn done_place(items: Seq<CanvasItem>, item_id: Seq<char>, start: int) -> int
    decreases items.len() - start,
{
    if start < 0 || start >= items.len() {
        items.len() as int
    } else if items[start].done && items[start].item_id@ == item_id {
        start
    } else {
        done_place(items, item_id, start + 1)
    }
}

/// How the item at a place of the history is drawn while `selected` is under transformation.
pub open spec fn shown_item(
    items: Seq<CanvasItem>,
    index: int,
    selected: Option<CanvasItem>,
) -> VisibleItem {
    match selected {
        Some(selected) if items[index].item_id@ == selected.item_id@ => VisibleItem {
            item: ItemRef::Selected,
            scratch: selected.kind.needs_scratch(),
        },
        _ => VisibleItem {
            item: ItemRef::History(index as usize),
            scratch: items[index].kind.needs_scratch(),
        },
    }
}

/// The finished items of a part of the history, in order.
pub open spec fn visible_items(
    items: Seq<CanvasItem>,
    start: int,
    end: int,
    selected: Option<CanvasItem>,
) -> Seq<VisibleItem>
    decreases end - start,
{
    if end <= start {
        Seq::empty()
    } else if items[end - 1].done {
        visible_items(items, start, end - 1, selected).push(shown_item(items, end - 1, selected))
    } else {
        visible_items(items, start, end - 1, selected)
    }
}

/// The operations draw the finished items anew, up to the one that is transformed.
pub open spec fn rebuilds(
    operations: Seq<Operation>,
    items: Seq<CanvasItem>,
    transformed_item_id: Option<Seq<char>>,
) -> bool {
    let end = match transformed_item_id {
        Some(item_id) => place(items, item_id, 0),
        None => items.len() as int,
    };
    &&& operations.len() > 0
    &&& operations[0] == Operation::Clear(Surface::Baked)
    &&& composes(operations.skip(1), Surface::Baked, visible_items(items, 0, end, None))
}

/// The operations draw the finished items that were drawn before, and then the rest of the
/// history with the item under transformation in its place.
pub open spec fn previews(
    operations: Seq<Operation>,
    items: Seq<CanvasItem>,
    selected: CanvasItem,
) -> bool {
    &&& operations.len() > 1
    &&& operations[0] == Operation::Clear(Surface::Frame)
    &&& operations[1] == Operation::CopyBaked(Surface::Frame)
    &&& composes(
        operations.skip(2),
        Surface::Frame,
        visible_items(
            items,
            done_place(items, selected.item_id@, 0),
            items.len() as int,
            Some(selected),
        ),
    )
}

proof fn lemma_added(operations: Seq<Operation>, operation: Operation)
    ensures
        added(operations.push(operation)) == added(operations) + operation.marks(),
{
    assert(operations.push(operation).drop_last() =~= operations);
}

/// Composes items onto a surface.
fn append_composited_items(operations: &mut Vec<Operation>, onto: Surface, visible: &[VisibleItem])
    ensures
        final(operations)@.len() >= old(operations)@.len(),
        final(operations)@.take(old(operations)@.len() as int) == old(operations)@,
        composes(final(operations)@.skip(old(operations)@.len() as int), onto, visible@),
{
    let ghost before = operations@;
    let ghost start = before.len() as int;
    let mut together: Vec<ItemRef> = Vec::new();
    assert(operations@.skip(start) =~= Seq::empty());
    assert(item_marks(visible@.take(0)) =~= Seq::empty());
    for index in 0..visible.len()
        invariant
            start == before.len(),
            operations@.len() >= start,
            operations@.take(start) == before,
            forall|i: int|
                start <= i < operations@.len() ==> composes_onto(#[trigger] operations@[i], onto),
            forall|i: int, j: int|
                start <= i && j == i + 1 && j < operations@.len() ==> !(
                #[trigger] operations@[i] is Draw && #[trigger] operations@[j] is Draw),
            operations@.len() > start ==> operations@.last() is Composite,
            added(operations@.skip(start)) + drawn(together@) == item_marks(
                visible@.take(index as int),
            ),
    {
        let ghost earlier = operations@.skip(start);
        assert(item_marks(visible@.take(index as int + 1)) =~= item_marks(
            visible@.take(index as int),
        ).push(Mark::Item(visible@[index as int])));
        if visible[index].scratch {
            draw_together(operations, onto, together, Ghost(start));
            let ghost middle = operations@;
            operations.push(Operation::Composite { onto, item: visible[index].item });
            proof {
                assert(operations@.skip(start) =~= middle.skip(start).push(operations@.last()));
                lemma_added(middle.skip(start), operations@.last());
                assert(operations@.take(start) =~= before);
            }
            together = Vec::new();
            assert(drawn(together@) =~= Seq::empty());
            assert(added(operations@.skip(start)) + drawn(together@) =~= item_marks(
                visible@.take(index as int + 1),
            ));
        } else {
            let ghost marks = drawn(together@);
            together.push(visible[index].item);
            assert(drawn(together@) =~= marks.push(Mark::Item(visible@[index as int])));
            assert(added(operations@.skip(start)) + drawn(together@) =~= item_marks(
                visible@.take(index as int + 1),
            ));
        }
    }
    assert(visible@.take(visible@.len() as int) =~= visible@);
    draw_together(operations, onto, together, Ghost(start));
    assert forall|i: int| 0 <= i < operations@.skip(start).len() implies composes_onto(
        #[trigger] operations@.skip(start)[i],
        onto,
    ) by {
        assert(composes_onto(operations@[start + i], onto));
    }
    assert forall|i: int, j: int|
        0 <= i && j == i + 1 && j < operations@.skip(start).len() implies !(
    #[trigger] operations@.skip(start)[i] is Draw && #[trigger] operations@.skip(start)[j] is Draw)
    by {
        assert(!(operations@[start + i] is Draw && operations@[start + j] is Draw));
    }
}

pub open spec fn drawn(items: Seq<ItemRef>) -> Seq<Mark> {
    Seq::new(items.len(), |i: int| Mark::Item(VisibleItem { item: items[i], scratch: false }))
}

/// Draws the items collected so far, if there are any.
fn draw_together(
    operations: &mut Vec<Operation>,
    onto: Surface,
    items: Vec<ItemRef>,
    Ghost(start): Ghost<int>,
)
    requires
        0 <= start <= old(operations)@.len(),
        forall|i: int|
            start <= i < old(operations)@.len() ==> composes_onto(
                #[trigger] old(operations)@[i],
                onto,
            ),
        forall|i: int, j: int|
            start <= i && j == i + 1 && j < old(operations)@.len() ==> !(
            #[trigger] old(operations)@[i] is Draw && #[trigger] old(operations)@[j] is Draw),
        old(operations)@.len() > start ==> old(operations)@.last() is Composite,
    ensures
        final(operations)@.len() >= old(operations)@.len(),
        final(operations)@.take(start) == old(operations)@.take(start),
        forall|i: int|
            start <= i < final(operations)@.len() ==> composes_onto(
                #[trigger] final(operations)@[i],
                onto,
            ),
        forall|i: int, j: int|
            start <= i && j == i + 1 && j < final(operations)@.len() ==> !(
            #[trigger] final(operations)@[i] is Draw && #[trigger] final(operations)@[j] is Draw),
        added(final(operations)@.skip(start)) == added(old(operations)@.skip(start)) + drawn(
            items@,
        ),
{
    if items.len() > 0 {
        operations.push(Operation::Draw { onto, items });
        proof {
            lemma_added(old(operations)@.skip(start), operations@.last());
            assert(operations@.skip(start) =~= old(operations)@.skip(start).push(
                operations@.last(),
            ));
            assert(operations@.take(start) =~= old(operations)@.take(start));
            assert(operations@.last().marks() =~= drawn(items@));
        }
    } else {
        assert(added(operations@.skip(start)) + drawn(items@) =~= added(operations@.skip(start)));
    }
}

/// The stroke under way, as far as it has been drawn on the scratch.
#[derive(Debug)]
pub struct ActiveStrokeState {
    pub stroke_id: String,
    pub brush: BrushLook,
    /// The next segment to draw; the first has the number one.
    pub next_segment: usize,
}

/// What the bitmaps hold beyond the finished items.
#[derive(Debug)]
pub struct Renderer {
    pub active_stroke: Option<ActiveStrokeState>,
}

/// What the scratch starts from. An eraser works on a copy of the finished items, so that they
/// are untouched until it is done.
#[derive(Clone, Copy, Debug, PartialEq, Eq, Structural)]
pub enum ScratchBase {
    Transparent,
    CopyOfBaked,
}

/// How to bring the scratch up to date: start it anew where `reset` says so, then draw the
/// segments from `from_segment` on, and report to [`Renderer::segments_drawn`] or
/// [`Renderer::abandon_active_stroke`].
#[derive(Clone, Copy, Debug, PartialEq, Eq, Structural)]
pub struct StrokeSync {
    /// The place of the stroke in the history.
    pub item: usize,
    pub reset: Option<ScratchBase>,
    pub from_segment: usize,
}

/// How a finished item gets onto the bitmap of finished items.
#[derive(Clone, Copy, Debug, PartialEq, Eq, Structural)]
pub enum BakePlan {
    /// Draw the remaining segments from `from_segment` on and the end of the stroke onto the
    /// scratch, then lay the scratch over: an eraser's in place of what is there, opaquely, and
    /// another with its brush's opacity.
    FinishScratch { from_segment: usize, replace: bool },
    /// Draw the stroke opaquely on the cleared scratch, then the scratch with its opacity.
    Composite,
    Draw,
}

/// What is on the scratch: what it started from, and the numbers of the segments of one stroke
/// that have been drawn over it.
#[verifier::ext_equal]
pub struct Scratch {
    pub under: Seq<Mark>,
    pub segments: Seq<int>,
}

/// The numbers from `start` up to `end`, without `end`.
pub open spec fn numbers(start: int, end: int) -> Seq<int> {
    Seq::new(
        if start < end {
            (end - start) as nat
        } else {
            0
        },
        |i: int| start + i,
    )
}

impl ScratchBase {
    /// What a scratch holds that was just started.
    pub open spec fn marks(self, baked: Seq<Mark>) -> Seq<Mark> {
        match self {
            ScratchBase::Transparent => Seq::empty(),
            ScratchBase::CopyOfBaked => baked,
        }
    }
}

impl StrokeSync {
    /// The scratch once it has been brought up to date with `count` new segments.
    pub open spec fn applied(self, scratch: Scratch, baked: Seq<Mark>, count: int) -> Scratch {
        let started = match self.reset {
            None => scratch,
            Some(base) => Scratch { under: base.marks(baked), segments: Seq::empty() },
        };
        Scratch {
            segments: started.segments + numbers(
                self.from_segment as int,
                self.from_segment + count,
            ),
            ..started
        }
    }
}

impl BakePlan {
    /// What a finished item adds, of which `end` is the number after its last segment. What is
    /// laid over by way of the scratch is the item only where each segment has been drawn once and
    /// in order; it is drawn as a whole with its brush's opacity unless it is laid over opaquely.
    pub open spec fn marks(
        self,
        item: ItemRef,
        kind: ItemKind,
        scratch: Scratch,
        end: int,
    ) -> Seq<Mark> {
        match self {
            BakePlan::FinishScratch { from_segment, replace } => if scratch.segments + numbers(
                from_segment as int,
                end,
            ) == numbers(1, end) {
                let translucent = kind matches ItemKind::Stroke(brush) && brush.translucent;
                seq![Mark::Item(VisibleItem { item, scratch: translucent && !replace })]
            } else {
                Seq::empty()
            },
            BakePlan::Composite => seq![Mark::Item(VisibleItem { item, scratch: true })],
            BakePlan::Draw => seq![Mark::Item(VisibleItem { item, scratch: false })],
        }
    }

    /// The bitmap of finished items once a finished item has been added.
    pub open spec fn applied(
        self,
        item: ItemRef,
        kind: ItemKind,
        scratch: Scratch,
        end: int,
        baked: Seq<Mark>,
    ) -> Seq<Mark> {
        let below = match self {
            BakePlan::FinishScratch { replace: true, .. } => scratch.under,
            BakePlan::FinishScratch { replace: false, .. } => baked + scratch.under,
            _ => baked,
        };
        below + self.marks(item, kind, scratch, end)
    }
}

/// The place of the stroke under way: the first stroke that is not finished.
pub open spec fn stroke_place(items: Seq<CanvasItem>, start: int) -> int
    decreases items.len() - start,
{
    if start < 0 || start >= items.len() {
        items.len() as int
    } else if items[start].kind is Stroke && !items[start].done {
        start
    } else {
        stroke_place(items, start + 1)
    }
}

pub open spec fn scratch_base(brush: BrushLook) -> ScratchBase {
    if brush.tool == BrushTool::Eraser {
        ScratchBase::CopyOfBaked
    } else {
        ScratchBase::Transparent
    }
}

impl Renderer {
    /// The scratch holds the beginning of this stroke.
    pub open spec fn holds(self, item: CanvasItem) -> bool {
        &&& self.active_stroke matches Some(active)
        &&& item.kind matches ItemKind::Stroke(brush)
        &&& active.stroke_id@ == item.item_id@
        &&& active.brush == brush
    }

    /// The number of the next segment of the stroke under way.
    pub open spec fn cursor(self) -> Option<usize> {
        match self.active_stroke {
            Some(active) => Some(active.next_segment),
            None => None,
        }
    }

    /// The scratch holds the beginning of a stroke with this item's identifier.
    pub open spec fn begun(self, item: CanvasItem) -> bool {
        &&& item.kind is Stroke
        &&& self.active_stroke matches Some(active)
        &&& active.stroke_id@ == item.item_id@
    }

    /// How a finished item gets onto the bitmap of finished items.
    pub open spec fn bake_plan(self, item: CanvasItem) -> BakePlan {
        if self.begun(item) {
            BakePlan::FinishScratch {
                from_segment: self.cursor()->0,
                replace: item.kind->Stroke_0.tool == BrushTool::Eraser,
            }
        } else if item.kind.needs_scratch() {
            BakePlan::Composite
        } else {
            BakePlan::Draw
        }
    }

    /// A scratch that was used for a finished item is not used any further.
    pub open spec fn after_bake(self, item: CanvasItem) -> Self {
        if self.bake_plan(item) is Draw {
            self
        } else {
            Renderer { active_stroke: None }
        }
    }

    /// Bringing the scratch up to date with the stroke under way leads from this to `after`.
    pub open spec fn syncs(
        self,
        items: Seq<CanvasItem>,
        sync: Option<StrokeSync>,
        after: Self,
    ) -> bool {
        let found = stroke_place(items, 0);
        if found == items.len() {
            sync is None && after.active_stroke is None
        } else {
            let item = items[found];
            let kept = self.holds(item);
            &&& sync == Some(
                StrokeSync {
                    item: found as usize,
                    reset: if kept {
                        None
                    } else {
                        Some(scratch_base(item.kind->Stroke_0))
                    },
                    from_segment: if kept {
                        self.cursor()->0
                    } else {
                        1
                    },
                },
            )
            &&& after.holds(item)
            &&& after.cursor() == Some(sync->0.from_segment)
        }
    }

    /// So many more segments of the stroke under way are on the scratch.
    pub open spec fn counted(self, count: int) -> Self {
        match self.active_stroke {
            None => self,
            Some(active) => Renderer {
                active_stroke: Some(
                    ActiveStrokeState {
                        next_segment: (active.next_segment + count) as usize,
                        ..active
                    },
                ),
            },
        }
    }

    pub fn new() -> (renderer: Self)
        ensures
            renderer.active_stroke is None,
    {
        Renderer { active_stroke: None }
    }

    /// Draws all finished items anew.
    pub fn rebuild_baked(&mut self, items: &[CanvasItem]) -> (operations: Vec<Operation>)
        ensures
            final(self).active_stroke is None,
            rebuilds(operations@, items@, None),
    {
        self.rebuild_baked_prefix(items, None)
    }

    /// Draws the finished items anew, up to the one that is about to be transformed. That one and
    /// all that follow are then drawn with each frame, in their order, so that what was erased
    /// after it stays erased.
    pub fn rebuild_baked_prefix(
        &mut self,
        items: &[CanvasItem],
        transformed_item_id: Option<&str>,
    ) -> (operations: Vec<Operation>)
        ensures
            final(self).active_stroke is None,
            rebuilds(
                operations@,
                items@,
                match transformed_item_id {
                    Some(item_id) => Some(item_id@),
                    None => None,
                },
            ),
    {
        self.active_stroke = None;
        let end = match transformed_item_id {
            Some(item_id) => find_item(items, item_id),
            None => items.len(),
        };
        let visible = collect_visible(items, 0, end, None);
        let mut operations: Vec<Operation> = vec![Operation::Clear(Surface::Baked)];
        append_composited_items(&mut operations, Surface::Baked, visible.as_slice());
        assert(operations@.take(1)[0] == operations@[0]);
        operations
    }

    /// Adds an item that was just finished.
    pub fn bake_item(&mut self, item: &CanvasItem) -> (plan: BakePlan)
        ensures
            plan == old(self).bake_plan(*item),
            *final(self) == old(self).after_bake(*item),
    {
        if let ItemKind::Stroke(brush) = item.kind {
            if let Some(active) = &self.active_stroke {
                if active.stroke_id == item.item_id {
                    let from_segment: usize = active.next_segment;
                    self.active_stroke = None;
                    return BakePlan::FinishScratch {
                        from_segment,
                        replace: matches!(brush.tool, BrushTool::Eraser),
                    };
                }
            }
            if item.kind.uses_opacity_scratch() {
                self.active_stroke = None;
                return BakePlan::Composite;
            }
        }
        BakePlan::Draw
    }

    /// Shows an empty frame. The finished items stay on their bitmap.
    pub fn clear_frame(&mut self) -> (operations: Vec<Operation>)
        ensures
            final(self).active_stroke is None,
            operations@ == seq![Operation::Clear(Surface::Frame), Operation::Present],
    {
        self.active_stroke = None;
        vec![Operation::Clear(Surface::Frame), Operation::Present]
    }

    /// Finds the stroke under way. Where the scratch holds it already, only what is new is drawn.
    pub fn sync_active_stroke(&mut self, items: &[CanvasItem]) -> (sync: Option<StrokeSync>)
        ensures
            old(self).syncs(items@, sync, *final(self)),
    {
        let found = find_stroke(items);
        if found == items.len() {
            self.active_stroke = None;
            return None;
        }
        let item = &items[found];
        if let ItemKind::Stroke(brush) = item.kind {
            if let Some(active) = &self.active_stroke {
                if active.stroke_id == item.item_id && active.brush == brush {
                    return Some(
                        StrokeSync { item: found, reset: None, from_segment: active.next_segment },
                    );
                }
            }
            self.active_stroke = Some(
                ActiveStrokeState { stroke_id: item.item_id.clone(), brush, next_segment: 1 },
            );
            let base = if matches!(brush.tool, BrushTool::Eraser) {
                ScratchBase::CopyOfBaked
            } else {
                ScratchBase::Transparent
            };
            return Some(StrokeSync { item: found, reset: Some(base), from_segment: 1 });
        }
        None
    }

    /// So many segments have been drawn on the scratch.
    pub fn segments_drawn(&mut self, count: usize)
        requires
            old(self).cursor() matches Some(next) ==> next + count <= usize::MAX,
        ensures
            *final(self) == old(self).counted(count as int),
    {
        if let Some(mut active) = self.active_stroke.take() {
            active.next_segment = active.next_segment + count;
            self.active_stroke = Some(active);
        }
    }

    /// Drawing on the scratch failed: it is not used any further.
    pub fn abandon_active_stroke(&mut self)
        ensures
            final(self).active_stroke is None,
    {
        self.active_stroke = None;
    }

    /// The bitmaps that a frame shows. An eraser's scratch holds the finished items already.
    pub open spec fn layers(self) -> Seq<Operation> {
        match self.active_stroke {
            None => seq![Operation::Clear(Surface::Frame), Operation::CopyBaked(Surface::Frame)],
            Some(active) => if active.brush.tool == BrushTool::Eraser {
                seq![Operation::Clear(Surface::Frame), Operation::CopyScratch { opaque: true }]
            } else {
                seq![
                    Operation::Clear(Surface::Frame),
                    Operation::CopyBaked(Surface::Frame),
                    Operation::CopyScratch { opaque: false },
                ]
            },
        }
    }

    /// The rest of the history is drawn with the item under transformation in its place.
    pub open spec fn shows_preview(
        self,
        items: Seq<CanvasItem>,
        selected: Option<CanvasItem>,
    ) -> bool {
        &&& selected matches Some(selected)
        &&& done_place(items, selected.item_id@, 0) < items.len()
        &&& self.active_stroke is None
    }

    /// The operations of a frame: the canvas, and over it the parts of the user interface.
    pub open spec fn draws_frame(
        self,
        operations: Seq<Operation>,
        items: Seq<CanvasItem>,
        draw_mode: bool,
        selected: Option<CanvasItem>,
        radial: bool,
    ) -> bool {
        let ui = ui_operations(selected is Some, draw_mode, radial);
        let canvas = operations.take(operations.len() - ui.len());
        &&& operations.len() >= ui.len()
        &&& operations.skip(operations.len() - ui.len()) == ui
        &&& if self.shows_preview(items, selected) {
            previews(canvas, items, selected->0)
        } else {
            let live = live_items(items, items.len() as int) + (if selected is Some {
                seq![ItemRef::Selected]
            } else {
                Seq::empty()
            });
            if live.len() == 0 {
                canvas == self.layers()
            } else {
                &&& canvas.len() == self.layers().len() + 1
                &&& canvas.drop_last() == self.layers()
                &&& canvas.last() matches Operation::Draw { onto, items }
                &&& onto == Surface::Frame
                &&& items@ == live
            }
        }
    }

    /// Draws a frame, after the scratch has been brought up to date.
    pub fn draw_frame(
        &self,
        items: &[CanvasItem],
        draw_mode: bool,
        selected: Option<&CanvasItem>,
        radial: bool,
    ) -> (operations: Vec<Operation>)
        ensures
            self.draws_frame(
                operations@,
                items@,
                draw_mode,
                match selected {
                    Some(selected) => Some(*selected),
                    None => None,
                },
                radial,
            ),
    {
        let ghost chosen = match selected {
            Some(selected) => Some(*selected),
            None => None,
        };
        let mut operations = match selected {
            Some(item) => {
                let start = find_done_item(items, item.item_id.as_str());
                if start < items.len() && self.active_stroke.is_none() {
                    assert(self.shows_preview(items@, chosen));
                    transform_history_preview(items, start, item)
                } else {
                    assert(!self.shows_preview(items@, chosen));
                    self.canvas(items, true)
                }
            },
            None => self.canvas(items, false),
        };
        let ghost canvas = operations@;
        let ghost ui = ui_operations(selected is Some, draw_mode, radial);
        push_ui(&mut operations, selected.is_some(), draw_mode, radial);
        assert(operations@.take(operations@.len() - ui.len()) =~= canvas);
        assert(operations@.skip(operations@.len() - ui.len()) =~= ui);
        operations
    }

    /// The canvas as the bitmaps have it, with the items that change with every frame.
    fn canvas(&self, items: &[CanvasItem], selected: bool) -> (operations: Vec<Operation>)
        ensures
            ({
                let live = live_items(items@, items@.len() as int) + (if selected {
                    seq![ItemRef::Selected]
                } else {
                    Seq::empty()
                });
                if live.len() == 0 {
                    operations@ == self.layers()
                } else {
                    &&& operations@.len() == self.layers().len() + 1
                    &&& operations@.drop_last() == self.layers()
                    &&& operations@.last() matches Operation::Draw { onto, items }
                    &&& onto == Surface::Frame
                    &&& items@ == live
                }
            }),
    {
        let mut operations: Vec<Operation> = vec![Operation::Clear(Surface::Frame)];
        match &self.active_stroke {
            Some(active) => {
                let opaque = matches!(active.brush.tool, BrushTool::Eraser);
                if !opaque {
                    operations.push(Operation::CopyBaked(Surface::Frame));
                }
                operations.push(Operation::CopyScratch { opaque });
            },
            None => {
                operations.push(Operation::CopyBaked(Surface::Frame));
            },
        }
        assert(operations@ =~= self.layers());
        let mut live: Vec<ItemRef> = Vec::new();
        for i in 0..items.len()
            invariant
                live@ == live_items(items@, i as int),
        {
            if !items[i].done && !matches!(items[i].kind, ItemKind::Stroke(_)) {
                live.push(ItemRef::History(i));
            }
        }
        if selected {
            live.push(ItemRef::Selected);
            assert(live@ =~= live_items(items@, items@.len() as int) + seq![ItemRef::Selected]);
        } else {
            assert(live@ =~= live_items(items@, items@.len() as int) + Seq::empty());
        }
        if live.len() > 0 {
            operations.push(Operation::Draw { onto: Surface::Frame, items: live });
            assert(operations@.drop_last() =~= self.layers());
        }
        operations
    }
}

/// The items that change with every frame: those under way that have no scratch.
pub open spec fn live_items(items: Seq<CanvasItem>, end: int) -> Seq<ItemRef>
    decreases end,
{
    if end <= 0 {
        Seq::empty()
    } else if !items[end - 1].done && !(items[end - 1].kind is Stroke) {
        live_items(items, end - 1).push(ItemRef::History((end - 1) as usize))
    } else {
        live_items(items, end - 1)
    }
}

pub open spec fn ui_operations(selected: bool, draw_mode: bool, radial: bool) -> Seq<Operation> {
    (if selected {
        seq![Operation::Ui(UiPart::SelectionBox)]
    } else {
        Seq::empty()
    }) + (if draw_mode {
        seq![Operation::Ui(UiPart::ModeBorder)]
    } else {
        Seq::empty()
    }) + (if radial {
        seq![Operation::Ui(UiPart::RadialMenu)]
    } else {
        Seq::empty()
    }) + seq![Operation::Present]
}

fn push_ui(operations: &mut Vec<Operation>, selected: bool, draw_mode: bool, radial: bool)
    ensures
        final(operations)@ == old(operations)@ + ui_operations(selected, draw_mode, radial),
{
    if selected {
        operations.push(Operation::Ui(UiPart::SelectionBox));
    }
    if draw_mode {
        operations.push(Operation::Ui(UiPart::ModeBorder));
    }
    if radial {
        operations.push(Operation::Ui(UiPart::RadialMenu));
    }
    operations.push(Operation::Present);
    assert(operations@ =~= old(operations)@ + ui_operations(selected, draw_mode, radial));
}

/// Draws the history from the item under transformation on, over what was drawn before.
fn transform_history_preview(items: &[CanvasItem], start: usize, selected: &CanvasItem) -> (
operations: Vec<Operation>)
    requires
        start == done_place(items@, selected.item_id@, 0),
        start <= items@.len(),
    ensures
        previews(operations@, items@, *selected),
{
    let visible = collect_visible(items, start, items.len(), Some(selected));
    let mut operations: Vec<Operation> = vec![
        Operation::Clear(Surface::Frame),
        Operation::CopyBaked(Surface::Frame),
    ];
    append_composited_items(&mut operations, Surface::Frame, visible.as_slice());
    assert(operations@.take(2)[0] == operations@[0]);
    assert(operations@.take(2)[1] == operations@[1]);
    operations
}

/// The place of the item that was finished last, where there is one.
pub fn last_done(items: &[CanvasItem]) -> (found: Option<usize>)
    ensures
        found is None ==> forall|i: int| 0 <= i < items@.len() ==> !(#[trigger] items@[i]).done,
        found matches Some(found) ==> {
            &&& found < items@.len()
            &&& items@[found as int].done
            &&& forall|i: int| found < i < items@.len() ==> !(#[trigger] items@[i]).done
        },
{
    let mut rest: usize = items.len();
    while rest > 0
        invariant
            rest <= items@.len(),
            forall|i: int| rest <= i < items@.len() ==> !(#[trigger] items@[i]).done,
        decreases rest,
    {
        rest = rest - 1;
        if items[rest].done {
            return Some(rest);
        }
    }
    None
}

fn find_item(items: &[CanvasItem], item_id: &str) -> (index: usize)
    ensures
        index == place(items@, item_id@, 0),
        index <= items@.len(),
{
    let wanted = item_id.to_owned();
    for i in 0..items.len()
        invariant
            wanted@ == item_id@,
            place(items@, item_id@, 0) == place(items@, item_id@, i as int),
    {
        if items[i].item_id == wanted {
            return i;
        }
    }
    items.len()
}

fn find_done_item(items: &[CanvasItem], item_id: &str) -> (index: usize)
    ensures
        index == done_place(items@, item_id@, 0),
        index <= items@.len(),
{
    let wanted = item_id.to_owned();
    for i in 0..items.len()
        invariant
            wanted@ == item_id@,
            done_place(items@, item_id@, 0) == done_place(items@, item_id@, i as int),
    {
        if items[i].done && items[i].item_id == wanted {
            return i;
        }
    }
    items.len()
}

fn find_stroke(items: &[CanvasItem]) -> (index: usize)
    ensures
        index == stroke_place(items@, 0),
        index <= items@.len(),
        index < items@.len() ==> items@[index as int].kind is Stroke,
{
    for i in 0..items.len()
        invariant
            stroke_place(items@, 0) == stroke_place(items@, i as int),
    {
        if matches!(items[i].kind, ItemKind::Stroke(_)) && !items[i].done {
            return i;
        }
    }
    items.len()
}

fn collect_visible(
    items: &[CanvasItem],
    start: usize,
    end: usize,
    selected: Option<&CanvasItem>,
) -> (visible: Vec<VisibleItem>)
    requires
        start <= end <= items@.len(),
    ensures
        visible@ == visible_items(
            items@,
            start as int,
            end as int,
            match selected {
                Some(selected) => Some(*selected),
                None => None,
            },
        ),
{
    let mut visible: Vec<VisibleItem> = Vec::new();
    let ghost chosen = match selected {
        Some(selected) => Some(*selected),
        None => None,
    };
    for i in start..end
        invariant
            start <= end <= items@.len(),
            chosen == match selected {
                Some(selected) => Some(*selected),
                None => None,
            },
            visible@ == visible_items(items@, start as int, i as int, chosen),
    {
        if items[i].done {
            visible.push(show_item(items, i, selected));
        }
    }
    visible
}

fn show_item(items: &[CanvasItem], index: usize, selected: Option<&CanvasItem>) -> (shown:
    VisibleItem)
    requires
        index < items@.len(),
    ensures
        shown == shown_item(
            items@,
            index as int,
            match selected {
                Some(selected) => Some(*selected),
                None => None,
            },
        ),
{
    if let Some(selected) = selected {
        if items[index].item_id == selected.item_id {
            return VisibleItem {
                item: ItemRef::Selected,
                scratch: selected.kind.uses_opacity_scratch(),
            };
        }
    }
    VisibleItem {
        item: ItemRef::History(index),
        scratch: items[index].kind.uses_opacity_scratch(),
    }
}

proof fn lemma_run_first(operations: Seq<Operation>, surfaces: Surfaces)
    requires
        operations.len() > 0,
    ensures
        run(operations, surfaces) == run(operations.skip(1), operations[0].applied(surfaces)),
    decreases operations.len(),
{
    if operations.len() == 1 {
        assert(operations.drop_last() =~= Seq::empty());
        assert(operations.skip(1) =~= Seq::empty());
        assert(run(operations.drop_last(), surfaces) == surfaces);
    } else {
        lemma_run_first(operations.drop_last(), surfaces);
        assert(operations.drop_last().skip(1) =~= operations.skip(1).drop_last());
    }
}

proof fn lemma_run_composing(operations: Seq<Operation>, onto: Surface, surfaces: Surfaces)
    requires
        forall|i: int|
            0 <= i < operations.len() ==> composes_onto(#[trigger] operations[i], onto),
    ensures
        run(operations, surfaces) == surfaces.set(onto, surfaces.on(onto) + added(operations)),
    decreases operations.len(),
{
    if operations.len() == 0 {
        assert(surfaces.on(onto) + added(operations) =~= surfaces.on(onto));
    } else {
        let before = operations.drop_last();
        assert forall|i: int| 0 <= i < before.len() implies composes_onto(
            #[trigger] before[i],
            onto,
        ) by {
            assert(composes_onto(operations[i], onto));
        }
        lemma_run_composing(before, onto, surfaces);
        assert(composes_onto(operations.last(), onto));
        assert(surfaces.on(onto) + added(before) + operations.last().marks() =~= surfaces.on(onto)
            + (added(before) + operations.last().marks()));
    }
}

/// The items that marks stand for, and how they are drawn.
pub open spec fn resolved(
    marks: Seq<Mark>,
    items: Seq<CanvasItem>,
    selected: CanvasItem,
) -> Seq<(CanvasItem, bool)> {
    Seq::new(
        marks.len(),
        |i: int|
            {
                let visible = marks[i]->Item_0;
                (
                    match visible.item {
                        ItemRef::History(index) => items[index as int],
                        ItemRef::Selected => selected,
                    },
                    visible.scratch,
                )
            },
    )
}

/// The history once the transformation of an item has become part of it.
pub open spec fn committed(items: Seq<CanvasItem>, selected: CanvasItem) -> Seq<CanvasItem> {
    Seq::new(
        items.len(),
        |i: int|
            if items[i].done && items[i].item_id@ == selected.item_id@ {
                selected
            } else {
                items[i]
            },
    )
}

proof fn lemma_place(items: Seq<CanvasItem>, item_id: Seq<char>, start: int)
    requires
        0 <= start <= items.len(),
    ensures
        start <= place(items, item_id, start) <= items.len(),
        forall|i: int|
            start <= i < place(items, item_id, start) ==> #[trigger] items[i].item_id@ != item_id,
        ({
            let found = place(items, item_id, start);
            found < items.len() ==> items[found].item_id@ == item_id && (items[found].done
                ==> done_place(items, item_id, start) == found)
        }),
    decreases items.len() - start,
{
    if start < items.len() && items[start].item_id@ != item_id {
        lemma_place(items, item_id, start + 1);
    }
}

proof fn lemma_committed_prefix(items: Seq<CanvasItem>, selected: CanvasItem, end: int)
    requires
        items.len() <= usize::MAX,
        0 <= end <= place(items, selected.item_id@, 0),
    ensures
        resolved(item_marks(visible_items(items, 0, end, None)), items, selected) == resolved(
            item_marks(visible_items(committed(items, selected), 0, end, None)),
            committed(items, selected),
            selected,
        ),
    decreases end,
{
    lemma_place(items, selected.item_id@, 0);
    let after = committed(items, selected);
    if end > 0 {
        lemma_committed_prefix(items, selected, end - 1);
        assert(items[end - 1].item_id@ != selected.item_id@);
        assert(after[end - 1] == items[end - 1]);
        let left = visible_items(items, 0, end - 1, None);
        let right = visible_items(after, 0, end - 1, None);
        if items[end - 1].done {
            lemma_resolved_push(left, shown_item(items, end - 1, None), items, selected);
            lemma_resolved_push(right, shown_item(after, end - 1, None), after, selected);
        }
    } else {
        assert(resolved(item_marks(visible_items(items, 0, end, None)), items, selected)
            =~= resolved(item_marks(visible_items(after, 0, end, None)), after, selected));
    }
}

proof fn lemma_resolved_push(
    visible: Seq<VisibleItem>,
    next: VisibleItem,
    items: Seq<CanvasItem>,
    selected: CanvasItem,
)
    ensures
        resolved(item_marks(visible.push(next)), items, selected) == resolved(
            item_marks(visible),
            items,
            selected,
        ) + resolved(item_marks(seq![next]), items, selected),
{
    assert(resolved(item_marks(visible.push(next)), items, selected) =~= resolved(
        item_marks(visible),
        items,
        selected,
    ) + resolved(item_marks(seq![next]), items, selected));
}

proof fn lemma_committed_suffix(items: Seq<CanvasItem>, selected: CanvasItem, end: int)
    requires
        items.len() <= usize::MAX,
        selected.done,
        ({
            let found = place(items, selected.item_id@, 0);
            found < items.len() && items[found].done && found <= end <= items.len()
        }),
    ensures
        ({
            let found = place(items, selected.item_id@, 0);
            resolved(
                item_marks(visible_items(committed(items, selected), 0, end, None)),
                committed(items, selected),
                selected,
            ) == resolved(item_marks(visible_items(items, 0, found, None)), items, selected)
                + resolved(
                item_marks(visible_items(items, found, end, Some(selected))),
                items,
                selected,
            )
        }),
    decreases end,
{
    lemma_place(items, selected.item_id@, 0);
    let found = place(items, selected.item_id@, 0);
    let after = committed(items, selected);
    let prefix = resolved(item_marks(visible_items(items, 0, found, None)), items, selected);
    if end == found {
        lemma_committed_prefix(items, selected, found);
        assert(prefix + resolved(
            item_marks(visible_items(items, found, end, Some(selected))),
            items,
            selected,
        ) =~= prefix);
    } else {
        lemma_committed_suffix(items, selected, end - 1);
        let left = visible_items(after, 0, end - 1, None);
        let right = visible_items(items, found, end - 1, Some(selected));
        assert(after[end - 1].done == items[end - 1].done);
        if items[end - 1].done {
            let drawn_left = shown_item(after, end - 1, None);
            let drawn_right = shown_item(items, end - 1, Some(selected));
            lemma_resolved_push(left, drawn_left, after, selected);
            lemma_resolved_push(right, drawn_right, items, selected);
            assert(resolved(item_marks(seq![drawn_left]), after, selected) =~= resolved(
                item_marks(seq![drawn_right]),
                items,
                selected,
            ));
            assert(prefix + (resolved(item_marks(right), items, selected) + resolved(
                item_marks(seq![drawn_right]),
                items,
                selected,
            )) =~= prefix + resolved(item_marks(right), items, selected) + resolved(
                item_marks(seq![drawn_right]),
                items,
                selected,
            ));
        }
    }
}

/// While an item is transformed, the canvas looks as it will when the transformation has become
/// part of the history: the same items lie over one another in the same order, drawn in the same
/// way, with what was erased after the item and all later strokes in their place.
pub proof fn law_a_preview_shows_what_is_committed(
    items: Seq<CanvasItem>,
    selected: CanvasItem,
    prepared: Seq<Operation>,
    preview: Seq<Operation>,
    rebuilt: Seq<Operation>,
    surfaces: Surfaces,
)
    requires
        items.len() <= usize::MAX,
        selected.done,
        place(items, selected.item_id@, 0) < items.len(),
        items[place(items, selected.item_id@, 0)].done,
        rebuilds(prepared, items, Some(selected.item_id@)),
        previews(preview, items, selected),
        rebuilds(rebuilt, committed(items, selected), None),
    ensures
        resolved(run(preview, run(prepared, surfaces)).frame, items, selected) == resolved(
            run(rebuilt, surfaces).baked,
            committed(items, selected),
            selected,
        ),
{
    let found = place(items, selected.item_id@, 0);
    lemma_place(items, selected.item_id@, 0);
    let after = committed(items, selected);
    // What lies before the item is on the bitmap of finished items.
    lemma_run_first(prepared, surfaces);
    let cleared = prepared[0].applied(surfaces);
    lemma_run_composing(prepared.skip(1), Surface::Baked, cleared);
    let before = run(prepared, surfaces);
    let marks = item_marks(visible_items(items, 0, found, None));
    assert(before.baked =~= marks);
    // The frame adds the rest.
    lemma_run_first(preview, before);
    let empty = preview[0].applied(before);
    lemma_run_first(preview.skip(1), empty);
    assert(preview.skip(1).skip(1) =~= preview.skip(2));
    let copied = preview[1].applied(empty);
    lemma_run_composing(preview.skip(2), Surface::Frame, copied);
    let rest = item_marks(visible_items(items, found, items.len() as int, Some(selected)));
    assert(run(preview, before).frame =~= marks + rest);
    // The rebuilt bitmap holds the same.
    lemma_run_first(rebuilt, surfaces);
    lemma_run_composing(rebuilt.skip(1), Surface::Baked, rebuilt[0].applied(surfaces));
    let all = item_marks(visible_items(after, 0, after.len() as int, None));
    assert(run(rebuilt, surfaces).baked =~= all);
    lemma_committed_suffix(items, selected, items.len() as int);
    assert(resolved(marks + rest, items, selected) =~= resolved(marks, items, selected)
        + resolved(rest, items, selected));
}

proof fn lemma_run_concat(left: Seq<Operation>, right: Seq<Operation>, surfaces: Surfaces)
    ensures
        run(left + right, surfaces) == run(right, run(left, surfaces)),
    decreases right.len(),
{
    if right.len() == 0 {
        assert(left + right =~= left);
    } else {
        lemma_run_concat(left, right.drop_last(), surfaces);
        assert((left + right).drop_last() =~= left + right.drop_last());
    }
}

/// No operation draws on the bitmap of finished items.
spec fn spares_baked(operations: Seq<Operation>) -> bool {
    forall|i: int|
        0 <= i < operations.len() ==> match #[trigger] operations[i] {
            Operation::Clear(surface) => surface == Surface::Frame,
            Operation::CopyBaked(surface) => surface == Surface::Frame,
            Operation::Draw { onto, .. } => onto == Surface::Frame,
            Operation::Composite { onto, .. } => onto == Surface::Frame,
            _ => true,
        }
}

proof fn lemma_spared(operations: Seq<Operation>, surfaces: Surfaces)
    requires
        spares_baked(operations),
    ensures
        run(operations, surfaces).baked == surfaces.baked,
    decreases operations.len(),
{
    if operations.len() > 0 {
        assert(operations.drop_last().len() < operations.len());
        lemma_spared(operations.drop_last(), surfaces);
    }
}

/// Showing a frame, also with a stroke under way, leaves the finished items as they are: a stroke
/// that is given up is gone with the next frame.
pub proof fn law_frames_leave_the_finished_items_alone(
    renderer: Renderer,
    operations: Seq<Operation>,
    items: Seq<CanvasItem>,
    draw_mode: bool,
    selected: Option<CanvasItem>,
    radial: bool,
    surfaces: Surfaces,
)
    requires
        renderer.draws_frame(operations, items, draw_mode, selected, radial),
    ensures
        run(operations, surfaces).baked == surfaces.baked,
{
    let ui = ui_operations(selected is Some, draw_mode, radial);
    let split = operations.len() - ui.len();
    let canvas = operations.take(split);
    assert(operations =~= canvas + ui);
    assert(spares_baked(ui));
    if renderer.shows_preview(items, selected) {
        let composing = canvas.skip(2);
        assert forall|i: int| 0 <= i < canvas.len() implies match #[trigger] canvas[i] {
            Operation::Clear(surface) => surface == Surface::Frame,
            Operation::CopyBaked(surface) => surface == Surface::Frame,
            Operation::Draw { onto, .. } => onto == Surface::Frame,
            Operation::Composite { onto, .. } => onto == Surface::Frame,
            _ => true,
        } by {
            if i >= 2 {
                assert(composes_onto(composing[i - 2], Surface::Frame));
            }
        }
    } else {
        assert(spares_baked(renderer.layers()));
        assert(forall|i: int|
            0 <= i < renderer.layers().len() ==> canvas[i] == #[trigger] renderer.layers()[i]) by {
            if canvas.len() > renderer.layers().len() {
                assert(forall|i: int|
                    0 <= i < renderer.layers().len() ==> canvas.drop_last()[i]
                        == #[trigger] renderer.layers()[i]);
            }
        }
        assert(spares_baked(canvas)) by {
            assert forall|i: int| 0 <= i < canvas.len() implies match #[trigger] canvas[i] {
                Operation::Clear(surface) => surface == Surface::Frame,
                Operation::CopyBaked(surface) => surface == Surface::Frame,
                Operation::Draw { onto, .. } => onto == Surface::Frame,
                Operation::Composite { onto, .. } => onto == Surface::Frame,
                _ => true,
            } by {
                if i < renderer.layers().len() {
                    assert(canvas[i] == renderer.layers()[i]);
                }
            }
        }
    }
    lemma_spared(canvas, surfaces);
    lemma_spared(ui, run(canvas, surfaces));
    lemma_run_concat(canvas, ui, surfaces);
}

/// After the bitmap of finished items has been drawn anew it holds exactly the finished items, in
/// the order of the history, each once.
pub proof fn law_a_rebuilt_canvas_holds_the_finished_items(
    operations: Seq<Operation>,
    items: Seq<CanvasItem>,
    surfaces: Surfaces,
)
    requires
        rebuilds(operations, items, None),
    ensures
        run(operations, surfaces).baked == item_marks(
            visible_items(items, 0, items.len() as int, None),
        ),
{
    lemma_run_first(operations, surfaces);
    lemma_run_composing(operations.skip(1), Surface::Baked, operations[0].applied(surfaces));
    assert(run(operations, surfaces).baked =~= item_marks(
        visible_items(items, 0, items.len() as int, None),
    ));
}

/// The canvas while items are drawn one after the other: so many are finished, the next is under
/// way.
pub struct DrawnCanvas {
    pub finished: nat,
    pub renderer: Renderer,
    pub scratch: Scratch,
    pub baked: Seq<Mark>,
}

impl DrawnCanvas {
    /// What the renderer knows of the scratch is so: it holds the segments before the next one,
    /// each once and in order, over what it started from.
    pub open spec fn scratch_agrees(self) -> bool {
        self.renderer.active_stroke matches Some(active) ==> {
            &&& 1 <= active.next_segment
            &&& self.scratch.segments == numbers(1, active.next_segment as int)
            &&& self.scratch.under == scratch_base(active.brush).marks(self.baked)
        }
    }

    /// A frame brings the scratch up to date with `count` new segments.
    pub open spec fn frames(
        self,
        items: Seq<CanvasItem>,
        sync: Option<StrokeSync>,
        synced: Renderer,
        count: int,
        after: Self,
    ) -> bool {
        &&& self.renderer.syncs(items, sync, synced)
        &&& after.finished == self.finished
        &&& after.baked == self.baked
        &&& match sync {
            None => after.renderer == synced && after.scratch == self.scratch,
            Some(sync) => {
                &&& 0 <= count
                &&& sync.from_segment + count <= usize::MAX
                &&& after.renderer == synced.counted(count)
                &&& after.scratch == sync.applied(self.scratch, self.baked, count)
            },
        }
    }

    /// The item under way is finished and added. `end` is the number after its last segment; a
    /// stroke only grows.
    pub open spec fn finishes(self, items: Seq<CanvasItem>, end: int, after: Self) -> bool {
        let item = items[self.finished as int];
        &&& self.finished < items.len()
        &&& self.renderer.begun(item) ==> self.renderer.cursor()->0 <= end
        &&& after.finished == self.finished + 1
        &&& after.renderer == self.renderer.after_bake(item)
        &&& after.baked == self.renderer.bake_plan(item).applied(
            ItemRef::History(self.finished as usize),
            item.kind,
            self.scratch,
            end,
            self.baked,
        )
    }
}

pub enum CanvasStep {
    Frame { sync: Option<StrokeSync>, synced: Renderer, count: int },
    Finish { end: int },
}

/// The history while the item at a place is under way.
pub open spec fn under_way(items: Seq<CanvasItem>, finished: int) -> Seq<CanvasItem> {
    if finished < items.len() {
        items.take(finished).push(CanvasItem { done: false, ..items[finished] })
    } else {
        items
    }
}

pub open spec fn advances(
    items: Seq<CanvasItem>,
    before: DrawnCanvas,
    step: CanvasStep,
    after: DrawnCanvas,
) -> bool {
    match step {
        CanvasStep::Frame { sync, synced, count } => before.frames(
            under_way(items, before.finished as int),
            sync,
            synced,
            count,
            after,
        ),
        CanvasStep::Finish { end } => before.finishes(items, end, after),
    }
}

/// The items are drawn and finished one after the other, with any number of frames in between,
/// from an empty canvas on.
pub open spec fn drawn_one_by_one(
    items: Seq<CanvasItem>,
    canvases: Seq<DrawnCanvas>,
    steps: Seq<CanvasStep>,
) -> bool {
    &&& canvases.len() == steps.len() + 1
    &&& canvases[0].finished == 0
    &&& canvases[0].renderer.active_stroke is None
    &&& canvases[0].baked == Seq::<Mark>::empty()
    &&& forall|i: int|
        0 <= i < steps.len() ==> advances(items, canvases[i], #[trigger] steps[i], canvases[i + 1])
}

proof fn lemma_numbers(start: int, middle: int, end: int)
    requires
        start <= middle <= end,
    ensures
        numbers(start, middle) + numbers(middle, end) == numbers(start, end),
{
    assert(numbers(start, middle) + numbers(middle, end) =~= numbers(start, end));
}

/// However often a frame is drawn, the scratch holds each segment of the stroke under way once, up
/// to where the renderer takes it to be, over what the stroke started from.
pub proof fn law_the_scratch_follows_the_stroke(
    before: DrawnCanvas,
    items: Seq<CanvasItem>,
    sync: Option<StrokeSync>,
    synced: Renderer,
    count: int,
    after: DrawnCanvas,
)
    requires
        before.scratch_agrees(),
        before.frames(items, sync, synced, count, after),
    ensures
        after.scratch_agrees(),
{
    if let Some(sync) = sync {
        let from = sync.from_segment as int;
        lemma_numbers(1, from, from + count);
        assert(Seq::<int>::empty() =~= numbers(1, 1));
    }
}

proof fn lemma_baked(canvas: DrawnCanvas, items: Seq<CanvasItem>, at: int, end: int)
    requires
        0 <= at < items.len(),
        items[at].done,
        canvas.baked == item_marks(visible_items(items, 0, at, None)),
        canvas.renderer.begun(items[at]) ==> {
            &&& canvas.renderer.holds(items[at])
            &&& canvas.scratch_agrees()
            &&& canvas.renderer.cursor()->0 <= end
        },
    ensures
        canvas.renderer.bake_plan(items[at]).applied(
            ItemRef::History(at as usize),
            items[at].kind,
            canvas.scratch,
            end,
            canvas.baked,
        ) == item_marks(visible_items(items, 0, at + 1, None)),
{
    let item = items[at];
    let shown = shown_item(items, at, None);
    assert(item_marks(visible_items(items, 0, at + 1, None)) =~= canvas.baked + seq![
        Mark::Item(shown),
    ]);
    if canvas.renderer.begun(item) {
        lemma_numbers(1, canvas.renderer.cursor()->0 as int, end);
        assert(canvas.baked + Seq::<Mark>::empty() =~= canvas.baked);
    }
}

proof fn lemma_nothing_visible(items: Seq<CanvasItem>, start: int, end: int)
    requires
        0 <= start <= end,
        forall|i: int| start <= i < end ==> !(#[trigger] items[i]).done,
    ensures
        visible_items(items, 0, end, None) == visible_items(items, 0, start, None),
    decreases end - start,
{
    if start < end {
        lemma_nothing_visible(items, start, end - 1);
    }
}

/// An item that is added when it is finished looks as after all has been drawn anew, also where
/// part of it was on the scratch already.
pub proof fn law_a_baked_item_looks_as_after_a_rebuild(
    canvas: DrawnCanvas,
    items: Seq<CanvasItem>,
    at: int,
    end: int,
    rebuilt: Seq<Operation>,
    surfaces: Surfaces,
)
    requires
        0 <= at < items.len(),
        items[at].done,
        forall|i: int| at < i < items.len() ==> !(#[trigger] items[i]).done,
        canvas.baked == item_marks(visible_items(items, 0, at, None)),
        canvas.renderer.begun(items[at]) ==> {
            &&& canvas.renderer.holds(items[at])
            &&& canvas.scratch_agrees()
            &&& canvas.renderer.cursor()->0 <= end
        },
        rebuilds(rebuilt, items, None),
    ensures
        canvas.renderer.bake_plan(items[at]).applied(
            ItemRef::History(at as usize),
            items[at].kind,
            canvas.scratch,
            end,
            canvas.baked,
        ) == run(rebuilt, surfaces).baked,
{
    lemma_baked(canvas, items, at, end);
    lemma_nothing_visible(items, at + 1, items.len() as int);
    law_a_rebuilt_canvas_holds_the_finished_items(rebuilt, items, surfaces);
}

proof fn lemma_stroke_under_way(items: Seq<CanvasItem>, finished: int, start: int)
    requires
        0 <= start <= finished < items.len(),
        forall|i: int| 0 <= i < items.len() ==> (#[trigger] items[i]).done,
    ensures
        stroke_place(under_way(items, finished), start) == if items[finished].kind is Stroke {
            finished
        } else {
            finished + 1
        },
    decreases finished - start,
{
    let history = under_way(items, finished);
    if start < finished {
        assert(history[start] == items[start]);
        lemma_stroke_under_way(items, finished, start + 1);
    } else {
        assert(stroke_place(history, finished + 1) == finished + 1);
    }
}

proof fn lemma_no_stroke_under_way(items: Seq<CanvasItem>, start: int)
    requires
        0 <= start <= items.len(),
        forall|i: int| 0 <= i < items.len() ==> (#[trigger] items[i]).done,
    ensures
        stroke_place(items, start) == items.len(),
    decreases items.len() - start,
{
    if start < items.len() {
        assert(items[start].done);
        lemma_no_stroke_under_way(items, start + 1);
    }
}

/// What holds of the canvas throughout.
spec fn canvas_in_order(items: Seq<CanvasItem>, canvas: DrawnCanvas) -> bool {
    &&& canvas.finished <= items.len()
    &&& canvas.baked == item_marks(visible_items(items, 0, canvas.finished as int, None))
    &&& canvas.scratch_agrees()
    &&& canvas.renderer.active_stroke is Some ==> canvas.finished < items.len()
        && canvas.renderer.holds(items[canvas.finished as int])
}

proof fn lemma_in_order(
    items: Seq<CanvasItem>,
    canvases: Seq<DrawnCanvas>,
    steps: Seq<CanvasStep>,
    at: int,
)
    requires
        forall|i: int| 0 <= i < items.len() ==> (#[trigger] items[i]).done,
        drawn_one_by_one(items, canvases, steps),
        0 <= at < canvases.len(),
    ensures
        canvas_in_order(items, canvases[at]),
    decreases at,
{
    if at == 0 {
        assert(canvases[0].baked =~= item_marks(visible_items(items, 0, 0, None)));
    } else {
        lemma_in_order(items, canvases, steps, at - 1);
        let before = canvases[at - 1];
        let after = canvases[at];
        let step = steps[at - 1];
        assert(advances(items, before, step, after));
        match step {
            CanvasStep::Frame { sync, synced, count } => {
                let history = under_way(items, before.finished as int);
                law_the_scratch_follows_the_stroke(before, history, sync, synced, count, after);
                if before.finished < items.len() {
                    lemma_stroke_under_way(items, before.finished as int, 0);
                } else {
                    lemma_no_stroke_under_way(items, 0);
                }
            },
            CanvasStep::Finish { end } => {
                lemma_baked(before, items, before.finished as int, end);
            },
        }
    }
}

/// Items that are added one by one as they are finished, with any number of frames drawn while
/// they are under way, leave what drawing all of them anew leaves.
pub proof fn law_baking_one_by_one_leaves_what_a_rebuild_leaves(
    items: Seq<CanvasItem>,
    canvases: Seq<DrawnCanvas>,
    steps: Seq<CanvasStep>,
    rebuilt: Seq<Operation>,
    surfaces: Surfaces,
)
    requires
        forall|i: int| 0 <= i < items.len() ==> (#[trigger] items[i]).done,
        drawn_one_by_one(items, canvases, steps),
        canvases.last().finished == items.len(),
        rebuilds(rebuilt, items, None),
    ensures
        canvases.last().baked == item_marks(visible_items(items, 0, items.len() as int, None)),
        canvases.last().baked == run(rebuilt, surfaces).baked,
{
    lemma_in_order(items, canvases, steps, canvases.len() - 1);
    law_a_rebuilt_canvas_holds_the_finished_items(rebuilt, items, surfaces);
}

/// How many of the first items are under way and have no scratch.
pub open spec fn live_before(items: Seq<CanvasItem>, end: int) -> int
    decreases end,
{
    if end <= 0 {
        0
    } else {
        live_before(items, end - 1) + if !items[end - 1].done && !(items[end - 1].kind is Stroke) {
            1int
        } else {
            0int
        }
    }
}

/// How many of the first items are finished.
pub open spec fn finished_before(items: Seq<CanvasItem>, end: int) -> int
    decreases end,
{
    if end <= 0 {
        0
    } else {
        finished_before(items, end - 1) + if items[end - 1].done {
            1int
        } else {
            0int
        }
    }
}

/// The parts of the user interface that lie over the canvas, from the back to the front.
pub open spec fn interface(selected: bool, draw_mode: bool, radial: bool) -> Seq<Mark> {
    let boxed = if selected {
        seq![Mark::Ui(UiPart::SelectionBox)]
    } else {
        Seq::empty()
    };
    let bordered = if draw_mode {
        boxed.push(Mark::Ui(UiPart::ModeBorder))
    } else {
        boxed
    };
    if radial {
        bordered.push(Mark::Ui(UiPart::RadialMenu))
    } else {
        bordered
    }
}

proof fn lemma_live(items: Seq<CanvasItem>, end: int)
    requires
        0 <= end <= items.len(),
    ensures
        live_items(items, end).len() == live_before(items, end),
        forall|i: int|
            0 <= i < end && !items[i].done && !(items[i].kind is Stroke) ==> {
                &&& 0 <= #[trigger] live_before(items, i) < live_before(items, end)
                &&& live_items(items, end)[live_before(items, i)] == ItemRef::History(i as usize)
            },
    decreases end,
{
    if end > 0 {
        lemma_live(items, end - 1);
    }
}

proof fn lemma_finished(items: Seq<CanvasItem>, end: int)
    requires
        0 <= end <= items.len(),
    ensures
        visible_items(items, 0, end, None).len() == finished_before(items, end),
        forall|i: int|
            0 <= i < end && items[i].done ==> {
                &&& 0 <= #[trigger] finished_before(items, i) < finished_before(items, end)
                &&& visible_items(items, 0, end, None)[finished_before(items, i)] == shown_item(
                    items,
                    i,
                    None,
                )
            },
    decreases end,
{
    if end > 0 {
        lemma_finished(items, end - 1);
    }
}

proof fn lemma_run_interface(selected: bool, draw_mode: bool, radial: bool, surfaces: Surfaces)
    ensures
        run(ui_operations(selected, draw_mode, radial), surfaces).frame == surfaces.frame
            + interface(selected, draw_mode, radial),
{
    let boxed: Seq<Operation> = if selected {
        seq![Operation::Ui(UiPart::SelectionBox)]
    } else {
        Seq::empty()
    };
    let bordered: Seq<Operation> = if draw_mode {
        boxed.push(Operation::Ui(UiPart::ModeBorder))
    } else {
        boxed
    };
    let all: Seq<Operation> = if radial {
        bordered.push(Operation::Ui(UiPart::RadialMenu))
    } else {
        bordered
    };
    let ui = ui_operations(selected, draw_mode, radial);
    assert(ui =~= all.push(Operation::Present));
    assert(ui.drop_last() =~= all);
    let marks = interface(selected, false, false);
    if selected {
        assert(boxed.drop_last() =~= Seq::empty());
        assert(run(boxed.drop_last(), surfaces) == surfaces);
        assert(boxed.last().marks() =~= marks);
    }
    assert(run(boxed, surfaces).frame =~= surfaces.frame + marks);
    let marks = interface(selected, draw_mode, false);
    if draw_mode {
        assert(bordered.drop_last() =~= boxed);
        assert(run(bordered, surfaces) == bordered.last().applied(run(boxed, surfaces)));
    }
    assert(run(bordered, surfaces).frame =~= surfaces.frame + marks);
    let marks = interface(selected, draw_mode, radial);
    if radial {
        assert(all.drop_last() =~= bordered);
        assert(run(all, surfaces) == all.last().applied(run(bordered, surfaces)));
    }
    assert(run(all, surfaces).frame =~= surfaces.frame + marks);
    assert(run(ui, surfaces) == ui.last().applied(run(all, surfaces)));
}

/// What a frame shows of the bitmaps: the finished items and over them the stroke under way; an
/// eraser's scratch holds the finished items itself.
pub open spec fn below(active_stroke: Option<ActiveStrokeState>, baked: Seq<Mark>) -> Seq<Mark> {
    match active_stroke {
        None => baked,
        Some(active) if active.brush.tool == BrushTool::Eraser => seq![
            Mark::Scratch { opaque: true },
        ],
        Some(_) => baked.push(Mark::Scratch { opaque: false }),
    }
}

proof fn lemma_run_layers(renderer: Renderer, surfaces: Surfaces)
    ensures
        run(renderer.layers(), surfaces).frame == below(renderer.active_stroke, surfaces.baked),
{
    let layers = renderer.layers();
    lemma_run_first(layers, surfaces);
    let cleared = layers[0].applied(surfaces);
    lemma_run_first(layers.skip(1), cleared);
    let copied = layers.skip(1)[0].applied(cleared);
    if layers.len() == 3 {
        lemma_run_first(layers.skip(1).skip(1), copied);
        assert(layers.skip(1).skip(1).skip(1) =~= Seq::empty());
    } else {
        assert(layers.skip(1).skip(1) =~= Seq::empty());
    }
    assert(run(layers, surfaces).frame =~= below(renderer.active_stroke, surfaces.baked));
}

/// A frame shows the finished items and over them the stroke under way, with any tool; over these
/// each other item that is under way, in the order of the history; then a selected item that is not
/// part of the history as it is; and over all the parts of the user interface that are wanted, in
/// front of which lies nothing. What the frame showed before is gone.
pub proof fn law_a_frame_shows_the_stroke_under_way(
    renderer: Renderer,
    operations: Seq<Operation>,
    items: Seq<CanvasItem>,
    draw_mode: bool,
    selected: Option<CanvasItem>,
    radial: bool,
    surfaces: Surfaces,
)
    requires
        renderer.draws_frame(operations, items, draw_mode, selected, radial),
        selected is None || renderer.active_stroke is Some || forall|i: int|
            0 <= i < items.len() && (#[trigger] items[i]).done ==> items[i].item_id@
                != selected->0.item_id@,
    ensures
        operations.last() == Operation::Present,
        ({
            let frame = run(operations, surfaces).frame;
            let below = below(renderer.active_stroke, surfaces.baked);
            let live = live_before(items, items.len() as int);
            let over = frame.skip(below.len() as int);
            let top = live + if selected is Some {
                1int
            } else {
                0int
            };
            &&& frame.len() >= below.len()
            &&& frame.take(below.len() as int) == below
            &&& forall|i: int|
                0 <= i < items.len() && !items[i].done && !(items[i].kind is Stroke) ==> 0
                    <= #[trigger] live_before(items, i) < live && over[live_before(items, i)]
                    == Mark::Item(
                    VisibleItem { item: ItemRef::History(i as usize), scratch: false },
                )
            &&& selected is Some ==> over[live] == Mark::Item(
                VisibleItem { item: ItemRef::Selected, scratch: false },
            )
            &&& forall|k: int| 0 <= k < over.len() ==> !(#[trigger] over[k] is Scratch)
            &&& over.len() == top + interface(selected is Some, draw_mode, radial).len()
            &&& over.skip(top) == interface(selected is Some, draw_mode, radial)
        }),
{
    let ui = ui_operations(selected is Some, draw_mode, radial);
    let canvas = operations.take(operations.len() - ui.len());
    assert(operations =~= canvas + ui);
    assert(ui.last() == Operation::Present);
    if selected is Some {
        lemma_done_place(items, selected->0.item_id@, 0);
    }
    assert(!renderer.shows_preview(items, selected));
    let history = live_items(items, items.len() as int);
    let live = history + (if selected is Some {
        seq![ItemRef::Selected]
    } else {
        Seq::empty()
    });
    lemma_live(items, items.len() as int);
    lemma_run_layers(renderer, surfaces);
    let bottom = below(renderer.active_stroke, surfaces.baked);
    let middle = run(canvas, surfaces);
    if live.len() == 0 {
        assert(middle.frame =~= bottom + drawn(live));
    } else {
        assert(canvas.last().marks() =~= drawn(live));
        assert(middle == canvas.last().applied(run(canvas.drop_last(), surfaces)));
        assert(middle.frame =~= bottom + drawn(live));
    }
    lemma_run_concat(canvas, ui, surfaces);
    lemma_run_interface(selected is Some, draw_mode, radial, middle);
    let frame = run(operations, surfaces).frame;
    assert(frame =~= bottom + drawn(live) + interface(selected is Some, draw_mode, radial));
    assert(frame.take(bottom.len() as int) =~= bottom);
    let over = frame.skip(bottom.len() as int);
    assert(over =~= drawn(live) + interface(selected is Some, draw_mode, radial));
    assert(over.skip(live.len() as int) =~= interface(selected is Some, draw_mode, radial));
    assert(forall|i: int| 0 <= i < history.len() ==> live[i] == #[trigger] history[i]);
}

proof fn lemma_done_place(items: Seq<CanvasItem>, item_id: Seq<char>, start: int)
    requires
        0 <= start <= items.len(),
    ensures
        start <= done_place(items, item_id, start) <= items.len(),
        ({
            let found = done_place(items, item_id, start);
            found < items.len() ==> items[found].done && items[found].item_id@ == item_id
        }),
    decreases items.len() - start,
{
    if start < items.len() && !(items[start].done && items[start].item_id@ == item_id) {
        lemma_done_place(items, item_id, start + 1);
    }
}

/// While an item of the history is transformed, a frame shows the canvas as it will be when the
/// transformation has become part of the history, below the user interface. `at` is the item's
/// place.
pub proof fn law_a_frame_shows_the_transformation(
    renderer: Renderer,
    operations: Seq<Operation>,
    items: Seq<CanvasItem>,
    at: int,
    draw_mode: bool,
    selected: CanvasItem,
    radial: bool,
    prepared: Seq<Operation>,
    rebuilt: Seq<Operation>,
    surfaces: Surfaces,
)
    requires
        items.len() <= usize::MAX,
        renderer.active_stroke is None,
        renderer.draws_frame(operations, items, draw_mode, Some(selected), radial),
        selected.done,
        0 <= at < items.len(),
        items[at].done,
        items[at].item_id@ == selected.item_id@,
        forall|i: int| 0 <= i < at ==> (#[trigger] items[i]).item_id@ != selected.item_id@,
        rebuilds(prepared, items, Some(selected.item_id@)),
        rebuilds(rebuilt, committed(items, selected), None),
    ensures
        ({
            let frame = run(operations, run(prepared, surfaces)).frame;
            let top = interface(true, draw_mode, radial);
            let canvas = frame.take(frame.len() - top.len());
            &&& frame.len() >= top.len()
            &&& frame.skip(frame.len() - top.len()) == top
            &&& resolved(canvas, items, selected) == resolved(
                run(rebuilt, surfaces).baked,
                committed(items, selected),
                selected,
            )
        }),
{
    lemma_place(items, selected.item_id@, 0);
    let found = place(items, selected.item_id@, 0);
    if found < at {
        assert(items[found].item_id@ != selected.item_id@);
    } else if at < found {
        assert(items[at].item_id@ != selected.item_id@);
    }
    assert(found == at);
    assert(renderer.shows_preview(items, Some(selected)));
    let ui = ui_operations(true, draw_mode, radial);
    let canvas = operations.take(operations.len() - ui.len());
    assert(operations =~= canvas + ui);
    let before = run(prepared, surfaces);
    lemma_run_concat(canvas, ui, before);
    lemma_run_interface(true, draw_mode, radial, run(canvas, before));
    law_a_preview_shows_what_is_committed(items, selected, prepared, canvas, rebuilt, surfaces);
    let frame = run(operations, before).frame;
    let top = interface(true, draw_mode, radial);
    assert(frame.take(frame.len() - top.len()) =~= run(canvas, before).frame);
    assert(frame.skip(frame.len() - top.len()) =~= top);
}

/// Drawing the canvas anew draws each finished item once, in the order of the history, and nothing
/// else: a stroke that is translucent and does not erase as a whole by way of the scratch, all else
/// directly. Before a transformation this ends right before the first item of that identifier.
/// `end` is the place at which it ends.
pub proof fn law_drawing_anew_draws_each_finished_item(
    operations: Seq<Operation>,
    items: Seq<CanvasItem>,
    transformed: Option<Seq<char>>,
    end: int,
    surfaces: Surfaces,
)
    requires
        rebuilds(operations, items, transformed),
        0 <= end <= items.len(),
        transformed is None ==> end == items.len(),
        transformed matches Some(item_id) ==> {
            &&& forall|i: int| 0 <= i < end ==> (#[trigger] items[i]).item_id@ != item_id
            &&& end < items.len() ==> items[end].item_id@ == item_id
        },
    ensures
        ({
            let baked = run(operations, surfaces).baked;
            &&& baked.len() == finished_before(items, end)
            &&& forall|i: int|
                0 <= i < end && items[i].done ==> 0 <= #[trigger] finished_before(items, i)
                    < baked.len() && baked[finished_before(items, i)] == Mark::Item(
                    VisibleItem {
                        item: ItemRef::History(i as usize),
                        scratch: match items[i].kind {
                            ItemKind::Stroke(brush) => brush.translucent && brush.tool
                                != BrushTool::Eraser,
                            ItemKind::Shape => false,
                            ItemKind::Stamp => false,
                        },
                    },
                )
        }),
        run(operations, surfaces).frame == surfaces.frame,
{
    let found = match transformed {
        Some(item_id) => place(items, item_id, 0),
        None => items.len() as int,
    };
    if transformed is Some {
        lemma_place(items, transformed->0, 0);
        if found < end {
            assert(items[found].item_id@ != transformed->0);
        } else if end < found {
            assert(items[end].item_id@ != transformed->0);
        }
    }
    assert(found == end);
    lemma_finished(items, end);
    lemma_run_first(operations, surfaces);
    lemma_run_composing(operations.skip(1), Surface::Baked, operations[0].applied(surfaces));
    let marks = item_marks(visible_items(items, 0, end, None));
    assert(run(operations, surfaces).baked =~= marks);
    assert(forall|i: int|
        0 <= i < marks.len() ==> marks[i] == Mark::Item(
            #[trigger] visible_items(items, 0, end, None)[i],
        ));
}

/// The scratch serves the first stroke that is not finished, and none where all are. A stroke that
/// it holds already, with the same brush, goes on where it was; another starts it anew, an eraser
/// on a copy of the finished items and any other tool on nothing.
pub proof fn law_the_scratch_serves_the_stroke_under_way(
    before: Renderer,
    items: Seq<CanvasItem>,
    sync: Option<StrokeSync>,
    after: Renderer,
    at: int,
)
    requires
        items.len() <= usize::MAX,
        before.syncs(items, sync, after),
        0 <= at <= items.len(),
        forall|i: int| 0 <= i < at ==> (#[trigger] items[i]).done || !(items[i].kind is Stroke),
        at < items.len() ==> !items[at].done && items[at].kind is Stroke,
    ensures
        at == items.len() ==> sync is None && after.active_stroke is None,
        at < items.len() ==> {
            let brush = items[at].kind->Stroke_0;
            let kept = before.active_stroke is Some && before.active_stroke->0.stroke_id@
                == items[at].item_id@ && before.active_stroke->0.brush == brush;
            &&& sync is Some
            &&& sync->0.item == at
            &&& kept ==> sync->0.reset is None && sync->0.from_segment
                == before.active_stroke->0.next_segment
            &&& !kept ==> sync->0.from_segment == 1 && sync->0.reset == Some(
                if brush.tool == BrushTool::Eraser {
                    ScratchBase::CopyOfBaked
                } else {
                    ScratchBase::Transparent
                },
            )
            &&& after.active_stroke is Some
            &&& after.active_stroke->0.stroke_id@ == items[at].item_id@
            &&& after.active_stroke->0.brush == brush
            &&& after.active_stroke->0.next_segment == sync->0.from_segment
        },
{
    lemma_stroke_place(items, at, 0);
}

proof fn lemma_stroke_place(items: Seq<CanvasItem>, at: int, start: int)
    requires
        0 <= start <= at <= items.len(),
        forall|i: int| 0 <= i < at ==> (#[trigger] items[i]).done || !(items[i].kind is Stroke),
        at < items.len() ==> !items[at].done && items[at].kind is Stroke,
    ensures
        stroke_place(items, start) == at,
    decreases at - start,
{
    if start < at {
        assert(items[start].done || !(items[start].kind is Stroke));
        lemma_stroke_place(items, at, start + 1);
    }
}

/// Counting segments moves the stroke under way on by as many, and changes nothing else; where none
/// is under way nothing is counted.
pub proof fn law_counting_moves_the_stroke_on(renderer: Renderer, count: int)
    requires
        0 <= count,
        renderer.active_stroke matches Some(active) ==> active.next_segment + count <= usize::MAX,
    ensures
        renderer.active_stroke is None ==> renderer.counted(count).active_stroke is None,
        renderer.active_stroke matches Some(active) ==> {
            let next = renderer.counted(count).active_stroke;
            &&& next is Some
            &&& next->0.stroke_id == active.stroke_id
            &&& next->0.brush == active.brush
            &&& next->0.next_segment == active.next_segment + count
        },
{
}

/// A finished stroke that the scratch has begun is finished there, from its next segment on, and an
/// eraser's scratch then takes the place of what is there; another stroke that is translucent and
/// does not erase is drawn by way of the scratch; all else is drawn directly. Only a scratch that
/// was used is given up.
pub proof fn law_a_finished_item_is_added_as_it_was_drawn(renderer: Renderer, item: CanvasItem)
    ensures
        ({
            let plan = renderer.bake_plan(item);
            let after = renderer.after_bake(item);
            let begun = renderer.active_stroke is Some && renderer.active_stroke->0.stroke_id@
                == item.item_id@;
            match item.kind {
                ItemKind::Stroke(brush) => if begun {
                    &&& plan == BakePlan::FinishScratch {
                        from_segment: renderer.active_stroke->0.next_segment,
                        replace: brush.tool == BrushTool::Eraser,
                    }
                    &&& after.active_stroke is None
                } else if brush.translucent && brush.tool != BrushTool::Eraser {
                    plan == BakePlan::Composite && after.active_stroke is None
                } else {
                    plan == BakePlan::Draw && after == renderer
                },
                ItemKind::Shape => plan == BakePlan::Draw && after == renderer,
                ItemKind::Stamp => plan == BakePlan::Draw && after == renderer,
            }
        }),
{
}

} // verus!
