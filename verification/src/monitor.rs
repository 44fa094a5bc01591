//! The monitors: their order and the choice among them.

use vstd::prelude::*;

verus! {

#[derive(Clone, Copy, Debug, PartialEq, Eq, Structural)]
pub struct Monitor {
    pub x: i32,
    pub y: i32,
    pub width: i32,
    pub height: i32,
    pub primary: bool,
}

/// Flag of the system's monitor description that marks the primary monitor.
pub const MONITORINFOF_PRIMARY: u32 = 1;

/// Whether `left` may stand before `right`: the primary monitor first, then from left to right,
/// then from top to bottom.
pub open spec fn in_order(left: Monitor, right: Monitor) -> bool {
    if left.primary != right.primary {
        left.primary
    } else if left.x != right.x {
        left.x < right.x
    } else {
        left.y <= right.y
    }
}

/// Whether the order does not tell two monitors apart.
pub open spec fn same_place(left: Monitor, right: Monitor) -> bool {
    left.primary == right.primary && left.x == right.x && left.y == right.y
}

pub open spec fn is_ordered(monitors: Seq<Monitor>) -> bool {
    forall|i: int, j: int| 0 <= i < j < monitors.len() ==> in_order(monitors[i], monitors[j])
}

/// The monitors at the place of `like`, in the order in which they stand.
pub open spec fn at_place(monitors: Seq<Monitor>, like: Monitor) -> Seq<Monitor> {
    monitors.filter(|m: Monitor| same_place(m, like))
}

/// The description of a monitor from its edges and flags.
pub fn describe(left: i32, top: i32, right: i32, bottom: i32, flags: u32) -> (monitor: Monitor)
    requires
        i32::MIN <= right - left <= i32::MAX,
        i32::MIN <= bottom - top <= i32::MAX,
    ensures
        monitor == (Monitor {
            x: left,
            y: top,
            width: (right - left) as i32,
            height: (bottom - top) as i32,
            primary: flags & MONITORINFOF_PRIMARY != 0,
        }),
{
    Monitor {
        x: left,
        y: top,
        width: right - left,
        height: bottom - top,
        primary: flags & MONITORINFOF_PRIMARY != 0,
    }
}

fn may_precede(left: &Monitor, right: &Monitor) -> (ordered: bool)
    ensures
        ordered == in_order(*left, *right),
{
    if left.primary != right.primary {
        left.primary
    } else if left.x != right.x {
        left.x < right.x
    } else {
        left.y <= right.y
    }
}

proof fn lemma_filter_concat(left: Seq<Monitor>, right: Seq<Monitor>, like: Monitor)
    ensures
        at_place(left + right, like) == at_place(left, like) + at_place(right, like),
    decreases right.len(),
{
    reveal(Seq::filter);
    let pred = |m: Monitor| same_place(m, like);
    if right.len() == 0 {
        assert(left + right =~= left);
        assert(at_place(left, like) + at_place(right, like) =~= at_place(left, like));
    } else {
        lemma_filter_concat(left, right.drop_last(), like);
        assert((left + right).drop_last() =~= left + right.drop_last());
        assert((left + right).last() == right.last());
        assert(at_place(left + right, like) =~= at_place(left, like) + at_place(right, like));
    }
}

proof fn lemma_filter_nothing(monitors: Seq<Monitor>, like: Monitor)
    requires
        forall|i: int| 0 <= i < monitors.len() ==> !same_place(monitors[i], like),
    ensures
        at_place(monitors, like) == Seq::<Monitor>::empty(),
    decreases monitors.len(),
{
    reveal(Seq::filter);
    if monitors.len() > 0 {
        lemma_filter_nothing(monitors.drop_last(), like);
    }
}

proof fn lemma_insertion(
    before: Seq<Monitor>,
    after: Seq<Monitor>,
    monitor: Monitor,
    like: Monitor,
)
    requires
        forall|i: int| 0 <= i < after.len() ==> !same_place(after[i], monitor),
    ensures
        at_place(before + seq![monitor] + after, like) == at_place(
            (before + after).push(monitor),
            like,
        ),
{
    let one = seq![monitor];
    lemma_filter_concat(before + one, after, like);
    lemma_filter_concat(before, one, like);
    lemma_filter_concat(before + after, one, like);
    lemma_filter_concat(before, after, like);
    assert((before + after).push(monitor) =~= before + after + one);
    if same_place(monitor, like) {
        lemma_filter_nothing(after, like);
        assert(at_place(before, like) + at_place(one, like) + at_place(after, like) =~= at_place(
            before,
            like,
        ) + at_place(after, like) + at_place(one, like));
    } else {
        lemma_filter_nothing(one, like);
        assert(at_place(before, like) + at_place(one, like) + at_place(after, like) =~= at_place(
            before,
            like,
        ) + at_place(after, like) + at_place(one, like));
    }
}

/// Puts the monitors in the order that a configured index refers to. Monitors at the same place
/// keep their order.
pub fn arrange(monitors: &[Monitor]) -> (arranged: Vec<Monitor>)
    ensures
        is_ordered(arranged@),
        arranged@.len() == monitors@.len(),
        forall|like: Monitor| at_place(arranged@, like) == at_place(monitors@, like),
{
    let mut arranged: Vec<Monitor> = Vec::new();
    for i in 0..monitors.len()
        invariant
            arranged@.len() == i,
            is_ordered(arranged@),
            forall|like: Monitor| at_place(arranged@, like) == at_place(
                monitors@.take(i as int),
                like,
            ),
    {
        let monitor: Monitor = monitors[i];
        let mut at: usize = arranged.len();
        while at > 0 && !may_precede(&arranged[at - 1], &monitor)
            invariant
                at <= arranged.len(),
                is_ordered(arranged@),
                forall|j: int| at <= j < arranged@.len() ==> !in_order(arranged@[j], monitor),
            decreases at,
        {
            at = at - 1;
        }
        let ghost earlier = arranged@;
        let ghost before = earlier.take(at as int);
        let ghost after = earlier.skip(at as int);
        arranged.insert(at, monitor);
        proof {
            assert(earlier =~= before + after);
            assert(arranged@ =~= before + seq![monitor] + after);
            assert(monitors@.take(i + 1) =~= monitors@.take(i as int).push(monitor));
            assert forall|like: Monitor| at_place(arranged@, like) == at_place(
                monitors@.take(i + 1),
                like,
            ) by {
                lemma_insertion(before, after, monitor, like);
                lemma_filter_concat(earlier, seq![monitor], like);
                lemma_filter_concat(monitors@.take(i as int), seq![monitor], like);
                assert(earlier.push(monitor) =~= earlier + seq![monitor]);
                assert(monitors@.take(i as int).push(monitor) =~= monitors@.take(i as int)
                    + seq![monitor]);
            }
            assert forall|a: int, b: int| 0 <= a < b < arranged@.len() implies in_order(
                arranged@[a],
                arranged@[b],
            ) by {
                if a < at && b == at {
                    assert(in_order(earlier[a], earlier[at - 1]) || a == at - 1);
                }
            }
        }
    }
    assert(monitors@.take(monitors@.len() as int) =~= monitors@);
    arranged
}

/// The configured monitor, or the first one where it does not exist, with its index.
pub fn select_monitor(monitors: &[Monitor], configured: usize) -> (selected: Option<
    (usize, Monitor),
>)
    ensures
        selected == if configured < monitors@.len() {
            Some((configured, monitors@[configured as int]))
        } else if monitors@.len() > 0 {
            Some((0usize, monitors@[0]))
        } else {
            None
        },
{
    if configured < monitors.len() {
        Some((configured, monitors[configured]))
    } else if monitors.len() > 0 {
        Some((0, monitors[0]))
    } else {
        None
    }
}

/// Of monitors in order, the first one is the primary one wherever there is a primary one.
pub proof fn law_the_primary_monitor_comes_first(monitors: Seq<Monitor>)
    requires
        is_ordered(monitors),
        exists|i: int| 0 <= i < monitors.len() && (#[trigger] monitors[i]).primary,
    ensures
        monitors[0].primary,
{
    let i = choose|i: int| 0 <= i < monitors.len() && (#[trigger] monitors[i]).primary;
    if i > 0 {
        assert(in_order(monitors[0], monitors[i]));
    }
}

/// Monitors in order stand from left to right, and above each other from top to bottom, behind the
/// primary one.
pub proof fn law_monitors_stand_from_left_to_right(monitors: Seq<Monitor>, i: int, j: int)
    requires
        is_ordered(monitors),
        0 <= i < j < monitors.len(),
    ensures
        monitors[j].primary ==> monitors[i].primary,
        monitors[i].primary == monitors[j].primary ==> monitors[i].x <= monitors[j].x,
        monitors[i].primary == monitors[j].primary && monitors[i].x == monitors[j].x
            ==> monitors[i].y <= monitors[j].y,
{
    assert(in_order(monitors[i], monitors[j]));
}

/// Putting monitors in order loses none and adds none.
pub proof fn law_arranging_keeps_every_monitor(
    arranged: Seq<Monitor>,
    monitors: Seq<Monitor>,
    monitor: Monitor,
)
    requires
        forall|like: Monitor| at_place(arranged, like) == at_place(monitors, like),
    ensures
        arranged.contains(monitor) <==> monitors.contains(monitor),
{
    assert(at_place(arranged, monitor) == at_place(monitors, monitor));
    lemma_at_place(arranged, monitor);
    lemma_at_place(monitors, monitor);
}

proof fn lemma_at_place(monitors: Seq<Monitor>, monitor: Monitor)
    ensures
        monitors.contains(monitor) <==> at_place(monitors, monitor).contains(monitor),
    decreases monitors.len(),
{
    reveal(Seq::filter);
    if monitors.len() > 0 {
        let rest = monitors.drop_last();
        let kept = at_place(rest, monitor);
        let all = at_place(monitors, monitor);
        lemma_at_place(rest, monitor);
        if monitors.contains(monitor) {
            let i = monitors.index_of(monitor);
            if i < rest.len() {
                assert(rest[i] == monitor);
                let k = kept.index_of(monitor);
                assert(all[k] == monitor);
            } else {
                assert(all[kept.len() as int] == monitor);
            }
        }
        if all.contains(monitor) {
            let k = all.index_of(monitor);
            if k < kept.len() {
                assert(kept[k] == monitor);
                let i = rest.index_of(monitor);
                assert(monitors[i] == monitor);
            } else {
                assert(monitors[monitors.len() - 1] == monitor);
            }
        }
    }
}

} // verus!
