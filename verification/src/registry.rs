//! The widget-identity registry: a single "hot" slot naming the widget
//! under the pointer this frame, and a bounded LIFO stack of "active"
//! widgets currently capturing input.

use vstd::prelude::*;
use crate::cursor::Cursor;
use crate::error::FatalUiError;

verus! {

/// How many widgets can be active (capturing input) at once.
pub const ACTIVE_STACK_CAPACITY: usize = 8;

/// The kind of widget a `UiId` names.
#[derive(Clone, Copy, PartialEq, Eq, Structural, Debug)]
pub enum UiKind {
    NoWidget,
    InputText,
    OutputText,
    BoxWidget,
    ScrollList,
}

/// A widget identity.  `index` is the stable per-widget identifier;
/// `owner` records the previously hot widget's index at the moment this one
/// overwrote the hot slot (diagnostic lineage, not an ownership edge).
#[derive(Clone, Copy, PartialEq, Eq, Structural, Debug)]
pub struct UiId {
    pub owner: usize,
    pub item: UiKind,
    pub index: usize,
}

/// The hot slot's initial value before any widget has claimed it.
pub open spec fn no_widget_id() -> UiId {
    UiId { owner: 0, item: UiKind::NoWidget, index: 0 }
}

/// A fresh hot slot naming no widget.
pub fn new_hot_id() -> (id: UiId)
    ensures
        id == no_widget_id(),
{
    UiId { owner: 0, item: UiKind::NoWidget, index: 0 }
}

/// The bounded LIFO stack of active widgets; only the top receives editing
/// input in a frame.
pub struct ActiveStack {
    pub stack: Vec<UiId>,
}

impl ActiveStack {
    pub open spec fn wf(self) -> bool {
        self.stack@.len() <= ACTIVE_STACK_CAPACITY
    }

    pub open spec fn depth(self) -> nat {
        self.stack@.len()
    }

    pub open spec fn top(self) -> UiId
        recommends
            self.depth() > 0,
    {
        self.stack@.last()
    }

    /// Whether the widget with this index is the one currently capturing
    /// input.
    pub open spec fn is_active_spec(self, unique_id: usize) -> bool {
        self.depth() > 0 && self.top().index == unique_id
    }
}

/// An empty active stack.
pub fn new_active_stack() -> (stack: ActiveStack)
    ensures
        stack.wf(),
        stack.depth() == 0,
{
    ActiveStack { stack: Vec::new() }
}

/// Whether the widget with this index is on top of the active stack and so
/// receives this frame's editing input.
pub fn is_active(active: &ActiveStack, unique_id: usize) -> (r: bool)
    ensures
        r == active.is_active_spec(unique_id),
{
    if active.stack.len() == 0 {
        return false;
    }
    active.stack[active.stack.len() - 1].index == unique_id
}

/// Whether the widget with this index is the one under the pointer.
pub fn is_hot(hot: &UiId, unique_id: usize) -> (r: bool)
    ensures
        r == (hot.index == unique_id),
{
    hot.index == unique_id
}

/// Marks a widget as active; pushing past the stack's capacity is a fatal
/// composition error.
pub fn push_active(active: &mut ActiveStack, id: UiId) -> (r: Result<(), FatalUiError>)
    requires
        old(active).wf(),
    ensures
        final(active).wf(),
        old(active).depth() >= ACTIVE_STACK_CAPACITY ==> r == Err::<(), FatalUiError>(
            FatalUiError::ActiveStackOverflow,
        ) && *final(active) == *old(active),
        old(active).depth() < ACTIVE_STACK_CAPACITY ==> r == Ok::<(), FatalUiError>(()) && final(active).stack@ == old(active).stack@.push(id),
{
    if active.stack.len() >= ACTIVE_STACK_CAPACITY {
        return Err(FatalUiError::ActiveStackOverflow);
    }
    active.stack.push(id);
    Ok(())
}

/// Removes and returns the top active widget; popping an empty stack is a
/// fatal composition error.
pub fn pop_active(active: &mut ActiveStack) -> (r: Result<UiId, FatalUiError>)
    requires
        old(active).wf(),
    ensures
        final(active).wf(),
        old(active).depth() == 0 ==> r == Err::<UiId, FatalUiError>(
            FatalUiError::ActiveStackUnderflow,
        ) && *final(active) == *old(active),
        old(active).depth() > 0 ==> r == Ok::<UiId, FatalUiError>(old(active).top()) && final(active).stack@ == old(active).stack@.drop_last(),
{
    if active.stack.len() == 0 {
        return Err(FatalUiError::ActiveStackUnderflow);
    }
    match active.stack.pop() {
        Some(id) => Ok(id),
        None => Err(FatalUiError::ActiveStackUnderflow),
    }
}

/// Issues the stable widget-identity indices: a monotonic counter hands
/// each call site a block of consecutive indices (one per widget
/// instance), so that a widget's index is stable across frames and two
/// different logical widgets can never collide.
pub struct WidgetIdAllocator {
    pub next: usize,
}

/// A fresh allocator with no identifier issued yet.
pub fn new_widget_id_allocator() -> (alloc: WidgetIdAllocator)
    ensures
        alloc.next == 0,
{
    WidgetIdAllocator { next: 0 }
}

/// Reserves a block of `instances` consecutive identifiers for one call
/// site and returns the block's first identifier.  The caller adds the
/// per-instance offset; later reservations start past this block, so
/// identifiers from different reservations never coincide.
pub fn allocate_widget_ids(alloc: &mut WidgetIdAllocator, instances: usize) -> (base: usize)
    requires
        old(alloc).next + instances <= usize::MAX,
    ensures
        base == old(alloc).next,
        final(alloc).next == old(alloc).next + instances,
{
    let base: usize = alloc.next;
    alloc.next = alloc.next + instances;
    base
}

/// Widget-identity distinctness: an identifier from an earlier
/// reservation's block lies strictly below every identifier from a later
/// reservation's block, so identifiers of different call sites never
/// collide; within one block, distinct instance offsets give distinct
/// identifiers by plain arithmetic.
pub proof fn lemma_widget_ids_distinct(
    earlier_base: int,
    earlier_count: int,
    earlier_offset: int,
    later_base: int,
    later_offset: int,
)
    requires
        0 <= earlier_offset < earlier_count,
        0 <= later_offset,
        earlier_base + earlier_count <= later_base,
    ensures
        earlier_base + earlier_offset < later_base + later_offset,
{
}

/// Active-stack balance: a widget that leaves the active stack was pushed
/// onto it exactly once beforehand, and leaving undoes that push.  Pushing
/// an identity and then popping restores the stack as it was and hands the
/// same identity back, and the depth after the pop is one less than after
/// the push.
pub proof fn lemma_active_stack_balance(stack: Seq<UiId>, id: UiId)
    ensures
        stack.push(id).last() == id,
        stack.push(id).drop_last() == stack,
        stack.push(id).len() == stack.len() + 1,
        stack.push(id).drop_last().len() == stack.push(id).len() - 1,
{
    assert(stack.push(id).drop_last() =~= stack);
}

/// Whether the pointer lies inside the axis-aligned rectangle at `(x, y)`
/// of the given extent.
pub open spec fn cursor_inside(cursor: Cursor, x: int, y: int, width: int, height: int) -> bool {
    x <= cursor.x < x + width && y <= cursor.y < y + height
}

/// Hit-tests the pointer against a widget rectangle.
pub fn inside(cursor: &Cursor, x: usize, y: usize, width: usize, height: usize) -> (r: bool)
    requires
        cursor.wf(),
    ensures
        r == cursor_inside(*cursor, x as int, y as int, width as int, height as int),
{
    let cx: usize = cursor.x as usize;
    let cy: usize = cursor.y as usize;
    let bx: bool = cx >= x && cx - x < width;
    let by: bool = cy >= y && cy - y < height;
    bx && by
}

/// The hot slot after one widget draw: a widget whose rectangle contains
/// the pointer unconditionally overwrites the slot with its own identity,
/// recording the previous occupant's index as `owner`; otherwise the slot
/// is untouched.  Later draws therefore win ties.
pub open spec fn hot_after_draw(hot: UiId, hit: bool, kind: UiKind, unique_id: usize) -> UiId {
    if hit {
        UiId { owner: hot.index, item: kind, index: unique_id }
    } else {
        hot
    }
}

/// One widget draw as the hot-assignment model sees it: the widget's
/// identity and the rectangle it was drawn into.
pub ghost struct DrawRecord {
    pub kind: UiKind,
    pub unique_id: usize,
    pub x: int,
    pub y: int,
    pub width: int,
    pub height: int,
}

impl DrawRecord {
    pub open spec fn hits(self, cursor: Cursor) -> bool {
        cursor_inside(cursor, self.x, self.y, self.width, self.height)
    }
}

/// The hot slot after a frame's whole draw sequence, given the fixed
/// pointer position: each draw in order applies `hot_after_draw`.
pub open spec fn hot_after_draws(hot: UiId, cursor: Cursor, draws: Seq<DrawRecord>) -> UiId
    decreases draws.len(),
{
    if draws.len() == 0 {
        hot
    } else {
        let prev = hot_after_draws(hot, cursor, draws.drop_last());
        let d = draws.last();
        hot_after_draw(prev, d.hits(cursor), d.kind, d.unique_id)
    }
}

/// Hot assignment is deterministic: re-running a frame from the same
/// initial hot value, the same pointer position and the same draw order
/// ends with the same hot identity, whatever else (saved cursor
/// positions, grids, stacks) may differ between the runs.
pub proof fn lemma_hot_determinism(
    h1: UiId,
    c1: Cursor,
    h2: UiId,
    c2: Cursor,
    draws: Seq<DrawRecord>,
)
    requires
        h1 == h2,
        c1.x == c2.x,
        c1.y == c2.y,
    ensures
        hot_after_draws(h1, c1, draws) == hot_after_draws(h2, c2, draws),
    decreases draws.len(),
{
    if draws.len() > 0 {
        lemma_hot_determinism(h1, c1, h2, c2, draws.drop_last());
    }
}

/// Hot assignment follows the documented "last writer wins" policy: with
/// a fixed pointer position and a fixed draw order, the hot identity
/// after the frame is decided by the last draw whose rectangle contains
/// the pointer, and when no draw contains the pointer the hot slot keeps
/// its initial value.
pub proof fn lemma_hot_last_writer_wins(hot: UiId, cursor: Cursor, draws: Seq<DrawRecord>)
    ensures
        forall|k: int|
            0 <= k < draws.len() && (#[trigger] draws[k]).hits(cursor) && (forall|m: int|
                k < m < draws.len() ==> !(#[trigger] draws[m]).hits(cursor)) ==> {
                let result = hot_after_draws(hot, cursor, draws);
                result.item == draws[k].kind && result.index == draws[k].unique_id
            },
        (forall|k: int| 0 <= k < draws.len() ==> !(#[trigger] draws[k]).hits(cursor))
            ==> hot_after_draws(hot, cursor, draws) == hot,
    decreases draws.len(),
{
    if draws.len() > 0 {
        lemma_hot_last_writer_wins(hot, cursor, draws.drop_last());
        assert forall|k: int|
            0 <= k < draws.len() && (#[trigger] draws[k]).hits(cursor) && (forall|m: int|
                k < m < draws.len() ==> !(#[trigger] draws[m]).hits(cursor)) implies {
            let result = hot_after_draws(hot, cursor, draws);
            result.item == draws[k].kind && result.index == draws[k].unique_id
        } by {
            if k == draws.len() - 1 {
            } else {
                assert(!draws.last().hits(cursor));
                assert(forall|m: int|
                    k < m < draws.drop_last().len() ==> !(#[trigger] draws.drop_last()[m]).hits(
                        cursor,
                    ));
                assert(draws.drop_last()[k] == draws[k]);
            }
        }
        if forall|k: int| 0 <= k < draws.len() ==> !(#[trigger] draws[k]).hits(cursor) {
            assert(forall|k: int|
                0 <= k < draws.drop_last().len() ==> !(#[trigger] draws.drop_last()[k]).hits(
                    cursor,
                ));
        }
    }
}

} // verus!
