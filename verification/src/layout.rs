//! The layout stack: a bounded stack of axis-aligned rectangles with a
//! directional flow policy.  Widgets carve their rectangles out of the
//! current top with `get_xy_with_current_layout`, which shrinks the top's
//! remaining extent so that siblings placed under the same flow never
//! overlap and never exceed the parent.

use vstd::prelude::*;
use crate::error::FatalUiError;

verus! {

/// The number of layout rectangles that can be nested at once.
pub const LAYOUT_STACK_CAPACITY: usize = 16;

/// The anchor corner and fill direction used when carving sub-rectangles
/// out of a layout.
#[derive(Clone, Copy, PartialEq, Eq, Structural, Debug)]
pub enum Flow {
    UpperLeftFlowRight,
    UpperLeftFlowDown,
    UpperRightFlowLeft,
    UpperRightFlowDown,
    BottomLeftFlowRight,
    BottomLeftFlowUp,
    BottomRightFlowLeft,
    BottomRightFlowUp,
}

/// An axis-aligned layout rectangle together with its flow policy.
#[derive(Clone, Copy, PartialEq, Eq, Structural, Debug)]
pub struct UiLayout {
    pub x: usize,
    pub y: usize,
    pub w: usize,
    pub h: usize,
    pub flow: Flow,
}

impl UiLayout {
    /// The rectangle's far corner stays representable, so carving and
    /// anchor arithmetic cannot overflow.
    pub open spec fn wf(self) -> bool {
        self.x + self.w <= usize::MAX && self.y + self.h <= usize::MAX
    }

    /// The rectangle lies inside the signed 16-bit coordinate space that
    /// the cursor and the cell grid use.
    pub open spec fn fits_i16(self) -> bool {
        self.x + self.w <= 0x7fff && self.y + self.h <= 0x7fff
    }
}

/// Whether a child rectangle overlaps its parent on both axes.  This is the
/// containment test that `push_layout` enforces.
pub open spec fn overlaps(child: UiLayout, parent: UiLayout) -> bool {
    child.x + child.w >= parent.x && child.x <= parent.x + parent.w && child.y + child.h
        >= parent.y && child.y <= parent.y + parent.h
}

/// The bounded LIFO stack of layout rectangles; the top is the current
/// layout that widgets allocate from.
pub struct LayoutStack {
    pub stack: Vec<UiLayout>,
}

impl LayoutStack {
    pub open spec fn wf(self) -> bool {
        self.stack@.len() <= LAYOUT_STACK_CAPACITY && (forall|i: int|
            0 <= i < self.stack@.len() ==> #[trigger] self.stack@[i].wf())
    }

    pub open spec fn depth(self) -> nat {
        self.stack@.len()
    }

    pub open spec fn top(self) -> UiLayout
        recommends
            self.depth() > 0,
    {
        self.stack@.last()
    }
}

/// An empty layout stack.
pub fn new_layout_stack() -> (stack: LayoutStack)
    ensures
        stack.wf(),
        stack.depth() == 0,
{
    LayoutStack { stack: Vec::new() }
}

/// Pushes a layout rectangle.  With a parent present the new rectangle must
/// overlap it on both axes; violating that, or exceeding the stack's
/// capacity, is a fatal composition error and leaves the stack unchanged.
pub fn push_layout(stack: &mut LayoutStack, layout: UiLayout) -> (r: Result<(), FatalUiError>)
    requires
        old(stack).wf(),
        layout.wf(),
    ensures
        final(stack).wf(),
        old(stack).depth() > 0 && !overlaps(layout, old(stack).top()) ==> r == Err::<(),
            FatalUiError,
        >(FatalUiError::LayoutOutOfParent) && *final(stack) == *old(stack),
        (old(stack).depth() == 0 || overlaps(layout, old(stack).top())) && old(stack).depth()
            >= LAYOUT_STACK_CAPACITY ==> r == Err::<(), FatalUiError>(
            FatalUiError::LayoutStackOverflow,
        ) && *final(stack) == *old(stack),
        (old(stack).depth() == 0 || overlaps(layout, old(stack).top())) && old(stack).depth()
            < LAYOUT_STACK_CAPACITY ==> r == Ok::<(), FatalUiError>(()) && final(stack).stack@
            == old(stack).stack@.push(layout),
{
    if stack.stack.len() != 0 {
        let parent: UiLayout = stack.stack[stack.stack.len() - 1];
        proof {
            assert(parent.wf());
        }
        let bx: bool = layout.x + layout.w >= parent.x && layout.x <= parent.x + parent.w;
        let by: bool = layout.y + layout.h >= parent.y && layout.y <= parent.y + parent.h;
        if !(bx && by) {
            return Err(FatalUiError::LayoutOutOfParent);
        }
    }
    if stack.stack.len() >= LAYOUT_STACK_CAPACITY {
        return Err(FatalUiError::LayoutStackOverflow);
    }
    stack.stack.push(layout);
    Ok(())
}

/// Pops and returns the current layout; popping an empty stack is a fatal
/// composition error.
pub fn pop_layout(stack: &mut LayoutStack) -> (r: Result<UiLayout, FatalUiError>)
    requires
        old(stack).wf(),
    ensures
        final(stack).wf(),
        old(stack).depth() == 0 ==> r == Err::<UiLayout, FatalUiError>(
            FatalUiError::LayoutStackUnderflow,
        ) && *final(stack) == *old(stack),
        old(stack).depth() > 0 ==> r == Ok::<UiLayout, FatalUiError>(old(stack).top()) && final(stack).stack@ == old(stack).stack@.drop_last(),
{
    if stack.stack.len() == 0 {
        return Err(FatalUiError::LayoutStackUnderflow);
    }
    match stack.stack.pop() {
        Some(layout) => Ok(layout),
        None => Err(FatalUiError::LayoutStackUnderflow),
    }
}

/// Returns (a copy of) the current layout without removing it.
pub fn get_current_layout(stack: &LayoutStack) -> (r: Result<UiLayout, FatalUiError>)
    ensures
        stack.depth() == 0 ==> r == Err::<UiLayout, FatalUiError>(
            FatalUiError::LayoutStackUnderflow,
        ),
        stack.depth() > 0 ==> r == Ok::<UiLayout, FatalUiError>(stack.top()),
{
    if stack.stack.len() == 0 {
        return Err(FatalUiError::LayoutStackUnderflow);
    }
    Ok(stack.stack[stack.stack.len() - 1])
}

/// The anchor position a `width`-by-`height` rectangle is carved at under
/// the given layout's flow: the corner the flow is anchored to.
pub open spec fn carve_pos(top: UiLayout, width: int, height: int) -> (int, int) {
    match top.flow {
        Flow::UpperLeftFlowRight => (top.x as int, top.y as int),
        Flow::UpperLeftFlowDown => (top.x as int, top.y as int),
        Flow::UpperRightFlowLeft => (top.x + top.w - width, top.y as int),
        Flow::UpperRightFlowDown => (top.x + top.w - width, top.y as int),
        Flow::BottomLeftFlowRight => (top.x as int, top.y + top.h - height),
        Flow::BottomLeftFlowUp => (top.x as int, top.y + top.h - height),
        Flow::BottomRightFlowLeft => (top.x + top.w - width, top.y + top.h - height),
        Flow::BottomRightFlowUp => (top.x + top.w - width, top.y + top.h - height),
    }
}

/// Whether `(x, y)` is the position `carve_pos` assigns.
pub open spec fn carve_matches(top: UiLayout, width: int, height: int, x: int, y: int) -> bool {
    x == carve_pos(top, width, height).0 && y == carve_pos(top, width, height).1
}

/// How an allocation shrinks the current layout: the consumed extent leaves
/// the rectangle on the flow axis, and when the flow leaves the anchor edge
/// behind, the position advances past the carved slice; everything else is
/// unchanged.
pub open spec fn shrink_matches(top: UiLayout, width: int, height: int, new: UiLayout) -> bool {
    new.flow == top.flow && match top.flow {
        Flow::UpperLeftFlowRight => new.x == top.x + width && new.y == top.y && new.w == top.w
            - width && new.h == top.h,
        Flow::UpperLeftFlowDown => new.x == top.x && new.y == top.y + height && new.w == top.w
            && new.h == top.h - height,
        Flow::UpperRightFlowLeft => new.x == top.x && new.y == top.y && new.w == top.w - width
            && new.h == top.h,
        Flow::UpperRightFlowDown => new.x == top.x && new.y == top.y + height && new.w == top.w
            && new.h == top.h - height,
        Flow::BottomLeftFlowRight => new.x == top.x + width && new.y == top.y && new.w == top.w
            - width && new.h == top.h,
        Flow::BottomLeftFlowUp => new.x == top.x && new.y == top.y && new.w == top.w && new.h
            == top.h - height,
        Flow::BottomRightFlowLeft => new.x == top.x && new.y == top.y && new.w == top.w - width
            && new.h == top.h,
        Flow::BottomRightFlowUp => new.x == top.x && new.y == top.y && new.w == top.w && new.h
            == top.h - height,
    }
}

/// Whether two axis-aligned rectangles share no cell.
pub open spec fn rect_disjoint(
    x1: int,
    y1: int,
    w1: int,
    h1: int,
    x2: int,
    y2: int,
    w2: int,
    h2: int,
) -> bool {
    x1 + w1 <= x2 || x2 + w2 <= x1 || y1 + h1 <= y2 || y2 + h2 <= y1
}

/// Whether the first rectangle lies entirely inside the second.
pub open spec fn rect_within(
    x: int,
    y: int,
    w: int,
    h: int,
    ox: int,
    oy: int,
    ow: int,
    oh: int,
) -> bool {
    ox <= x && x + w <= ox + ow && oy <= y && y + h <= oy + oh
}

/// The greedy allocator's guarantee: two rectangles carved one after the
/// other from the same layout never overlap, and both lie inside the
/// layout as it stood before the first carve.  `top1` is the layout after
/// the first allocation shrank it.
pub proof fn lemma_sibling_allocations_disjoint(
    top: UiLayout,
    w1: int,
    h1: int,
    top1: UiLayout,
    w2: int,
    h2: int,
)
    requires
        0 <= w1 <= top.w,
        0 <= h1 <= top.h,
        shrink_matches(top, w1, h1, top1),
        0 <= w2 <= top1.w,
        0 <= h2 <= top1.h,
    ensures
        ({
            let p1 = carve_pos(top, w1, h1);
            let p2 = carve_pos(top1, w2, h2);
            &&& rect_disjoint(p1.0, p1.1, w1, h1, p2.0, p2.1, w2, h2)
            &&& rect_within(p1.0, p1.1, w1, h1, top.x as int, top.y as int, top.w as int, top.h as int)
            &&& rect_within(p2.0, p2.1, w2, h2, top.x as int, top.y as int, top.w as int, top.h as int)
        }),
{
}

/// Carves a `width`-by-`height` rectangle out of the current layout,
/// returning the carved anchor position and shrinking the top's remaining
/// extent.  An empty stack or a top with too little room is a fatal
/// composition error and changes nothing.
pub fn get_xy_with_current_layout(stack: &mut LayoutStack, width: usize, height: usize) -> (r:
    Result<(usize, usize), FatalUiError>)
    requires
        old(stack).wf(),
    ensures
        final(stack).wf(),
        old(stack).depth() == 0 ==> r == Err::<(usize, usize), FatalUiError>(
            FatalUiError::LayoutStackUnderflow,
        ) && *final(stack) == *old(stack),
        old(stack).depth() > 0 && (old(stack).top().w < width || old(stack).top().h < height)
            ==> r == Err::<(usize, usize), FatalUiError>(FatalUiError::LayoutTooSmall)
            && *final(stack) == *old(stack),
        old(stack).depth() > 0 && old(stack).top().w >= width && old(stack).top().h >= height ==> {
            &&& r matches Ok(xy) && carve_matches(
                old(stack).top(),
                width as int,
                height as int,
                xy.0 as int,
                xy.1 as int,
            )
            &&& final(stack).depth() == old(stack).depth()
            &&& final(stack).stack@.drop_last() == old(stack).stack@.drop_last()
            &&& shrink_matches(old(stack).top(), width as int, height as int, final(stack).top())
        },
{
    let depth: usize = stack.stack.len();
    if depth == 0 {
        return Err(FatalUiError::LayoutStackUnderflow);
    }
    let layout: UiLayout = stack.stack[depth - 1];
    proof {
        assert(layout.wf());
    }
    if layout.w < width || layout.h < height {
        return Err(FatalUiError::LayoutTooSmall);
    }
    let x: usize;
    let y: usize;
    let updated: UiLayout;
    match layout.flow {
        Flow::UpperLeftFlowRight => {
            x = layout.x;
            y = layout.y;
            updated = UiLayout { x: layout.x + width, w: layout.w - width, ..layout };
        },
        Flow::UpperLeftFlowDown => {
            x = layout.x;
            y = layout.y;
            updated = UiLayout { y: layout.y + height, h: layout.h - height, ..layout };
        },
        Flow::UpperRightFlowLeft => {
            x = layout.x + layout.w - width;
            y = layout.y;
            updated = UiLayout { w: layout.w - width, ..layout };
        },
        Flow::UpperRightFlowDown => {
            x = layout.x + layout.w - width;
            y = layout.y;
            updated = UiLayout { y: layout.y + height, h: layout.h - height, ..layout };
        },
        Flow::BottomLeftFlowRight => {
            x = layout.x;
            y = layout.y + layout.h - height;
            updated = UiLayout { x: layout.x + width, w: layout.w - width, ..layout };
        },
        Flow::BottomLeftFlowUp => {
            x = layout.x;
            y = layout.y + layout.h - height;
            updated = UiLayout { h: layout.h - height, ..layout };
        },
        Flow::BottomRightFlowLeft => {
            x = layout.x + layout.w - width;
            y = layout.y + layout.h - height;
            updated = UiLayout { w: layout.w - width, ..layout };
        },
        Flow::BottomRightFlowUp => {
            x = layout.x + layout.w - width;
            y = layout.y + layout.h - height;
            updated = UiLayout { h: layout.h - height, ..layout };
        },
    }
    stack.stack[depth - 1] = updated;
    proof {
        assert(updated.wf());
        assert forall|i: int| 0 <= i < stack.stack@.len() implies #[trigger] stack.stack@[i].wf()
        by {
            if i != depth - 1 {
                assert(stack.stack@[i] == old(stack).stack@[i]);
            }
        }
        assert(stack.stack@.drop_last() =~= old(stack).stack@.drop_last());
    }
    Ok((x, y))
}

} // verus!
