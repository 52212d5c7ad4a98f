//! The view tree: a rooted, ordered tree of view nodes.
//!
//! The root owns the whole screen.  Overlay views (menus, notifications,
//! intermissions) are appended as the last child of the node that owns the
//! screen and removed by id lookup; z-order is child order, so later-pushed
//! overlays draw over earlier content.  Structural edits account for their
//! damage: no child is removed without the owner enqueuing an `Expose` for
//! the rectangle it occupied (the core's close handlers enforce this).
//!
//! What a widget paints inside its rectangle, and how it reacts to an event
//! routed to it, is the widget catalogue's business and out of scope here;
//! this module carries the structure those contracts are stated over.

use vstd::prelude::*;
use crate::geom::Rectangle;
use crate::event::ViewId;

verus! {

/// The message an intermission overlay shows while it owns the screen.
#[derive(Clone, Copy, Debug, PartialEq, Eq, Structural)]
pub enum IntermissionKind {
    Sleeping,
    Mounted,
    PoweredOff,
}

/// What a node is, as far as the core's routing needs to know.  A reader
/// node carries the plain identifier of the open document.
#[derive(Clone, Copy, Debug, PartialEq, Eq, Structural)]
pub enum ViewKind {
    Home,
    Reader(u64),
    Intermission(IntermissionKind),
    FrontlightWindow,
    Menu,
    Notification,
}

/// One node of the view tree.  Overlays pushed during dispatch are leaves.
#[derive(Debug)]
pub struct ViewNode {
    pub kind: ViewKind,
    /// Identity for id-directed routing; `None` for anonymous nodes.
    pub id: Option<ViewId>,
    pub rect: Rectangle,
    pub children: Vec<ViewNode>,
}

/// `i` is the index of the first intermission overlay among `s`.
pub open spec fn is_first_intermission(s: Seq<ViewNode>, i: int) -> bool {
    0 <= i < s.len() && s[i].kind is Intermission
        && forall|k: int| 0 <= k < i ==> !((#[trigger] s[k]).kind is Intermission)
}

/// The first match is unique.
pub proof fn lemma_first_intermission_unique(s: Seq<ViewNode>, i: int, j: int)
    requires
        is_first_intermission(s, i),
        is_first_intermission(s, j),
    ensures
        i == j,
{
}

/// `i` is the index of the first child carrying `id` among `s`.
pub open spec fn is_first_with_id(s: Seq<ViewNode>, id: ViewId, i: int) -> bool {
    0 <= i < s.len() && s[i].id == Some(id)
        && forall|k: int| 0 <= k < i ==> (#[trigger] s[k]).id != Some(id)
}

/// The first match is unique.
pub proof fn lemma_first_with_id_unique(s: Seq<ViewNode>, id: ViewId, i: int, j: int)
    requires
        is_first_with_id(s, id, i),
        is_first_with_id(s, id, j),
    ensures
        i == j,
{
}

/// Where a frontlight window opens: a box inset by a quarter of the screen
/// on every side.
pub fn frontlight_window_rect(fb: &Rectangle) -> (r: Rectangle)
    requires
        fb.well_formed(),
    ensures
        r.well_formed(),
        r.spec_contains(*fb),
{
    let w: i32 = fb.max_x - fb.min_x;
    let h: i32 = fb.max_y - fb.min_y;
    Rectangle {
        min_x: fb.min_x + w / 4,
        min_y: fb.min_y + h / 4,
        max_x: fb.max_x - w / 4,
        max_y: fb.max_y - h / 4,
    }
}

/// Where the next transient notification opens: against the right edge,
/// stacked downward by its index so that several can coexist.
pub fn notification_rect(fb: &Rectangle, index: u8) -> (r: Rectangle)
    requires
        fb.well_formed(),
    ensures
        r.well_formed(),
        r.spec_contains(*fb),
{
    let k: i32 = (index % 8) as i32;
    let w: i32 = fb.max_x - fb.min_x;
    let h: i32 = fb.max_y - fb.min_y;
    let nh: i32 = h / 10;
    proof {
        assert(0 <= k * nh <= 7 * nh) by (nonlinear_arith)
            requires 0 <= k <= 7 && 0 <= nh;
    }
    let y0: i32 = fb.min_y + k * nh;
    let y1: i32 = y0 + nh;
    let x0: i32 = fb.min_x + 2 * (w / 3);
    Rectangle { min_x: x0, min_y: y0, max_x: fb.max_x, max_y: y1 }
}

impl ViewNode {
    /// A root and its overlay layer sit inside the screen with well-formed
    /// rectangles.
    pub open spec fn wf(self) -> bool {
        self.rect.well_formed()
            && forall|i: int| 0 <= i < self.children@.len()
                ==> (#[trigger] self.children@[i]).rect.well_formed()
    }

    /// A leaf overlay node.
    pub fn leaf(kind: ViewKind, id: Option<ViewId>, rect: Rectangle) -> (r: ViewNode)
        ensures
            r.kind == kind,
            r.id == id,
            r.rect == rect,
            r.children@.len() == 0,
            rect.well_formed() ==> r.wf(),
    {
        ViewNode { kind, id, rect, children: Vec::new() }
    }

    /// Index of the first child that is an intermission overlay: the
    /// structural lookup the wake path uses.
    pub fn locate_intermission(&self) -> (r: Option<usize>)
        ensures
            match r {
                Some(i) => 0 <= i < self.children@.len()
                    && self.children@[i as int].kind is Intermission
                    && forall|k: int| 0 <= k < i
                        ==> !((#[trigger] self.children@[k]).kind is Intermission),
                None => forall|k: int| 0 <= k < self.children@.len()
                    ==> !((#[trigger] self.children@[k]).kind is Intermission),
            },
    {
        let n = self.children.len();
        let mut i: usize = 0;
        while i < n
            invariant
                n == self.children@.len(),
                i <= n,
                forall|k: int| 0 <= k < i
                    ==> !((#[trigger] self.children@[k]).kind is Intermission),
            decreases n - i,
        {
            if matches!(self.children[i].kind, ViewKind::Intermission(_)) {
                return Some(i);
            }
            i += 1;
        }
        None
    }

    /// Index of the first child carrying `id`: the id match of the routing
    /// rule, which takes precedence over a type match.
    pub fn locate_by_id(&self, id: ViewId) -> (r: Option<usize>)
        ensures
            match r {
                Some(i) => 0 <= i < self.children@.len()
                    && self.children@[i as int].id == Some(id)
                    && forall|k: int| 0 <= k < i
                        ==> (#[trigger] self.children@[k]).id != Some(id),
                None => forall|k: int| 0 <= k < self.children@.len()
                    ==> (#[trigger] self.children@[k]).id != Some(id),
            },
    {
        let n = self.children.len();
        let mut i: usize = 0;
        while i < n
            invariant
                n == self.children@.len(),
                i <= n,
                forall|k: int| 0 <= k < i ==> (#[trigger] self.children@[k]).id != Some(id),
            decreases n - i,
        {
            let c = &self.children[i];
            match c.id {
                Some(cid) => if cid == id {
                    return Some(i);
                },
                None => {},
            }
            i += 1;
        }
        None
    }

    /// Append an overlay as the last child, on top of everything painted so
    /// far.
    pub fn push_child(&mut self, child: ViewNode)
        ensures
            final(self).children@ == old(self).children@.push(child),
            final(self).kind == old(self).kind,
            final(self).id == old(self).id,
            final(self).rect == old(self).rect,
    {
        self.children.push(child);
    }

    /// Remove the child at `i`, handing it back so the caller can account
    /// for the damage its rectangle leaves behind.
    pub fn remove_child(&mut self, i: usize) -> (r: ViewNode)
        requires
            i < old(self).children@.len(),
        ensures
            r == old(self).children@[i as int],
            final(self).children@ == old(self).children@.remove(i as int),
            final(self).kind == old(self).kind,
            final(self).id == old(self).id,
            final(self).rect == old(self).rect,
    {
        self.children.remove(i)
    }

    /// The smallest rectangle covering a node and its children: the region
    /// that must be re-exposed when the node disappears.
    pub fn overlapping_rectangle(&self) -> (r: Rectangle)
        requires
            self.rect.well_formed(),
            forall|i: int| 0 <= i < self.children@.len()
                ==> (#[trigger] self.children@[i]).rect.well_formed(),
        ensures
            r.well_formed(),
            self.rect.spec_contains(r),
            forall|i: int| 0 <= i < self.children@.len()
                ==> (#[trigger] self.children@[i]).rect.spec_contains(r),
            self.children@.len() == 0 ==> r == self.rect,
    {
        let mut r = self.rect;
        let n = self.children.len();
        let mut i: usize = 0;
        while i < n
            invariant
                n == self.children@.len(),
                i <= n,
                r.well_formed(),
                self.rect.well_formed(),
                forall|k: int| 0 <= k < n
                    ==> (#[trigger] self.children@[k]).rect.well_formed(),
                self.rect.spec_contains(r),
                forall|k: int| 0 <= k < i
                    ==> (#[trigger] self.children@[k]).rect.spec_contains(r),
                n == 0 ==> r == self.rect,
            decreases n - i,
        {
            r = r.merge(&self.children[i].rect);
            i += 1;
        }
        r
    }

    /// The overlay indices the damage renderer paints for a dirty region:
    /// exactly the children whose rectangle intersects it, in tree (z-)
    /// order.  The parent's own background is painted first; the caller
    /// paints these on top, in the returned order.
    pub fn paint_order(&self, region: &Rectangle) -> (r: Vec<usize>)
        ensures
            forall|a: int, b: int| 0 <= a < b < r@.len() ==> r@[a] < r@[b],
            forall|a: int| 0 <= a < r@.len()
                ==> 0 <= #[trigger] r@[a] < self.children@.len()
                    && self.children@[r@[a] as int].rect.spec_overlaps(*region),
            forall|i: int| 0 <= i < self.children@.len()
                && (#[trigger] self.children@[i]).rect.spec_overlaps(*region)
                ==> r@.contains(i as usize),
    {
        let mut out: Vec<usize> = Vec::new();
        let n = self.children.len();
        let mut i: usize = 0;
        while i < n
            invariant
                n == self.children@.len(),
                i <= n,
                forall|a: int, b: int| 0 <= a < b < out@.len() ==> out@[a] < out@[b],
                forall|a: int| 0 <= a < out@.len()
                    ==> 0 <= #[trigger] out@[a] < i
                        && self.children@[out@[a] as int].rect.spec_overlaps(*region),
                forall|k: int| 0 <= k < i
                    && (#[trigger] self.children@[k]).rect.spec_overlaps(*region)
                    ==> out@.contains(k as usize),
            decreases n - i,
        {
            let ghost out_before = out@;
            if self.children[i].rect.overlaps(region) {
                out.push(i);
            }
            proof {
                assert forall|k: int| 0 <= k < i + 1
                    && (#[trigger] self.children@[k]).rect.spec_overlaps(*region)
                    implies out@.contains(k as usize) by {
                    if k < i {
                        let a = choose|a: int|
                            0 <= a < out_before.len() && out_before[a] == k as usize;
                        assert(out@[a] == k as usize);
                    } else {
                        assert(out@[out@.len() - 1] == k as usize);
                    }
                }
            }
            i += 1;
        }
        out
    }
}

} // verus!
