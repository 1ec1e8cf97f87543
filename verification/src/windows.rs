use vstd::prelude::*;
use crate::GlkRock;
use crate::stream::GlkStreamID;

verus! {

/// An opaque type for windows
pub type GlkWindowID = u32;

/// Type of window to create
#[derive(Debug, PartialEq, Eq, Structural, Clone, Copy)]
pub enum GlkWindowType {
    /// A window containing a stream of text
    TextBuffer,
    /// A window containing grid-addressible characters
    TextGrid,
    /// A window that can display colored pixels
    Graphics,
    /// A blank window
    Blank,
    /// A pair window (created internally)
    Pair,
}

/// What kind of window a tree node holds; `Root` never appears in the tree and
/// stands for the implicit slot above the single top-level window.
#[derive(Debug, PartialEq, Eq, Structural, Clone, Copy)]
pub enum WindowType {
    /// A window containing a stream of text
    TextBuffer,
    /// A window containing grid-addressible characters
    TextGrid,
    /// A window that can display colored pixels
    Graphics,
    /// A blank window
    Blank,
    /// A pair window (internal to the library)
    Pair,
    /// Topmost window of the tree
    Root,
}

/// Which child of a pair window drives proportional sizing
#[derive(Debug, PartialEq, Eq, Structural, Clone, Copy)]
pub enum KeyWindow {
    /// No key window has been chosen
    Unset,
    /// The first child is the key window
    Child1,
    /// The second child is the key window
    Child2,
}

/// Describes how a window should be created when splitting from an existing window
#[derive(Debug, PartialEq, Eq, Structural, Clone, Copy)]
pub struct WindowSplitMethod {
    /// Location of new window in relation to the existing window
    pub position: WindowSplitPosition,
    /// What the new window should look like compared to the existing one
    pub amount: WindowSplitAmount,
    /// Does it have a border?
    pub border: bool,
}

/// Describes where the new window should be placed in relation to the existing window
#[derive(Debug, PartialEq, Eq, Structural, Clone, Copy)]
pub enum WindowSplitPosition {
    /// New window should be above the existing window
    Above,
    /// New window should be below the existing window
    Below,
    /// New window should be to the left of the existing window
    Left,
    /// New window should be to the right of the existing window
    Right,
}

/// How the new window should be sized in relation to the existing window
#[derive(Debug, PartialEq, Eq, Structural, Clone, Copy)]
pub enum WindowSplitAmount {
    /// New window should have a fixed number of lines/columns
    Fixed(i32),
    /// New window should consume a percentage of the existing window
    Proportional(i32),
}

/// The size of a window
#[derive(Debug, Default, PartialEq, Eq, Structural, Clone, Copy)]
pub struct GlkWindowSize {
    /// Width of the window in its measurement system (Glk spec section 1.9)
    pub width: u32,
    /// Height of the window in its measurement system (Glk spec section 1.9)
    pub height: u32,
}

/// A glk window: the payload of one node of the window tree.
#[derive(Debug, PartialEq, Eq, Structural, Clone, Copy)]
pub struct Window {
    /// what kind of window this is
    pub wintype: WindowType,
    /// how this window was split from its sibling (pair windows only)
    pub method: Option<WindowSplitMethod>,
    /// the caller's tag, stored and never interpreted
    pub rock: GlkRock,
    /// this window's identity
    pub this_id: GlkWindowID,
    /// which child of a pair window is the key window
    pub keywin: KeyWindow,
    /// the stream attached to this window
    pub stream: GlkStreamID,
    /// where writes to this window's stream are mirrored, if anywhere
    pub echo_stream: Option<GlkStreamID>,
    /// cursor column, used by text grid windows
    pub cursor_x: u32,
    /// cursor row, used by text grid windows
    pub cursor_y: u32,
    /// width in the window's measurement system
    pub width: u32,
    /// height in the window's measurement system
    pub height: u32,
}

impl Window {
    /// A fresh leaf window with the given type, rock and identity.
    pub open spec fn spec_new_leaf(wintype: WindowType, rock: GlkRock, id: GlkWindowID) -> Window {
        Window {
            wintype,
            method: None,
            rock,
            this_id: id,
            keywin: KeyWindow::Unset,
            stream: 0,
            echo_stream: None,
            cursor_x: 0,
            cursor_y: 0,
            width: 0,
            height: 0,
        }
    }

    /// A fresh pair window joining two children after a split.
    pub open spec fn spec_new_pair(method: Option<WindowSplitMethod>, id: GlkWindowID) -> Window {
        Window {
            wintype: WindowType::Pair,
            method,
            rock: 0,
            this_id: id,
            keywin: KeyWindow::Child2,
            stream: 0,
            echo_stream: None,
            cursor_x: 0,
            cursor_y: 0,
            width: 0,
            height: 0,
        }
    }

    fn new_leaf(wintype: WindowType, rock: GlkRock, id: GlkWindowID) -> (w: Window)
        ensures
            w == Window::spec_new_leaf(wintype, rock, id),
    {
        Window {
            wintype,
            method: None,
            rock,
            this_id: id,
            keywin: KeyWindow::Unset,
            stream: 0,
            echo_stream: None,
            cursor_x: 0,
            cursor_y: 0,
            width: 0,
            height: 0,
        }
    }

    fn new_pair(method: Option<WindowSplitMethod>, id: GlkWindowID) -> (w: Window)
        ensures
            w == Window::spec_new_pair(method, id),
    {
        Window {
            wintype: WindowType::Pair,
            method,
            rock: 0,
            this_id: id,
            keywin: KeyWindow::Child2,
            stream: 0,
            echo_stream: None,
            cursor_x: 0,
            cursor_y: 0,
            width: 0,
            height: 0,
        }
    }
}

/// The window tree: a leaf window, or a pair window joining exactly two
/// subtrees. By construction a pair node always has two children, which is
/// the shape the tree invariant demands.
pub enum WinTree {
    /// A single window without children
    Leaf(Window),
    /// A pair window and its two children
    Pair(Window, Box<WinTree>, Box<WinTree>),
}

impl WinTree {
    /// The window stored at this tree's root node.
    pub open spec fn node(self) -> Window {
        match self {
            WinTree::Leaf(w) => w,
            WinTree::Pair(w, _, _) => w,
        }
    }

    /// All window identities in this tree.
    pub open spec fn ids(self) -> Set<GlkWindowID>
        decreases self,
    {
        match self {
            WinTree::Leaf(w) => Set::empty().insert(w.this_id),
            WinTree::Pair(w, a, b) => a.ids().union(b.ids()).insert(w.this_id),
        }
    }

    /// The windows of this tree, listed parent first.
    pub open spec fn id_seq(self) -> Seq<GlkWindowID>
        decreases self,
    {
        match self {
            WinTree::Leaf(w) => seq![w.this_id],
            WinTree::Pair(w, a, b) => seq![w.this_id] + a.id_seq() + b.id_seq(),
        }
    }

    /// Well-formed under `bound`: every identity is below `bound` and occurs
    /// once, pair nodes are typed `Pair`, and leaves hold real (non-pair,
    /// non-root) windows.
    pub open spec fn wf(self, bound: GlkWindowID) -> bool
        decreases self,
    {
        match self {
            WinTree::Leaf(w) => {
                &&& w.this_id < bound
                &&& w.wintype != WindowType::Pair
                &&& w.wintype != WindowType::Root
            },
            WinTree::Pair(w, a, b) => {
                &&& w.this_id < bound
                &&& w.wintype == WindowType::Pair
                &&& a.wf(bound)
                &&& b.wf(bound)
                &&& !a.ids().contains(w.this_id)
                &&& !b.ids().contains(w.this_id)
                &&& a.ids().disjoint(b.ids())
            },
        }
    }

    /// The payload of the window named `id`, if it is in this tree.
    pub open spec fn find(self, id: GlkWindowID) -> Option<Window>
        decreases self,
    {
        match self {
            WinTree::Leaf(w) => if w.this_id == id {
                Some(w)
            } else {
                None
            },
            WinTree::Pair(w, a, b) => if w.this_id == id {
                Some(w)
            } else if a.ids().contains(id) {
                a.find(id)
            } else {
                b.find(id)
            },
        }
    }

    /// The pair window directly above `id`, if any; the top-level window has
    /// no parent.
    pub open spec fn parent_of(self, id: GlkWindowID) -> Option<GlkWindowID>
        decreases self,
    {
        match self {
            WinTree::Leaf(_) => None,
            WinTree::Pair(w, a, b) => if a.node().this_id == id || b.node().this_id == id {
                Some(w.this_id)
            } else if a.ids().contains(id) {
                a.parent_of(id)
            } else {
                b.parent_of(id)
            },
        }
    }

    /// The other child of `id`'s parent pair, if any.
    pub open spec fn sibling_of(self, id: GlkWindowID) -> Option<GlkWindowID>
        decreases self,
    {
        match self {
            WinTree::Leaf(_) => None,
            WinTree::Pair(_, a, b) => if a.node().this_id == id {
                Some(b.node().this_id)
            } else if b.node().this_id == id {
                Some(a.node().this_id)
            } else if a.ids().contains(id) {
                a.sibling_of(id)
            } else {
                b.sibling_of(id)
            },
        }
    }

    /// The two child identities of the pair window `id`, if `id` names a pair.
    pub open spec fn children_of(self, id: GlkWindowID) -> Option<(GlkWindowID, GlkWindowID)>
        decreases self,
    {
        match self {
            WinTree::Leaf(_) => None,
            WinTree::Pair(w, a, b) => if w.this_id == id {
                Some((a.node().this_id, b.node().this_id))
            } else if a.ids().contains(id) {
                a.children_of(id)
            } else {
                b.children_of(id)
            },
        }
    }

    /// The tree after replacing the payload of window `id` with `w`.
    pub open spec fn spec_update(self, id: GlkWindowID, w: Window) -> WinTree
        decreases self,
    {
        match self {
            WinTree::Leaf(n) => if n.this_id == id {
                WinTree::Leaf(w)
            } else {
                self
            },
            WinTree::Pair(n, a, b) => if n.this_id == id {
                WinTree::Pair(w, a, b)
            } else if a.ids().contains(id) {
                WinTree::Pair(n, Box::new(a.spec_update(id, w)), b)
            } else {
                WinTree::Pair(n, a, Box::new(b.spec_update(id, w)))
            },
        }
    }

    /// The tree after clearing every echo-stream reference equal to `sid`.
    pub open spec fn spec_clear_echo(self, sid: GlkStreamID) -> WinTree
        decreases self,
    {
        match self {
            WinTree::Leaf(n) => if n.echo_stream == Some(sid) {
                WinTree::Leaf(Window { echo_stream: None, ..n })
            } else {
                self
            },
            WinTree::Pair(n, a, b) => {
                let n2 = if n.echo_stream == Some(sid) {
                    Window { echo_stream: None, ..n }
                } else {
                    n
                };
                WinTree::Pair(
                    n2,
                    Box::new(a.spec_clear_echo(sid)),
                    Box::new(b.spec_clear_echo(sid)),
                )
            },
        }
    }

    /// The tree after splitting window `target`: the subtree rooted at
    /// `target` is replaced by a pair window whose first child is that
    /// subtree and whose second child is the fresh leaf `neww`.
    pub open spec fn spec_split(self, target: GlkWindowID, pairw: Window, neww: Window) -> WinTree
        decreases self,
    {
        if self.node().this_id == target {
            WinTree::Pair(pairw, Box::new(self), Box::new(WinTree::Leaf(neww)))
        } else {
            match self {
                WinTree::Leaf(_) => self,
                WinTree::Pair(n, a, b) => if a.ids().contains(target) {
                    WinTree::Pair(n, Box::new(a.spec_split(target, pairw, neww)), b)
                } else {
                    WinTree::Pair(n, a, Box::new(b.spec_split(target, pairw, neww)))
                },
            }
        }
    }

    /// The tree after closing window `target`: the subtree rooted at `target`
    /// disappears, and its parent pair collapses into the sibling subtree.
    /// `None` means the whole tree was removed.
    pub open spec fn spec_close(self, target: GlkWindowID) -> Option<WinTree>
        decreases self,
    {
        if self.node().this_id == target {
            None
        } else {
            match self {
                WinTree::Leaf(_) => Some(self),
                WinTree::Pair(n, a, b) => if a.ids().contains(target) {
                    match a.spec_close(target) {
                        None => Some(*b),
                        Some(a2) => Some(WinTree::Pair(n, Box::new(a2), b)),
                    }
                } else if b.ids().contains(target) {
                    match b.spec_close(target) {
                        None => Some(*a),
                        Some(b2) => Some(WinTree::Pair(n, a, Box::new(b2))),
                    }
                } else {
                    Some(self)
                },
            }
        }
    }
}

} // verus!

verus! {

impl WinTree {
    /// Everything this tree names lies below its well-formedness bound.
    pub proof fn lemma_ids_below_bound(self, bound: GlkWindowID)
        requires
            self.wf(bound),
        ensures
            forall|id: GlkWindowID| self.ids().contains(id) ==> id < bound,
        decreases self,
    {
        match self {
            WinTree::Leaf(_) => {},
            WinTree::Pair(_, a, b) => {
                a.lemma_ids_below_bound(bound);
                b.lemma_ids_below_bound(bound);
            },
        }
    }

    /// A tree well formed under a bound is well formed under any larger one.
    pub proof fn lemma_wf_mono(self, b0: GlkWindowID, b1: GlkWindowID)
        requires
            self.wf(b0),
            b0 <= b1,
        ensures
            self.wf(b1),
        decreases self,
    {
        match self {
            WinTree::Leaf(_) => {},
            WinTree::Pair(_, a, b) => {
                a.lemma_wf_mono(b0, b1);
                b.lemma_wf_mono(b0, b1);
            },
        }
    }

    /// A window is found in a tree exactly when its identity is listed there.
    pub proof fn lemma_find_iff_contains(self, id: GlkWindowID)
        ensures
            self.find(id) is Some <==> self.ids().contains(id),
            self.find(id) matches Some(w) ==> w.this_id == id || self.node().this_id == id,
        decreases self,
    {
        match self {
            WinTree::Leaf(_) => {},
            WinTree::Pair(_, a, b) => {
                a.lemma_find_iff_contains(id);
                b.lemma_find_iff_contains(id);
            },
        }
    }

    /// In a well-formed tree the window found under `id` carries `id` itself.
    pub proof fn lemma_find_id(self, bound: GlkWindowID, id: GlkWindowID)
        requires
            self.wf(bound),
        ensures
            self.find(id) matches Some(w) ==> w.this_id == id,
            self.find(id) is Some <==> self.ids().contains(id),
        decreases self,
    {
        self.lemma_find_iff_contains(id);
        match self {
            WinTree::Leaf(_) => {},
            WinTree::Pair(_, a, b) => {
                a.lemma_find_id(bound, id);
                b.lemma_find_id(bound, id);
            },
        }
    }

    /// A tree always lists the identity of its own root node.
    pub proof fn lemma_node_in_ids(self)
        ensures
            self.ids().contains(self.node().this_id),
        decreases self,
    {
    }

    /// A window has a parent exactly when it is in the tree and not the
    /// top-level window.
    pub proof fn lemma_parent_some(self, bound: GlkWindowID, id: GlkWindowID)
        requires
            self.wf(bound),
        ensures
            self.parent_of(id) is Some <==> (self.ids().contains(id) && self.node().this_id
                != id),
        decreases self,
    {
        match self {
            WinTree::Leaf(_) => {},
            WinTree::Pair(_, a, b) => {
                a.lemma_node_in_ids();
                b.lemma_node_in_ids();
                a.lemma_parent_some(bound, id);
                b.lemma_parent_some(bound, id);
            },
        }
    }

    /// A window has a sibling exactly when it has a parent.
    pub proof fn lemma_sibling_some(self, bound: GlkWindowID, id: GlkWindowID)
        requires
            self.wf(bound),
        ensures
            self.sibling_of(id) is Some <==> (self.ids().contains(id) && self.node().this_id
                != id),
        decreases self,
    {
        match self {
            WinTree::Leaf(_) => {},
            WinTree::Pair(_, a, b) => {
                a.lemma_node_in_ids();
                b.lemma_node_in_ids();
                a.lemma_sibling_some(bound, id);
                b.lemma_sibling_some(bound, id);
            },
        }
    }
}

} // verus!

verus! {

impl WinTree {
    /// The identity of this tree's root window.
    fn node_id(&self) -> (r: GlkWindowID)
        ensures
            r == self.node().this_id,
    {
        match self {
            WinTree::Leaf(w) => w.this_id,
            WinTree::Pair(w, _, _) => w.this_id,
        }
    }

    /// Look up the payload of window `id`.
    fn lookup(&self, id: GlkWindowID) -> (r: Option<Window>)
        ensures
            r == self.find(id),
        decreases self,
    {
        proof {
            self.lemma_find_iff_contains(id);
        }
        match self {
            WinTree::Leaf(w) => if w.this_id == id {
                Some(*w)
            } else {
                None
            },
            WinTree::Pair(w, a, b) => {
                if w.this_id == id {
                    Some(*w)
                } else {
                    proof {
                        a.lemma_find_iff_contains(id);
                        b.lemma_find_iff_contains(id);
                    }
                    let ra = a.lookup(id);
                    if ra.is_some() {
                        ra
                    } else {
                        b.lookup(id)
                    }
                }
            },
        }
    }

    /// Replace the payload of window `id` with `w`; reports whether the
    /// window was found.
    fn update(self, id: GlkWindowID, w: Window) -> (r: (WinTree, bool))
        ensures
            r.1 <==> self.ids().contains(id),
            r.1 ==> r.0 == self.spec_update(id, w),
            !r.1 ==> r.0 == self,
        decreases self,
    {
        match self {
            WinTree::Leaf(n) => if n.this_id == id {
                (WinTree::Leaf(w), true)
            } else {
                (WinTree::Leaf(n), false)
            },
            WinTree::Pair(n, a, b) => {
                if n.this_id == id {
                    (WinTree::Pair(w, a, b), true)
                } else {
                    let (a2, fa) = (*a).update(id, w);
                    if fa {
                        (WinTree::Pair(n, Box::new(a2), b), true)
                    } else {
                        let (b2, fb) = (*b).update(id, w);
                        (WinTree::Pair(n, Box::new(a2), Box::new(b2)), fb)
                    }
                }
            },
        }
    }

    /// Clear every echo-stream reference equal to `sid` in this tree.
    fn clear_echo(self, sid: GlkStreamID) -> (r: WinTree)
        ensures
            r == self.spec_clear_echo(sid),
        decreases self,
    {
        match self {
            WinTree::Leaf(n) => {
                if n.echo_stream == Some(sid) {
                    WinTree::Leaf(Window { echo_stream: None, ..n })
                } else {
                    WinTree::Leaf(n)
                }
            },
            WinTree::Pair(n, a, b) => {
                let n2 = if n.echo_stream == Some(sid) {
                    Window { echo_stream: None, ..n }
                } else {
                    n
                };
                let a2 = (*a).clear_echo(sid);
                let b2 = (*b).clear_echo(sid);
                WinTree::Pair(n2, Box::new(a2), Box::new(b2))
            },
        }
    }

    /// Split window `target`, hanging the subtree it roots and the fresh
    /// leaf `neww` under the fresh pair window `pairw`.
    fn split_tree(self, target: GlkWindowID, pairw: Window, neww: Window) -> (r: (WinTree, bool))
        ensures
            r.1 <==> self.ids().contains(target),
            r.1 ==> r.0 == self.spec_split(target, pairw, neww),
            !r.1 ==> r.0 == self,
        decreases self,
    {
        proof {
            self.lemma_node_in_ids();
        }
        if self.node_id() == target {
            (
                WinTree::Pair(pairw, Box::new(self), Box::new(WinTree::Leaf(neww))),
                true,
            )
        } else {
            match self {
                WinTree::Leaf(n) => (WinTree::Leaf(n), false),
                WinTree::Pair(n, a, b) => {
                    let (a2, fa) = (*a).split_tree(target, pairw, neww);
                    if fa {
                        (WinTree::Pair(n, Box::new(a2), b), true)
                    } else {
                        let (b2, fb) = (*b).split_tree(target, pairw, neww);
                        (WinTree::Pair(n, Box::new(a2), Box::new(b2)), fb)
                    }
                },
            }
        }
    }

    /// Close window `target`: drop the subtree it roots and collapse its
    /// parent pair into the sibling. `None` means the whole tree went away.
    fn close_tree(self, target: GlkWindowID) -> (r: (Option<WinTree>, bool))
        ensures
            r.1 <==> self.ids().contains(target),
            r.1 ==> r.0 == self.spec_close(target),
            !r.1 ==> r.0 == Some(self),
        decreases self,
    {
        proof {
            self.lemma_node_in_ids();
        }
        if self.node_id() == target {
            (None, true)
        } else {
            match self {
                WinTree::Leaf(n) => (Some(WinTree::Leaf(n)), false),
                WinTree::Pair(n, a, b) => {
                    let (ra, fa) = (*a).close_tree(target);
                    if fa {
                        match ra {
                            None => (Some(*b), true),
                            Some(a2) => (Some(WinTree::Pair(n, Box::new(a2), b)), true),
                        }
                    } else {
                        let a2 = match ra {
                            Some(t) => t,
                            None => {
                                proof {
                                    assert(false);
                                }
                                return (None, false);
                            },
                        };
                        let (rb, fb) = (*b).close_tree(target);
                        if fb {
                            match rb {
                                None => (Some(a2), true),
                                Some(b2) => (
                                    Some(WinTree::Pair(n, Box::new(a2), Box::new(b2))),
                                    true,
                                ),
                            }
                        } else {
                            let b2 = match rb {
                                Some(t) => t,
                                None => {
                                    proof {
                                        assert(false);
                                    }
                                    return (None, false);
                                },
                            };
                            (Some(WinTree::Pair(n, Box::new(a2), Box::new(b2))), false)
                        }
                    }
                },
            }
        }
    }

    /// List every window in this tree, parents before children.
    fn collect_ids(&self, out: &mut Vec<GlkWindowID>)
        ensures
            final(out)@ == old(out)@ + self.id_seq(),
        decreases self,
    {
        match self {
            WinTree::Leaf(w) => {
                out.push(w.this_id);
            },
            WinTree::Pair(w, a, b) => {
                out.push(w.this_id);
                a.collect_ids(out);
                b.collect_ids(out);
                assert(out@ =~= old(out)@ + self.id_seq());
            },
        }
    }

    /// Find the parent pair of window `id`.
    fn parent_lookup(&self, id: GlkWindowID) -> (r: Option<GlkWindowID>)
        ensures
            r == self.parent_of(id),
        decreases self,
    {
        match self {
            WinTree::Leaf(_) => None,
            WinTree::Pair(w, a, b) => {
                if a.node_id() == id || b.node_id() == id {
                    Some(w.this_id)
                } else {
                    proof {
                        a.lemma_find_iff_contains(id);
                    }
                    let ra = a.lookup(id);
                    if ra.is_some() {
                        a.parent_lookup(id)
                    } else {
                        b.parent_lookup(id)
                    }
                }
            },
        }
    }

    /// Find the sibling of window `id`.
    fn sibling_lookup(&self, id: GlkWindowID) -> (r: Option<GlkWindowID>)
        ensures
            r == self.sibling_of(id),
        decreases self,
    {
        match self {
            WinTree::Leaf(_) => None,
            WinTree::Pair(_, a, b) => {
                if a.node_id() == id {
                    Some(b.node_id())
                } else if b.node_id() == id {
                    Some(a.node_id())
                } else {
                    proof {
                        a.lemma_find_iff_contains(id);
                    }
                    let ra = a.lookup(id);
                    if ra.is_some() {
                        a.sibling_lookup(id)
                    } else {
                        b.sibling_lookup(id)
                    }
                }
            },
        }
    }

    /// Find the children of the pair window `id`.
    fn children_lookup(&self, id: GlkWindowID) -> (r: Option<(GlkWindowID, GlkWindowID)>)
        ensures
            r == self.children_of(id),
        decreases self,
    {
        match self {
            WinTree::Leaf(_) => None,
            WinTree::Pair(w, a, b) => {
                if w.this_id == id {
                    Some((a.node_id(), b.node_id()))
                } else {
                    proof {
                        a.lemma_find_iff_contains(id);
                    }
                    let ra = a.lookup(id);
                    if ra.is_some() {
                        a.children_lookup(id)
                    } else {
                        b.children_lookup(id)
                    }
                }
            },
        }
    }
}

} // verus!

verus! {

impl WinTree {
    /// Splitting adds exactly the pair window and the new leaf to the tree's
    /// identities, and leaves the root unchanged unless the root itself was
    /// split.
    pub proof fn lemma_split_ids(self, target: GlkWindowID, pairw: Window, neww: Window)
        requires
            self.ids().contains(target),
        ensures
            self.spec_split(target, pairw, neww).ids() =~= self.ids().insert(
                pairw.this_id,
            ).insert(neww.this_id),
            self.spec_split(target, pairw, neww).node().this_id == if self.node().this_id
                == target {
                pairw.this_id
            } else {
                self.node().this_id
            },
        decreases self,
    {
        if self.node().this_id == target {
            let t2 = self.spec_split(target, pairw, neww);
            let leaf = WinTree::Leaf(neww);
            assert(leaf.ids() =~= Set::empty().insert(neww.this_id));
            assert(t2 == WinTree::Pair(pairw, Box::new(self), Box::new(leaf)));
            assert(t2.ids() =~= self.ids().union(leaf.ids()).insert(pairw.this_id));
        } else {
            match self {
                WinTree::Leaf(_) => {},
                WinTree::Pair(_, a, b) => {
                    if a.ids().contains(target) {
                        a.lemma_split_ids(target, pairw, neww);
                    } else {
                        b.lemma_split_ids(target, pairw, neww);
                    }
                },
            }
        }
    }

    /// Splitting keeps the tree well formed under any bound that covers the
    /// fresh pair and leaf identities.
    pub proof fn lemma_split_wf(
        self,
        b0: GlkWindowID,
        b1: GlkWindowID,
        target: GlkWindowID,
        pairw: Window,
        neww: Window,
    )
        requires
            self.wf(b0),
            self.ids().contains(target),
            b0 <= pairw.this_id < b1,
            b0 <= neww.this_id < b1,
            pairw.this_id != neww.this_id,
            pairw.wintype == WindowType::Pair,
            neww.wintype != WindowType::Pair,
            neww.wintype != WindowType::Root,
        ensures
            self.spec_split(target, pairw, neww).wf(b1),
        decreases self,
    {
        self.lemma_ids_below_bound(b0);
        self.lemma_wf_mono(b0, b1);
        self.lemma_split_ids(target, pairw, neww);
        if self.node().this_id == target {
            let leaf = WinTree::Leaf(neww);
            assert(leaf.wf(b1));
            assert(leaf.ids() =~= Set::empty().insert(neww.this_id));
            assert forall|x: GlkWindowID| self.ids().contains(x) implies !leaf.ids().contains(
                x,
            ) by {
                assert(x < b0);
            }
            assert(self.ids().disjoint(leaf.ids()));
            assert(!self.ids().contains(pairw.this_id));
            assert(!leaf.ids().contains(pairw.this_id));
        } else {
            match self {
                WinTree::Pair(n, a, b) => {
                    a.lemma_ids_below_bound(b0);
                    b.lemma_ids_below_bound(b0);
                    if a.ids().contains(target) {
                        a.lemma_split_ids(target, pairw, neww);
                        a.lemma_split_wf(b0, b1, target, pairw, neww);
                        b.lemma_wf_mono(b0, b1);
                        let a2 = a.spec_split(target, pairw, neww);
                        assert forall|x: GlkWindowID| a2.ids().contains(x) implies !b.ids(
                        ).contains(x) by {
                            if x == pairw.this_id || x == neww.this_id {
                                assert(!b.ids().contains(x));
                            } else {
                                assert(a.ids().contains(x));
                            }
                        }
                        assert(a2.ids().disjoint(b.ids()));
                        assert(!a2.ids().contains(n.this_id));
                    } else {
                        b.lemma_split_ids(target, pairw, neww);
                        b.lemma_split_wf(b0, b1, target, pairw, neww);
                        a.lemma_wf_mono(b0, b1);
                        let b2 = b.spec_split(target, pairw, neww);
                        assert forall|x: GlkWindowID| a.ids().contains(x) implies !b2.ids(
                        ).contains(x) by {
                            assert(x < b0);
                            assert(!b.ids().contains(x));
                        }
                        assert(a.ids().disjoint(b2.ids()));
                        assert(!b2.ids().contains(n.this_id));
                    }
                },
                WinTree::Leaf(_) => {},
            }
        }
    }

    /// Closing keeps what remains of the tree well formed, and removes at
    /// least the closed window from its identities without inventing new
    /// ones.
    pub proof fn lemma_close_wf(self, bound: GlkWindowID, target: GlkWindowID)
        requires
            self.wf(bound),
        ensures
            self.spec_close(target) matches Some(t2) ==> {
                &&& t2.wf(bound)
                &&& t2.ids().subset_of(self.ids())
                &&& !t2.ids().contains(target)
            },
        decreases self,
    {
        self.lemma_node_in_ids();
        if self.node().this_id == target {
        } else {
            match self {
                WinTree::Leaf(_) => {},
                WinTree::Pair(_, a, b) => {
                    a.lemma_close_wf(bound, target);
                    b.lemma_close_wf(bound, target);
                    a.lemma_node_in_ids();
                    b.lemma_node_in_ids();
                },
            }
        }
    }

    /// Replacing a window's payload, without changing its identity or type,
    /// keeps the tree well formed, its identities unchanged, and every other
    /// window untouched.
    pub proof fn lemma_update_wf(self, bound: GlkWindowID, id: GlkWindowID, w: Window)
        requires
            self.wf(bound),
            w.this_id == id,
            self.find(id) matches Some(prev) ==> w.wintype == prev.wintype,
        ensures
            self.spec_update(id, w).wf(bound),
            self.spec_update(id, w).ids() =~= self.ids(),
            self.spec_update(id, w).node().this_id == self.node().this_id,
            self.spec_update(id, w).find(id) == if self.ids().contains(id) {
                Some(w)
            } else {
                self.find(id)
            },
            forall|j: GlkWindowID|
                j != id ==> self.spec_update(id, w).find(j) == self.find(j),
        decreases self,
    {
        self.lemma_find_iff_contains(id);
        match self {
            WinTree::Leaf(_) => {},
            WinTree::Pair(n, a, b) => {
                a.lemma_find_iff_contains(id);
                b.lemma_find_iff_contains(id);
                if n.this_id == id {
                    assert(self.spec_update(id, w) == WinTree::Pair(w, a, b));
                } else if a.ids().contains(id) {
                    a.lemma_update_wf(bound, id, w);
                    assert forall|j: GlkWindowID|
                        j != id implies self.spec_update(id, w).find(j) == self.find(j) by {
                        a.lemma_find_iff_contains(j);
                        b.lemma_find_iff_contains(j);
                    }
                } else {
                    b.lemma_update_wf(bound, id, w);
                    assert forall|j: GlkWindowID|
                        j != id implies self.spec_update(id, w).find(j) == self.find(j) by {
                        a.lemma_find_iff_contains(j);
                        b.lemma_find_iff_contains(j);
                    }
                }
            },
        }
    }

    /// Closing the window created by a split restores the tree exactly as it
    /// was before the split: the new leaf disappears and the pair window
    /// collapses back into the window that was split, so the split window
    /// gets its old parent and sibling back.
    pub proof fn lemma_split_close_inverse(
        self,
        target: GlkWindowID,
        pairw: Window,
        neww: Window,
    )
        requires
            self.ids().contains(target),
            !self.ids().contains(pairw.this_id),
            !self.ids().contains(neww.this_id),
            pairw.this_id != neww.this_id,
        ensures
            self.spec_split(target, pairw, neww).spec_close(neww.this_id) == Some(self),
        decreases self,
    {
        self.lemma_node_in_ids();
        if self.node().this_id == target {
            let t2 = self.spec_split(target, pairw, neww);
            let leaf = WinTree::Leaf(neww);
            assert(t2 == WinTree::Pair(pairw, Box::new(self), Box::new(leaf)));
            assert(leaf.ids() =~= Set::empty().insert(neww.this_id));
            assert(leaf.spec_close(neww.this_id) is None);
            assert(t2.spec_close(neww.this_id) == Some(self));
        } else {
            match self {
                WinTree::Leaf(_) => {},
                WinTree::Pair(n, a, b) => {
                    if a.ids().contains(target) {
                        a.lemma_split_ids(target, pairw, neww);
                        a.lemma_split_close_inverse(target, pairw, neww);
                        assert(self.spec_split(target, pairw, neww) == WinTree::Pair(
                            n,
                            Box::new(a.spec_split(target, pairw, neww)),
                            b,
                        ));
                    } else {
                        assert(b.ids().contains(target));
                        b.lemma_split_ids(target, pairw, neww);
                        b.lemma_split_close_inverse(target, pairw, neww);
                        assert(self.spec_split(target, pairw, neww) == WinTree::Pair(
                            n,
                            a,
                            Box::new(b.spec_split(target, pairw, neww)),
                        ));
                    }
                },
            }
        }
    }
}

} // verus!

verus! {

impl WinTree {
    /// Clearing echo references keeps the tree's shape: the same windows,
    /// the same root, and every payload unchanged except for a cleared echo
    /// stream where it matched.
    pub proof fn lemma_clear_echo_wf(self, bound: GlkWindowID, sid: GlkStreamID)
        requires
            self.wf(bound),
        ensures
            self.spec_clear_echo(sid).wf(bound),
            self.spec_clear_echo(sid).ids() =~= self.ids(),
            self.spec_clear_echo(sid).node().this_id == self.node().this_id,
            forall|j: GlkWindowID|
                #![trigger self.spec_clear_echo(sid).find(j)]
                self.spec_clear_echo(sid).find(j) == match self.find(j) {
                    Some(w) => if w.echo_stream == Some(sid) {
                        Some(Window { echo_stream: None, ..w })
                    } else {
                        Some(w)
                    },
                    None => None::<Window>,
                },
        decreases self,
    {
        match self {
            WinTree::Leaf(_) => {},
            WinTree::Pair(n, a, b) => {
                a.lemma_clear_echo_wf(bound, sid);
                b.lemma_clear_echo_wf(bound, sid);
                assert forall|j: GlkWindowID|
                    self.spec_clear_echo(sid).find(j) == (match self.find(j) {
                        Some(w) => if w.echo_stream == Some(sid) {
                            Some(Window { echo_stream: None, ..w })
                        } else {
                            Some(w)
                        },
                        None => None::<Window>,
                    }) by {
                    a.lemma_find_iff_contains(j);
                    b.lemma_find_iff_contains(j);
                    let fa = a.spec_clear_echo(sid).find(j);
                    let fb = b.spec_clear_echo(sid).find(j);
                    assert(a.spec_clear_echo(sid).ids() =~= a.ids());
                }
            },
        }
    }
}

/// Owns the tree of windows: at most one top-level window at any time, every
/// pair window with exactly two children, and fresh identities handed out in
/// increasing order and never reused.
pub struct WindowManager {
    /// the window tree, absent until the first window opens
    pub root: Option<WinTree>,
    /// the next window identity to hand out; identity 0 stands for the
    /// implicit root slot and is never given to a window
    pub next_id: GlkWindowID,
}

impl WindowManager {
    /// The manager's invariant: the tree is well formed and every identity
    /// it names was handed out earlier.
    pub open spec fn wf(self) -> bool {
        match self.root {
            Some(t) => t.wf(self.next_id) && self.next_id >= 1,
            None => true,
        }
    }

    /// The payload of window `id`, if it is open.
    pub open spec fn spec_find(self, id: GlkWindowID) -> Option<Window> {
        match self.root {
            Some(t) => t.find(id),
            None => None,
        }
    }

    /// The identities of all open windows.
    pub open spec fn window_ids(self) -> Set<GlkWindowID> {
        match self.root {
            Some(t) => t.ids(),
            None => Set::empty(),
        }
    }

    /// Whether `id` names an open window.
    pub open spec fn has_window(self, id: GlkWindowID) -> bool {
        self.window_ids().contains(id)
    }

    /// The parent pair window of `id`, if any.
    pub open spec fn spec_parent(self, id: GlkWindowID) -> Option<GlkWindowID> {
        match self.root {
            Some(t) => t.parent_of(id),
            None => None,
        }
    }

    /// The sibling of `id`, if any.
    pub open spec fn spec_sibling(self, id: GlkWindowID) -> Option<GlkWindowID> {
        match self.root {
            Some(t) => t.sibling_of(id),
            None => None,
        }
    }

    /// A manager with no windows yet.
    pub fn new() -> (r: WindowManager)
        ensures
            r.wf(),
            r.root is None,
            r.next_id == 0,
    {
        WindowManager { root: None, next_id: 0 }
    }

    /// Create the first window in the hierarchy. Fails if a top-level
    /// window already exists: later windows come only from `split`.
    pub fn open_window(&mut self, wintype: WindowType, rock: GlkRock) -> (r: Option<
        GlkWindowID,
    >)
        requires
            old(self).wf(),
            wintype != WindowType::Pair,
            wintype != WindowType::Root,
        ensures
            final(self).wf(),
            r is Some <==> (old(self).root is None && old(self).next_id < GlkWindowID::MAX),
            r is None ==> *final(self) == *old(self),
            r matches Some(id) ==> {
                &&& id == if old(self).next_id == 0 {
                    1
                } else {
                    old(self).next_id
                }
                &&& final(self).root == Some(
                    WinTree::Leaf(Window::spec_new_leaf(wintype, rock, id)),
                )
                &&& final(self).next_id == id + 1
            },
    {
        if self.root.is_some() {
            return None;
        }
        if self.next_id >= GlkWindowID::MAX {
            return None;
        }
        let id: GlkWindowID = if self.next_id == 0 {
            1
        } else {
            self.next_id
        };
        let w = Window::new_leaf(wintype, rock, id);
        self.root = Some(WinTree::Leaf(w));
        self.next_id = id + 1;
        Some(id)
    }

    /// Split window `parent`: hang it and a fresh window of type `wintype`
    /// under a fresh pair window, and return the fresh window's identity.
    /// The pair window takes the identity handed out first, the new window
    /// the one after it.
    pub fn split(
        &mut self,
        parent: GlkWindowID,
        method: Option<WindowSplitMethod>,
        wintype: WindowType,
        rock: GlkRock,
    ) -> (r: Option<GlkWindowID>)
        requires
            old(self).wf(),
            wintype != WindowType::Pair,
            wintype != WindowType::Root,
        ensures
            final(self).wf(),
            r is Some <==> (old(self).has_window(parent) && old(self).next_id
                <= GlkWindowID::MAX - 2),
            r is None ==> *final(self) == *old(self),
            r matches Some(id) ==> {
                &&& id == old(self).next_id + 1
                &&& old(self).root matches Some(t) && final(self).root == Some(
                    t.spec_split(
                        parent,
                        Window::spec_new_pair(method, old(self).next_id),
                        Window::spec_new_leaf(wintype, rock, id),
                    ),
                )
                &&& final(self).next_id == old(self).next_id + 2
            },
    {
        if self.next_id > GlkWindowID::MAX - 2 {
            return None;
        }
        let pair_id = self.next_id;
        let new_id = self.next_id + 1;
        match self.root.take() {
            None => None,
            Some(t) => {
                let ghost t0 = t;
                let pairw = Window::new_pair(method, pair_id);
                let neww = Window::new_leaf(wintype, rock, new_id);
                let (t2, found) = t.split_tree(parent, pairw, neww);
                if found {
                    proof {
                        t0.lemma_split_ids(parent, pairw, neww);
                        t0.lemma_split_wf(
                            self.next_id,
                            (self.next_id + 2) as GlkWindowID,
                            parent,
                            pairw,
                            neww,
                        );
                    }
                    self.root = Some(t2);
                    self.next_id = self.next_id + 2;
                    Some(new_id)
                } else {
                    self.root = Some(t2);
                    None
                }
            },
        }
    }

    /// Close window `win`: its whole subtree disappears and its parent pair
    /// collapses into the sibling, so no pair window is ever left with one
    /// child. Closing the sole top-level window empties the tree.
    pub fn close(&mut self, win: GlkWindowID) -> (r: Option<()>)
        requires
            old(self).wf(),
        ensures
            final(self).wf(),
            r is Some <==> old(self).has_window(win),
            r is None ==> *final(self) == *old(self),
            r is Some ==> {
                &&& old(self).root matches Some(t) && final(self).root == t.spec_close(win)
                &&& final(self).next_id == old(self).next_id
                &&& !final(self).has_window(win)
            },
    {
        match self.root.take() {
            None => None,
            Some(t) => {
                let ghost t0 = t;
                let (t2, found) = t.close_tree(win);
                proof {
                    t0.lemma_close_wf(self.next_id, win);
                }
                self.root = t2;
                if found {
                    Some(())
                } else {
                    None
                }
            },
        }
    }

    /// The identity of the single top-level window, if one exists.
    pub fn get_root(&self) -> (r: Option<GlkWindowID>)
        ensures
            r == match self.root {
                Some(t) => Some(t.node().this_id),
                None => None::<GlkWindowID>,
            },
    {
        match &self.root {
            Some(t) => Some(t.node_id()),
            None => None,
        }
    }

    /// The payload of window `win`, if it is open.
    pub fn get_window(&self, win: GlkWindowID) -> (r: Option<Window>)
        ensures
            r == self.spec_find(win),
    {
        match &self.root {
            Some(t) => t.lookup(win),
            None => None,
        }
    }

    /// The parent pair window of `win`; the top-level window has none.
    pub fn get_parent(&self, win: GlkWindowID) -> (r: Option<GlkWindowID>)
        ensures
            r == self.spec_parent(win),
    {
        match &self.root {
            Some(t) => t.parent_lookup(win),
            None => None,
        }
    }

    /// The sibling of `win`; the top-level window has none.
    pub fn get_sibling(&self, win: GlkWindowID) -> (r: Option<GlkWindowID>)
        ensures
            r == self.spec_sibling(win),
    {
        match &self.root {
            Some(t) => t.sibling_lookup(win),
            None => None,
        }
    }

    /// The identities of the two children of the pair window `win`.
    pub fn get_children(&self, win: GlkWindowID) -> (r: Option<(GlkWindowID, GlkWindowID)>)
        ensures
            r == match self.root {
                Some(t) => t.children_of(win),
                None => None::<(GlkWindowID, GlkWindowID)>,
            },
    {
        match &self.root {
            Some(t) => t.children_lookup(win),
            None => None,
        }
    }

    /// Every open window, parents before children.
    pub fn get_iter(&self) -> (r: Vec<GlkWindowID>)
        ensures
            r@ == match self.root {
                Some(t) => t.id_seq(),
                None => Seq::<GlkWindowID>::empty(),
            },
    {
        let mut out: Vec<GlkWindowID> = Vec::new();
        match &self.root {
            Some(t) => {
                t.collect_ids(&mut out);
            },
            None => {},
        }
        out
    }

    /// Replace the payload of window `win` with `w`, which must keep the
    /// window's identity and type.
    fn replace_window(&mut self, win: GlkWindowID, w: Window) -> (r: bool)
        requires
            old(self).wf(),
            w.this_id == win,
            old(self).spec_find(win) matches Some(prev) ==> w.wintype == prev.wintype,
        ensures
            final(self).wf(),
            r <==> old(self).has_window(win),
            !r ==> *final(self) == *old(self),
            r ==> {
                &&& final(self).spec_find(win) == Some(w)
                &&& final(self).next_id == old(self).next_id
                &&& final(self).window_ids() =~= old(self).window_ids()
                &&& forall|j: GlkWindowID|
                    j != win ==> final(self).spec_find(j) == old(self).spec_find(j)
                &&& final(self).root matches Some(t2) && old(self).root matches Some(t)
                    && t2 == t.spec_update(win, w)
                &&& final(self).spec_parent(win) == old(self).spec_parent(win)
                &&& final(self).spec_sibling(win) == old(self).spec_sibling(win)
            },
    {
        match self.root.take() {
            None => false,
            Some(t) => {
                let ghost t0 = t;
                let (t2, found) = t.update(win, w);
                proof {
                    t0.lemma_find_iff_contains(win);
                    if t0.ids().contains(win) {
                        t0.lemma_update_wf(self.next_id, win, w);
                        t0.lemma_update_shape(win, w);
                    }
                }
                self.root = Some(t2);
                found
            },
        }
    }
}

} // verus!

verus! {

impl WinTree {
    /// Replacing a payload under the same identity moves no window: every
    /// parent, sibling and child relationship stays as it was.
    pub proof fn lemma_update_shape(self, id: GlkWindowID, w: Window)
        requires
            w.this_id == id,
        ensures
            self.spec_update(id, w).ids() =~= self.ids(),
            self.spec_update(id, w).node().this_id == self.node().this_id,
            forall|j: GlkWindowID|
                #![trigger self.spec_update(id, w).parent_of(j)]
                self.spec_update(id, w).parent_of(j) == self.parent_of(j),
            forall|j: GlkWindowID|
                #![trigger self.spec_update(id, w).sibling_of(j)]
                self.spec_update(id, w).sibling_of(j) == self.sibling_of(j),
            forall|j: GlkWindowID|
                #![trigger self.spec_update(id, w).children_of(j)]
                self.spec_update(id, w).children_of(j) == self.children_of(j),
        decreases self,
    {
        match self {
            WinTree::Leaf(_) => {},
            WinTree::Pair(n, a, b) => {
                a.lemma_update_shape(id, w);
                b.lemma_update_shape(id, w);
                assert forall|j: GlkWindowID|
                    self.spec_update(id, w).parent_of(j) == self.parent_of(j) by {
                    let pa = a.spec_update(id, w).parent_of(j);
                    let pb = b.spec_update(id, w).parent_of(j);
                }
                assert forall|j: GlkWindowID|
                    self.spec_update(id, w).sibling_of(j) == self.sibling_of(j) by {
                    let sa = a.spec_update(id, w).sibling_of(j);
                    let sb = b.spec_update(id, w).sibling_of(j);
                }
                assert forall|j: GlkWindowID|
                    self.spec_update(id, w).children_of(j) == self.children_of(j) by {
                    let ca = a.spec_update(id, w).children_of(j);
                    let cb = b.spec_update(id, w).children_of(j);
                }
            },
        }
    }
}

} // verus!

verus! {

impl WindowManager {
    /// Record which stream belongs to window `win`.
    pub fn set_stream_id(&mut self, win: GlkWindowID, stream: GlkStreamID) -> (r: Option<()>)
        requires
            old(self).wf(),
        ensures
            final(self).wf(),
            r is Some <==> old(self).has_window(win),
            r is None ==> *final(self) == *old(self),
            r is Some ==> {
                &&& final(self).spec_find(win) == Some(
                    Window { stream, ..old(self).spec_find(win)->0 },
                )
                &&& forall|j: GlkWindowID|
                    j != win ==> final(self).spec_find(j) == old(self).spec_find(j)
                &&& final(self).window_ids() =~= old(self).window_ids()
                &&& final(self).next_id == old(self).next_id
                &&& old(self).root matches Some(t) && final(self).root == Some(
                    t.spec_update(win, Window { stream, ..old(self).spec_find(win)->0 }),
                )
            },
    {
        proof {
            if self.root is Some {
                self.root->0.lemma_find_id(self.next_id, win);
            }
        }
        match self.get_window(win) {
            None => None,
            Some(w) => {
                let w2 = Window { stream, ..w };
                let ok = self.replace_window(win, w2);
                if ok {
                    Some(())
                } else {
                    None
                }
            },
        }
    }

    /// Set or clear where writes to window `win`'s stream are mirrored.
    /// A missing window is ignored, as the tree has nothing to record it on.
    pub fn set_echo_stream(&mut self, win: GlkWindowID, stream: Option<GlkStreamID>)
        requires
            old(self).wf(),
        ensures
            final(self).wf(),
            !old(self).has_window(win) ==> *final(self) == *old(self),
            old(self).has_window(win) ==> {
                &&& final(self).spec_find(win) == Some(
                    Window { echo_stream: stream, ..old(self).spec_find(win)->0 },
                )
                &&& forall|j: GlkWindowID|
                    j != win ==> final(self).spec_find(j) == old(self).spec_find(j)
                &&& final(self).window_ids() =~= old(self).window_ids()
                &&& final(self).next_id == old(self).next_id
            },
    {
        proof {
            if self.root is Some {
                self.root->0.lemma_find_id(self.next_id, win);
            }
        }
        match self.get_window(win) {
            None => {},
            Some(w) => {
                let w2 = Window { echo_stream: stream, ..w };
                let _ = self.replace_window(win, w2);
            },
        }
    }

    /// Where writes to window `win`'s stream are mirrored, if anywhere.
    pub fn get_echo_stream(&self, win: GlkWindowID) -> (r: Option<GlkStreamID>)
        ensures
            r == match self.spec_find(win) {
                Some(w) => w.echo_stream,
                None => None::<GlkStreamID>,
            },
    {
        match self.get_window(win) {
            None => None,
            Some(w) => w.echo_stream,
        }
    }

    /// Clear every echo reference that points at stream `sid`: called when
    /// that stream closes, so no window is left echoing into a dead stream.
    pub fn clear_echo_refs(&mut self, sid: GlkStreamID)
        requires
            old(self).wf(),
        ensures
            final(self).wf(),
            final(self).next_id == old(self).next_id,
            final(self).window_ids() =~= old(self).window_ids(),
            old(self).root is None ==> final(self).root is None,
            old(self).root matches Some(t) ==> final(self).root == Some(t.spec_clear_echo(sid)),
            forall|j: GlkWindowID|
                #![trigger final(self).spec_find(j)]
                final(self).spec_find(j) == match old(self).spec_find(j) {
                    Some(w) => if w.echo_stream == Some(sid) {
                        Some(Window { echo_stream: None, ..w })
                    } else {
                        Some(w)
                    },
                    None => None::<Window>,
                },
            forall|j: GlkWindowID|
                #![trigger final(self).spec_find(j)]
                final(self).spec_find(j) matches Some(w) ==> w.echo_stream != Some(sid),
    {
        match self.root.take() {
            None => {},
            Some(t) => {
                let ghost t0 = t;
                let t2 = t.clear_echo(sid);
                proof {
                    t0.lemma_clear_echo_wf(self.next_id, sid);
                }
                self.root = Some(t2);
            },
        }
    }

    /// Change how the pair window `win` divides its space, and optionally
    /// which child is its key window. Windows that are not pair windows are
    /// left alone.
    pub fn set_arrangement(
        &mut self,
        win: GlkWindowID,
        method: WindowSplitMethod,
        keywin: Option<GlkWindowID>,
    )
        requires
            old(self).wf(),
        ensures
            final(self).wf(),
            final(self).next_id == old(self).next_id,
            final(self).window_ids() =~= old(self).window_ids(),
            match old(self).spec_find(win) {
                Some(w) => if w.wintype == WindowType::Pair {
                    final(self).spec_find(win) == Some(
                        Window {
                            method: Some(method),
                            keywin: match keywin {
                                Some(k) => {
                                    if (old(self).root->0.children_of(win)->0).0 == k {
                                        KeyWindow::Child1
                                    } else {
                                        KeyWindow::Child2
                                    }
                                },
                                None => w.keywin,
                            },
                            ..w
                        },
                    ) && (forall|j: GlkWindowID|
                        j != win ==> final(self).spec_find(j) == old(self).spec_find(j))
                } else {
                    *final(self) == *old(self)
                },
                None => *final(self) == *old(self),
            },
    {
        proof {
            if self.root is Some {
                self.root->0.lemma_find_id(self.next_id, win);
            }
        }
        match self.get_window(win) {
            None => {},
            Some(w) => {
                if !matches!(w.wintype, WindowType::Pair) {
                    return ;
                }
                let kw = match keywin {
                    Some(k) => {
                        let children = self.get_children(win);
                        proof {
                            self.root->0.lemma_children_some(self.next_id, win);
                        }
                        let (c1, _c2) = match children {
                            Some(pair) => pair,
                            None => {
                                proof {
                                    assert(false);
                                }
                                return ;
                            },
                        };
                        if c1 == k {
                            KeyWindow::Child1
                        } else {
                            KeyWindow::Child2
                        }
                    },
                    None => w.keywin,
                };
                let w2 = Window { method: Some(method), keywin: kw, ..w };
                let _ = self.replace_window(win, w2);
            },
        }
    }

    /// How the pair window `win` divides its space, and the key window that
    /// drives proportional sizing, if one was chosen.
    pub fn get_arrangement(&self, win: GlkWindowID) -> (r: Option<
        (WindowSplitMethod, Option<GlkWindowID>),
    >)
        requires
            self.wf(),
        ensures
            r == match self.spec_find(win) {
                Some(w) => if w.wintype == WindowType::Pair && w.method is Some {
                    Some(
                        (
                            w.method->0,
                            match w.keywin {
                                KeyWindow::Unset => None::<GlkWindowID>,
                                KeyWindow::Child1 => Some(
                                    (self.root->0.children_of(win)->0).0,
                                ),
                                KeyWindow::Child2 => Some(
                                    (self.root->0.children_of(win)->0).1,
                                ),
                            },
                        ),
                    )
                } else {
                    None::<(WindowSplitMethod, Option<GlkWindowID>)>
                },
                None => None::<(WindowSplitMethod, Option<GlkWindowID>)>,
            },
    {
        proof {
            if self.root is Some {
                self.root->0.lemma_find_id(self.next_id, win);
            }
        }
        match self.get_window(win) {
            None => None,
            Some(w) => {
                if !matches!(w.wintype, WindowType::Pair) {
                    return None;
                }
                let method = match w.method {
                    Some(m) => m,
                    None => {
                        return None;
                    },
                };
                proof {
                    self.root->0.lemma_children_some(self.next_id, win);
                }
                let children = self.get_children(win);
                let (c1, c2) = match children {
                    Some(pair) => pair,
                    None => {
                        proof {
                            assert(false);
                        }
                        return None;
                    },
                };
                let key = match w.keywin {
                    KeyWindow::Unset => None,
                    KeyWindow::Child1 => Some(c1),
                    KeyWindow::Child2 => Some(c2),
                };
                Some((method, key))
            },
        }
    }

    /// Move the cursor of the text grid window `win`; other window kinds
    /// ignore the call.
    pub fn move_cursor(&mut self, win: GlkWindowID, x: u32, y: u32)
        requires
            old(self).wf(),
        ensures
            final(self).wf(),
            final(self).next_id == old(self).next_id,
            final(self).window_ids() =~= old(self).window_ids(),
            match old(self).spec_find(win) {
                Some(w) => if w.wintype == WindowType::TextGrid {
                    final(self).spec_find(win) == Some(Window { cursor_x: x, cursor_y: y, ..w })
                        && (forall|j: GlkWindowID|
                        j != win ==> final(self).spec_find(j) == old(self).spec_find(j))
                } else {
                    *final(self) == *old(self)
                },
                None => *final(self) == *old(self),
            },
    {
        proof {
            if self.root is Some {
                self.root->0.lemma_find_id(self.next_id, win);
            }
        }
        match self.get_window(win) {
            None => {},
            Some(w) => {
                if matches!(w.wintype, WindowType::TextGrid) {
                    let w2 = Window { cursor_x: x, cursor_y: y, ..w };
                    let _ = self.replace_window(win, w2);
                }
            },
        }
    }

    /// Clear window `win`: its cursor returns to the top-left corner.
    pub fn clear(&mut self, win: GlkWindowID)
        requires
            old(self).wf(),
        ensures
            final(self).wf(),
            final(self).next_id == old(self).next_id,
            final(self).window_ids() =~= old(self).window_ids(),
            match old(self).spec_find(win) {
                Some(w) => final(self).spec_find(win) == Some(
                    Window { cursor_x: 0, cursor_y: 0, ..w },
                ) && (forall|j: GlkWindowID|
                    j != win ==> final(self).spec_find(j) == old(self).spec_find(j)),
                None => *final(self) == *old(self),
            },
    {
        proof {
            if self.root is Some {
                self.root->0.lemma_find_id(self.next_id, win);
            }
        }
        match self.get_window(win) {
            None => {},
            Some(w) => {
                let w2 = Window { cursor_x: 0, cursor_y: 0, ..w };
                let _ = self.replace_window(win, w2);
            },
        }
    }

    /// The size of window `win` in its measurement system.
    pub fn get_size(&self, win: GlkWindowID) -> (r: Option<GlkWindowSize>)
        ensures
            r == match self.spec_find(win) {
                Some(w) => Some(GlkWindowSize { width: w.width, height: w.height }),
                None => None::<GlkWindowSize>,
            },
    {
        match self.get_window(win) {
            None => None,
            Some(w) => Some(GlkWindowSize { width: w.width, height: w.height }),
        }
    }
}

impl WinTree {
    /// In a well-formed tree, a pair window always has children to report.
    pub proof fn lemma_children_some(self, bound: GlkWindowID, id: GlkWindowID)
        requires
            self.wf(bound),
        ensures
            self.children_of(id) is Some <==> (self.ids().contains(id) && (self.find(id)
                matches Some(w) && w.wintype == WindowType::Pair)),
        decreases self,
    {
        self.lemma_find_iff_contains(id);
        match self {
            WinTree::Leaf(_) => {},
            WinTree::Pair(_, a, b) => {
                a.lemma_children_some(bound, id);
                b.lemma_children_some(bound, id);
                a.lemma_find_iff_contains(id);
                b.lemma_find_iff_contains(id);
            },
        }
    }
}

} // verus!

verus! {

impl WinTree {
    /// No window found in a well-formed tree carries the reserved `Root`
    /// type: leaves hold real windows and inner nodes are pair windows.
    pub proof fn lemma_find_types(self, bound: GlkWindowID, id: GlkWindowID)
        requires
            self.wf(bound),
        ensures
            self.find(id) matches Some(w) ==> w.wintype != WindowType::Root,
        decreases self,
    {
        match self {
            WinTree::Leaf(_) => {},
            WinTree::Pair(_, a, b) => {
                a.lemma_find_types(bound, id);
                b.lemma_find_types(bound, id);
            },
        }
    }
}

} // verus!

verus! {

impl WinTree {
    /// The split leaves the fresh window findable under its own identity,
    /// with exactly the payload it was created with.
    pub proof fn lemma_split_find(self, target: GlkWindowID, pairw: Window, neww: Window)
        requires
            self.ids().contains(target),
            !self.ids().contains(neww.this_id),
            pairw.this_id != neww.this_id,
        ensures
            self.spec_split(target, pairw, neww).find(neww.this_id) == Some(neww),
        decreases self,
    {
        self.lemma_node_in_ids();
        if self.node().this_id == target {
            let leaf = WinTree::Leaf(neww);
            assert(leaf.find(neww.this_id) == Some(neww));
        } else {
            match self {
                WinTree::Leaf(_) => {},
                WinTree::Pair(n, a, b) => {
                    if a.ids().contains(target) {
                        a.lemma_split_ids(target, pairw, neww);
                        a.lemma_split_find(target, pairw, neww);
                    } else {
                        b.lemma_split_ids(target, pairw, neww);
                        b.lemma_split_find(target, pairw, neww);
                        a.lemma_find_iff_contains(neww.this_id);
                    }
                },
            }
        }
    }
}

} // verus!

verus! {

impl WinTree {
    /// Whether any window of this tree echoes into stream `sid`.
    pub open spec fn echoes_into(self, sid: GlkStreamID) -> bool
        decreases self,
    {
        match self {
            WinTree::Leaf(w) => w.echo_stream == Some(sid),
            WinTree::Pair(w, a, b) => w.echo_stream == Some(sid) || a.echoes_into(sid)
                || b.echoes_into(sid),
        }
    }

    /// Clearing echo references to a stream nobody echoes into changes
    /// nothing.
    pub proof fn lemma_clear_echo_identity(self, sid: GlkStreamID)
        requires
            !self.echoes_into(sid),
        ensures
            self.spec_clear_echo(sid) == self,
        decreases self,
    {
        match self {
            WinTree::Leaf(_) => {},
            WinTree::Pair(_, a, b) => {
                a.lemma_clear_echo_identity(sid);
                b.lemma_clear_echo_identity(sid);
            },
        }
    }

    /// The split/close inverse as the facade performs it: splitting window
    /// `target`, then giving the fresh window its stream, then closing the
    /// fresh window puts the tree back exactly as it was — `target` gets
    /// its old parent and sibling back.
    pub proof fn lemma_split_update_close_inverse(
        self,
        target: GlkWindowID,
        pairw: Window,
        neww: Window,
        w2: Window,
    )
        requires
            self.ids().contains(target),
            !self.ids().contains(pairw.this_id),
            !self.ids().contains(neww.this_id),
            pairw.this_id != neww.this_id,
            w2.this_id == neww.this_id,
        ensures
            self.spec_split(target, pairw, neww).spec_update(neww.this_id, w2).spec_close(
                neww.this_id,
            ) == Some(self),
        decreases self,
    {
        self.lemma_node_in_ids();
        if self.node().this_id == target {
            let t2 = self.spec_split(target, pairw, neww);
            let leaf = WinTree::Leaf(neww);
            assert(t2 == WinTree::Pair(pairw, Box::new(self), Box::new(leaf)));
            assert(leaf.ids() =~= Set::empty().insert(neww.this_id));
            let t3 = t2.spec_update(neww.this_id, w2);
            assert(leaf.spec_update(neww.this_id, w2) == WinTree::Leaf(w2));
            assert(t3 == WinTree::Pair(pairw, Box::new(self), Box::new(WinTree::Leaf(w2))));
            assert(WinTree::Leaf(w2).spec_close(neww.this_id) is None);
            assert(t3.spec_close(neww.this_id) == Some(self));
        } else {
            match self {
                WinTree::Leaf(_) => {},
                WinTree::Pair(n, a, b) => {
                    if a.ids().contains(target) {
                        a.lemma_split_ids(target, pairw, neww);
                        let a2 = a.spec_split(target, pairw, neww);
                        a2.lemma_update_shape(neww.this_id, w2);
                        a.lemma_split_update_close_inverse(target, pairw, neww, w2);
                        assert(self.spec_split(target, pairw, neww) == WinTree::Pair(
                            n,
                            Box::new(a2),
                            b,
                        ));
                        assert(b.ids().contains(neww.this_id) == false);
                        b.lemma_find_iff_contains(neww.this_id);
                    } else {
                        assert(b.ids().contains(target));
                        b.lemma_split_ids(target, pairw, neww);
                        let b2 = b.spec_split(target, pairw, neww);
                        b2.lemma_update_shape(neww.this_id, w2);
                        b.lemma_split_update_close_inverse(target, pairw, neww, w2);
                        assert(self.spec_split(target, pairw, neww) == WinTree::Pair(
                            n,
                            a,
                            Box::new(b2),
                        ));
                        a.lemma_find_iff_contains(neww.this_id);
                    }
                },
            }
        }
    }
}

} // verus!

verus! {

impl WinTree {
    /// A window's parent, when it has one, is itself a window of the tree.
    pub proof fn lemma_parent_in_ids(self, id: GlkWindowID)
        ensures
            self.parent_of(id) matches Some(p) ==> self.ids().contains(p),
        decreases self,
    {
        match self {
            WinTree::Leaf(_) => {},
            WinTree::Pair(_, a, b) => {
                a.lemma_parent_in_ids(id);
                b.lemma_parent_in_ids(id);
            },
        }
    }

    /// A window's sibling, when it has one, is itself a window of the tree.
    pub proof fn lemma_sibling_in_ids(self, id: GlkWindowID)
        ensures
            self.sibling_of(id) matches Some(s) ==> self.ids().contains(s),
        decreases self,
    {
        match self {
            WinTree::Leaf(_) => {},
            WinTree::Pair(_, a, b) => {
                a.lemma_node_in_ids();
                b.lemma_node_in_ids();
                a.lemma_sibling_in_ids(id);
                b.lemma_sibling_in_ids(id);
            },
        }
    }

    /// Closing a window relinks its sibling exactly as the tree manager
    /// promises: the subtree of `w` and its parent pair disappear, and the
    /// sibling takes the pair's place — under the pair's own parent when
    /// it had one, or as the new top of the tree when the pair was the
    /// top.
    pub proof fn lemma_close_relinks(self, bound: GlkWindowID, w: GlkWindowID)
        requires
            self.wf(bound),
            self.ids().contains(w),
            self.parent_of(w) is Some,
        ensures
            self.sibling_of(w) is Some,
            self.spec_close(w) matches Some(t2) && {
                let p = self.parent_of(w)->0;
                let s = self.sibling_of(w)->0;
                if p == self.node().this_id {
                    t2.node().this_id == s
                } else {
                    &&& t2.node().this_id == self.node().this_id
                    &&& t2.parent_of(s) == self.parent_of(p)
                }
            },
        decreases self,
    {
        self.lemma_node_in_ids();
        self.lemma_parent_some(bound, w);
        self.lemma_sibling_some(bound, w);
        match self {
            WinTree::Leaf(_) => {},
            WinTree::Pair(n, a, b) => {
                a.lemma_node_in_ids();
                b.lemma_node_in_ids();
                if a.node().this_id == w {
                    assert(self.spec_close(w) == Some(*b));
                } else if b.node().this_id == w {
                    assert(self.spec_close(w) == Some(*a));
                } else if a.ids().contains(w) {
                    let p = a.parent_of(w)->0;
                    let s = a.sibling_of(w)->0;
                    a.lemma_parent_some(bound, w);
                    a.lemma_sibling_some(bound, w);
                    a.lemma_parent_in_ids(w);
                    a.lemma_sibling_in_ids(w);
                    a.lemma_close_relinks(bound, w);
                    a.lemma_close_wf(bound, w);
                    let a2 = a.spec_close(w)->0;
                    assert(self.spec_close(w) == Some(WinTree::Pair(n, Box::new(a2), b)));
                    if p == a.node().this_id {
                        assert(a2.node().this_id == s);
                    } else {
                        a2.lemma_parent_some(bound, s);
                        a.lemma_parent_some(bound, p);
                    }
                } else {
                    let p = b.parent_of(w)->0;
                    let s = b.sibling_of(w)->0;
                    b.lemma_parent_some(bound, w);
                    b.lemma_sibling_some(bound, w);
                    b.lemma_parent_in_ids(w);
                    b.lemma_sibling_in_ids(w);
                    b.lemma_close_relinks(bound, w);
                    b.lemma_close_wf(bound, w);
                    let b2 = b.spec_close(w)->0;
                    assert(self.spec_close(w) == Some(WinTree::Pair(n, a, Box::new(b2))));
                    if p == b.node().this_id {
                        assert(b2.node().this_id == s);
                    } else {
                        b2.lemma_parent_some(bound, s);
                        b.lemma_parent_some(bound, p);
                    }
                }
            },
        }
    }
}

impl WindowManager {
    /// The tree invariant, stated in the large: a well-formed manager
    /// holds at most one top-level window — the single tree's top, when a
    /// tree exists — and a window of the tree has children exactly when it
    /// is a pair window, in which case it has exactly two; no window
    /// carries the reserved `Root` type.
    pub proof fn lemma_tree_invariant(self)
        requires
            self.wf(),
        ensures
            forall|id: GlkWindowID|
                #[trigger] self.has_window(id) ==> (self.root->0.children_of(id) is Some
                    <==> self.spec_find(id)->0.wintype == WindowType::Pair),
            forall|id: GlkWindowID|
                #[trigger] self.has_window(id) ==> self.spec_find(id)->0.wintype
                    != WindowType::Root,
    {
        if self.root is Some {
            let t = self.root->0;
            assert forall|id: GlkWindowID| #[trigger] self.has_window(id) implies (
            t.children_of(id) is Some <==> self.spec_find(id)->0.wintype == WindowType::Pair)
                && self.spec_find(id)->0.wintype != WindowType::Root by {
                t.lemma_children_some(self.next_id, id);
                t.lemma_find_id(self.next_id, id);
                t.lemma_find_types(self.next_id, id);
            }
        }
    }
}

} // verus!

verus! {

impl WinTree {
    /// Splitting relinks exactly as the window manager promises: the fresh
    /// pair window joins precisely the split window and the fresh leaf, as
    /// first and second child; both point back at the pair, each is the
    /// other's sibling, and the pair stands where the split window stood —
    /// under its former parent.
    pub proof fn lemma_split_relinks(
        self,
        bound: GlkWindowID,
        target: GlkWindowID,
        pairw: Window,
        neww: Window,
    )
        requires
            self.wf(bound),
            self.ids().contains(target),
            bound <= pairw.this_id,
            bound <= neww.this_id,
            pairw.this_id != neww.this_id,
        ensures
            ({
                let t2 = self.spec_split(target, pairw, neww);
                &&& t2.children_of(pairw.this_id) == Some((target, neww.this_id))
                &&& t2.parent_of(target) == Some(pairw.this_id)
                &&& t2.parent_of(neww.this_id) == Some(pairw.this_id)
                &&& t2.sibling_of(target) == Some(neww.this_id)
                &&& t2.sibling_of(neww.this_id) == Some(target)
                &&& t2.parent_of(pairw.this_id) == self.parent_of(target)
            }),
        decreases self,
    {
        self.lemma_node_in_ids();
        self.lemma_ids_below_bound(bound);
        let t2 = self.spec_split(target, pairw, neww);
        if self.node().this_id == target {
            let leaf = WinTree::Leaf(neww);
            assert(t2 == WinTree::Pair(pairw, Box::new(self), Box::new(leaf)));
            assert(leaf.ids() =~= Set::empty().insert(neww.this_id));
            self.lemma_parent_some(bound, target);
            assert(!self.ids().contains(pairw.this_id));
            assert(leaf.parent_of(pairw.this_id) is None);
            assert(t2.parent_of(pairw.this_id) is None);
            assert(self.parent_of(target) is None);
        } else {
            match self {
                WinTree::Leaf(_) => {},
                WinTree::Pair(n, a, b) => {
                    a.lemma_node_in_ids();
                    b.lemma_node_in_ids();
                    a.lemma_ids_below_bound(bound);
                    b.lemma_ids_below_bound(bound);
                    if a.ids().contains(target) {
                        a.lemma_split_ids(target, pairw, neww);
                        a.lemma_split_relinks(bound, target, pairw, neww);
                        let a2 = a.spec_split(target, pairw, neww);
                        assert(t2 == WinTree::Pair(n, Box::new(a2), b));
                        if a.node().this_id == target {
                            assert(self.parent_of(target) == Some(n.this_id));
                            assert(a2.node().this_id == pairw.this_id);
                            assert(t2.parent_of(pairw.this_id) == Some(n.this_id));
                        } else {
                            a.lemma_parent_some(bound, target);
                        }
                    } else {
                        assert(b.ids().contains(target));
                        b.lemma_split_ids(target, pairw, neww);
                        b.lemma_split_relinks(bound, target, pairw, neww);
                        let b2 = b.spec_split(target, pairw, neww);
                        assert(t2 == WinTree::Pair(n, a, Box::new(b2)));
                        if b.node().this_id == target {
                            assert(self.parent_of(target) == Some(n.this_id));
                            assert(b2.node().this_id == pairw.this_id);
                            assert(t2.parent_of(pairw.this_id) == Some(n.this_id));
                        } else {
                            b.lemma_parent_some(bound, target);
                        }
                    }
                },
            }
        }
    }
}

} // verus!
