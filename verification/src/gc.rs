//! Keeping objects alive from the host: the root stack, reference counts,
//! greying, pausing, and the collector's settings.
//!
//! The host has two independent ways to protect an object: it can root it,
//! and it can count a reference to it. An object may be collected only
//! when it is protected in neither way.

use vstd::prelude::*;
use crate::bt_object::Object;
use crate::context::Context;
use crate::context::ContextView;
use crate::heap::BodyModel;
use crate::heap::Body;
use crate::heap::ObjectModel;
use crate::object_mask::set_mark;
use crate::object_mask::with_mark;

verus! {

/// One step of the rooting protocol.
pub enum RootOp {
    Push(Object),
    Pop,
}

/// How many roots `ops` leaves on a stack that held `depth` before, or
/// none where `ops` pops an empty stack on the way.
pub open spec fn depth_after(depth: nat, ops: Seq<RootOp>) -> Option<nat>
    decreases ops.len(),
{
    if ops.len() == 0 {
        Some(depth)
    } else {
        match depth_after(depth, ops.drop_last()) {
            Some(before) => match ops.last() {
                RootOp::Push(_) => Some(before + 1),
                RootOp::Pop => if before > 0 {
                    Some((before - 1) as nat)
                } else {
                    None
                },
            },
            None => None,
        }
    }
}

/// How many pushes `ops` holds.
pub open spec fn pushes(ops: Seq<RootOp>) -> nat
    decreases ops.len(),
{
    if ops.len() == 0 {
        0
    } else {
        pushes(ops.drop_last()) + (if ops.last() is Push { 1nat } else { 0 })
    }
}

/// How many pops `ops` holds.
pub open spec fn pops(ops: Seq<RootOp>) -> nat
    decreases ops.len(),
{
    if ops.len() == 0 {
        0
    } else {
        pops(ops.drop_last()) + (if ops.last() is Pop { 1nat } else { 0 })
    }
}

impl ContextView {
    /// Whether the object at `ptr` is on the root stack.
    pub open spec fn is_rooted(self, ptr: usize) -> bool {
        self.roots.contains(Object { ptr })
    }

    /// The reference count of the object at `ptr`; zero where no live
    /// object lies there.
    pub open spec fn ref_count(self, ptr: usize) -> u32 {
        if self.is_live(ptr) {
            self.object(ptr).refs
        } else {
            0
        }
    }

    /// Whether the host protects the object at `ptr` from collection: by a
    /// root or by a counted reference.
    pub open spec fn is_protected(self, ptr: usize) -> bool {
        self.is_rooted(ptr) || self.ref_count(ptr) > 0
    }

    /// The context with `root` on top of the root stack.
    pub open spec fn with_root(self, root: Object) -> ContextView {
        ContextView { roots: self.roots.push(root), ..self }
    }

    /// The context without the newest root.
    pub open spec fn without_top_root(self) -> ContextView {
        ContextView { roots: self.roots.drop_last(), ..self }
    }

    /// The context after the steps of `ops`, first to last. A pop of an
    /// empty stack leaves it empty.
    pub open spec fn after_root_ops(self, ops: Seq<RootOp>) -> ContextView
        decreases ops.len(),
    {
        if ops.len() == 0 {
            self
        } else {
            let before = self.after_root_ops(ops.drop_last());
            match ops.last() {
                RootOp::Push(root) => before.with_root(root),
                RootOp::Pop => before.without_top_root(),
            }
        }
    }

    /// The context with one more reference counted to the object at `ptr`.
    /// The count stops at its greatest value.
    pub open spec fn with_ref_added(self, ptr: usize) -> ContextView {
        if self.is_live(ptr) && self.object(ptr).refs < u32::MAX {
            self.with_object_at(
                ptr,
                ObjectModel { refs: (self.object(ptr).refs + 1) as u32, ..self.object(ptr) },
            )
        } else {
            self
        }
    }

    /// The context with one reference less counted to the object at `ptr`.
    /// The count stops at zero.
    pub open spec fn with_ref_removed(self, ptr: usize) -> ContextView {
        if self.is_live(ptr) && self.object(ptr).refs > 0 {
            self.with_object_at(
                ptr,
                ObjectModel { refs: (self.object(ptr).refs - 1) as u32, ..self.object(ptr) },
            )
        } else {
            self
        }
    }

    /// The context with the live object at `ptr` marked and entered in the
    /// grey set, once.
    pub open spec fn with_grey(self, ptr: usize) -> ContextView {
        if self.is_live(ptr) {
            let marked = self.with_object_at(
                ptr,
                ObjectModel { mask: with_mark(self.object(ptr).mask), ..self.object(ptr) },
            );
            if self.grey.contains(Object { ptr }) {
                marked
            } else {
                ContextView { grey: self.grey.push(Object { ptr }), ..marked }
            }
        } else {
            self
        }
    }

    /// The context with the live object at `ptr` given back: its slot stays,
    /// dead, and holds nothing.
    pub open spec fn with_freed(self, ptr: usize) -> ContextView {
        if self.is_live(ptr) {
            self.with_object_at(
                ptr,
                ObjectModel { live: false, body: BodyModel::Raw, ..self.object(ptr) },
            )
        } else {
            self
        }
    }
}

impl Context {
    /// Root `root`: it stays alive until the matching `pop_root`, whatever
    /// else refers to it.
    pub fn push_root(&mut self, root: Object)
        ensures
            final(self)@ == old(self)@.with_root(root),
    {
        self.roots.push(root);
        assert(self@.heap =~= old(self)@.heap);
    }

    /// Take the newest root off the root stack. The stack must hold one:
    /// no more roots are popped than were pushed.
    pub fn pop_root(&mut self)
        requires
            old(self)@.roots.len() > 0,
        ensures
            final(self)@ == old(self)@.without_top_root(),
    {
        self.roots.pop();
        assert(self@.heap =~= old(self)@.heap);
    }

    /// How many roots the root stack holds.
    pub fn root_count(&self) -> (count: usize)
        ensures
            count == self@.roots.len(),
    {
        self.roots.len()
    }

    /// Whether `obj` is on the root stack.
    pub fn is_rooted(&self, obj: Object) -> (rooted: bool)
        ensures
            rooted == self@.is_rooted(obj.ptr),
    {
        let mut i: usize = 0;
        while i < self.roots.len()
            invariant
                i <= self.roots.len(),
                forall|j: int| 0 <= j < i ==> self.roots@[j] != obj,
            decreases self.roots.len() - i,
        {
            if self.roots[i] == obj {
                return true;
            }
            i += 1;
        }
        false
    }

    /// Whether the host protects `obj` from collection, by a root or by a
    /// counted reference.
    pub fn is_protected(&self, obj: Object) -> (protected: bool)
        ensures
            protected == self@.is_protected(obj.ptr),
    {
        if self.is_rooted(obj) {
            return true;
        }
        match self.slot(obj.ptr) {
            Some(index) => self.heap[index].refs > 0,
            None => false,
        }
    }

    /// Mark `obj` grey: marked itself, its contents still to be visited.
    /// For use after changing an object that the collector has already
    /// visited in this cycle.
    pub fn grey_obj(&mut self, obj: Object)
        ensures
            final(self)@ == old(self)@.with_grey(obj.ptr),
    {
        match self.slot(obj.ptr) {
            Some(index) => {
                set_mark(&mut self.heap[index].mask);
                let mut known: bool = false;
                let mut i: usize = 0;
                while i < self.grey.len()
                    invariant
                        i <= self.grey.len(),
                        !known ==> forall|j: int| 0 <= j < i ==> self.grey@[j] != obj,
                        known ==> self.grey@.contains(obj),
                    decreases self.grey.len() - i,
                {
                    if self.grey[i] == obj {
                        known = true;
                    }
                    i += 1;
                }
                if !known {
                    self.grey.push(obj);
                }
                assert(self@.heap =~= old(self)@.with_grey(obj.ptr).heap);
            },
            None => {},
        }
    }

    /// Count one more reference to `obj` and give the new count; zero where
    /// `obj` is no live object.
    pub fn add_ref(&mut self, obj: Object) -> (count: u32)
        ensures
            final(self)@ == old(self)@.with_ref_added(obj.ptr),
            count == final(self)@.ref_count(obj.ptr),
    {
        match self.slot(obj.ptr) {
            Some(index) => {
                if self.heap[index].refs < u32::MAX {
                    self.heap[index].refs += 1;
                }
                assert(self@.heap =~= old(self)@.with_ref_added(obj.ptr).heap);
                self.heap[index].refs
            },
            None => 0,
        }
    }

    /// Count one reference less to `obj` and give the new count; zero where
    /// `obj` is no live object.
    pub fn remove_ref(&mut self, obj: Object) -> (count: u32)
        ensures
            final(self)@ == old(self)@.with_ref_removed(obj.ptr),
            count == final(self)@.ref_count(obj.ptr),
    {
        match self.slot(obj.ptr) {
            Some(index) => {
                if self.heap[index].refs > 0 {
                    self.heap[index].refs -= 1;
                }
                assert(self@.heap =~= old(self)@.with_ref_removed(obj.ptr).heap);
                self.heap[index].refs
            },
            None => 0,
        }
    }

    /// Give `obj` back at once, without waiting for a collection. The
    /// caller answers for it that nothing refers to `obj` any more: it must
    /// be neither rooted nor counted.
    pub fn free(&mut self, obj: Object)
        requires
            !old(self)@.is_protected(obj.ptr),
        ensures
            final(self)@ == old(self)@.with_freed(obj.ptr),
    {
        match self.slot(obj.ptr) {
            Some(index) => {
                self.heap[index].live = false;
                self.heap[index].body = Body::Raw;
                assert(self@.heap =~= old(self)@.with_freed(obj.ptr).heap);
            },
            None => {},
        }
    }

    /// Suspend automatic collection: until `gc_unpause` the heap only grows.
    pub fn gc_pause(&mut self)
        ensures
            final(self)@ == (ContextView { paused: true, ..old(self)@ }),
    {
        self.paused = true;
        assert(self@.heap =~= old(self)@.heap);
    }

    /// Resume automatic collection.
    pub fn gc_unpause(&mut self)
        ensures
            final(self)@ == (ContextView { paused: false, ..old(self)@ }),
    {
        self.paused = false;
        assert(self@.heap =~= old(self)@.heap);
    }

    /// Whether automatic collection is suspended.
    pub fn gc_is_paused(&self) -> (paused: bool)
        ensures
            paused == self@.paused,
    {
        self.paused
    }

    /// The heap size, in bytes, at which the next collection starts.
    pub fn gc_get_next_cycle(&self) -> (next_cycle: usize)
        ensures
            next_cycle == self@.gc.next_cycle,
    {
        self.gc.next_cycle
    }

    /// Set the heap size, in bytes, at which the next collection starts.
    pub fn gc_set_next_cycle(&mut self, next_cycle: usize)
        ensures
            final(self)@ == (ContextView {
                gc: crate::context::GcSettings { next_cycle, ..old(self)@.gc },
                ..old(self)@
            }),
    {
        self.gc.next_cycle = next_cycle;
        assert(self@.heap =~= old(self)@.heap);
    }

    /// The least heap size, in bytes, before the first collection.
    pub fn gc_get_min_size(&self) -> (min_size: usize)
        ensures
            min_size == self@.gc.min_size,
    {
        self.gc.min_size
    }

    /// Set the least heap size, in bytes, before the first collection.
    pub fn gc_set_min_size(&mut self, min_size: usize)
        ensures
            final(self)@ == (ContextView {
                gc: crate::context::GcSettings { min_size, ..old(self)@.gc },
                ..old(self)@
            }),
    {
        self.gc.min_size = min_size;
        assert(self@.heap =~= old(self)@.heap);
    }

    /// The capacity of the grey set: the work list of incremental marking.
    pub fn gc_get_grey_cap(&self) -> (grey_cap: u32)
        ensures
            grey_cap == self@.gc.grey_cap,
    {
        self.gc.grey_cap
    }

    /// Set the capacity of the grey set.
    pub fn gc_set_grey_cap(&mut self, grey_cap: u32)
        ensures
            final(self)@ == (ContextView {
                gc: crate::context::GcSettings { grey_cap, ..old(self)@.gc },
                ..old(self)@
            }),
    {
        self.gc.grey_cap = grey_cap;
        assert(self@.heap =~= old(self)@.heap);
    }

    /// By how many percent the heap may grow from one collection to the next.
    pub fn gc_get_growth_pct(&self) -> (growth_pct: usize)
        ensures
            growth_pct == self@.gc.growth_pct,
    {
        self.gc.growth_pct
    }

    /// Set by how many percent the heap may grow from one collection to the
    /// next.
    pub fn gc_set_growth_pct(&mut self, growth_pct: usize)
        ensures
            final(self)@ == (ContextView {
                gc: crate::context::GcSettings { growth_pct, ..old(self)@.gc },
                ..old(self)@
            }),
    {
        self.gc.growth_pct = growth_pct;
        assert(self@.heap =~= old(self)@.heap);
    }

    /// By how many percent the heap may grow while collection is paused.
    pub fn gc_get_pause_growth_pct(&self) -> (growth_pct: usize)
        ensures
            growth_pct == self@.gc.pause_growth_pct,
    {
        self.gc.pause_growth_pct
    }

    /// Set by how many percent the heap may grow while collection is paused.
    pub fn gc_set_pause_growth_pct(&mut self, growth_pct: usize)
        ensures
            final(self)@ == (ContextView {
                gc: crate::context::GcSettings { pause_growth_pct: growth_pct, ..old(self)@.gc },
                ..old(self)@
            }),
    {
        self.gc.pause_growth_pct = growth_pct;
        assert(self@.heap =~= old(self)@.heap);
    }
}

/// Rooting balance. A sequence of pushes and pops in which no pop meets an
/// empty stack never pops more than was there and was pushed, and leaves
/// as many roots as were there, plus the pushes, less the pops.
pub proof fn lemma_rooting_balance(ctx: ContextView, ops: Seq<RootOp>)
    requires
        depth_after(ctx.roots.len(), ops) is Some,
    ensures
        pops(ops) <= ctx.roots.len() + pushes(ops),
        ctx.after_root_ops(ops).roots.len() == ctx.roots.len() + pushes(ops) - pops(ops),
        depth_after(ctx.roots.len(), ops) == Some(ctx.after_root_ops(ops).roots.len()),
    decreases ops.len(),
{
    if ops.len() > 0 {
        lemma_rooting_balance(ctx, ops.drop_last());
    }
}

/// Pushing and popping roots changes the root stack and nothing else.
pub proof fn lemma_root_ops_touch_roots_only(ctx: ContextView, ops: Seq<RootOp>)
    ensures
        ctx.after_root_ops(ops) == (ContextView { roots: ctx.after_root_ops(ops).roots, ..ctx }),
    decreases ops.len(),
{
    if ops.len() > 0 {
        lemma_root_ops_touch_roots_only(ctx, ops.drop_last());
    }
}

/// A root that is pushed and popped again leaves the context as it was.
pub proof fn lemma_push_then_pop(ctx: ContextView, root: Object)
    ensures
        ctx.with_root(root).without_top_root() == ctx,
        ctx.with_root(root).is_rooted(root.ptr),
{
    assert(ctx.roots.push(root).drop_last() =~= ctx.roots);
    assert(ctx.roots.push(root)[ctx.roots.len() as int] == root);
}

/// After its root is popped, an object is still protected exactly when
/// another root holds it or a reference to it is counted.
pub proof fn lemma_popped_root_protection(ctx: ContextView, ptr: usize)
    requires
        ctx.roots.len() > 0,
        ctx.roots.last() == (Object { ptr }),
    ensures
        ctx.without_top_root().is_protected(ptr) <==> ctx.roots.drop_last().contains(
            Object { ptr },
        ) || ctx.ref_count(ptr) > 0,
        ctx.without_top_root().ref_count(ptr) == ctx.ref_count(ptr),
{
}

/// Roots and counted references protect independently: counting
/// references does not change what is rooted, and rooting does not change
/// any count.
pub proof fn lemma_protection_votes_are_independent(ctx: ContextView, ptr: usize, other: usize)
    ensures
        ctx.with_ref_added(ptr).is_rooted(other) == ctx.is_rooted(other),
        ctx.with_ref_removed(ptr).is_rooted(other) == ctx.is_rooted(other),
        ctx.with_root(Object { ptr }).ref_count(other) == ctx.ref_count(other),
        ctx.without_top_root().ref_count(other) == ctx.ref_count(other),
{
}

/// A reference that is added is counted: while the count has not reached
/// its greatest value, adding raises it by one and removing lowers it by
/// one, and neither changes the count of another object.
pub proof fn lemma_ref_counting(ctx: ContextView, ptr: usize, other: usize)
    requires
        ctx.is_live(ptr),
    ensures
        ctx.ref_count(ptr) < u32::MAX ==> ctx.with_ref_added(ptr).ref_count(ptr) == ctx.ref_count(
            ptr,
        ) + 1,
        ctx.ref_count(ptr) > 0 ==> ctx.with_ref_removed(ptr).ref_count(ptr) == ctx.ref_count(ptr)
            - 1,
        ctx.ref_count(ptr) < u32::MAX ==> ctx.with_ref_added(ptr).with_ref_removed(ptr) == ctx,
        other != ptr ==> ctx.with_ref_added(ptr).ref_count(other) == ctx.ref_count(other),
        other != ptr ==> ctx.with_ref_removed(ptr).ref_count(other) == ctx.ref_count(other),
{
    crate::heap::lemma_slot_has_address(ptr, ctx.heap.len());
    crate::heap::lemma_slot_has_address(other, ctx.heap.len());
    if ctx.ref_count(ptr) < u32::MAX {
        assert(ctx.with_ref_added(ptr).with_ref_removed(ptr).heap =~= ctx.heap);
    }
}

} // verus!
