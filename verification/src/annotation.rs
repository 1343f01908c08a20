//! Annotations: lists of named nodes, each with the values pushed to it.
//! A list is walked by name: from a node, the next node of a given name.

use vstd::prelude::*;
use crate::bt_object::Annotation;
use crate::bt_object::BoltString;
use crate::bt_object::OBJECT_TYPE_ANNOTATION;
use crate::context::Context;
use crate::context::ContextView;
use crate::heap::Body;
use crate::heap::BodyModel;
use crate::heap::ObjectModel;
use crate::value::Value;

verus! {

impl ContextView {
    /// Whether a live annotation lies at `ptr`.
    pub open spec fn is_annotation(self, ptr: usize) -> bool {
        self.is_live(ptr) && self.object(ptr).body is Annotation
    }

    /// The name of the annotation at `ptr`.
    pub open spec fn annotation_name(self, ptr: usize) -> BoltString
        recommends
            self.is_annotation(ptr),
    {
        self.object(ptr).body->Annotation_name
    }

    /// The values pushed to the annotation at `ptr`, oldest first.
    pub open spec fn annotation_values(self, ptr: usize) -> Seq<Value> {
        if self.is_annotation(ptr) {
            self.object(ptr).body->values
        } else {
            Seq::empty()
        }
    }

    /// The address of the node after the annotation at `ptr`; null at the
    /// end of the list.
    pub open spec fn annotation_after(self, ptr: usize) -> usize {
        if self.is_annotation(ptr) {
            self.object(ptr).body->next
        } else {
            0
        }
    }

    /// The first node named `name` among the node at `ptr` and at most
    /// `fuel` nodes after it.
    pub open spec fn annotation_from(self, ptr: usize, name: BoltString, fuel: nat) -> Option<usize>
        decreases fuel,
    {
        if !self.is_annotation(ptr) {
            None
        } else if self.annotation_name(ptr) == name {
            Some(ptr)
        } else if fuel == 0 {
            None
        } else {
            self.annotation_from(self.annotation_after(ptr), name, (fuel - 1) as nat)
        }
    }

    /// The first node named `name` after the annotation at `ptr`. A list
    /// is followed through as many nodes as the heap has objects.
    pub open spec fn annotation_next(self, ptr: usize, name: BoltString) -> Option<usize> {
        if self.is_annotation(ptr) {
            self.annotation_from(self.annotation_after(ptr), name, self.heap.len())
        } else {
            None
        }
    }

    /// The context with one more annotation, named `name`, without values,
    /// at the end of its own list.
    pub open spec fn with_annotation(self, name: BoltString) -> ContextView {
        self.with_object(11, 0, BodyModel::Annotation { name, values: Seq::empty(), next: 0 })
    }

    /// The context with `value` pushed to the annotation at `ptr`.
    pub open spec fn with_annotation_value(self, ptr: usize, value: Value) -> ContextView {
        if self.is_annotation(ptr) {
            self.with_object_at(
                ptr,
                ObjectModel {
                    body: BodyModel::Annotation {
                        name: self.annotation_name(ptr),
                        values: self.annotation_values(ptr).push(value),
                        next: self.annotation_after(ptr),
                    },
                    ..self.object(ptr)
                },
            )
        } else {
            self
        }
    }

    /// The context with the node at `next` made the node after the
    /// annotation at `ptr`.
    pub open spec fn with_annotation_link(self, ptr: usize, next: usize) -> ContextView {
        if self.is_annotation(ptr) {
            self.with_object_at(
                ptr,
                ObjectModel {
                    body: BodyModel::Annotation {
                        name: self.annotation_name(ptr),
                        values: self.annotation_values(ptr),
                        next,
                    },
                    ..self.object(ptr)
                },
            )
        } else {
            self
        }
    }
}

impl Context {
    /// Make an annotation named `name`, without values, at the end of its
    /// own list. Gives none, and changes nothing, where the heap is full.
    pub fn make_annotation(&mut self, name: BoltString) -> (made: Option<Annotation>)
        ensures
            made is Some == old(self)@.has_room(),
            made matches Some(node) ==> node == (Annotation {
                ptr: old(self)@.next_address(),
                name: None,
                next: 0,
            }) && final(self)@ == old(self)@.with_annotation(name),
            made is None ==> final(self)@ == old(self)@,
    {
        let ptr = self.place(
            OBJECT_TYPE_ANNOTATION,
            0,
            Body::Annotation { name, values: Vec::new(), next: 0 },
        );
        Annotation::from_raw(ptr)
    }

    /// Push `value` to `annotation`. What is no live annotation is left
    /// alone.
    pub fn annotation_push(&mut self, annotation: &Annotation, value: Value)
        ensures
            final(self)@ == old(self)@.with_annotation_value(annotation.ptr, value),
    {
        match self.slot(annotation.ptr) {
            Some(index) => {
                match &mut self.heap[index].body {
                    Body::Annotation { values, .. } => {
                        values.push(value);
                    },
                    _ => {},
                }
                assert(self@.heap =~= old(self)@.with_annotation_value(annotation.ptr, value).heap);
            },
            None => {},
        }
    }

    /// Make `next` the node after `annotation`.
    pub fn annotation_set_next(&mut self, annotation: &Annotation, next: &Annotation)
        ensures
            final(self)@ == old(self)@.with_annotation_link(annotation.ptr, next.ptr),
    {
        match self.slot(annotation.ptr) {
            Some(index) => {
                match &mut self.heap[index].body {
                    Body::Annotation { next: held, .. } => {
                        *held = next.ptr;
                    },
                    _ => {},
                }
                assert(self@.heap =~= old(self)@.with_annotation_link(
                    annotation.ptr,
                    next.ptr,
                ).heap);
            },
            None => {},
        }
    }

    /// The values pushed to `annotation`, oldest first.
    pub fn annotation_values(&self, annotation: &Annotation) -> (values: Vec<Value>)
        ensures
            values@ == self@.annotation_values(annotation.ptr),
    {
        match self.slot(annotation.ptr) {
            Some(index) => match &self.heap[index].body {
                Body::Annotation { values, .. } => values.clone(),
                _ => Vec::new(),
            },
            None => Vec::new(),
        }
    }

    /// The first node named `next_name` after `annotation` in its list.
    pub fn annotation_next(&self, annotation: &Annotation, next_name: BoltString) -> (found:
        Option<Annotation>)
        ensures
            found is Some == self@.annotation_next(annotation.ptr, next_name) is Some,
            found matches Some(node) ==> self@.annotation_next(annotation.ptr, next_name) == Some(
                node.ptr,
            ) && node.name is None && node.next == self@.annotation_after(node.ptr),
    {
        let mut current: usize = match self.slot(annotation.ptr) {
            Some(index) => match &self.heap[index].body {
                Body::Annotation { next, .. } => *next,
                _ => {
                    return None;
                },
            },
            None => {
                return None;
            },
        };
        let mut fuel: usize = self.heap.len();
        loop
            invariant
                fuel <= self.heap.len(),
                self@.annotation_next(annotation.ptr, next_name) == self@.annotation_from(
                    current,
                    next_name,
                    fuel as nat,
                ),
            decreases fuel,
        {
            let after: usize = match self.slot(current) {
                Some(index) => match &self.heap[index].body {
                    Body::Annotation { name, next, .. } => {
                        if *name == next_name {
                            return Some(Annotation { ptr: current, name: None, next: *next });
                        }
                        *next
                    },
                    _ => {
                        return None;
                    },
                },
                None => {
                    return None;
                },
            };
            if fuel == 0 {
                return None;
            }
            current = after;
            fuel -= 1;
        }
    }
}

/// A node that is linked after another is the next node of its name from
/// there, and values pushed to a node arrive in order.
pub proof fn lemma_linked_annotation_is_next(ctx: ContextView, ptr: usize, next: usize)
    requires
        ctx.is_annotation(ptr),
        ctx.is_annotation(next),
        ptr != next,
    ensures
        ctx.with_annotation_link(ptr, next).annotation_next(ptr, ctx.annotation_name(next))
            == Some(next),
        ctx.with_annotation_link(ptr, next).annotation_values(ptr) == ctx.annotation_values(ptr),
{
    crate::heap::lemma_slot_has_address(ptr, ctx.heap.len());
    crate::heap::lemma_slot_has_address(next, ctx.heap.len());
    let linked = ctx.with_annotation_link(ptr, next);
    assert(linked.is_annotation(next));
    assert(linked.annotation_name(next) == ctx.annotation_name(next));
    assert(linked.annotation_after(ptr) == next);
}

} // verus!
