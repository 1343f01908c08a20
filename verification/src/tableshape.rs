//! Tableshapes: named record types with a layout of typed fields, values
//! held under keys, and at most one parent each.
//!
//! A field is looked for in the shape itself first and then up the chain
//! of parents. The search ends at a shape without a parent; a chain is
//! followed through as many parents as the heap has objects, so that a
//! search ends even where shapes were made parents of each other.

use vstd::prelude::*;
use crate::bt_object::Annotation;
use crate::bt_object::Type;
use crate::context::Context;
use crate::context::ContextView;
use crate::error::Error;
use crate::heap::Body;
use crate::heap::FieldAnnotations;
use crate::heap::FieldValue;
use crate::heap::LayoutField;
use crate::heap::TypeBody;
use crate::heap::TypeModel;
use crate::strings::is_out_of_memory;
use crate::strings::out_of_memory;
use crate::value::Value;
use crate::wrappers::is_first_nul;
use crate::wrappers::is_nul_free;
use crate::wrappers::IntoCStr;

verus! {

/// The newest of the first `upto` fields of `layout` under `key`.
pub open spec fn layout_slot(layout: Seq<LayoutField>, key: Value, upto: nat) -> Option<int>
    decreases upto,
{
    if upto == 0 {
        None
    } else if layout[upto - 1].key == key {
        Some(upto - 1)
    } else {
        layout_slot(layout, key, (upto - 1) as nat)
    }
}

/// The newest of the first `upto` values of `values` under `key`.
pub open spec fn value_slot(values: Seq<FieldValue>, key: Value, upto: nat) -> Option<int>
    decreases upto,
{
    if upto == 0 {
        None
    } else if values[upto - 1].key == key {
        Some(upto - 1)
    } else {
        value_slot(values, key, (upto - 1) as nat)
    }
}

/// The newest of the first `upto` entries of `entries` under `key`.
pub open spec fn annotations_slot(entries: Seq<FieldAnnotations>, key: Value, upto: nat) -> Option<
    int,
>
    decreases upto,
{
    if upto == 0 {
        None
    } else if entries[upto - 1].key == key {
        Some(upto - 1)
    } else {
        annotations_slot(entries, key, (upto - 1) as nat)
    }
}

impl ContextView {
    /// Whether a live tableshape lies at `ptr`.
    pub open spec fn is_shape(self, ptr: usize) -> bool {
        self.type_at(ptr) matches Some(TypeModel::TableShape { .. })
    }

    /// The parent of the tableshape at `ptr`.
    pub open spec fn parent_of(self, ptr: usize) -> Option<Type> {
        match self.type_at(ptr) {
            Some(TypeModel::TableShape { parent, .. }) => parent,
            _ => None,
        }
    }

    /// The type of the field `key` in the layout of the tableshape at
    /// `ptr` itself.
    pub open spec fn own_field_type(self, ptr: usize, key: Value) -> Option<Type> {
        match self.type_at(ptr) {
            Some(TypeModel::TableShape { layout, .. }) => match layout_slot(
                layout,
                key,
                layout.len(),
            ) {
                Some(index) => Some(layout[index].value_type),
                None => None,
            },
            _ => None,
        }
    }

    /// The value under `key` that the tableshape at `ptr` holds itself.
    pub open spec fn own_field_value(self, ptr: usize, key: Value) -> Option<Value> {
        match self.type_at(ptr) {
            Some(TypeModel::TableShape { values, .. }) => match value_slot(
                values,
                key,
                values.len(),
            ) {
                Some(index) => Some(values[index].value),
                None => None,
            },
            _ => None,
        }
    }

    /// The type of the field `key` of the tableshape `t`, looked for in `t`
    /// and then in at most `fuel` shapes up its chain of parents.
    pub open spec fn field_type_in(self, t: Type, key: Value, fuel: nat) -> Option<Type>
        decreases fuel,
    {
        match self.own_field_type(t.ptr, key) {
            Some(found) => Some(found),
            None => match self.parent_of(t.ptr) {
                Some(parent) => if fuel > 0 {
                    self.field_type_in(parent, key, (fuel - 1) as nat)
                } else {
                    None
                },
                None => None,
            },
        }
    }

    /// The type of the field `key` of the tableshape `t`: its own, else
    /// the nearest up its chain of parents.
    pub open spec fn field_type(self, t: Type, key: Value) -> Option<Type> {
        self.field_type_in(t, key, self.heap.len())
    }

    /// The value under `key` of the tableshape `t`, looked for in `t` and
    /// then in at most `fuel` shapes up its chain of parents.
    pub open spec fn field_value_in(self, t: Type, key: Value, fuel: nat) -> Option<Value>
        decreases fuel,
    {
        match self.own_field_value(t.ptr, key) {
            Some(found) => Some(found),
            None => match self.parent_of(t.ptr) {
                Some(parent) => if fuel > 0 {
                    self.field_value_in(parent, key, (fuel - 1) as nat)
                } else {
                    None
                },
                None => None,
            },
        }
    }

    /// The value under `key` of the tableshape `t`: its own, else the
    /// nearest up its chain of parents.
    pub open spec fn field_value(self, t: Type, key: Value) -> Option<Value> {
        self.field_value_in(t, key, self.heap.len())
    }

    /// The annotations of the field `key` of the tableshape at `ptr`: the
    /// address of the first node.
    pub open spec fn field_annotations(self, ptr: usize, key: Value) -> Option<usize> {
        match self.type_at(ptr) {
            Some(TypeModel::TableShape { annotations, .. }) => match annotations_slot(
                annotations,
                key,
                annotations.len(),
            ) {
                Some(index) => Some(annotations[index].annotations),
                None => None,
            },
            _ => None,
        }
    }

    /// The context with the parent of the tableshape at `ptr` replaced.
    /// What is no tableshape is left alone.
    pub open spec fn with_parent(self, ptr: usize, new_parent: Option<Type>) -> ContextView {
        match self.type_at(ptr) {
            Some(TypeModel::TableShape { name, sealed, parent, layout, values, annotations }) => {
                self.with_type_at(
                    ptr,
                    TypeModel::TableShape {
                        name,
                        sealed,
                        parent: new_parent,
                        layout,
                        values,
                        annotations,
                    },
                )
            },
            _ => self,
        }
    }

    /// The context with one more field in the layout of the tableshape at
    /// `ptr`.
    pub open spec fn with_layout(self, ptr: usize, field: LayoutField) -> ContextView {
        match self.type_at(ptr) {
            Some(TypeModel::TableShape { name, sealed, parent, layout, values, annotations }) => {
                self.with_type_at(
                    ptr,
                    TypeModel::TableShape {
                        name,
                        sealed,
                        parent,
                        layout: layout.push(field),
                        values,
                        annotations,
                    },
                )
            },
            _ => self,
        }
    }

    /// The context with one more value held by the tableshape at `ptr`.
    pub open spec fn with_field_value(self, ptr: usize, held: FieldValue) -> ContextView {
        match self.type_at(ptr) {
            Some(TypeModel::TableShape { name, sealed, parent, layout, values, annotations }) => {
                self.with_type_at(
                    ptr,
                    TypeModel::TableShape {
                        name,
                        sealed,
                        parent,
                        layout,
                        values: values.push(held),
                        annotations,
                    },
                )
            },
            _ => self,
        }
    }

    /// The context with annotations attached to a field of the tableshape
    /// at `ptr`.
    pub open spec fn with_field_annotations(self, ptr: usize, entry: FieldAnnotations) -> ContextView {
        match self.type_at(ptr) {
            Some(TypeModel::TableShape { name, sealed, parent, layout, values, annotations }) => {
                self.with_type_at(
                    ptr,
                    TypeModel::TableShape {
                        name,
                        sealed,
                        parent,
                        layout,
                        values,
                        annotations: annotations.push(entry),
                    },
                )
            },
            _ => self,
        }
    }
}

/// The newest field of `layout` under `key`.
pub fn find_layout(layout: &Vec<LayoutField>, key: Value) -> (found: Option<usize>)
    ensures
        found is Some == layout_slot(layout@, key, layout.len() as nat) is Some,
        found matches Some(index) ==> index < layout.len() && layout_slot(
            layout@,
            key,
            layout.len() as nat,
        ) == Some(index as int),
{
    let mut i: usize = layout.len();
    while i > 0
        invariant
            i <= layout.len(),
            layout_slot(layout@, key, layout.len() as nat) == layout_slot(layout@, key, i as nat),
        decreases i,
    {
        i -= 1;
        if layout[i].key == key {
            return Some(i);
        }
    }
    None
}

/// The newest value of `values` under `key`.
pub fn find_value(values: &Vec<FieldValue>, key: Value) -> (found: Option<usize>)
    ensures
        found is Some == value_slot(values@, key, values.len() as nat) is Some,
        found matches Some(index) ==> index < values.len() && value_slot(
            values@,
            key,
            values.len() as nat,
        ) == Some(index as int),
{
    let mut i: usize = values.len();
    while i > 0
        invariant
            i <= values.len(),
            value_slot(values@, key, values.len() as nat) == value_slot(values@, key, i as nat),
        decreases i,
    {
        i -= 1;
        if values[i].key == key {
            return Some(i);
        }
    }
    None
}

impl Context {
    /// Make a tableshape named `name` without fields or parent.
    ///
    /// The name is refused where it holds a nul byte, before anything is
    /// made. Where the heap has no room for the name and the type, nothing
    /// is made.
    pub fn make_tableshape_type<S: IntoCStr>(&mut self, name: S, sealed: bool) -> (made: Result<
        Type,
        Error,
    >)
        ensures
            match made {
                Ok(shape) => {
                    &&& is_nul_free(name.text_bytes())
                    &&& old(self)@.has_room_for(2)
                    &&& old(self)@.string_for(name.text_bytes()) matches Some(text)
                    &&& shape.ptr == old(self)@.with_string(name.text_bytes()).next_address()
                    &&& final(self)@ == old(self)@.with_string(name.text_bytes()).with_type(
                        TypeModel::TableShape {
                            name: text,
                            sealed,
                            parent: None,
                            layout: Seq::empty(),
                            values: Seq::empty(),
                            annotations: Seq::empty(),
                        },
                    )
                },
                Err(Error::StringConversion { position }) => is_first_nul(
                    name.text_bytes(),
                    position as int,
                ) && final(self)@ == old(self)@,
                Err(err) => is_nul_free(name.text_bytes()) && !old(self)@.has_room_for(2)
                    && is_out_of_memory(err) && final(self)@ == old(self)@,
            },
    {
        let bytes = name.as_c_str()?;
        if !self.has_room_for(2) {
            return Err(out_of_memory());
        }
        let text = match self.intern(bytes) {
            Some(text) => text,
            None => {
                return Err(out_of_memory());
            },
        };
        match self.place_type(
            TypeBody::TableShape {
                name: text,
                sealed,
                parent: None,
                layout: Vec::new(),
                values: Vec::new(),
                annotations: Vec::new(),
            },
        ) {
            Some(shape) => Ok(shape),
            None => Err(out_of_memory()),
        }
    }

    /// Whether `t` is a live tableshape.
    pub fn is_tableshape(&self, t: Type) -> (shape: bool)
        ensures
            shape == self@.is_shape(t.ptr),
    {
        match self.slot(t.ptr) {
            Some(index) => match &self.heap[index].body {
                Body::Type(TypeBody::TableShape { .. }) => true,
                _ => false,
            },
            None => false,
        }
    }

    /// Make `parent` the parent of the tableshape `tshp`, in place of the
    /// parent it had. What is no tableshape is left alone.
    pub fn tableshape_set_parent(&mut self, tshp: Type, parent: Type)
        ensures
            final(self)@ == old(self)@.with_parent(tshp.ptr, Some(parent)),
    {
        match self.slot(tshp.ptr) {
            Some(index) => {
                match &mut self.heap[index].body {
                    Body::Type(TypeBody::TableShape { parent: held, .. }) => {
                        *held = Some(parent);
                    },
                    _ => {},
                }
                assert(self@.heap =~= old(self)@.with_parent(tshp.ptr, Some(parent)).heap);
            },
            None => {},
        }
    }

    /// Leave the tableshape `tshp` without a parent.
    pub fn tableshape_remove_parent(&mut self, tshp: Type)
        ensures
            final(self)@ == old(self)@.with_parent(tshp.ptr, None),
    {
        match self.slot(tshp.ptr) {
            Some(index) => {
                match &mut self.heap[index].body {
                    Body::Type(TypeBody::TableShape { parent: held, .. }) => {
                        *held = None;
                    },
                    _ => {},
                }
                assert(self@.heap =~= old(self)@.with_parent(tshp.ptr, None).heap);
            },
            None => {},
        }
    }

    /// The parent of the tableshape `tshp`.
    pub fn tableshape_get_parent(&self, tshp: Type) -> (parent: Option<Type>)
        ensures
            parent == self@.parent_of(tshp.ptr),
    {
        match self.slot(tshp.ptr) {
            Some(index) => match &self.heap[index].body {
                Body::Type(TypeBody::TableShape { parent, .. }) => *parent,
                _ => None,
            },
            None => None,
        }
    }

    /// Add a field to the layout of the tableshape `tshp`: under `key`, of
    /// the type `key_type`, a value of the type `type_`.
    pub fn tableshape_add_layout(&mut self, tshp: Type, key_type: Type, key: Value, type_: Type)
        ensures
            final(self)@ == old(self)@.with_layout(
                tshp.ptr,
                LayoutField { key, key_type: Some(key_type), value_type: type_ },
            ),
    {
        match self.slot(tshp.ptr) {
            Some(index) => {
                match &mut self.heap[index].body {
                    Body::Type(TypeBody::TableShape { layout, .. }) => {
                        layout.push(
                            LayoutField { key, key_type: Some(key_type), value_type: type_ },
                        );
                    },
                    _ => {},
                }
                assert(self@.heap =~= old(self)@.with_layout(
                    tshp.ptr,
                    LayoutField { key, key_type: Some(key_type), value_type: type_ },
                ).heap);
            },
            None => {},
        }
    }

    /// Add a field to the tableshape `type_` together with its value:
    /// under the name `name`, the value `value` of the type `value_type`.
    pub fn type_add_field(&mut self, type_: Type, value_type: Type, name: Value, value: Value)
        ensures
            final(self)@ == old(self)@.with_layout(
                type_.ptr,
                LayoutField { key: name, key_type: None, value_type },
            ).with_field_value(type_.ptr, FieldValue { key: name, value }),
    {
        match self.slot(type_.ptr) {
            Some(index) => {
                match &mut self.heap[index].body {
                    Body::Type(TypeBody::TableShape { layout, values, .. }) => {
                        layout.push(LayoutField { key: name, key_type: None, value_type });
                        values.push(FieldValue { key: name, value });
                    },
                    _ => {},
                }
                proof {
                    let mid = old(self)@.with_layout(
                        type_.ptr,
                        LayoutField { key: name, key_type: None, value_type },
                    );
                    assert(mid.slot(type_.ptr) == old(self)@.slot(type_.ptr));
                    assert(self@.heap =~= mid.with_field_value(
                        type_.ptr,
                        FieldValue { key: name, value },
                    ).heap);
                }
            },
            None => {},
        }
    }

    /// Hold `value` under `name` in the tableshape `type_`, in place of
    /// what it held under that name.
    pub fn type_set_field(&mut self, type_: Type, name: Value, value: Value)
        ensures
            final(self)@ == old(self)@.with_field_value(type_.ptr, FieldValue { key: name, value }),
    {
        match self.slot(type_.ptr) {
            Some(index) => {
                match &mut self.heap[index].body {
                    Body::Type(TypeBody::TableShape { values, .. }) => {
                        values.push(FieldValue { key: name, value });
                    },
                    _ => {},
                }
                assert(self@.heap =~= old(self)@.with_field_value(
                    type_.ptr,
                    FieldValue { key: name, value },
                ).heap);
            },
            None => {},
        }
    }

    /// Attach the annotation list that starts at `annotations` to the
    /// field `key` of the tableshape `tshp`.
    pub fn tableshape_set_field_annotations(
        &mut self,
        tshp: Type,
        key: Value,
        annotations: &Annotation,
    )
        ensures
            final(self)@ == old(self)@.with_field_annotations(
                tshp.ptr,
                FieldAnnotations { key, annotations: annotations.ptr },
            ),
    {
        match self.slot(tshp.ptr) {
            Some(index) => {
                match &mut self.heap[index].body {
                    Body::Type(TypeBody::TableShape { annotations: held, .. }) => {
                        held.push(FieldAnnotations { key, annotations: annotations.ptr });
                    },
                    _ => {},
                }
                assert(self@.heap =~= old(self)@.with_field_annotations(
                    tshp.ptr,
                    FieldAnnotations { key, annotations: annotations.ptr },
                ).heap);
            },
            None => {},
        }
    }

    /// The value under `key` of the tableshape `tshp`: its own, else the
    /// nearest up its chain of parents, else none.
    pub fn type_get_field(&self, tshp: Type, key: Value) -> (value: Option<Value>)
        ensures
            value == self@.field_value(tshp, key),
    {
        let mut current = tshp;
        let mut fuel: usize = self.heap.len();
        loop
            invariant
                fuel <= self.heap.len(),
                self@.field_value(tshp, key) == self@.field_value_in(current, key, fuel as nat),
            decreases fuel,
        {
            let parent = match self.slot(current.ptr) {
                Some(index) => match &self.heap[index].body {
                    Body::Type(TypeBody::TableShape { values, parent, .. }) => {
                        match find_value(values, key) {
                            Some(found) => {
                                return Some(values[found].value);
                            },
                            None => *parent,
                        }
                    },
                    _ => None,
                },
                None => None,
            };
            match parent {
                Some(next) => {
                    if fuel == 0 {
                        return None;
                    }
                    current = next;
                    fuel -= 1;
                },
                None => {
                    return None;
                },
            }
        }
    }

    /// The type of the field `key` of the tableshape `tshp`: its own, else
    /// the nearest up its chain of parents, else none.
    pub fn type_get_field_type(&self, tshp: Type, key: Value) -> (found: Option<Type>)
        ensures
            found == self@.field_type(tshp, key),
    {
        let mut current = tshp;
        let mut fuel: usize = self.heap.len();
        loop
            invariant
                fuel <= self.heap.len(),
                self@.field_type(tshp, key) == self@.field_type_in(current, key, fuel as nat),
            decreases fuel,
        {
            let parent = match self.slot(current.ptr) {
                Some(index) => match &self.heap[index].body {
                    Body::Type(TypeBody::TableShape { layout, parent, .. }) => {
                        match find_layout(layout, key) {
                            Some(found) => {
                                return Some(layout[found].value_type);
                            },
                            None => *parent,
                        }
                    },
                    _ => None,
                },
                None => None,
            };
            match parent {
                Some(next) => {
                    if fuel == 0 {
                        return None;
                    }
                    current = next;
                    fuel -= 1;
                },
                None => {
                    return None;
                },
            }
        }
    }
}

/// Tableshape inheritance. A field that only the parent declares is seen
/// through a child that is given that parent, with the parent's type and
/// value for it, and is no longer seen through the child once the child
/// is left without a parent.
pub proof fn lemma_inherited_field(ctx: ContextView, child: Type, parent: Type, key: Value)
    requires
        ctx.is_shape(child.ptr),
        ctx.is_shape(parent.ptr),
        child.ptr != parent.ptr,
        ctx.own_field_type(child.ptr, key) is None,
        ctx.own_field_value(child.ptr, key) is None,
    ensures
        ctx.own_field_type(parent.ptr, key) is Some ==> ctx.with_parent(
            child.ptr,
            Some(parent),
        ).field_type(child, key) == ctx.own_field_type(parent.ptr, key),
        ctx.own_field_value(parent.ptr, key) is Some ==> ctx.with_parent(
            child.ptr,
            Some(parent),
        ).field_value(child, key) == ctx.own_field_value(parent.ptr, key),
        ctx.with_parent(child.ptr, Some(parent)).with_parent(child.ptr, None).field_type(child, key)
            is None,
        ctx.with_parent(child.ptr, Some(parent)).with_parent(child.ptr, None).field_value(
            child,
            key,
        ) is None,
        ctx.with_parent(child.ptr, None).field_type(child, key) is None,
{
    crate::heap::lemma_slot_has_address(child.ptr, ctx.heap.len());
    crate::heap::lemma_slot_has_address(parent.ptr, ctx.heap.len());
    let linked = ctx.with_parent(child.ptr, Some(parent));
    assert(linked.parent_of(child.ptr) == Some(parent));
    assert(linked.own_field_type(child.ptr, key) is None);
    assert(linked.own_field_value(child.ptr, key) is None);
    assert(linked.own_field_type(parent.ptr, key) == ctx.own_field_type(parent.ptr, key));
    assert(linked.own_field_value(parent.ptr, key) == ctx.own_field_value(parent.ptr, key));
    assert(linked.heap.len() >= 2);
    let rest = (linked.heap.len() - 1) as nat;
    if ctx.own_field_type(parent.ptr, key) is Some {
        assert(linked.field_type_in(parent, key, rest) == ctx.own_field_type(parent.ptr, key));
        assert(linked.field_type_in(child, key, linked.heap.len()) == linked.field_type_in(
            parent,
            key,
            rest,
        ));
    }
    if ctx.own_field_value(parent.ptr, key) is Some {
        assert(linked.field_value_in(parent, key, rest) == ctx.own_field_value(parent.ptr, key));
        assert(linked.field_value_in(child, key, linked.heap.len()) == linked.field_value_in(
            parent,
            key,
            rest,
        ));
    }
    let cut = linked.with_parent(child.ptr, None);
    assert(cut.parent_of(child.ptr) is None);
    assert(cut.own_field_type(child.ptr, key) is None);
    assert(cut.own_field_value(child.ptr, key) is None);
    let bare = ctx.with_parent(child.ptr, None);
    assert(bare.parent_of(child.ptr) is None);
    assert(bare.own_field_type(child.ptr, key) is None);
}

/// A shape's own field comes first: where the shape declares a field
/// itself, that is the field seen, whatever its parents declare.
pub proof fn lemma_own_field_comes_first(ctx: ContextView, shape: Type, key: Value)
    ensures
        ctx.own_field_type(shape.ptr, key) is Some ==> ctx.field_type(shape, key)
            == ctx.own_field_type(shape.ptr, key),
        ctx.own_field_value(shape.ptr, key) is Some ==> ctx.field_value(shape, key)
            == ctx.own_field_value(shape.ptr, key),
        ctx.own_field_type(shape.ptr, key) is None && ctx.parent_of(shape.ptr) is None
            ==> ctx.field_type(shape, key) is None,
        !ctx.is_shape(shape.ptr) ==> ctx.field_type(shape, key) is None && ctx.field_value(
            shape,
            key,
        ) is None,
{
}

/// A field added to the layout of a shape is the field seen under its key.
pub proof fn lemma_added_field_is_seen(ctx: ContextView, shape: Type, field: LayoutField)
    requires
        ctx.is_shape(shape.ptr),
    ensures
        ctx.with_layout(shape.ptr, field).field_type(shape, field.key) == Some(field.value_type),
        ctx.with_layout(shape.ptr, field).is_shape(shape.ptr),
{
    crate::heap::lemma_slot_has_address(shape.ptr, ctx.heap.len());
}

} // verus!
