//! The context: owner of the heap, of the root stack, of the module and
//! type registries and of the collector's settings.
//!
//! Operations take any handle. A handle that names no live object of the
//! kind an operation needs makes the operation do nothing, and the
//! contract says so.

use vstd::prelude::*;
use crate::bt_object::BoltString;
use crate::bt_object::Object;
use crate::bt_object::ObjectType;
use crate::bt_object::Type;
use crate::heap::address_of;
use crate::heap::slot_of;
use crate::heap::Body;
use crate::heap::BodyModel;
use crate::heap::HeapObject;
use crate::heap::ObjectModel;
use crate::heap::MAX_OBJECTS;
use crate::object_mask::kind_of;
use crate::object_mask::with_kind;
use crate::object_mask::set_type;
use crate::object_mask::lemma_kind_written;
use crate::value::Value;

verus! {

/// The next-cycle threshold of a new context, in bytes.
pub const DEFAULT_NEXT_CYCLE: usize = 0x0010_0000;

/// The least heap size of a new context before its first collection, in bytes.
pub const DEFAULT_MIN_SIZE: usize = 0x0010_0000;

/// The capacity of the grey set of a new context.
pub const DEFAULT_GREY_CAP: u32 = 32;

/// The growth percentage of a new context.
pub const DEFAULT_GROWTH_PCT: usize = 175;

/// The growth percentage of a new context while collection is paused.
pub const DEFAULT_PAUSE_GROWTH_PCT: usize = 300;

/// What decides when the collector runs next.
#[derive(Debug, Clone, Copy, PartialEq, Eq, Structural)]
pub struct GcSettings {
    pub next_cycle: usize,
    pub min_size: usize,
    pub grey_cap: u32,
    pub growth_pct: usize,
    pub pause_growth_pct: usize,
}

/// A module registered under a name.
#[derive(Debug, Clone, Copy, PartialEq, Eq, Structural)]
pub struct ModuleBinding {
    pub name: Value,
    pub module: usize,
}

/// A type registered under a name.
#[derive(Debug, Clone, Copy, PartialEq, Eq, Structural)]
pub struct TypeBinding {
    pub name: Value,
    pub type_: Type,
}

/// A value that every module sees without importing it.
#[derive(Debug, Clone, Copy, PartialEq, Eq, Structural)]
pub struct PreludeEntry {
    pub name: Value,
    pub type_: Type,
    pub value: Value,
}

/// A context of the engine, by its address, with everything the host has
/// built in it.
#[derive(Debug)]
pub struct Context {
    pub ptr: usize,
    pub heap: Vec<HeapObject>,
    pub roots: Vec<Object>,
    pub grey: Vec<Object>,
    pub paused: bool,
    pub gc: GcSettings,
    pub modules: Vec<ModuleBinding>,
    pub module_paths: Vec<BoltString>,
    pub type_names: Vec<TypeBinding>,
    pub prelude: Vec<PreludeEntry>,
    /// For every thread made, whether it is still there.
    pub threads: Vec<bool>,
}

/// The picture of a context.
#[verifier::ext_equal]
pub struct ContextView {
    pub ptr: usize,
    pub heap: Seq<ObjectModel>,
    pub roots: Seq<Object>,
    pub grey: Seq<Object>,
    pub paused: bool,
    pub gc: GcSettings,
    pub modules: Seq<ModuleBinding>,
    pub module_paths: Seq<BoltString>,
    pub type_names: Seq<TypeBinding>,
    pub prelude: Seq<PreludeEntry>,
    pub threads: Seq<bool>,
}

impl View for Context {
    type V = ContextView;

    open spec fn view(&self) -> ContextView {
        ContextView {
            ptr: self.ptr,
            heap: self.heap@.map_values(|obj: HeapObject| obj@),
            roots: self.roots@,
            grey: self.grey@,
            paused: self.paused,
            gc: self.gc,
            modules: self.modules@,
            module_paths: self.module_paths@,
            type_names: self.type_names@,
            prelude: self.prelude@,
            threads: self.threads@,
        }
    }
}

impl ContextView {
    /// The slot of the live object at the address `ptr`.
    pub open spec fn slot(self, ptr: usize) -> Option<int> {
        match slot_of(ptr, self.heap.len()) {
            Some(index) => if self.heap[index].live {
                Some(index)
            } else {
                None
            },
            None => None,
        }
    }

    /// Whether a live object lies at the address `ptr`.
    pub open spec fn is_live(self, ptr: usize) -> bool {
        self.slot(ptr) is Some
    }

    /// The live object at the address `ptr`.
    pub open spec fn object(self, ptr: usize) -> ObjectModel
        recommends
            self.is_live(ptr),
    {
        self.heap[self.slot(ptr)->0]
    }

    /// The header word of the live object at the address `ptr`.
    pub open spec fn header(self, ptr: usize) -> Option<u64> {
        if self.is_live(ptr) {
            Some(self.object(ptr).mask)
        } else {
            None
        }
    }

    /// The kind that the header of the object at `ptr` names; `NoObject`
    /// where no live object lies there.
    pub open spec fn kind(self, ptr: usize) -> ObjectType {
        match self.header(ptr) {
            Some(mask) => ObjectType::of_tag(kind_of(mask)),
            None => ObjectType::NoObject,
        }
    }

    /// Whether the heap has room for one more object.
    pub open spec fn has_room(self) -> bool {
        self.heap.len() < MAX_OBJECTS
    }

    /// The address that the next object will get.
    pub open spec fn next_address(self) -> usize {
        address_of(self.heap.len() as int) as usize
    }

    /// A new object as allocation makes it: unmarked, unlinked, of the kind
    /// `tag`, without references.
    pub open spec fn fresh(tag: u32, size: u32, body: BodyModel) -> ObjectModel {
        ObjectModel { mask: with_kind(0, tag), refs: 0, size, live: true, body }
    }

    /// The context with one more object, at `next_address`.
    pub open spec fn with_object(self, tag: u32, size: u32, body: BodyModel) -> ContextView {
        ContextView { heap: self.heap.push(Self::fresh(tag, size, body)), ..self }
    }

    /// The context with the object in slot `index` replaced.
    pub open spec fn with_slot(self, index: int, obj: ObjectModel) -> ContextView {
        ContextView { heap: self.heap.update(index, obj), ..self }
    }

    /// The context with the live object at `ptr` replaced by `obj`.
    pub open spec fn with_object_at(self, ptr: usize, obj: ObjectModel) -> ContextView {
        match self.slot(ptr) {
            Some(index) => self.with_slot(index, obj),
            None => self,
        }
    }
}

impl Context {
    /// The context of the engine at the address `ptr`, in which the host
    /// has built nothing yet. There is no context at the null address.
    pub fn from_raw(ptr: usize) -> (ctx: Option<Self>)
        ensures
            ctx is None <==> ptr == 0,
            ctx matches Some(made) ==> made@ == Self::opened(ptr),
    {
        if ptr == 0 {
            None
        } else {
            Some(Self::from_raw_unchecked(ptr))
        }
    }

    /// The context of the engine at the address `ptr`, which the caller
    /// knows not to be null.
    pub fn from_raw_unchecked(ptr: usize) -> (ctx: Self)
        requires
            ptr != 0,
        ensures
            ctx@ == Self::opened(ptr),
    {
        let ctx = Context {
            ptr,
            heap: Vec::new(),
            roots: Vec::new(),
            grey: Vec::new(),
            paused: false,
            gc: GcSettings {
                next_cycle: DEFAULT_NEXT_CYCLE,
                min_size: DEFAULT_MIN_SIZE,
                grey_cap: DEFAULT_GREY_CAP,
                growth_pct: DEFAULT_GROWTH_PCT,
                pause_growth_pct: DEFAULT_PAUSE_GROWTH_PCT,
            },
            modules: Vec::new(),
            module_paths: Vec::new(),
            type_names: Vec::new(),
            prelude: Vec::new(),
            threads: Vec::new(),
        };
        assert(ctx@.heap =~= Seq::empty());
        ctx
    }

    /// The picture of a context in which nothing has been built.
    pub open spec fn opened(ptr: usize) -> ContextView {
        ContextView {
            ptr,
            heap: Seq::empty(),
            roots: Seq::empty(),
            grey: Seq::empty(),
            paused: false,
            gc: GcSettings {
                next_cycle: 0x0010_0000,
                min_size: 0x0010_0000,
                grey_cap: 32,
                growth_pct: 175,
                pause_growth_pct: 300,
            },
            modules: Seq::empty(),
            module_paths: Seq::empty(),
            type_names: Seq::empty(),
            prelude: Seq::empty(),
            threads: Seq::empty(),
        }
    }

    /// The address of the engine's context.
    pub fn as_ptr(&self) -> (ptr: usize)
        ensures
            ptr == self@.ptr,
    {
        self.ptr
    }

    /// The slot of the live object at the address `ptr`.
    pub fn slot(&self, ptr: usize) -> (index: Option<usize>)
        ensures
            index is Some == self@.slot(ptr) is Some,
            index matches Some(i) ==> self@.slot(ptr) == Some(i as int) && i < self.heap.len(),
    {
        if ptr == 0 || ptr % 8 != 0 {
            return None;
        }
        let number: usize = ptr / 8;
        if number > self.heap.len() {
            return None;
        }
        let index: usize = number - 1;
        if self.heap[index].live {
            Some(index)
        } else {
            None
        }
    }

    /// Whether a live object lies at the address of `obj`.
    pub fn is_live(&self, obj: Object) -> (live: bool)
        ensures
            live == self@.is_live(obj.ptr),
    {
        self.slot(obj.ptr).is_some()
    }

    /// The header word of `obj`, if it is a live object.
    pub fn mask(&self, obj: Object) -> (mask: Option<u64>)
        ensures
            mask == self@.header(obj.ptr),
    {
        match self.slot(obj.ptr) {
            Some(index) => Some(self.heap[index].mask),
            None => None,
        }
    }

    /// The kind that the header of `obj` names; `NoObject` where `obj` is
    /// no live object.
    pub fn object_type(&self, obj: Object) -> (kind: ObjectType)
        ensures
            kind == self@.kind(obj.ptr),
    {
        match self.mask(obj) {
            Some(mask) => ObjectType::from_mask(mask),
            None => ObjectType::NoObject,
        }
    }

    /// Put a new object on the heap and give its address, or give null and
    /// change nothing where the heap is full.
    pub(crate) fn place(&mut self, tag: u32, size: u32, body: Body) -> (ptr: usize)
        ensures
            old(self)@.has_room() ==> ptr == old(self)@.next_address() && ptr != 0 && final(self)@
                == old(self)@.with_object(tag, size, body@),
            !old(self)@.has_room() ==> ptr == 0 && final(self)@ == old(self)@,
    {
        if self.heap.len() >= MAX_OBJECTS {
            return 0;
        }
        let mut mask: u64 = 0;
        set_type(&mut mask, tag);
        let ptr: usize = (self.heap.len() + 1) * 8;
        self.heap.push(HeapObject { mask, refs: 0, size, live: true, body });
        assert(self@.heap =~= old(self)@.heap.push(ContextView::fresh(tag, size, body@)));
        ptr
    }

    /// Allocate an object of `full_size` bytes whose header names the kind
    /// `obj_type`. The heap holds nothing of it but the header. Fails, and
    /// changes nothing, where the heap is full.
    pub fn allocate(&mut self, full_size: u32, obj_type: u32) -> (obj: Option<Object>)
        ensures
            obj is Some == old(self)@.has_room(),
            obj matches Some(made) ==> made.ptr == old(self)@.next_address() && final(self)@
                == old(self)@.with_object(obj_type, full_size, BodyModel::Raw),
            obj is None ==> final(self)@ == old(self)@,
    {
        let ptr = self.place(obj_type, full_size, Body::Raw);
        Object::from_raw(ptr)
    }
}

/// A new object is live, has the kind it was allocated with, and leaves
/// every object that was there before as it was.
pub proof fn lemma_allocated_object(ctx: ContextView, tag: u32, size: u32, body: BodyModel, other: usize)
    requires
        ctx.has_room(),
        tag <= 0xFF,
    ensures
        ctx.with_object(tag, size, body).is_live(ctx.next_address()),
        !ctx.is_live(ctx.next_address()),
        ctx.with_object(tag, size, body).kind(ctx.next_address()) == ObjectType::of_tag(tag),
        ctx.with_object(tag, size, body).object(ctx.next_address()).body == body,
        ctx.is_live(other) ==> ctx.with_object(tag, size, body).is_live(other) && ctx.with_object(
            tag,
            size,
            body,
        ).object(other) == ctx.object(other),
        other != ctx.next_address() ==> ctx.with_object(tag, size, body).is_live(other)
            == ctx.is_live(other),
{
    lemma_kind_written(0, tag);
}

} // verus!
