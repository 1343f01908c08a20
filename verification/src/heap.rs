//! What the heap of a context holds: for every object its header word, its
//! reference count and the data of its kind; and the mathematical picture
//! of all of it, in which the contracts of a context are stated.

use vstd::prelude::*;
use crate::bt_object::BoltString;
use crate::bt_object::Type;
use crate::value::Value;

verus! {

/// The types that every context holds from the start.
#[derive(Debug, Clone, Copy, PartialEq, Eq, Structural)]
pub enum ScalarKind {
    Any,
    Null,
    Number,
    Bool,
    String,
    Array,
    Table,
    Type,
}

/// One field of the layout of a tableshape.
#[derive(Debug, Clone, Copy, PartialEq, Eq)]
pub struct LayoutField {
    pub key: Value,
    /// The type of the key, where one was given.
    pub key_type: Option<Type>,
    pub value_type: Type,
}

/// The value that a type holds under a key.
#[derive(Debug, Clone, Copy, PartialEq, Eq, Structural)]
pub struct FieldValue {
    pub key: Value,
    pub value: Value,
}

/// The annotations attached to a field of a tableshape: the address of the
/// first node of the list.
#[derive(Debug, Clone, Copy, PartialEq, Eq, Structural)]
pub struct FieldAnnotations {
    pub key: Value,
    pub annotations: usize,
}

/// One option of an enum type.
#[derive(Debug, Clone, Copy, PartialEq, Eq, Structural)]
pub struct EnumOption {
    pub name: BoltString,
    pub value: Value,
}

/// What the bytes of a userdata field are, where the engine reads and
/// writes them.
#[derive(Debug, Clone, Copy, PartialEq, Eq, Structural)]
pub enum FieldKind {
    Float,
    Double,
    Int8,
    Int16,
    Int32,
    Int64,
    Uint8,
    Uint16,
    Uint32,
    Uint64,
    String,
    Bool,
}

/// Who reads and writes a userdata field.
#[derive(Debug, Clone, Copy, PartialEq, Eq, Structural)]
pub enum FieldAccess {
    /// The engine, which takes the bytes of the field for a `FieldKind`.
    Engine(FieldKind),
    /// Two procedures of the host, given by address.
    Host { getter: usize, setter: usize },
}

/// One field of a userdata type: where it lies in the data and what
/// scripts see it as.
#[derive(Debug, Clone, Copy, PartialEq, Eq, Structural)]
pub struct UserField {
    pub name: BoltString,
    pub offset: u32,
    pub field_type: Type,
    pub access: FieldAccess,
}

/// One export of a module.
#[derive(Debug, Clone, Copy, PartialEq, Eq, Structural)]
pub struct Export {
    pub key: Value,
    pub type_: Type,
    pub value: Value,
}

/// The data of a type object.
#[derive(Debug)]
pub enum TypeBody {
    Scalar(ScalarKind),
    Alias { name: BoltString, target: Type },
    Union { variants: Vec<Type> },
    ArrayOf { element: Type },
    MapOf { key: Type, value: Type },
    TableShape {
        name: BoltString,
        sealed: bool,
        parent: Option<Type>,
        layout: Vec<LayoutField>,
        values: Vec<FieldValue>,
        annotations: Vec<FieldAnnotations>,
    },
    Enum { name: BoltString, sealed: bool, options: Vec<EnumOption> },
    UserData { name: BoltString, fields: Vec<UserField> },
    Signature { params: Vec<Type>, ret: Type, vararg: Option<Type> },
    /// A type of the host's own. Whether a type fits it is decided by the
    /// procedure of the host at the address `satisfier`: a bare address,
    /// so the procedure has no state to capture.
    Primitive { name: BoltString, satisfier: usize },
}

/// The picture of the data of a type object.
#[verifier::ext_equal]
pub enum TypeModel {
    Scalar(ScalarKind),
    Alias { name: BoltString, target: Type },
    Union { variants: Seq<Type> },
    ArrayOf { element: Type },
    MapOf { key: Type, value: Type },
    TableShape {
        name: BoltString,
        sealed: bool,
        parent: Option<Type>,
        layout: Seq<LayoutField>,
        values: Seq<FieldValue>,
        annotations: Seq<FieldAnnotations>,
    },
    Enum { name: BoltString, sealed: bool, options: Seq<EnumOption> },
    UserData { name: BoltString, fields: Seq<UserField> },
    Signature { params: Seq<Type>, ret: Type, vararg: Option<Type> },
    Primitive { name: BoltString, satisfier: usize },
}

impl View for TypeBody {
    type V = TypeModel;

    open spec fn view(&self) -> TypeModel {
        match self {
            TypeBody::Scalar(kind) => TypeModel::Scalar(*kind),
            TypeBody::Alias { name, target } => TypeModel::Alias { name: *name, target: *target },
            TypeBody::Union { variants } => TypeModel::Union { variants: variants@ },
            TypeBody::ArrayOf { element } => TypeModel::ArrayOf { element: *element },
            TypeBody::MapOf { key, value } => TypeModel::MapOf { key: *key, value: *value },
            TypeBody::TableShape { name, sealed, parent, layout, values, annotations } => {
                TypeModel::TableShape {
                    name: *name,
                    sealed: *sealed,
                    parent: *parent,
                    layout: layout@,
                    values: values@,
                    annotations: annotations@,
                }
            },
            TypeBody::Enum { name, sealed, options } => TypeModel::Enum {
                name: *name,
                sealed: *sealed,
                options: options@,
            },
            TypeBody::UserData { name, fields } => TypeModel::UserData {
                name: *name,
                fields: fields@,
            },
            TypeBody::Signature { params, ret, vararg } => TypeModel::Signature {
                params: params@,
                ret: *ret,
                vararg: *vararg,
            },
            TypeBody::Primitive { name, satisfier } => TypeModel::Primitive {
                name: *name,
                satisfier: *satisfier,
            },
        }
    }
}

/// The data of a heap object, after its header.
#[derive(Debug)]
pub enum Body {
    /// Memory that the host laid out itself, or that was given back.
    Raw,
    Type(TypeBody),
    /// The bytes of a string, without a terminator.
    String(Vec<u8>),
    Module { exports: Vec<Export> },
    /// A procedure of the host, given by address, with the module it
    /// belongs to and its signature.
    NativeFunction { module: usize, signature: Type, procedure: usize },
    /// A block of host data, given by address.
    UserData { type_: Type, data: usize, size: u32 },
    Annotation { name: BoltString, values: Vec<Value>, next: usize },
    /// The elements of an array, and how many it was made to hold.
    Array { items: Vec<Value>, capacity: u32 },
    /// The pairs of a table, one for each key, and how many it was made to
    /// hold.
    Table { pairs: Vec<FieldValue>, capacity: u16 },
}

/// The picture of the data of a heap object.
#[verifier::ext_equal]
pub enum BodyModel {
    Raw,
    Type(TypeModel),
    String(Seq<u8>),
    Module { exports: Seq<Export> },
    NativeFunction { module: usize, signature: Type, procedure: usize },
    UserData { type_: Type, data: usize, size: u32 },
    Annotation { name: BoltString, values: Seq<Value>, next: usize },
    Array { items: Seq<Value>, capacity: u32 },
    Table { pairs: Seq<FieldValue>, capacity: u16 },
}

impl View for Body {
    type V = BodyModel;

    open spec fn view(&self) -> BodyModel {
        match self {
            Body::Raw => BodyModel::Raw,
            Body::Type(body) => BodyModel::Type(body@),
            Body::String(bytes) => BodyModel::String(bytes@),
            Body::Module { exports } => BodyModel::Module { exports: exports@ },
            Body::NativeFunction { module, signature, procedure } => BodyModel::NativeFunction {
                module: *module,
                signature: *signature,
                procedure: *procedure,
            },
            Body::UserData { type_, data, size } => BodyModel::UserData {
                type_: *type_,
                data: *data,
                size: *size,
            },
            Body::Annotation { name, values, next } => BodyModel::Annotation {
                name: *name,
                values: values@,
                next: *next,
            },
            Body::Array { items, capacity } => BodyModel::Array {
                items: items@,
                capacity: *capacity,
            },
            Body::Table { pairs, capacity } => BodyModel::Table {
                pairs: pairs@,
                capacity: *capacity,
            },
        }
    }
}

/// One object of the heap.
#[derive(Debug)]
pub struct HeapObject {
    /// The header word.
    pub mask: u64,
    /// How many references the host has added and not removed.
    pub refs: u32,
    /// The size in bytes that the object was allocated with.
    pub size: u32,
    /// Whether the object is still allocated.
    pub live: bool,
    pub body: Body,
}

/// The picture of one object of the heap.
#[verifier::ext_equal]
pub struct ObjectModel {
    pub mask: u64,
    pub refs: u32,
    pub size: u32,
    pub live: bool,
    pub body: BodyModel,
}

impl View for HeapObject {
    type V = ObjectModel;

    open spec fn view(&self) -> ObjectModel {
        ObjectModel {
            mask: self.mask,
            refs: self.refs,
            size: self.size,
            live: self.live,
            body: self.body@,
        }
    }
}

/// The most objects that a heap holds, live and freed together. Addresses
/// of objects stay below 2^32.
pub const MAX_OBJECTS: usize = 0x0FFF_FFFF;

/// The address of the object in slot `index` of the heap.
pub open spec fn address_of(index: int) -> int {
    (index + 1) * 8
}

/// The slot of the heap that the address `ptr` names, if it names one of
/// the first `len` slots.
pub open spec fn slot_of(ptr: usize, len: nat) -> Option<int> {
    if ptr != 0 && ptr % 8 == 0 && ptr / 8 <= len {
        Some(ptr / 8 - 1)
    } else {
        None
    }
}

/// An address names the slot whose address it is, and no other.
pub proof fn lemma_address_names_slot(index: int, len: nat)
    requires
        0 <= index < len,
        len <= MAX_OBJECTS,
    ensures
        0 < address_of(index) <= usize::MAX,
        slot_of(address_of(index) as usize, len) == Some(index),
{
}

/// The slot that an address names has that address.
pub proof fn lemma_slot_has_address(ptr: usize, len: nat)
    ensures
        slot_of(ptr, len) matches Some(index) ==> 0 <= index < len && address_of(index) == ptr,
{
}

} // verus!
