//! Heap objects as the host sees them: the kind stored in the header, a
//! handle for each kind, and the description of an object read from its
//! header and leading fields.

use vstd::prelude::*;
use crate::object_mask::get_type;
use crate::object_mask::kind_of;

verus! {

/// The header value of no kind.
pub const OBJECT_TYPE_NONE: u32 = 0;

/// The header value of a type.
pub const OBJECT_TYPE_TYPE: u32 = 1;

/// The header value of a string.
pub const OBJECT_TYPE_STRING: u32 = 2;

/// The header value of a module.
pub const OBJECT_TYPE_MODULE: u32 = 3;

/// The header value of an import.
pub const OBJECT_TYPE_IMPORT: u32 = 4;

/// The header value of a function.
pub const OBJECT_TYPE_FN: u32 = 5;

/// The header value of a native function.
pub const OBJECT_TYPE_NATIVE_FN: u32 = 6;

/// The header value of a closure.
pub const OBJECT_TYPE_CLOSURE: u32 = 7;

/// The header value of an array.
pub const OBJECT_TYPE_ARRAY: u32 = 8;

/// The header value of a table.
pub const OBJECT_TYPE_TABLE: u32 = 9;

/// The header value of userdata.
pub const OBJECT_TYPE_USERDATA: u32 = 10;

/// The header value of an annotation.
pub const OBJECT_TYPE_ANNOTATION: u32 = 11;

/// The kind of a heap object, as its header records it.
#[derive(Debug, Clone, Copy, PartialEq, Eq, Structural)]
pub enum ObjectType {
    /// The header names no kind.
    NoObject,
    Type,
    String,
    Module,
    Import,
    Function,
    NativeFunction,
    Closure,
    Array,
    Table,
    UserData,
    Annotation,
}

impl ObjectType {
    /// The kind that the header value `tag` stands for. Values that name no
    /// kind stand for `NoObject`.
    pub open spec fn of_tag(tag: u32) -> ObjectType {
        if tag == 1 {
            ObjectType::Type
        } else if tag == 2 {
            ObjectType::String
        } else if tag == 3 {
            ObjectType::Module
        } else if tag == 4 {
            ObjectType::Import
        } else if tag == 5 {
            ObjectType::Function
        } else if tag == 6 {
            ObjectType::NativeFunction
        } else if tag == 7 {
            ObjectType::Closure
        } else if tag == 8 {
            ObjectType::Array
        } else if tag == 9 {
            ObjectType::Table
        } else if tag == 10 {
            ObjectType::UserData
        } else if tag == 11 {
            ObjectType::Annotation
        } else {
            ObjectType::NoObject
        }
    }

    /// The header value of this kind.
    pub open spec fn tag_of(self) -> u32 {
        match self {
            ObjectType::NoObject => 0,
            ObjectType::Type => 1,
            ObjectType::String => 2,
            ObjectType::Module => 3,
            ObjectType::Import => 4,
            ObjectType::Function => 5,
            ObjectType::NativeFunction => 6,
            ObjectType::Closure => 7,
            ObjectType::Array => 8,
            ObjectType::Table => 9,
            ObjectType::UserData => 10,
            ObjectType::Annotation => 11,
        }
    }

    /// Create an ObjectType from the header word of an object.
    pub fn from_mask(mask: u64) -> (kind: Self)
        ensures
            kind == Self::of_tag(kind_of(mask)),
    {
        let type_value = get_type(mask);
        Self::from_tag(type_value)
    }

    /// The kind that a header value stands for.
    pub fn from_tag(tag: u32) -> (kind: Self)
        ensures
            kind == Self::of_tag(tag),
    {
        if tag == OBJECT_TYPE_TYPE {
            ObjectType::Type
        } else if tag == OBJECT_TYPE_STRING {
            ObjectType::String
        } else if tag == OBJECT_TYPE_MODULE {
            ObjectType::Module
        } else if tag == OBJECT_TYPE_IMPORT {
            ObjectType::Import
        } else if tag == OBJECT_TYPE_FN {
            ObjectType::Function
        } else if tag == OBJECT_TYPE_NATIVE_FN {
            ObjectType::NativeFunction
        } else if tag == OBJECT_TYPE_CLOSURE {
            ObjectType::Closure
        } else if tag == OBJECT_TYPE_ARRAY {
            ObjectType::Array
        } else if tag == OBJECT_TYPE_TABLE {
            ObjectType::Table
        } else if tag == OBJECT_TYPE_USERDATA {
            ObjectType::UserData
        } else if tag == OBJECT_TYPE_ANNOTATION {
            ObjectType::Annotation
        } else {
            ObjectType::NoObject
        }
    }

    /// The header value of this kind, to be written with `set_type`.
    pub fn tag(&self) -> (tag: u32)
        ensures
            tag == self.tag_of(),
            tag <= 11,
    {
        match self {
            ObjectType::NoObject => OBJECT_TYPE_NONE,
            ObjectType::Type => OBJECT_TYPE_TYPE,
            ObjectType::String => OBJECT_TYPE_STRING,
            ObjectType::Module => OBJECT_TYPE_MODULE,
            ObjectType::Import => OBJECT_TYPE_IMPORT,
            ObjectType::Function => OBJECT_TYPE_FN,
            ObjectType::NativeFunction => OBJECT_TYPE_NATIVE_FN,
            ObjectType::Closure => OBJECT_TYPE_CLOSURE,
            ObjectType::Array => OBJECT_TYPE_ARRAY,
            ObjectType::Table => OBJECT_TYPE_TABLE,
            ObjectType::UserData => OBJECT_TYPE_USERDATA,
            ObjectType::Annotation => OBJECT_TYPE_ANNOTATION,
        }
    }
}

impl From<u32> for ObjectType {
    fn from(tag: u32) -> (kind: Self) {
        Self::from_tag(tag)
    }
}

impl vstd::std_specs::convert::FromSpecImpl<u32> for ObjectType {
    open spec fn obeys_from_spec() -> bool {
        true
    }

    open spec fn from_spec(tag: u32) -> Self {
        Self::of_tag(tag)
    }
}

/// Every kind is read back from its own header value, and a header value
/// that names a kind is the value of that kind.
pub proof fn lemma_tag_round_trip(kind: ObjectType, tag: u32)
    ensures
        ObjectType::of_tag(kind.tag_of()) == kind,
        tag <= 11 ==> ObjectType::of_tag(tag).tag_of() == tag,
        tag > 11 ==> ObjectType::of_tag(tag) == ObjectType::NoObject,
{
}

/// Any heap object, whatever its kind.
#[derive(Debug, Clone, Copy, PartialEq, Eq, Structural)]
pub struct Object {
    pub ptr: usize,
}

impl Object {
    /// A handle is well formed when it holds an address other than null.
    pub open spec fn wf(&self) -> bool {
        self.ptr != 0
    }

    /// The handle for the object at the address `ptr`; none for null.
    pub fn from_raw(ptr: usize) -> (handle: Option<Self>)
        ensures
            handle == (if ptr == 0 { None } else { Some(Object { ptr }) }),
            handle matches Some(made) ==> made.wf(),
    {
        if ptr == 0 {
            None
        } else {
            Some(Self { ptr })
        }
    }

    /// The address of the object.
    pub fn as_raw(&self) -> (ptr: usize)
        ensures
            ptr == self.ptr,
    {
        self.ptr
    }
}

/// A type descriptor object.
#[derive(Debug, Clone, Copy, PartialEq, Eq, Structural)]
pub struct Type {
    pub ptr: usize,
}

impl Type {
    /// A handle is well formed when it holds an address other than null.
    pub open spec fn wf(&self) -> bool {
        self.ptr != 0
    }

    /// The handle for the object at the address `ptr`; none for null.
    pub fn from_raw(ptr: usize) -> (handle: Option<Self>)
        ensures
            handle == (if ptr == 0 { None } else { Some(Type { ptr }) }),
            handle matches Some(made) ==> made.wf(),
    {
        if ptr == 0 {
            None
        } else {
            Some(Self { ptr })
        }
    }

    /// The address of the object.
    pub fn as_raw(&self) -> (ptr: usize)
        ensures
            ptr == self.ptr,
    {
        self.ptr
    }

    /// The same object, seen without its kind.
    pub fn as_object(&self) -> (obj: Object)
        ensures
            obj.ptr == self.ptr,
    {
        Object { ptr: self.ptr }
    }
}

/// An interned string object.
#[derive(Debug, Clone, Copy, PartialEq, Eq, Structural)]
pub struct BoltString {
    pub ptr: usize,
}

impl BoltString {
    /// A handle is well formed when it holds an address other than null.
    pub open spec fn wf(&self) -> bool {
        self.ptr != 0
    }

    /// The handle for the object at the address `ptr`; none for null.
    pub fn from_raw(ptr: usize) -> (handle: Option<Self>)
        ensures
            handle == (if ptr == 0 { None } else { Some(BoltString { ptr }) }),
            handle matches Some(made) ==> made.wf(),
    {
        if ptr == 0 {
            None
        } else {
            Some(Self { ptr })
        }
    }

    /// The address of the object.
    pub fn as_raw(&self) -> (ptr: usize)
        ensures
            ptr == self.ptr,
    {
        self.ptr
    }

    /// The same object, seen without its kind.
    pub fn as_object(&self) -> (obj: Object)
        ensures
            obj.ptr == self.ptr,
    {
        Object { ptr: self.ptr }
    }
}

/// A module object, with the name and path it was found under where known.
#[derive(Debug, Clone)]
pub struct Module {
    pub ptr: usize,
    /// Module name if available
    pub name: Option<String>,
    /// Module path if available
    pub path: Option<String>,
}

impl Module {
    /// A handle is well formed when it holds an address other than null.
    pub open spec fn wf(&self) -> bool {
        self.ptr != 0
    }

    /// The handle for the object at the address `ptr`; none for null.
    pub fn from_raw(ptr: usize) -> (handle: Option<Self>)
        ensures
            handle == (if ptr == 0 {
                None
            } else {
                Some(Module { ptr, name: None, path: None })
            }),
            handle matches Some(made) ==> made.wf(),
    {
        if ptr == 0 {
            None
        } else {
            Some(Self { ptr, name: None, path: None })
        }
    }

    /// The address of the object.
    pub fn as_raw(&self) -> (ptr: usize)
        ensures
            ptr == self.ptr,
    {
        self.ptr
    }

    /// The same object, seen without its kind.
    pub fn as_object(&self) -> (obj: Object)
        ensures
            obj.ptr == self.ptr,
    {
        Object { ptr: self.ptr }
    }

    /// The name that the module was found under, where it is known.
    pub fn name(&self) -> (name: Option<&str>)
        ensures
            name is Some == self.name is Some,
            name matches Some(text) ==> text@ == self.name->0@,
    {
        match &self.name {
            Some(text) => Some(text.as_str()),
            None => None,
        }
    }

    /// The path that the module was loaded from, where it is known.
    pub fn path(&self) -> (path: Option<&str>)
        ensures
            path is Some == self.path is Some,
            path matches Some(text) ==> text@ == self.path->0@,
    {
        match &self.path {
            Some(text) => Some(text.as_str()),
            None => None,
        }
    }
}

/// A reference from one module to an export of another.
#[derive(Debug, Clone)]
pub struct Import {
    pub ptr: usize,
    /// Import name
    pub name: Option<String>,
}

/// A function compiled from script source.
#[derive(Debug, Clone, Copy, PartialEq, Eq)]
pub struct Function {
    pub ptr: usize,
    /// Function signature type if available
    pub signature: Option<Type>,
}

/// A function implemented by the host.
#[derive(Debug, Clone, Copy, PartialEq, Eq)]
pub struct NativeFunction {
    pub ptr: usize,
    /// Function type signature if available
    pub type_: Option<Type>,
}

impl NativeFunction {
    /// A handle is well formed when it holds an address other than null.
    pub open spec fn wf(&self) -> bool {
        self.ptr != 0
    }

    /// The handle for the object at the address `ptr`; none for null.
    pub fn from_raw(ptr: usize) -> (handle: Option<Self>)
        ensures
            handle == (if ptr == 0 {
                None
            } else {
                Some(NativeFunction { ptr, type_: None })
            }),
            handle matches Some(made) ==> made.wf(),
    {
        if ptr == 0 {
            None
        } else {
            Some(Self { ptr, type_: None })
        }
    }

    /// The address of the object.
    pub fn as_raw(&self) -> (ptr: usize)
        ensures
            ptr == self.ptr,
    {
        self.ptr
    }

    /// The same object, seen without its kind.
    pub fn as_object(&self) -> (obj: Object)
        ensures
            obj.ptr == self.ptr,
    {
        Object { ptr: self.ptr }
    }
}

/// A function together with the values it captured.
#[derive(Debug, Clone, Copy, PartialEq, Eq, Structural)]
pub struct Closure {
    pub ptr: usize,
    /// Number of upvalues
    pub num_upvalues: u32,
}

/// A growable sequence of values.
#[derive(Debug, Clone, Copy, PartialEq, Eq, Structural)]
pub struct Array {
    pub ptr: usize,
    /// Array length
    pub length: u32,
    /// Array capacity
    pub capacity: u32,
}

/// A table of key and value pairs.
#[derive(Debug, Clone, Copy, PartialEq, Eq, Structural)]
pub struct Table {
    pub ptr: usize,
    /// Number of key-value pairs
    pub length: u16,
    /// Table capacity
    pub capacity: u16,
    /// Whether the table uses inline storage
    pub is_inline: bool,
}

/// A block of host data that scripts see through typed fields.
#[derive(Debug, Clone, Copy, PartialEq, Eq)]
pub struct UserData {
    pub ptr: usize,
    /// Size of user data
    pub size: usize,
    /// Associated type if available
    pub type_: Option<Type>,
}

/// One node of the annotation list of a field.
#[derive(Debug, Clone)]
pub struct Annotation {
    pub ptr: usize,
    /// Annotation name
    pub name: Option<String>,
    /// Address of the next annotation in the chain, or null at its end
    pub next: usize,
}

impl Annotation {
    /// A handle is well formed when it holds an address other than null.
    pub open spec fn wf(&self) -> bool {
        self.ptr != 0
    }

    /// The handle for the object at the address `ptr`; none for null.
    pub fn from_raw(ptr: usize) -> (handle: Option<Self>)
        ensures
            handle == (if ptr == 0 {
                None
            } else {
                Some(Annotation { ptr, name: None, next: 0 })
            }),
            handle matches Some(made) ==> made.wf(),
    {
        if ptr == 0 {
            None
        } else {
            Some(Self { ptr, name: None, next: 0 })
        }
    }

    /// The address of the object.
    pub fn as_raw(&self) -> (ptr: usize)
        ensures
            ptr == self.ptr,
    {
        self.ptr
    }
}

/// The header and the leading fields of an object, as read from the heap.
/// Which of the fields mean anything is decided by the kind in `mask`.
#[derive(Debug, Clone, Copy)]
pub struct RawObject {
    /// The header word.
    pub mask: u64,
    /// Functions: address of the signature type, or null.
    pub signature: usize,
    /// Native functions and userdata: address of the type, or null.
    pub type_: usize,
    /// Closures: number of captured values.
    pub num_upv: u32,
    /// Arrays: number of elements.
    pub array_length: u32,
    /// Arrays: number of elements that fit without growing.
    pub array_capacity: u32,
    /// Tables: number of pairs.
    pub table_length: u16,
    /// Tables: number of pairs that fit without growing.
    pub table_capacity: u16,
    /// Tables: whether the pairs are stored inside the object.
    pub is_inline: bool,
    /// Userdata: size of the data in bytes.
    pub size: usize,
    /// Annotations: address of the next annotation, or null.
    pub next: usize,
}

/// An object together with what its kind says about it.
#[derive(Debug)]
pub enum BoltObject {
    /// No object or invalid object
    NoObject,
    /// Type object
    Type(Type),
    /// String object containing UTF-8 text
    String(BoltString),
    /// Compiled bolt module
    Module(Module),
    /// Module import reference
    Import(Import),
    /// Bolt-defined function
    Function(Function),
    /// Native function reference
    NativeFunction(NativeFunction),
    /// Closure with captured upvalues
    Closure(Closure),
    /// Dynamic array
    Array(Array),
    /// Key-value table/map
    Table(Table),
    /// Opaque user data
    UserData(UserData),
    /// Type or field annotation
    Annotation(Annotation),
}

/// The type handle for an address read from an object, none for null.
pub open spec fn type_at(ptr: usize) -> Option<Type> {
    if ptr == 0 {
        None
    } else {
        Some(Type { ptr })
    }
}

impl BoltObject {
    /// The description of the object at the address `ptr`, which is not
    /// null, whose header and leading fields are `raw`.
    pub open spec fn described(ptr: usize, raw: RawObject) -> BoltObject {
        match ObjectType::of_tag(kind_of(raw.mask)) {
            ObjectType::NoObject => BoltObject::NoObject,
            ObjectType::Type => BoltObject::Type(Type { ptr }),
            ObjectType::String => BoltObject::String(BoltString { ptr }),
            ObjectType::Module => BoltObject::Module(Module { ptr, name: None, path: None }),
            ObjectType::Import => BoltObject::Import(Import { ptr, name: None }),
            ObjectType::Function => BoltObject::Function(
                Function { ptr, signature: type_at(raw.signature) },
            ),
            ObjectType::NativeFunction => BoltObject::NativeFunction(
                NativeFunction { ptr, type_: type_at(raw.type_) },
            ),
            ObjectType::Closure => BoltObject::Closure(
                Closure { ptr, num_upvalues: raw.num_upv },
            ),
            ObjectType::Array => BoltObject::Array(
                Array { ptr, length: raw.array_length, capacity: raw.array_capacity },
            ),
            ObjectType::Table => BoltObject::Table(
                Table {
                    ptr,
                    length: raw.table_length,
                    capacity: raw.table_capacity,
                    is_inline: raw.is_inline,
                },
            ),
            ObjectType::UserData => BoltObject::UserData(
                UserData { ptr, size: raw.size, type_: type_at(raw.type_) },
            ),
            ObjectType::Annotation => BoltObject::Annotation(
                Annotation { ptr, name: None, next: raw.next },
            ),
        }
    }

    /// The kind of the described object.
    pub open spec fn kind(&self) -> ObjectType {
        match self {
            BoltObject::NoObject => ObjectType::NoObject,
            BoltObject::Type(_) => ObjectType::Type,
            BoltObject::String(_) => ObjectType::String,
            BoltObject::Module(_) => ObjectType::Module,
            BoltObject::Import(_) => ObjectType::Import,
            BoltObject::Function(_) => ObjectType::Function,
            BoltObject::NativeFunction(_) => ObjectType::NativeFunction,
            BoltObject::Closure(_) => ObjectType::Closure,
            BoltObject::Array(_) => ObjectType::Array,
            BoltObject::Table(_) => ObjectType::Table,
            BoltObject::UserData(_) => ObjectType::UserData,
            BoltObject::Annotation(_) => ObjectType::Annotation,
        }
    }

    /// The address of the described object, null for `NoObject`.
    pub open spec fn addr(&self) -> usize {
        match self {
            BoltObject::NoObject => 0,
            BoltObject::Type(obj) => obj.ptr,
            BoltObject::String(obj) => obj.ptr,
            BoltObject::Module(obj) => obj.ptr,
            BoltObject::Import(obj) => obj.ptr,
            BoltObject::Function(obj) => obj.ptr,
            BoltObject::NativeFunction(obj) => obj.ptr,
            BoltObject::Closure(obj) => obj.ptr,
            BoltObject::Array(obj) => obj.ptr,
            BoltObject::Table(obj) => obj.ptr,
            BoltObject::UserData(obj) => obj.ptr,
            BoltObject::Annotation(obj) => obj.ptr,
        }
    }

    /// Describe the object at the address `ptr` from its header and leading
    /// fields. A null address describes nothing; a header that names no
    /// kind describes `BoltObject::NoObject`.
    pub fn from_raw(ptr: usize, raw: &RawObject) -> (described: Option<Self>)
        ensures
            described == (if ptr == 0 {
                None
            } else {
                Some(Self::described(ptr, *raw))
            }),
    {
        if ptr == 0 {
            return None;
        }
        let object_type = ObjectType::from_mask(raw.mask);

        match object_type {
            ObjectType::NoObject => Some(BoltObject::NoObject),
            ObjectType::Type => Some(BoltObject::Type(Type { ptr })),
            ObjectType::String => Some(BoltObject::String(BoltString { ptr })),
            ObjectType::Module => Some(
                BoltObject::Module(Module { ptr, name: None, path: None }),
            ),
            ObjectType::Import => Some(BoltObject::Import(Import { ptr, name: None })),
            ObjectType::Function => Some(
                BoltObject::Function(Function { ptr, signature: Type::from_raw(raw.signature) }),
            ),
            ObjectType::NativeFunction => Some(
                BoltObject::NativeFunction(
                    NativeFunction { ptr, type_: Type::from_raw(raw.type_) },
                ),
            ),
            ObjectType::Closure => Some(
                BoltObject::Closure(Closure { ptr, num_upvalues: raw.num_upv }),
            ),
            ObjectType::Array => Some(
                BoltObject::Array(
                    Array { ptr, length: raw.array_length, capacity: raw.array_capacity },
                ),
            ),
            ObjectType::Table => Some(
                BoltObject::Table(
                    Table {
                        ptr,
                        length: raw.table_length,
                        capacity: raw.table_capacity,
                        is_inline: raw.is_inline,
                    },
                ),
            ),
            ObjectType::UserData => Some(
                BoltObject::UserData(
                    UserData { ptr, size: raw.size, type_: Type::from_raw(raw.type_) },
                ),
            ),
            ObjectType::Annotation => Some(
                BoltObject::Annotation(Annotation { ptr, name: None, next: raw.next }),
            ),
        }
    }

    /// Get the object type of this BoltObject
    pub fn object_type(&self) -> (kind: ObjectType)
        ensures
            kind == self.kind(),
    {
        match self {
            BoltObject::NoObject => ObjectType::NoObject,
            BoltObject::Type(_) => ObjectType::Type,
            BoltObject::String(_) => ObjectType::String,
            BoltObject::Module(_) => ObjectType::Module,
            BoltObject::Import(_) => ObjectType::Import,
            BoltObject::Function(_) => ObjectType::Function,
            BoltObject::NativeFunction(_) => ObjectType::NativeFunction,
            BoltObject::Closure(_) => ObjectType::Closure,
            BoltObject::Array(_) => ObjectType::Array,
            BoltObject::Table(_) => ObjectType::Table,
            BoltObject::UserData(_) => ObjectType::UserData,
            BoltObject::Annotation(_) => ObjectType::Annotation,
        }
    }

    /// Check if this is a None/invalid object
    pub fn is_none(&self) -> (none: bool)
        ensures
            none == (self is NoObject),
    {
        match self {
            BoltObject::NoObject => true,
            _ => false,
        }
    }

    /// Get the address of the underlying object, null for `NoObject`.
    pub fn as_raw_ptr(&self) -> (ptr: usize)
        ensures
            ptr == self.addr(),
    {
        match self {
            BoltObject::NoObject => 0,
            BoltObject::Type(obj) => obj.ptr,
            BoltObject::String(obj) => obj.ptr,
            BoltObject::Module(obj) => obj.ptr,
            BoltObject::Import(obj) => obj.ptr,
            BoltObject::Function(obj) => obj.ptr,
            BoltObject::NativeFunction(obj) => obj.ptr,
            BoltObject::Closure(obj) => obj.ptr,
            BoltObject::Array(obj) => obj.ptr,
            BoltObject::Table(obj) => obj.ptr,
            BoltObject::UserData(obj) => obj.ptr,
            BoltObject::Annotation(obj) => obj.ptr,
        }
    }
}

/// A description has the kind that its header names, and the address it was
/// read at unless the header names no kind.
pub proof fn lemma_described_kind(ptr: usize, raw: RawObject)
    ensures
        BoltObject::described(ptr, raw).kind() == ObjectType::of_tag(kind_of(raw.mask)),
        BoltObject::described(ptr, raw) !is NoObject ==> BoltObject::described(ptr, raw).addr() == ptr,
{
}

} // verus!
