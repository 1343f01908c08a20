//! Taking values as host types and making values from host types.
//!
//! Taking a value checks it first: the result is either the host value or
//! an error that names the kind that was expected and the kind that was
//! found. The unchecked forms leave the check to the caller.

use vstd::prelude::*;
use crate::bt_object::Array;
use crate::bt_object::BoltObject;
use crate::bt_object::BoltString;
use crate::bt_object::Function;
use crate::bt_object::Module;
use crate::bt_object::Object;
use crate::bt_object::ObjectType;
use crate::bt_object::RawObject;
use crate::bt_object::Table;
use crate::bt_object::Type;
use crate::context::Context;
use crate::context::ContextView;
use crate::error::ArgError;
use crate::heap::Body;
use crate::heap::BodyModel;
use crate::value::object_value;
use crate::value::Held;
use crate::value::Value;
use crate::value::ValueType;

verus! {

/// Types which can be extracted from a value.
pub trait FromBoltValue: Sized {
    /// What taking `val` as this type gives, on the heap of `ctx`.
    spec fn taken(val: Value, ctx: ContextView) -> Result<Self, ArgError>;

    /// Check the kind of `val`, then take it.
    fn from(val: Value, ctx: &Context) -> (taken: Result<Self, ArgError>)
        ensures
            taken == Self::taken(val, ctx@),
    ;

    /// Take `val` without checking. For callers that know from elsewhere
    /// that the check would pass, such as a native function whose
    /// signature the engine has held its caller to.
    fn from_unchecked(val: Value, ctx: &Context) -> (taken: Self)
        requires
            Self::taken(val, ctx@) is Ok,
        ensures
            Self::taken(val, ctx@) == Ok::<Self, ArgError>(taken),
    ;
}

/// Types which can be boxed into values without help from the context.
pub trait MakeBoltValue: Sized {
    /// The value that `make` gives.
    spec fn made(&self) -> Value;

    /// Box this host value into a value.
    fn make(&self) -> (value: Value)
        ensures
            value == self.made(),
    ;
}

/// Types which can be boxed into values, but need the context for it:
/// making the value puts an object on the heap.
pub trait MakeBoltValueWithContext: Sized {
    /// The context after `make_with_context`.
    spec fn context_after(&self, ctx: ContextView) -> ContextView;

    /// The value that `make_with_context` gives.
    spec fn made_in(&self, ctx: ContextView) -> Value;

    /// Box this host value into a value, putting what it needs on the heap
    /// of `ctx`.
    fn make_with_context(&self, ctx: &mut Context) -> (value: Value)
        ensures
            value == self.made_in(old(ctx)@),
            final(ctx)@ == self.context_after(old(ctx)@),
    ;
}

/// A number, as its IEEE 754 binary64 bit pattern.
#[derive(Debug, Clone, Copy, PartialEq, Eq, Structural)]
pub struct Number(pub u64);

/// An option of an enum type.
#[derive(Debug, Clone, Copy, PartialEq, Eq, Structural)]
pub struct EnumValue(pub u32);

/// The length `len` as far as 32 bits count it.
pub open spec fn short_length(len: nat) -> u32 {
    if len <= u32::MAX {
        len as u32
    } else {
        u32::MAX
    }
}

/// The length `len` as far as 16 bits count it.
pub open spec fn shorter_length(len: nat) -> u16 {
    if len <= u16::MAX {
        len as u16
    } else {
        u16::MAX
    }
}

/// The length `len` as far as 32 bits count it.
pub fn length_u32(len: usize) -> (short: u32)
    ensures
        short == short_length(len as nat),
{
    if len <= u32::MAX as usize {
        len as u32
    } else {
        u32::MAX
    }
}

/// The length `len` as far as 16 bits count it.
pub fn length_u16(len: usize) -> (short: u16)
    ensures
        short == shorter_length(len as nat),
{
    if len <= u16::MAX as usize {
        len as u16
    } else {
        u16::MAX
    }
}

impl ContextView {
    /// The header word of the live object whose address `val` holds.
    pub open spec fn header_of(self, val: Value) -> Option<u64> {
        match val@ {
            Held::Object(addr) => if addr <= usize::MAX {
                self.header(addr as usize)
            } else {
                None
            },
            _ => None,
        }
    }

    /// The kind of the value `val`.
    pub open spec fn value_type(self, val: Value) -> ValueType {
        ValueType::classified(val@, self.header_of(val))
    }

    /// The address of the live object that `val` holds, if it holds one.
    pub open spec fn object_in(self, val: Value) -> Option<usize> {
        match val@ {
            Held::Object(addr) => if addr <= usize::MAX && self.is_live(addr as usize) {
                Some(addr as usize)
            } else {
                None
            },
            _ => None,
        }
    }

    /// The address of the live object of the kind `kind` that `val` holds,
    /// or the error for a value of another kind.
    pub open spec fn object_taken(self, val: Value, kind: ObjectType) -> Result<usize, ArgError> {
        match self.object_in(val) {
            Some(ptr) => if self.kind(ptr) == kind {
                Ok(ptr)
            } else {
                Err(self.mismatch(val, kind))
            },
            None => Err(self.mismatch(val, kind)),
        }
    }

    /// The error for `val` where an object of the kind `kind` was expected.
    pub open spec fn mismatch(self, val: Value, kind: ObjectType) -> ArgError {
        ArgError::TypeGuard { expected: ValueType::of_kind(kind), actual: self.value_type(val) }
    }

    /// The header and leading fields of the live object at `ptr`.
    pub open spec fn image(self, ptr: usize) -> RawObject {
        let obj = self.object(ptr);
        RawObject {
            mask: obj.mask,
            signature: 0,
            type_: match obj.body {
                BodyModel::NativeFunction { signature, .. } => signature.ptr,
                BodyModel::UserData { type_, .. } => type_.ptr,
                _ => 0,
            },
            num_upv: 0,
            array_length: match obj.body {
                BodyModel::Array { items, .. } => short_length(items.len()),
                _ => 0,
            },
            array_capacity: match obj.body {
                BodyModel::Array { capacity, .. } => capacity,
                _ => 0,
            },
            table_length: match obj.body {
                BodyModel::Table { pairs, .. } => shorter_length(pairs.len()),
                _ => 0,
            },
            table_capacity: match obj.body {
                BodyModel::Table { capacity, .. } => capacity,
                _ => 0,
            },
            is_inline: false,
            size: match obj.body {
                BodyModel::UserData { size, .. } => size as usize,
                _ => 0,
            },
            next: match obj.body {
                BodyModel::Annotation { next, .. } => next,
                _ => 0,
            },
        }
    }

    /// The description of the live object at `ptr`.
    pub open spec fn description(self, ptr: usize) -> BoltObject {
        BoltObject::described(ptr, self.image(ptr))
    }
}

impl Context {
    /// The header word of the live object whose address `val` holds.
    pub fn header_of(&self, val: Value) -> (header: Option<u64>)
        ensures
            header == self@.header_of(val),
    {
        match val.as_object() {
            Some(obj) => self.mask(obj),
            None => None,
        }
    }

    /// The address of the live object that `val` holds, if it holds one.
    pub fn object_in(&self, val: Value) -> (obj: Option<Object>)
        ensures
            obj == (match self@.object_in(val) {
                Some(ptr) => Some(Object { ptr }),
                None => None,
            }),
    {
        match val.as_object() {
            Some(obj) => if self.is_live(obj) {
                Some(obj)
            } else {
                None
            },
            None => None,
        }
    }

    /// Take `val` as an object of the kind `kind`.
    pub fn take_object(&self, val: Value, kind: ObjectType) -> (taken: Result<Object, ArgError>)
        ensures
            taken == (match self@.object_taken(val, kind) {
                Ok(ptr) => Ok(Object { ptr }),
                Err(err) => Err(err),
            }),
    {
        match self.object_in(val) {
            Some(obj) => if self.object_type(obj) == kind {
                Ok(obj)
            } else {
                Err(
                    ArgError::TypeGuard {
                        expected: ValueType::from_object_type(kind),
                        actual: ValueType::from_value(val, self),
                    },
                )
            },
            None => Err(
                ArgError::TypeGuard {
                    expected: ValueType::from_object_type(kind),
                    actual: ValueType::from_value(val, self),
                },
            ),
        }
    }

    /// Read the header and leading fields of `obj`, if it is a live object.
    pub fn read_object(&self, obj: Object) -> (raw: Option<RawObject>)
        ensures
            raw == (if self@.is_live(obj.ptr) {
                Some(self@.image(obj.ptr))
            } else {
                None
            }),
    {
        match self.slot(obj.ptr) {
            Some(index) => {
                let mut raw = RawObject {
                    mask: self.heap[index].mask,
                    signature: 0,
                    type_: 0,
                    num_upv: 0,
                    array_length: 0,
                    array_capacity: 0,
                    table_length: 0,
                    table_capacity: 0,
                    is_inline: false,
                    size: 0,
                    next: 0,
                };
                match &self.heap[index].body {
                    Body::NativeFunction { signature, .. } => {
                        raw.type_ = signature.ptr;
                    },
                    Body::UserData { type_, size, .. } => {
                        raw.type_ = type_.ptr;
                        raw.size = *size as usize;
                    },
                    Body::Annotation { next, .. } => {
                        raw.next = *next;
                    },
                    Body::Array { items, capacity } => {
                        raw.array_length = length_u32(items.len());
                        raw.array_capacity = *capacity;
                    },
                    Body::Table { pairs, capacity } => {
                        raw.table_length = length_u16(pairs.len());
                        raw.table_capacity = *capacity;
                    },
                    _ => {},
                }
                Some(raw)
            },
            None => None,
        }
    }

    /// Describe `obj`: its kind and what the kind says about it.
    /// Describes nothing where `obj` is no live object.
    pub fn describe(&self, obj: Object) -> (described: Option<BoltObject>)
        ensures
            described == (if self@.is_live(obj.ptr) {
                Some(self@.description(obj.ptr))
            } else {
                None
            }),
    {
        match self.read_object(obj) {
            Some(raw) => BoltObject::from_raw(obj.ptr, &raw),
            None => None,
        }
    }
}

impl ValueType {
    /// A slow exhaustive check to see what kind of value `val` is. The
    /// classes are tried in the order null, bool, number, enum, object; for
    /// an object the header on the heap of `ctx` names the kind.
    pub fn from_value(val: Value, ctx: &Context) -> (value_type: Self)
        ensures
            value_type == ctx@.value_type(val),
    {
        let header = ctx.header_of(val);
        Self::classify(val, header)
    }
}

impl Object {
    /// The kind of value that this object is, on the heap of `ctx`.
    pub fn value_type(&self, ctx: &Context) -> (value_type: ValueType)
        ensures
            value_type == ValueType::of_kind(ctx@.kind(self.ptr)),
    {
        ValueType::from_object_type(ctx.object_type(*self))
    }
}

impl FromBoltValue for Value {
    open spec fn taken(val: Value, ctx: ContextView) -> Result<Self, ArgError> {
        Ok(val)
    }

    fn from(val: Value, ctx: &Context) -> (taken: Result<Self, ArgError>) {
        Ok(val)
    }

    fn from_unchecked(val: Value, ctx: &Context) -> (taken: Self) {
        val
    }
}

impl MakeBoltValue for Value {
    open spec fn made(&self) -> Value {
        *self
    }

    fn make(&self) -> (value: Value) {
        *self
    }
}

impl FromBoltValue for Number {
    open spec fn taken(val: Value, ctx: ContextView) -> Result<Self, ArgError> {
        match val@ {
            Held::Number(bits) => Ok(Number(bits)),
            _ => Err(
                ArgError::TypeGuard { expected: ValueType::Number, actual: ctx.value_type(val) },
            ),
        }
    }

    fn from(val: Value, ctx: &Context) -> (taken: Result<Self, ArgError>) {
        match val.as_number() {
            Some(bits) => Ok(Number(bits)),
            None => Err(
                ArgError::TypeGuard {
                    expected: ValueType::Number,
                    actual: ValueType::from_value(val, ctx),
                },
            ),
        }
    }

    fn from_unchecked(val: Value, ctx: &Context) -> (taken: Self) {
        Number(val.as_raw())
    }
}

impl MakeBoltValue for Number {
    open spec fn made(&self) -> Value {
        Value(crate::value::number_word(self.0))
    }

    fn make(&self) -> (value: Value) {
        Value::from_number(self.0)
    }
}

impl FromBoltValue for EnumValue {
    open spec fn taken(val: Value, ctx: ContextView) -> Result<Self, ArgError> {
        match val@ {
            Held::Enum(option) => Ok(EnumValue(option)),
            _ => Err(ArgError::TypeGuardEnum { actual: ctx.value_type(val) }),
        }
    }

    fn from(val: Value, ctx: &Context) -> (taken: Result<Self, ArgError>) {
        match val.as_enum() {
            Some(option) => Ok(EnumValue(option)),
            None => Err(ArgError::TypeGuardEnum { actual: ValueType::from_value(val, ctx) }),
        }
    }

    fn from_unchecked(val: Value, ctx: &Context) -> (taken: Self) {
        match val.as_enum() {
            Some(option) => EnumValue(option),
            None => EnumValue(0),
        }
    }
}

impl MakeBoltValue for EnumValue {
    open spec fn made(&self) -> Value {
        Value(0x7FFE_0000_0000_0000 | (self.0 as u64))
    }

    fn make(&self) -> (value: Value) {
        Value::from_enum(self.0)
    }
}

impl FromBoltValue for BoltObject {
    open spec fn taken(val: Value, ctx: ContextView) -> Result<Self, ArgError> {
        match ctx.object_in(val) {
            Some(ptr) => Ok(ctx.description(ptr)),
            None => Err(
                ArgError::TypeGuard { expected: ValueType::NoObject, actual: ctx.value_type(val) },
            ),
        }
    }

    fn from(val: Value, ctx: &Context) -> (taken: Result<Self, ArgError>) {
        match ctx.object_in(val) {
            Some(obj) => match ctx.describe(obj) {
                Some(described) => Ok(described),
                None => Err(
                    ArgError::TypeGuard {
                        expected: ValueType::NoObject,
                        actual: ValueType::from_value(val, ctx),
                    },
                ),
            },
            None => Err(
                ArgError::TypeGuard {
                    expected: ValueType::NoObject,
                    actual: ValueType::from_value(val, ctx),
                },
            ),
        }
    }

    fn from_unchecked(val: Value, ctx: &Context) -> (taken: Self) {
        match ctx.object_in(val) {
            Some(obj) => match ctx.describe(obj) {
                Some(described) => described,
                None => BoltObject::NoObject,
            },
            None => BoltObject::NoObject,
        }
    }
}

impl MakeBoltValue for BoltObject {
    open spec fn made(&self) -> Value {
        object_value(self.addr())
    }

    fn make(&self) -> (value: Value) {
        Value::from_object(Object { ptr: self.as_raw_ptr() })
    }
}

impl FromBoltValue for Type {
    open spec fn taken(val: Value, ctx: ContextView) -> Result<Self, ArgError> {
        match ctx.object_taken(val, ObjectType::Type) {
            Ok(ptr) => Ok(Type { ptr }),
            Err(err) => Err(err),
        }
    }

    fn from(val: Value, ctx: &Context) -> (taken: Result<Self, ArgError>) {
        match ctx.take_object(val, ObjectType::Type) {
            Ok(obj) => Ok(Type { ptr: obj.ptr }),
            Err(err) => Err(err),
        }
    }

    fn from_unchecked(val: Value, ctx: &Context) -> (taken: Self) {
        Type { ptr: (val.as_raw() & crate::value::PAYLOAD_BITS) as usize }
    }
}

impl MakeBoltValue for Type {
    open spec fn made(&self) -> Value {
        object_value(self.ptr)
    }

    fn make(&self) -> (value: Value) {
        Value::from_object(self.as_object())
    }
}

impl FromBoltValue for BoltString {
    open spec fn taken(val: Value, ctx: ContextView) -> Result<Self, ArgError> {
        match ctx.object_taken(val, ObjectType::String) {
            Ok(ptr) => Ok(BoltString { ptr }),
            Err(err) => Err(err),
        }
    }

    fn from(val: Value, ctx: &Context) -> (taken: Result<Self, ArgError>) {
        match ctx.take_object(val, ObjectType::String) {
            Ok(obj) => Ok(BoltString { ptr: obj.ptr }),
            Err(err) => Err(err),
        }
    }

    fn from_unchecked(val: Value, ctx: &Context) -> (taken: Self) {
        BoltString { ptr: (val.as_raw() & crate::value::PAYLOAD_BITS) as usize }
    }
}

impl MakeBoltValue for BoltString {
    open spec fn made(&self) -> Value {
        object_value(self.ptr)
    }

    fn make(&self) -> (value: Value) {
        Value::from_object(self.as_object())
    }
}

impl FromBoltValue for Module {
    open spec fn taken(val: Value, ctx: ContextView) -> Result<Self, ArgError> {
        match ctx.object_taken(val, ObjectType::Module) {
            Ok(ptr) => Ok(Module { ptr, name: None, path: None }),
            Err(err) => Err(err),
        }
    }

    fn from(val: Value, ctx: &Context) -> (taken: Result<Self, ArgError>) {
        match ctx.take_object(val, ObjectType::Module) {
            Ok(obj) => Ok(Module { ptr: obj.ptr, name: None, path: None }),
            Err(err) => Err(err),
        }
    }

    fn from_unchecked(val: Value, ctx: &Context) -> (taken: Self) {
        Module { ptr: (val.as_raw() & crate::value::PAYLOAD_BITS) as usize, name: None, path: None }
    }
}

impl MakeBoltValue for Module {
    open spec fn made(&self) -> Value {
        object_value(self.ptr)
    }

    fn make(&self) -> (value: Value) {
        Value::from_object(self.as_object())
    }
}

impl FromBoltValue for Function {
    open spec fn taken(val: Value, ctx: ContextView) -> Result<Self, ArgError> {
        match ctx.object_taken(val, ObjectType::Function) {
            Ok(ptr) => Ok(Function { ptr, signature: None }),
            Err(err) => Err(err),
        }
    }

    fn from(val: Value, ctx: &Context) -> (taken: Result<Self, ArgError>) {
        match ctx.take_object(val, ObjectType::Function) {
            Ok(obj) => Ok(Function { ptr: obj.ptr, signature: None }),
            Err(err) => Err(err),
        }
    }

    fn from_unchecked(val: Value, ctx: &Context) -> (taken: Self) {
        Function { ptr: (val.as_raw() & crate::value::PAYLOAD_BITS) as usize, signature: None }
    }
}

impl MakeBoltValue for Function {
    open spec fn made(&self) -> Value {
        object_value(self.ptr)
    }

    fn make(&self) -> (value: Value) {
        Value::from_object(Object { ptr: self.ptr })
    }
}

impl FromBoltValue for Array {
    open spec fn taken(val: Value, ctx: ContextView) -> Result<Self, ArgError> {
        match ctx.object_taken(val, ObjectType::Array) {
            Ok(ptr) => Ok(
                Array {
                    ptr,
                    length: ctx.image(ptr).array_length,
                    capacity: ctx.image(ptr).array_capacity,
                },
            ),
            Err(err) => Err(err),
        }
    }

    fn from(val: Value, ctx: &Context) -> (taken: Result<Self, ArgError>) {
        match ctx.take_object(val, ObjectType::Array) {
            Ok(obj) => match ctx.read_object(obj) {
                Some(raw) => Ok(
                    Array { ptr: obj.ptr, length: raw.array_length, capacity: raw.array_capacity },
                ),
                // The object is live, so it can be read.
                None => Ok(Array { ptr: obj.ptr, length: 0, capacity: 0 }),
            },
            Err(err) => Err(err),
        }
    }

    fn from_unchecked(val: Value, ctx: &Context) -> (taken: Self) {
        let ptr: usize = (val.as_raw() & crate::value::PAYLOAD_BITS) as usize;
        match ctx.read_object(Object { ptr }) {
            Some(raw) => Array { ptr, length: raw.array_length, capacity: raw.array_capacity },
            None => Array { ptr, length: 0, capacity: 0 },
        }
    }
}

impl MakeBoltValue for Array {
    open spec fn made(&self) -> Value {
        object_value(self.ptr)
    }

    fn make(&self) -> (value: Value) {
        Value::from_object(Object { ptr: self.ptr })
    }
}

impl FromBoltValue for Table {
    open spec fn taken(val: Value, ctx: ContextView) -> Result<Self, ArgError> {
        match ctx.object_taken(val, ObjectType::Table) {
            Ok(ptr) => Ok(
                Table {
                    ptr,
                    length: ctx.image(ptr).table_length,
                    capacity: ctx.image(ptr).table_capacity,
                    is_inline: ctx.image(ptr).is_inline,
                },
            ),
            Err(err) => Err(err),
        }
    }

    fn from(val: Value, ctx: &Context) -> (taken: Result<Self, ArgError>) {
        match ctx.take_object(val, ObjectType::Table) {
            Ok(obj) => match ctx.read_object(obj) {
                Some(raw) => Ok(
                    Table {
                        ptr: obj.ptr,
                        length: raw.table_length,
                        capacity: raw.table_capacity,
                        is_inline: raw.is_inline,
                    },
                ),
                // The object is live, so it can be read.
                None => Ok(Table { ptr: obj.ptr, length: 0, capacity: 0, is_inline: false }),
            },
            Err(err) => Err(err),
        }
    }

    fn from_unchecked(val: Value, ctx: &Context) -> (taken: Self) {
        let ptr: usize = (val.as_raw() & crate::value::PAYLOAD_BITS) as usize;
        match ctx.read_object(Object { ptr }) {
            Some(raw) => Table {
                ptr,
                length: raw.table_length,
                capacity: raw.table_capacity,
                is_inline: raw.is_inline,
            },
            None => Table { ptr, length: 0, capacity: 0, is_inline: false },
        }
    }
}

impl MakeBoltValue for Table {
    open spec fn made(&self) -> Value {
        object_value(self.ptr)
    }

    fn make(&self) -> (value: Value) {
        Value::from_object(Object { ptr: self.ptr })
    }
}

/// An object that the context makes is known by its value: the value made
/// of its address holds the object, is of the kind that the object was
/// made with, and is taken back as the handle it was made of.
pub proof fn lemma_made_object_is_known(ctx: ContextView, tag: u32, size: u32, body: BodyModel)
    requires
        ctx.has_room(),
        1 <= tag <= 11,
    ensures
        ({
            let ptr = ctx.next_address();
            let after = ctx.with_object(tag, size, body);
            let value = object_value(ptr);
            &&& value@ == Held::Object(ptr as u64)
            &&& after.object_in(value) == Some(ptr)
            &&& after.value_type(value) == ValueType::of_kind(ObjectType::of_tag(tag))
            &&& after.value_type(value) != ValueType::NoObject
            &&& after.object_taken(value, ObjectType::of_tag(tag)) == Ok::<usize, ArgError>(ptr)
        }),
{
    let ptr = ctx.next_address();
    crate::value::lemma_constructed_words(0, ptr as u64, 0);
    crate::context::lemma_allocated_object(ctx, tag, size, body, ptr);
}

/// A value of the wrong kind is never taken as a number: taking it gives
/// an error that names the kind that was found.
pub proof fn lemma_mismatch_is_reported(val: Value, ctx: ContextView)
    ensures
        val@ is Number ==> Number::taken(val, ctx) == Ok::<Number, ArgError>(Number(val.0)),
        val@ !is Number ==> Number::taken(val, ctx) == Err::<Number, ArgError>(
            ArgError::TypeGuard { expected: ValueType::Number, actual: ctx.value_type(val) },
        ) && ctx.value_type(val) != ValueType::Number,
{
}

/// A number that is made into a value and taken back is the number made,
/// for every finite number.
pub proof fn lemma_number_is_taken_back(number: Number, ctx: ContextView)
    requires
        crate::value::is_finite(number.0),
    ensures
        Number::taken(number.made(), ctx) == Ok::<Number, ArgError>(number),
{
    crate::value::lemma_number_round_trip(number.0);
}

} // verus!
