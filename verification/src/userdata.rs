//! Userdata: blocks of host data that scripts see through typed fields,
//! and the types that say where each field lies. Also the primitive types
//! of the host, which the engine knows by name alone.

use vstd::prelude::*;
use crate::bt_object::BoltString;
use crate::bt_object::Type;
use crate::bt_object::UserData;
use crate::bt_object::OBJECT_TYPE_USERDATA;
use crate::context::Context;
use crate::context::ContextView;
use crate::error::Error;
use crate::heap::Body;
use crate::heap::BodyModel;
use crate::heap::FieldAccess;
use crate::heap::FieldKind;
use crate::heap::ScalarKind;
use crate::heap::TypeBody;
use crate::heap::TypeModel;
use crate::heap::UserField;
use crate::strings::is_out_of_memory;
use crate::strings::out_of_memory;
use crate::wrappers::is_first_nul;
use crate::wrappers::is_nul_free;
use crate::wrappers::IntoCStr;

verus! {

/// The newest of the first `upto` fields of `fields` named `name`.
pub open spec fn user_field_slot(fields: Seq<UserField>, name: BoltString, upto: nat) -> Option<int>
    decreases upto,
{
    if upto == 0 {
        None
    } else if fields[upto - 1].name == name {
        Some(upto - 1)
    } else {
        user_field_slot(fields, name, (upto - 1) as nat)
    }
}

/// The type that scripts see a field of the kind `kind` as: a string, a
/// bool, or a number.
pub open spec fn scalar_of(kind: FieldKind) -> ScalarKind {
    match kind {
        FieldKind::String => ScalarKind::String,
        FieldKind::Bool => ScalarKind::Bool,
        _ => ScalarKind::Number,
    }
}

impl ContextView {
    /// The fields of the userdata type at `ptr`, in the order they were
    /// added.
    pub open spec fn user_fields_of(self, ptr: usize) -> Option<Seq<UserField>> {
        match self.type_at(ptr) {
            Some(TypeModel::UserData { fields, .. }) => Some(fields),
            _ => None,
        }
    }

    /// The newest field named `name` of the userdata type at `ptr`.
    pub open spec fn user_field(self, ptr: usize, name: BoltString) -> Option<UserField> {
        match self.user_fields_of(ptr) {
            Some(fields) => match user_field_slot(fields, name, fields.len()) {
                Some(index) => Some(fields[index]),
                None => None,
            },
            None => None,
        }
    }

    /// The context with one more field of the userdata type at `ptr`.
    /// What is no userdata type is left alone.
    pub open spec fn with_user_field(self, ptr: usize, field: UserField) -> ContextView {
        match self.type_at(ptr) {
            Some(TypeModel::UserData { name, fields }) => self.with_type_at(
                ptr,
                TypeModel::UserData { name, fields: fields.push(field) },
            ),
            _ => self,
        }
    }
}

impl Context {
    /// Make a userdata type named `name` without fields.
    ///
    /// The name is refused where it holds a nul byte, before anything is
    /// made. Where the heap has no room for the name and the type, nothing
    /// is made.
    pub fn make_userdata_type<S: IntoCStr>(&mut self, name: S) -> (made: Result<Type, Error>)
        ensures
            match made {
                Ok(t) => {
                    &&& is_nul_free(name.text_bytes())
                    &&& old(self)@.has_room_for(2)
                    &&& old(self)@.string_for(name.text_bytes()) matches Some(text)
                    &&& t.ptr == old(self)@.with_string(name.text_bytes()).next_address()
                    &&& final(self)@ == old(self)@.with_string(name.text_bytes()).with_type(
                        TypeModel::UserData { name: text, fields: Seq::empty() },
                    )
                },
                Err(Error::StringConversion { position }) => is_first_nul(
                    name.text_bytes(),
                    position as int,
                ) && final(self)@ == old(self)@,
                Err(err) => is_nul_free(name.text_bytes()) && !old(self)@.has_room_for(2)
                    && is_out_of_memory(err) && final(self)@ == old(self)@,
            },
    {
        let bytes = name.as_c_str()?;
        if !self.has_room_for(2) {
            return Err(out_of_memory());
        }
        let text = match self.intern(bytes) {
            Some(text) => text,
            None => {
                return Err(out_of_memory());
            },
        };
        match self.place_type(TypeBody::UserData { name: text, fields: Vec::new() }) {
            Some(t) => Ok(t),
            None => Err(out_of_memory()),
        }
    }

    /// Make a primitive type of the host, named `name`. Whether a type
    /// fits it is for the host to say, through the procedure at the
    /// address `satisfier`.
    ///
    /// The name is refused where it holds a nul byte, before anything is
    /// made. Where the heap has no room for the name and the type, nothing
    /// is made.
    pub fn make_primitive_type<S: IntoCStr>(&mut self, satisfier: usize, name: S) -> (made: Result<
        Type,
        Error,
    >)
        ensures
            match made {
                Ok(t) => {
                    &&& is_nul_free(name.text_bytes())
                    &&& old(self)@.has_room_for(2)
                    &&& old(self)@.string_for(name.text_bytes()) matches Some(text)
                    &&& t.ptr == old(self)@.with_string(name.text_bytes()).next_address()
                    &&& final(self)@ == old(self)@.with_string(name.text_bytes()).with_type(
                        TypeModel::Primitive { name: text, satisfier },
                    )
                },
                Err(Error::StringConversion { position }) => is_first_nul(
                    name.text_bytes(),
                    position as int,
                ) && final(self)@ == old(self)@,
                Err(err) => is_nul_free(name.text_bytes()) && !old(self)@.has_room_for(2)
                    && is_out_of_memory(err) && final(self)@ == old(self)@,
            },
    {
        let bytes = name.as_c_str()?;
        if !self.has_room_for(2) {
            return Err(out_of_memory());
        }
        let text = match self.intern(bytes) {
            Some(text) => text,
            None => {
                return Err(out_of_memory());
            },
        };
        match self.place_type(TypeBody::Primitive { name: text, satisfier }) {
            Some(t) => Ok(t),
            None => Err(out_of_memory()),
        }
    }

    /// Add a field to the userdata type `type_` that the host reads and
    /// writes itself: named `name`, `offset` bytes into the data, seen by
    /// scripts as a `field_type`, read by the procedure at `getter` and
    /// written by the one at `setter`. What is no userdata type is left
    /// alone.
    ///
    /// The name is refused where it holds a nul byte, before anything is
    /// made. Where the heap has no room for the name, nothing is added.
    pub fn userdata_type_push_field<S: IntoCStr>(
        &mut self,
        type_: Type,
        name: S,
        offset: u32,
        field_type: Type,
        getter: usize,
        setter: usize,
    ) -> (done: Result<(), Error>)
        ensures
            match done {
                Ok(()) => {
                    &&& is_nul_free(name.text_bytes())
                    &&& old(self)@.string_for(name.text_bytes()) matches Some(text)
                    &&& final(self)@ == old(self)@.with_string(name.text_bytes()).with_user_field(
                        type_.ptr,
                        UserField {
                            name: text,
                            offset,
                            field_type,
                            access: FieldAccess::Host { getter, setter },
                        },
                    )
                },
                Err(Error::StringConversion { position }) => is_first_nul(
                    name.text_bytes(),
                    position as int,
                ) && final(self)@ == old(self)@,
                Err(err) => is_nul_free(name.text_bytes()) && old(self)@.string_for(
                    name.text_bytes(),
                ) is None && is_out_of_memory(err) && final(self)@ == old(self)@,
            },
    {
        let text = self.get_or_make_interned(name)?;
        self.push_user_field(
            type_,
            UserField {
                name: text,
                offset,
                field_type,
                access: FieldAccess::Host { getter, setter },
            },
        );
        Ok(())
    }

    /// Add a field to the userdata type `type_` that the engine reads and
    /// writes as `kind` says: named `name`, `offset` bytes into the data.
    /// Scripts see it as a number, a string or a bool. What is no
    /// userdata type is left alone.
    ///
    /// The name is refused where it holds a nul byte, before anything is
    /// made. Where the heap has no room for the name and the type of the
    /// field, nothing is added.
    pub fn userdata_type_field<S: IntoCStr>(
        &mut self,
        type_: Type,
        name: S,
        offset: u32,
        kind: FieldKind,
    ) -> (done: Result<(), Error>)
        ensures
            match done {
                Ok(()) => {
                    &&& is_nul_free(name.text_bytes())
                    &&& old(self)@.has_room_for(2)
                    &&& old(self)@.string_for(name.text_bytes()) matches Some(text)
                    &&& old(self)@.with_string(name.text_bytes()).scalar_for(scalar_of(kind))
                        matches Some(field_type)
                    &&& final(self)@ == old(self)@.with_string(name.text_bytes()).with_scalar(
                        scalar_of(kind),
                    ).with_user_field(
                        type_.ptr,
                        UserField { name: text, offset, field_type, access: FieldAccess::Engine(kind) },
                    )
                },
                Err(Error::StringConversion { position }) => is_first_nul(
                    name.text_bytes(),
                    position as int,
                ) && final(self)@ == old(self)@,
                Err(err) => is_nul_free(name.text_bytes()) && !old(self)@.has_room_for(2)
                    && is_out_of_memory(err) && final(self)@ == old(self)@,
            },
    {
        let bytes = name.as_c_str()?;
        if !self.has_room_for(2) {
            return Err(out_of_memory());
        }
        let text = match self.intern(bytes) {
            Some(text) => text,
            None => {
                return Err(out_of_memory());
            },
        };
        let scalar = match kind {
            FieldKind::String => ScalarKind::String,
            FieldKind::Bool => ScalarKind::Bool,
            _ => ScalarKind::Number,
        };
        let field_type = match self.type_scalar(scalar) {
            Some(field_type) => field_type,
            None => {
                return Err(out_of_memory());
            },
        };
        self.push_user_field(
            type_,
            UserField { name: text, offset, field_type, access: FieldAccess::Engine(kind) },
        );
        Ok(())
    }

    /// Add `field` to the userdata type `type_`.
    pub(crate) fn push_user_field(&mut self, type_: Type, field: UserField)
        ensures
            final(self)@ == old(self)@.with_user_field(type_.ptr, field),
    {
        match self.slot(type_.ptr) {
            Some(index) => {
                match &mut self.heap[index].body {
                    Body::Type(TypeBody::UserData { fields, .. }) => {
                        fields.push(field);
                    },
                    _ => {},
                }
                assert(self@.heap =~= old(self)@.with_user_field(type_.ptr, field).heap);
            },
            None => {},
        }
    }

    /// The newest field named `name` of the userdata type `type_`.
    pub fn userdata_type_get_field(&self, type_: Type, name: BoltString) -> (field: Option<
        UserField,
    >)
        ensures
            field == self@.user_field(type_.ptr, name),
    {
        match self.slot(type_.ptr) {
            Some(index) => match &self.heap[index].body {
                Body::Type(TypeBody::UserData { fields, .. }) => {
                    let mut i: usize = fields.len();
                    while i > 0
                        invariant
                            i <= fields.len(),
                            self@.user_fields_of(type_.ptr) == Some(fields@),
                            user_field_slot(fields@, name, fields.len() as nat) == user_field_slot(
                                fields@,
                                name,
                                i as nat,
                            ),
                        decreases i,
                    {
                        i -= 1;
                        if fields[i].name == name {
                            return Some(fields[i]);
                        }
                    }
                    None
                },
                _ => None,
            },
            None => None,
        }
    }

    /// Make a userdata object of the type `type_` for the `size` bytes of
    /// host data at the address `data`. Gives none, and changes nothing,
    /// where the heap is full.
    pub fn make_userdata(&mut self, type_: Type, data: usize, size: u32) -> (made: Option<UserData>)
        ensures
            made is Some == old(self)@.has_room(),
            made matches Some(userdata) ==> userdata == (UserData {
                ptr: old(self)@.next_address(),
                size: size as usize,
                type_: Some(type_),
            }) && final(self)@ == old(self)@.with_object(
                10,
                size,
                BodyModel::UserData { type_, data, size },
            ),
            made is None ==> final(self)@ == old(self)@,
    {
        let ptr = self.place(OBJECT_TYPE_USERDATA, size, Body::UserData { type_, data, size });
        if ptr == 0 {
            None
        } else {
            Some(UserData { ptr, size: size as usize, type_: Some(type_) })
        }
    }
}

/// A field that is added to a userdata type is the field found under its
/// name, with the offset it was given.
pub proof fn lemma_user_field_is_found(ctx: ContextView, ptr: usize, field: UserField)
    requires
        ctx.user_fields_of(ptr) is Some,
    ensures
        ctx.with_user_field(ptr, field).user_field(ptr, field.name) == Some(field),
        ctx.with_user_field(ptr, field).user_fields_of(ptr) == Some(
            ctx.user_fields_of(ptr)->0.push(field),
        ),
{
    crate::heap::lemma_slot_has_address(ptr, ctx.heap.len());
}

} // verus!
