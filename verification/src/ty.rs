//! Type descriptors: the scalar types, aliases, unions, array and map
//! types, function signatures, and the registry of types by name.
//!
//! Types are heap objects, and a handle names one. When two handles name
//! the same type is told in `identity`.

use vstd::prelude::*;
use crate::bt_object::Type;
use crate::bt_object::OBJECT_TYPE_TYPE;
use crate::context::Context;
use crate::context::ContextView;
use crate::context::PreludeEntry;
use crate::context::TypeBinding;
use crate::error::Error;
use crate::heap::address_of;
use crate::heap::Body;
use crate::heap::BodyModel;
use crate::heap::ObjectModel;
use crate::heap::ScalarKind;
use crate::heap::TypeBody;
use crate::heap::TypeModel;
use crate::heap::MAX_OBJECTS;
use crate::strings::is_out_of_memory;
use crate::strings::out_of_memory;
use crate::value::Value;
use crate::wrappers::is_first_nul;
use crate::wrappers::is_nul_free;
use crate::wrappers::IntoCStr;

verus! {

/// The newest of the first `upto` bindings that binds `name`.
pub open spec fn type_binding_slot(bindings: Seq<TypeBinding>, name: Value, upto: nat) -> Option<
    int,
>
    decreases upto,
{
    if upto == 0 {
        None
    } else if bindings[upto - 1].name == name {
        Some(upto - 1)
    } else {
        type_binding_slot(bindings, name, (upto - 1) as nat)
    }
}

/// The parameters that a signature made from `types` has. A signature
/// counts its parameters in eight bits: of a longer list it keeps as many,
/// from the front, as the low eight bits of the length say.
pub open spec fn params_kept(types: Seq<Type>) -> Seq<Type> {
    types.subrange(0, (types.len() % 256) as int)
}

impl ContextView {
    /// Whether `t` is a union that holds the null type.
    pub open spec fn is_optional(self, t: Type) -> bool {
        match (self.variants_of(t.ptr), self.scalar(ScalarKind::Null)) {
            (Some(variants), Some(null)) => self.holds_type(variants, null),
            _ => false,
        }
    }

    /// Whether `signature` is a signature whose first parameter is `ty`.
    pub open spec fn is_methodic(self, signature: Type, ty: Type) -> bool {
        match self.type_at(signature.ptr) {
            Some(TypeModel::Signature { params, .. }) => params.len() > 0 && params[0] == ty,
            _ => false,
        }
    }
}

impl Context {
    /// Make the type of the values of `to_nullable` and of null: a union
    /// of the two. Gives none, and changes nothing, where the heap has no
    /// room for the null type and the union.
    pub fn type_make_nullable(&mut self, to_nullable: Type) -> (made: Option<Type>)
        ensures
            made is Some == old(self)@.has_room_for(2),
            made matches Some(t) ==> {
                &&& old(self)@.scalar_for(ScalarKind::Null) matches Some(null)
                &&& t.ptr == old(self)@.with_scalar(ScalarKind::Null).next_address()
                &&& final(self)@ == old(self)@.with_scalar(ScalarKind::Null).with_type(
                    TypeModel::Union {
                        variants: old(self)@.with_scalar(ScalarKind::Null).without_repeats(
                            seq![to_nullable, null],
                        ),
                    },
                )
            },
            made is None ==> final(self)@ == old(self)@,
    {
        if !self.has_room_for(2) {
            return None;
        }
        let null = match self.type_null() {
            Some(null) => null,
            None => {
                return None;
            },
        };
        let pair: Vec<Type> = vec![to_nullable, null];
        assert(pair@ =~= seq![to_nullable, null]);
        self.make_union_from(pair.as_slice())
    }

    /// The type of the values of `to_unnull` other than null. Where
    /// `to_unnull` is a union that holds the null type, this is what is
    /// left of it: its one other variant, or a new union of the others.
    /// Every other type is itself. Gives none, and changes nothing, where
    /// a union has to be made and the heap is full.
    pub fn type_remove_nullable(&mut self, to_unnull: Type) -> (made: Option<Type>)
        ensures
            !old(self)@.is_optional(to_unnull) ==> made == Some(to_unnull) && final(self)@ == old(
                self,
            )@,
            old(self)@.is_optional(to_unnull) ==> ({
                let rest = old(self)@.without_type(
                    old(self)@.variants_of(to_unnull.ptr)->0,
                    old(self)@.scalar(ScalarKind::Null)->0,
                );
                if rest.len() == 1 {
                    made == Some(rest[0]) && final(self)@ == old(self)@
                } else {
                    &&& made is Some == old(self)@.has_room()
                    &&& made matches Some(t) ==> t.ptr == old(self)@.next_address() && final(self)@
                        == old(self)@.with_type(TypeModel::Union { variants: rest })
                    &&& made is None ==> final(self)@ == old(self)@
                }
            }),
    {
        let null = match self.find_scalar(ScalarKind::Null) {
            Some(null) => null,
            None => {
                return Some(to_unnull);
            },
        };
        let rest = match self.slot(to_unnull.ptr) {
            Some(index) => match &self.heap[index].body {
                Body::Type(TypeBody::Union { variants }) => {
                    if !self.holds_type(variants, null) {
                        return Some(to_unnull);
                    }
                    self.without_type(variants, null)
                },
                _ => {
                    return Some(to_unnull);
                },
            },
            None => {
                return Some(to_unnull);
            },
        };
        if rest.len() == 1 {
            Some(rest[0])
        } else {
            self.place_type(TypeBody::Union { variants: rest })
        }
    }

    /// Whether `t` is a union that holds the null type.
    pub fn type_is_optional(&self, t: Type) -> (optional: bool)
        ensures
            optional == self@.is_optional(t),
    {
        match self.find_scalar(ScalarKind::Null) {
            Some(null) => self.union_has_variant(t, null) >= 0,
            None => false,
        }
    }

    /// Whether a function of the type `signature` is a method of the type
    /// `ty`: whether it is a signature whose first parameter is `ty`.
    pub fn type_is_methodic(&self, signature: Type, ty: Type) -> (methodic: bool)
        ensures
            methodic == self@.is_methodic(signature, ty),
    {
        match self.slot(signature.ptr) {
            Some(index) => match &self.heap[index].body {
                Body::Type(TypeBody::Signature { params, .. }) => params.len() > 0 && params[0]
                    == ty,
                _ => false,
            },
            None => false,
        }
    }
}

impl ContextView {
    /// The data of the live type object at `ptr`.
    pub open spec fn type_at(self, ptr: usize) -> Option<TypeModel> {
        if self.is_live(ptr) {
            match self.object(ptr).body {
                BodyModel::Type(model) => Some(model),
                _ => None,
            }
        } else {
            None
        }
    }

    /// The context with one more type object.
    pub open spec fn with_type(self, model: TypeModel) -> ContextView {
        self.with_object(1, 0, BodyModel::Type(model))
    }

    /// The context with the data of the live type object at `ptr` replaced.
    pub open spec fn with_type_at(self, ptr: usize, model: TypeModel) -> ContextView {
        self.with_object_at(ptr, ObjectModel { body: BodyModel::Type(model), ..self.object(ptr) })
    }

    /// Whether slot `index` holds the live scalar type `kind`.
    pub open spec fn holds_scalar(self, index: int, kind: ScalarKind) -> bool {
        &&& 0 <= index < self.heap.len()
        &&& self.heap[index].live
        &&& self.heap[index].body == BodyModel::Type(TypeModel::Scalar(kind))
    }

    /// The first of the first `upto` slots that holds the live scalar type
    /// `kind`.
    pub open spec fn scalar_slot(self, kind: ScalarKind, upto: nat) -> Option<int>
        decreases upto,
    {
        if upto == 0 {
            None
        } else {
            match self.scalar_slot(kind, (upto - 1) as nat) {
                Some(index) => Some(index),
                None => if self.holds_scalar(upto - 1, kind) {
                    Some(upto - 1)
                } else {
                    None
                },
            }
        }
    }

    /// The scalar type `kind`, if the heap holds it.
    pub open spec fn scalar(self, kind: ScalarKind) -> Option<Type> {
        match self.scalar_slot(kind, self.addressable()) {
            Some(index) => Some(Type { ptr: address_of(index) as usize }),
            None => None,
        }
    }

    /// The scalar type `kind` as asking for it gives it: the one the heap
    /// holds, else a new one, else none where the heap is full.
    pub open spec fn scalar_for(self, kind: ScalarKind) -> Option<Type> {
        match self.scalar(kind) {
            Some(found) => Some(found),
            None => if self.has_room() {
                Some(Type { ptr: self.next_address() })
            } else {
                None
            },
        }
    }

    /// The context after asking for the scalar type `kind`.
    pub open spec fn with_scalar(self, kind: ScalarKind) -> ContextView {
        if self.scalar(kind) is None && self.has_room() {
            self.with_type(TypeModel::Scalar(kind))
        } else {
            self
        }
    }

    /// The type reached from `t` through at most `fuel` aliases.
    pub open spec fn dealiased_in(self, t: Type, fuel: nat) -> Type
        decreases fuel,
    {
        if fuel == 0 {
            t
        } else {
            match self.type_at(t.ptr) {
                Some(TypeModel::Alias { target, .. }) => self.dealiased_in(target, (fuel - 1) as nat),
                _ => t,
            }
        }
    }

    /// The type that `t` stands for: `t` itself, or what its chain of
    /// aliases leads to. A chain is followed through as many aliases as
    /// the heap has objects.
    pub open spec fn dealiased(self, t: Type) -> Type {
        self.dealiased_in(t, self.heap.len())
    }

    /// The variants of the union at `ptr`, in the order they were added.
    pub open spec fn variants_of(self, ptr: usize) -> Option<Seq<Type>> {
        match self.type_at(ptr) {
            Some(TypeModel::Union { variants }) => Some(variants),
            _ => None,
        }
    }

    /// The context with `variant` among the variants of the union at
    /// `ptr`. A union holds a type once: a variant that is the same type
    /// as one it holds is not added. What is no union is left alone.
    pub open spec fn with_variant(self, ptr: usize, variant: Type) -> ContextView {
        match self.variants_of(ptr) {
            Some(variants) => if self.holds_type(variants, variant) {
                self
            } else {
                self.with_type_at(ptr, TypeModel::Union { variants: variants.push(variant) })
            },
            None => self,
        }
    }

    /// The type registered under `name`, newest first.
    pub open spec fn type_named(self, name: Value) -> Option<Type> {
        match type_binding_slot(self.type_names, name, self.type_names.len()) {
            Some(index) => Some(self.type_names[index].type_),
            None => None,
        }
    }
}

impl Context {
    /// Make a type object. Gives none, and changes nothing, where the heap
    /// is full.
    pub(crate) fn place_type(&mut self, body: TypeBody) -> (made: Option<Type>)
        ensures
            made is Some == old(self)@.has_room(),
            made matches Some(t) ==> t.ptr == old(self)@.next_address() && final(self)@ == old(
                self,
            )@.with_type(body@),
            made is None ==> final(self)@ == old(self)@,
    {
        let ptr = self.place(OBJECT_TYPE_TYPE, 0, Body::Type(body));
        Type::from_raw(ptr)
    }

    /// The scalar type `kind`, if the heap holds it.
    pub fn find_scalar(&self, kind: ScalarKind) -> (found: Option<Type>)
        ensures
            found == self@.scalar(kind),
    {
        let limit: usize = if self.heap.len() <= MAX_OBJECTS {
            self.heap.len()
        } else {
            MAX_OBJECTS
        };
        let mut i: usize = 0;
        while i < limit
            invariant
                i <= limit,
                limit == self@.addressable(),
                limit <= self.heap.len(),
                self@.scalar_slot(kind, i as nat) is None,
            decreases limit - i,
        {
            if self.heap[i].live {
                match &self.heap[i].body {
                    Body::Type(TypeBody::Scalar(held)) => {
                        if *held == kind {
                            proof {
                                assert(self@.holds_scalar(i as int, kind));
                                assert(self@.scalar_slot(kind, (i + 1) as nat) == Some(i as int));
                                self@.lemma_scalar_slot_is_stable(kind, (i + 1) as nat, limit as nat);
                            }
                            return Some(Type { ptr: (i + 1) * 8 });
                        }
                    },
                    _ => {},
                }
            }
            assert(!self@.holds_scalar(i as int, kind));
            i += 1;
        }
        None
    }

    /// The scalar type `kind`: the one the heap holds, else a new one.
    /// Gives none, and changes nothing, where one would have to be made
    /// and the heap is full.
    pub fn type_scalar(&mut self, kind: ScalarKind) -> (scalar: Option<Type>)
        ensures
            scalar == old(self)@.scalar_for(kind),
            final(self)@ == old(self)@.with_scalar(kind),
    {
        match self.find_scalar(kind) {
            Some(found) => Some(found),
            None => self.place_type(TypeBody::Scalar(kind)),
        }
    }

    /// The type of every value.
    pub fn type_any(&mut self) -> (scalar: Option<Type>)
        ensures
            scalar == old(self)@.scalar_for(ScalarKind::Any),
            final(self)@ == old(self)@.with_scalar(ScalarKind::Any),
    {
        self.type_scalar(ScalarKind::Any)
    }

    /// The type of null.
    pub fn type_null(&mut self) -> (scalar: Option<Type>)
        ensures
            scalar == old(self)@.scalar_for(ScalarKind::Null),
            final(self)@ == old(self)@.with_scalar(ScalarKind::Null),
    {
        self.type_scalar(ScalarKind::Null)
    }

    /// The type of numbers.
    pub fn type_number(&mut self) -> (scalar: Option<Type>)
        ensures
            scalar == old(self)@.scalar_for(ScalarKind::Number),
            final(self)@ == old(self)@.with_scalar(ScalarKind::Number),
    {
        self.type_scalar(ScalarKind::Number)
    }

    /// The type of bools.
    pub fn type_bool(&mut self) -> (scalar: Option<Type>)
        ensures
            scalar == old(self)@.scalar_for(ScalarKind::Bool),
            final(self)@ == old(self)@.with_scalar(ScalarKind::Bool),
    {
        self.type_scalar(ScalarKind::Bool)
    }

    /// The type of strings.
    pub fn type_string(&mut self) -> (scalar: Option<Type>)
        ensures
            scalar == old(self)@.scalar_for(ScalarKind::String),
            final(self)@ == old(self)@.with_scalar(ScalarKind::String),
    {
        self.type_scalar(ScalarKind::String)
    }

    /// The type of arrays of anything.
    pub fn type_array(&mut self) -> (scalar: Option<Type>)
        ensures
            scalar == old(self)@.scalar_for(ScalarKind::Array),
            final(self)@ == old(self)@.with_scalar(ScalarKind::Array),
    {
        self.type_scalar(ScalarKind::Array)
    }

    /// The type of tables of anything.
    pub fn type_table(&mut self) -> (scalar: Option<Type>)
        ensures
            scalar == old(self)@.scalar_for(ScalarKind::Table),
            final(self)@ == old(self)@.with_scalar(ScalarKind::Table),
    {
        self.type_scalar(ScalarKind::Table)
    }

    /// The type of types.
    pub fn type_type(&mut self) -> (scalar: Option<Type>)
        ensures
            scalar == old(self)@.scalar_for(ScalarKind::Type),
            final(self)@ == old(self)@.with_scalar(ScalarKind::Type),
    {
        self.type_scalar(ScalarKind::Type)
    }

    /// Make a type that is another name, `name`, for the type `ty`.
    ///
    /// The name is refused where it holds a nul byte, before anything is
    /// made. Where the heap has no room for the name and the type, nothing
    /// is made.
    pub fn make_alias_type<S: IntoCStr>(&mut self, name: S, ty: Type) -> (made: Result<Type, Error>)
        ensures
            match made {
                Ok(alias) => {
                    &&& is_nul_free(name.text_bytes())
                    &&& old(self)@.has_room_for(2)
                    &&& old(self)@.string_for(name.text_bytes()) matches Some(text)
                    &&& alias.ptr == old(self)@.with_string(name.text_bytes()).next_address()
                    &&& final(self)@ == old(self)@.with_string(name.text_bytes()).with_type(
                        TypeModel::Alias { name: text, target: ty },
                    )
                },
                Err(Error::StringConversion { position }) => is_first_nul(
                    name.text_bytes(),
                    position as int,
                ) && final(self)@ == old(self)@,
                Err(err) => is_nul_free(name.text_bytes()) && !old(self)@.has_room_for(2)
                    && is_out_of_memory(err) && final(self)@ == old(self)@,
            },
    {
        let bytes = name.as_c_str()?;
        if !self.has_room_for(2) {
            return Err(out_of_memory());
        }
        let text = match self.intern(bytes) {
            Some(text) => text,
            None => {
                return Err(out_of_memory());
            },
        };
        match self.place_type(TypeBody::Alias { name: text, target: ty }) {
            Some(alias) => Ok(alias),
            None => Err(out_of_memory()),
        }
    }

    /// Whether `t` is an alias.
    pub fn is_alias(&self, t: Type) -> (alias: bool)
        ensures
            alias == (self@.type_at(t.ptr) matches Some(TypeModel::Alias { .. })),
    {
        match self.slot(t.ptr) {
            Some(index) => match &self.heap[index].body {
                Body::Type(TypeBody::Alias { .. }) => true,
                _ => false,
            },
            None => false,
        }
    }

    /// The type that `t` stands for: `t` itself, or what its chain of
    /// aliases leads to.
    pub fn type_dealias(&self, t: Type) -> (plain: Type)
        ensures
            plain == self@.dealiased(t),
    {
        let mut current = t;
        let mut fuel: usize = self.heap.len();
        while fuel > 0
            invariant
                fuel <= self.heap.len(),
                self@.dealiased(t) == self@.dealiased_in(current, fuel as nat),
            decreases fuel,
        {
            let next = match self.slot(current.ptr) {
                Some(index) => match &self.heap[index].body {
                    Body::Type(TypeBody::Alias { target, .. }) => Some(*target),
                    _ => None,
                },
                None => None,
            };
            match next {
                Some(target) => {
                    current = target;
                    fuel -= 1;
                },
                None => {
                    return current;
                },
            }
        }
        current
    }

    /// Make a union without variants. Gives none, and changes nothing,
    /// where the heap is full.
    pub fn make_union(&mut self) -> (made: Option<Type>)
        ensures
            made is Some == old(self)@.has_room(),
            made matches Some(t) ==> t.ptr == old(self)@.next_address() && final(self)@ == old(
                self,
            )@.with_type(TypeModel::Union { variants: Seq::empty() }),
            made is None ==> final(self)@ == old(self)@,
    {
        self.place_type(TypeBody::Union { variants: Vec::new() })
    }

    /// Add `variant` to the union `uni`, unless `uni` holds it already.
    /// What is no union is left alone.
    pub fn union_push_variant(&mut self, uni: Type, variant: Type)
        ensures
            final(self)@ == old(self)@.with_variant(uni.ptr, variant),
    {
        match self.slot(uni.ptr) {
            Some(index) => {
                let held = match &self.heap[index].body {
                    Body::Type(TypeBody::Union { variants }) => self.holds_type(variants, variant),
                    _ => true,
                };
                if !held {
                    match &mut self.heap[index].body {
                        Body::Type(TypeBody::Union { variants }) => {
                            variants.push(variant);
                        },
                        _ => {},
                    }
                }
                assert(self@.heap =~= old(self)@.with_variant(uni.ptr, variant).heap);
            },
            None => {},
        }
    }

    /// Make a union of `types`, each held once, in the order of their
    /// first occurrence. Gives none, and changes nothing, where the heap
    /// is full.
    pub fn make_union_from(&mut self, types: &[Type]) -> (made: Option<Type>)
        ensures
            made is Some == old(self)@.has_room(),
            made matches Some(t) ==> t.ptr == old(self)@.next_address() && final(self)@ == old(
                self,
            )@.with_type(TypeModel::Union { variants: old(self)@.without_repeats(types@) }),
            made is None ==> final(self)@ == old(self)@,
    {
        let variants = self.without_repeats(types);
        self.place_type(TypeBody::Union { variants })
    }

    /// The union of `uni` and `variant`. Where `uni` is a union, `variant`
    /// is added to it, unless it holds it already, and `uni` is the
    /// result. Where it is not, the result is a new union of the two.
    /// Gives none, and changes nothing, where a union has to be made and
    /// the heap is full.
    pub fn make_or_extend_union(&mut self, uni: Type, variant: Type) -> (made: Option<Type>)
        ensures
            old(self)@.variants_of(uni.ptr) is Some ==> made == Some(uni) && final(self)@ == old(
                self,
            )@.with_variant(uni.ptr, variant),
            old(self)@.variants_of(uni.ptr) is None ==> {
                &&& made is Some == old(self)@.has_room()
                &&& made matches Some(t) ==> t.ptr == old(self)@.next_address() && final(self)@
                    == old(self)@.with_type(
                    TypeModel::Union { variants: old(self)@.without_repeats(seq![uni, variant]) },
                )
                &&& made is None ==> final(self)@ == old(self)@
            },
    {
        if self.union_get_length(uni) >= 0 {
            self.union_push_variant(uni, variant);
            Some(uni)
        } else {
            let pair: Vec<Type> = vec![uni, variant];
            assert(pair@ =~= seq![uni, variant]);
            self.make_union_from(pair.as_slice())
        }
    }

    /// How many variants the union `t` has; -1 where `t` is no union.
    pub fn union_get_length(&self, t: Type) -> (length: i32)
        ensures
            match self@.variants_of(t.ptr) {
                Some(variants) => length == (if variants.len() <= i32::MAX {
                    variants.len() as int
                } else {
                    i32::MAX as int
                }),
                None => length == -1,
            },
    {
        match self.slot(t.ptr) {
            Some(index) => match &self.heap[index].body {
                Body::Type(TypeBody::Union { variants }) => {
                    if variants.len() <= i32::MAX as usize {
                        variants.len() as i32
                    } else {
                        i32::MAX
                    }
                },
                _ => -1,
            },
            None => -1,
        }
    }

    /// Variant `idx` of the union `t`, in the order the variants were added.
    pub fn union_get_variant(&self, t: Type, idx: u32) -> (variant: Option<Type>)
        ensures
            variant == (match self@.variants_of(t.ptr) {
                Some(variants) => if idx < variants.len() {
                    Some(variants[idx as int])
                } else {
                    None
                },
                None => None,
            }),
    {
        match self.slot(t.ptr) {
            Some(index) => match &self.heap[index].body {
                Body::Type(TypeBody::Union { variants }) => {
                    if (idx as usize) < variants.len() {
                        Some(variants[idx as usize])
                    } else {
                        None
                    }
                },
                _ => None,
            },
            None => None,
        }
    }

    /// Where the union `t` holds `variant`: the place of its first variant
    /// that is the same type as `variant`, or -1 where it holds none and
    /// where `t` is no union.
    pub fn union_has_variant(&self, t: Type, variant: Type) -> (place: i32)
        ensures
            place == (match self@.variants_of(t.ptr) {
                Some(variants) => match self@.variant_place(variants, variant, variants.len()) {
                    Some(index) => if index <= i32::MAX {
                        index
                    } else {
                        i32::MAX as int
                    },
                    None => -1,
                },
                None => -1,
            }),
            place >= 0 <==> (match self@.variants_of(t.ptr) {
                Some(variants) => self@.holds_type(variants, variant),
                None => false,
            }),
    {
        match self.slot(t.ptr) {
            Some(index) => match &self.heap[index].body {
                Body::Type(TypeBody::Union { variants }) => {
                    let mut i: usize = 0;
                    while i < variants.len()
                        invariant
                            i <= variants.len(),
                            self@.variants_of(t.ptr) == Some(variants@),
                            self@.variant_place(variants@, variant, i as nat) is None,
                        decreases variants.len() - i,
                    {
                        if self.type_is_equal(variant, variants[i]) {
                            proof {
                                assert(self@.variant_place(variants@, variant, (i + 1) as nat)
                                    == Some(i as int));
                                self@.lemma_variant_place(
                                    variants@,
                                    variant,
                                    (i + 1) as nat,
                                    variants.len() as nat,
                                );
                                self@.lemma_variant_place_is_held(
                                    variants@,
                                    variant,
                                    variants.len() as nat,
                                );
                            }
                            if i <= i32::MAX as usize {
                                return i as i32;
                            } else {
                                return i32::MAX;
                            }
                        }
                        i += 1;
                    }
                    proof {
                        self@.lemma_variant_place_is_held(
                            variants@,
                            variant,
                            variants.len() as nat,
                        );
                    }
                    -1
                },
                _ => -1,
            },
            None => -1,
        }
    }

    /// Make the type of arrays whose elements are of the type `inner`.
    pub fn make_array_type(&mut self, inner: Type) -> (made: Option<Type>)
        ensures
            made is Some == old(self)@.has_room(),
            made matches Some(t) ==> t.ptr == old(self)@.next_address() && final(self)@ == old(
                self,
            )@.with_type(TypeModel::ArrayOf { element: inner }),
            made is None ==> final(self)@ == old(self)@,
    {
        self.place_type(TypeBody::ArrayOf { element: inner })
    }

    /// Make the type of tables that map keys of the type `key` to values
    /// of the type `value`.
    pub fn make_map(&mut self, key: Type, value: Type) -> (made: Option<Type>)
        ensures
            made is Some == old(self)@.has_room(),
            made matches Some(t) ==> t.ptr == old(self)@.next_address() && final(self)@ == old(
                self,
            )@.with_type(TypeModel::MapOf { key, value }),
            made is None ==> final(self)@ == old(self)@,
    {
        self.place_type(TypeBody::MapOf { key, value })
    }

    /// Make the type of functions that take `types` and return `ret`.
    pub fn make_signature_type(&mut self, ret: Type, types: &[Type]) -> (made: Option<Type>)
        ensures
            made is Some == old(self)@.has_room(),
            made matches Some(t) ==> t.ptr == old(self)@.next_address() && final(self)@ == old(
                self,
            )@.with_type(TypeModel::Signature { params: params_kept(types@), ret, vararg: None }),
            made is None ==> final(self)@ == old(self)@,
    {
        let count: usize = types.len() % 256;
        let mut params: Vec<Type> = Vec::new();
        let mut i: usize = 0;
        while i < count
            invariant
                i <= count <= types.len(),
                params@ == types@.subrange(0, i as int),
            decreases count - i,
        {
            params.push(types[i]);
            i += 1;
        }
        self.place_type(TypeBody::Signature { params, ret, vararg: None })
    }

    /// Make a signature like `base` that takes, after its parameters,
    /// any number of arguments of the type `vararg`. `base` is left as
    /// it is. Gives none, and changes nothing, where `base` is no
    /// signature or the heap is full.
    pub fn make_signature_vararg(&mut self, base: Type, vararg: Type) -> (made: Option<Type>)
        ensures
            match old(self)@.type_at(base.ptr) {
                Some(TypeModel::Signature { params, ret, .. }) => {
                    &&& made is Some == old(self)@.has_room()
                    &&& made matches Some(t) ==> t.ptr == old(self)@.next_address() && final(self)@
                        == old(self)@.with_type(
                        TypeModel::Signature { params, ret, vararg: Some(vararg) },
                    )
                    &&& made is None ==> final(self)@ == old(self)@
                },
                _ => made is None && final(self)@ == old(self)@,
            },
    {
        let copied = match self.slot(base.ptr) {
            Some(index) => match &self.heap[index].body {
                Body::Type(TypeBody::Signature { params, ret, .. }) => Some((params.clone(), *ret)),
                _ => None,
            },
            None => None,
        };
        match copied {
            Some((params, ret)) => self.place_type(
                TypeBody::Signature { params, ret, vararg: Some(vararg) },
            ),
            None => None,
        }
    }

    /// Register `type_` under `name`, in place of what was registered
    /// under that name before.
    pub fn register_type(&mut self, name: Value, type_: Type)
        ensures
            final(self)@ == (ContextView {
                type_names: old(self)@.type_names.push(TypeBinding { name, type_ }),
                ..old(self)@
            }),
    {
        self.type_names.push(TypeBinding { name, type_ });
        assert(self@.heap =~= old(self)@.heap);
    }

    /// The type registered under `name`.
    pub fn find_type(&self, name: Value) -> (found: Option<Type>)
        ensures
            found == self@.type_named(name),
    {
        let mut i: usize = self.type_names.len();
        while i > 0
            invariant
                i <= self.type_names.len(),
                type_binding_slot(self.type_names@, name, self.type_names.len() as nat)
                    == type_binding_slot(self.type_names@, name, i as nat),
            decreases i,
        {
            i -= 1;
            if self.type_names[i].name == name {
                return Some(self.type_names[i].type_);
            }
        }
        None
    }

    /// Make `value`, of the type `type_`, known to every module under
    /// `name`.
    pub fn register_prelude(&mut self, name: Value, type_: Type, value: Value)
        ensures
            final(self)@ == (ContextView {
                prelude: old(self)@.prelude.push(PreludeEntry { name, type_, value }),
                ..old(self)@
            }),
    {
        self.prelude.push(PreludeEntry { name, type_, value });
        assert(self@.heap =~= old(self)@.heap);
    }
}

impl ContextView {
    /// The place of the first of the first `upto` of `variants` that is
    /// the same type as `t`.
    pub open spec fn variant_place(self, variants: Seq<Type>, t: Type, upto: nat) -> Option<int>
        decreases upto,
    {
        if upto == 0 {
            None
        } else {
            match self.variant_place(variants, t, (upto - 1) as nat) {
                Some(index) => Some(index),
                None => if self.same_type(t, variants[upto - 1]) {
                    Some(upto - 1)
                } else {
                    None
                },
            }
        }
    }

    /// A place found among the first `upto` is found among any more.
    pub proof fn lemma_variant_place(self, variants: Seq<Type>, t: Type, upto: nat, more: nat)
        requires
            upto <= more,
            self.variant_place(variants, t, upto) is Some,
        ensures
            self.variant_place(variants, t, more) == self.variant_place(variants, t, upto),
        decreases more,
    {
        if upto < more {
            self.lemma_variant_place(variants, t, upto, (more - 1) as nat);
        }
    }

    /// A place is found among the first `upto` exactly when they hold the
    /// type, and it lies among them.
    pub proof fn lemma_variant_place_is_held(self, variants: Seq<Type>, t: Type, upto: nat)
        ensures
            self.variant_place(variants, t, upto) is Some <==> self.member_in(
                t,
                variants,
                upto,
                self.heap.len(),
            ),
            self.variant_place(variants, t, upto) matches Some(index) ==> 0 <= index < upto,
        decreases upto,
    {
        if upto > 0 {
            self.lemma_variant_place_is_held(variants, t, (upto - 1) as nat);
        }
    }

    /// A slot found among the first `upto` is found among any more.
    pub proof fn lemma_scalar_slot_is_stable(self, kind: ScalarKind, upto: nat, more: nat)
        requires
            upto <= more,
            self.scalar_slot(kind, upto) is Some,
        ensures
            self.scalar_slot(kind, more) == self.scalar_slot(kind, upto),
        decreases more,
    {
        if upto < more {
            self.lemma_scalar_slot_is_stable(kind, upto, (more - 1) as nat);
        }
    }
}

/// A union holds each of its variants once: adding a variant that the
/// union holds, as the same type, changes nothing; adding one that it does
/// not hold puts it last; and after either the union holds it.
pub proof fn lemma_union_holds_variant_once(ctx: ContextView, ptr: usize, variant: Type)
    requires
        ctx.variants_of(ptr) is Some,
    ensures
        ctx.with_variant(ptr, variant).variants_of(ptr) is Some,
        ctx.with_variant(ptr, variant).holds_type(
            ctx.with_variant(ptr, variant).variants_of(ptr)->0,
            variant,
        ),
        ctx.holds_type(ctx.variants_of(ptr)->0, variant) ==> ctx.with_variant(ptr, variant) == ctx,
        !ctx.holds_type(ctx.variants_of(ptr)->0, variant) ==> ctx.with_variant(
            ptr,
            variant,
        ).variants_of(ptr)->0 == ctx.variants_of(ptr)->0.push(variant),
{
    crate::heap::lemma_slot_has_address(ptr, ctx.heap.len());
    let variants = ctx.variants_of(ptr)->0;
    if !ctx.holds_type(variants, variant) {
        let after = ctx.with_variant(ptr, variant);
        let grown = variants.push(variant);
        assert(after.variants_of(ptr) == Some(grown));
        assert(grown[variants.len() as int] == variant);
        crate::identity::lemma_member_at(
            after,
            grown,
            variants.len() as int,
            grown.len(),
            after.heap.len(),
        );
    }
}

/// What is registered under a name is the type found under that name, and
/// a registration changes what is found under no other name.
pub proof fn lemma_registered_type_is_found(ctx: ContextView, name: Value, type_: Type, other: Value)
    ensures
        (ContextView {
            type_names: ctx.type_names.push(TypeBinding { name, type_ }),
            ..ctx
        }).type_named(name) == Some(type_),
        other != name ==> (ContextView {
            type_names: ctx.type_names.push(TypeBinding { name, type_ }),
            ..ctx
        }).type_named(other) == ctx.type_named(other),
{
    let after = ctx.type_names.push(TypeBinding { name, type_ });
    lemma_type_binding_slot_of_prefix(after, ctx.type_names, other, ctx.type_names.len());
    lemma_type_binding_slot_is_bound(ctx.type_names, other, ctx.type_names.len());
}

/// A binding that is found among the first `upto` is one of them and
/// binds the name.
pub proof fn lemma_type_binding_slot_is_bound(bindings: Seq<TypeBinding>, name: Value, upto: nat)
    requires
        upto <= bindings.len(),
    ensures
        type_binding_slot(bindings, name, upto) matches Some(index) ==> 0 <= index < upto
            && bindings[index].name == name,
    decreases upto,
{
    if upto > 0 {
        lemma_type_binding_slot_is_bound(bindings, name, (upto - 1) as nat);
    }
}

/// Two registries that agree on their first `upto` bindings find the same
/// among them.
pub proof fn lemma_type_binding_slot_of_prefix(
    a: Seq<TypeBinding>,
    b: Seq<TypeBinding>,
    name: Value,
    upto: nat,
)
    requires
        upto <= a.len(),
        upto <= b.len(),
        forall|i: int| 0 <= i < upto ==> a[i] == b[i],
    ensures
        type_binding_slot(a, name, upto) == type_binding_slot(b, name, upto),
    decreases upto,
{
    if upto > 0 {
        lemma_type_binding_slot_of_prefix(a, b, name, (upto - 1) as nat);
    }
}

} // verus!
