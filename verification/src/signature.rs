//! Host types that describe themselves to the engine: how a host type
//! names its type, how a host function names its signature, and how host
//! text becomes a string value.

use vstd::prelude::*;
use vstd::string::StringSliceAdditionalSpecFns;
use vstd::utf8::encode_utf8;
use crate::bt_object::Module;
use crate::bt_object::Type;
use crate::context::Context;
use crate::context::ContextView;
use crate::convert::MakeBoltValueWithContext;
use crate::convert::Number;
use crate::error::Error;
use crate::heap::Export;
use crate::heap::ScalarKind;
use crate::heap::TypeModel;
use crate::strings::is_out_of_memory;
use crate::strings::out_of_memory;
use crate::ty::params_kept;
use crate::value::object_value;
use crate::value::Value;
use crate::wrappers::find_nul;
use crate::wrappers::is_first_nul;
use crate::wrappers::is_nul_free;
use crate::wrappers::IntoCStr;

verus! {

/// Non-scalar compound types that need more information to create
/// reflection info.
pub trait TypeSignature: Sized {
    /// Whether the type can be made in `ctx`.
    spec fn can_make(&self, ctx: ContextView) -> bool;

    /// The type that `make_type` gives.
    spec fn type_made(&self, ctx: ContextView) -> Type;

    /// The context after `make_type`.
    spec fn context_made(&self, ctx: ContextView) -> ContextView;

    /// Make the type that describes this host value.
    fn make_type(&self, ctx: &mut Context) -> (made: Type)
        requires
            self.can_make(old(ctx)@),
        ensures
            made == self.type_made(old(ctx)@),
            final(ctx)@ == self.context_made(old(ctx)@),
    ;
}

/// Scalar and simple types only need to know which type they are to
/// produce reflection info.
pub trait ScalarTypeSignature: Sized {
    /// The scalar type that stands for this host type.
    spec fn scalar() -> ScalarKind;

    /// The scalar type that stands for this host type.
    fn make_type(ctx: &mut Context) -> (made: Type)
        requires
            old(ctx)@.scalar_for(Self::scalar()) is Some,
        ensures
            old(ctx)@.scalar_for(Self::scalar()) == Some(made),
            final(ctx)@ == old(ctx)@.with_scalar(Self::scalar()),
    ;
}

impl ScalarTypeSignature for Number {
    open spec fn scalar() -> ScalarKind {
        ScalarKind::Number
    }

    fn make_type(ctx: &mut Context) -> (made: Type) {
        match ctx.type_number() {
            Some(made) => made,
            // The type is there or the heap has room for it: one is given.
            None => Type { ptr: 0 },
        }
    }
}

/// The parameter types and the return type of a function.
#[derive(Debug, Clone)]
pub struct CallSignature {
    pub args: Vec<Type>,
    pub return_ty: Type,
}

impl TypeSignature for CallSignature {
    open spec fn can_make(&self, ctx: ContextView) -> bool {
        ctx.has_room()
    }

    open spec fn type_made(&self, ctx: ContextView) -> Type {
        Type { ptr: ctx.next_address() }
    }

    open spec fn context_made(&self, ctx: ContextView) -> ContextView {
        ctx.with_type(
            TypeModel::Signature {
                params: params_kept(self.args@),
                ret: self.return_ty,
                vararg: None,
            },
        )
    }

    fn make_type(&self, ctx: &mut Context) -> (made: Type) {
        match ctx.make_signature_type(self.return_ty, self.args.as_slice()) {
            Some(made) => made,
            // The heap has room for the type: one is made.
            None => Type { ptr: 0 },
        }
    }
}

/// The text that is made a string of: the text itself, or the empty text
/// where it holds a nul byte.
pub open spec fn text_made(bytes: Seq<u8>) -> Seq<u8> {
    if is_nul_free(bytes) {
        bytes
    } else {
        Seq::empty()
    }
}

/// The value that making a string of `bytes` gives in `ctx`: the string
/// object, or null where the heap has no room for it.
pub open spec fn string_value(bytes: Seq<u8>, ctx: ContextView) -> Value {
    match ctx.string_for(text_made(bytes)) {
        Some(made) => object_value(made.ptr),
        None => Value(0x7FFC_0000_0000_0000),
    }
}

/// Make a string value of `bytes`.
pub fn make_string_value(bytes: &[u8], ctx: &mut Context) -> (value: Value)
    ensures
        value == string_value(bytes@, old(ctx)@),
        final(ctx)@ == old(ctx)@.with_string(text_made(bytes@)),
{
    let text: Vec<u8> = if find_nul(bytes).is_some() {
        Vec::new()
    } else {
        vstd::slice::slice_to_vec(bytes)
    };
    match ctx.intern(text) {
        Some(made) => Value::from_object(made.as_object()),
        None => Value::null(),
    }
}

impl MakeBoltValueWithContext for &str {
    open spec fn context_after(&self, ctx: ContextView) -> ContextView {
        ctx.with_string(text_made(self.spec_bytes()))
    }

    open spec fn made_in(&self, ctx: ContextView) -> Value {
        string_value(self.spec_bytes(), ctx)
    }

    fn make_with_context(&self, ctx: &mut Context) -> (value: Value) {
        make_string_value(self.as_bytes(), ctx)
    }
}

impl MakeBoltValueWithContext for String {
    open spec fn context_after(&self, ctx: ContextView) -> ContextView {
        ctx.with_string(text_made(encode_utf8(self@)))
    }

    open spec fn made_in(&self, ctx: ContextView) -> Value {
        string_value(encode_utf8(self@), ctx)
    }

    fn make_with_context(&self, ctx: &mut Context) -> (value: Value) {
        make_string_value(self.as_str().as_bytes(), ctx)
    }
}

impl Context {
    /// Export the host procedure at the address `procedure` from `module`
    /// under the name `name`, as a function that takes `args` and returns
    /// `ret_type`: its signature and its function object are made, and the
    /// function is exported under the name.
    ///
    /// The name is refused where it holds a nul byte, before anything is
    /// made. Where the heap has no room for the name, the signature and
    /// the function, nothing is made.
    pub fn module_export_native<S: IntoCStr>(
        &mut self,
        module: &Module,
        name: S,
        procedure: usize,
        ret_type: Type,
        args: &[Type],
    ) -> (done: Result<(), Error>)
        ensures
            match done {
                Ok(()) => {
                    &&& is_nul_free(name.text_bytes())
                    &&& old(self)@.has_room_for(3)
                    &&& old(self)@.string_for(name.text_bytes()) matches Some(text)
                    &&& final(self)@ == Self::exported_native(
                        old(self)@.with_string(name.text_bytes()),
                        module.ptr,
                        text.ptr,
                        procedure,
                        ret_type,
                        args@,
                    )
                },
                Err(Error::StringConversion { position }) => is_first_nul(
                    name.text_bytes(),
                    position as int,
                ) && final(self)@ == old(self)@,
                Err(err) => is_nul_free(name.text_bytes()) && !old(self)@.has_room_for(3)
                    && is_out_of_memory(err) && final(self)@ == old(self)@,
            },
    {
        let bytes = name.as_c_str()?;
        if !self.has_room_for(3) {
            return Err(out_of_memory());
        }
        let text = match self.intern(bytes) {
            Some(text) => text,
            None => {
                return Err(out_of_memory());
            },
        };
        let signature = match self.make_signature_type(ret_type, args) {
            Some(signature) => signature,
            None => {
                return Err(out_of_memory());
            },
        };
        let native = match self.make_native(module, signature, procedure) {
            Some(native) => native,
            None => {
                return Err(out_of_memory());
            },
        };
        self.module_export(
            module,
            signature,
            Value::from_object(text.as_object()),
            Value::from_object(native.as_object()),
        );
        Ok(())
    }

    /// The context `named`, in which the name lies at `text`, after a host
    /// procedure was exported under that name: with its signature, its
    /// function object, and the export.
    pub open spec fn exported_native(
        named: ContextView,
        module: usize,
        text: usize,
        procedure: usize,
        ret_type: Type,
        args: Seq<Type>,
    ) -> ContextView {
        let signature = Type { ptr: named.next_address() };
        let typed = named.with_type(
            TypeModel::Signature { params: params_kept(args), ret: ret_type, vararg: None },
        );
        let native = typed.next_address();
        typed.with_native(module, signature, procedure).with_export(
            module,
            Export { key: object_value(text), type_: signature, value: object_value(native) },
        )
    }
}

} // verus!
