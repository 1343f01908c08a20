//! Modules: named export tables, and the registry that finds them by name.

use vstd::prelude::*;
use vstd::string::StringSliceAdditionalSpecFns;
use crate::bt_object::Module;
use crate::bt_object::NativeFunction;
use crate::bt_object::Type;
use crate::bt_object::OBJECT_TYPE_MODULE;
use crate::bt_object::OBJECT_TYPE_NATIVE_FN;
use crate::context::Context;
use crate::context::ContextView;
use crate::context::ModuleBinding;
use crate::error::Error;
use crate::error::ModuleError;
use crate::heap::Body;
use crate::heap::BodyModel;
use crate::heap::Export;
use crate::heap::ObjectModel;
use crate::heap::MAX_OBJECTS;
use crate::strings::is_out_of_memory;
use crate::value::object_value;
use crate::value::Value;
use crate::wrappers::find_nul;
use crate::wrappers::is_first_nul;
use crate::wrappers::is_nul_free;
use crate::wrappers::IntoCStr;

verus! {

/// The newest of the first `upto` bindings that binds `name`.
pub open spec fn binding_slot(bindings: Seq<ModuleBinding>, name: Value, upto: nat) -> Option<int>
    decreases upto,
{
    if upto == 0 {
        None
    } else if bindings[upto - 1].name == name {
        Some(upto - 1)
    } else {
        binding_slot(bindings, name, (upto - 1) as nat)
    }
}

/// The newest of the first `upto` exports under `key`.
pub open spec fn export_slot(exports: Seq<Export>, key: Value, upto: nat) -> Option<int>
    decreases upto,
{
    if upto == 0 {
        None
    } else if exports[upto - 1].key == key {
        Some(upto - 1)
    } else {
        export_slot(exports, key, (upto - 1) as nat)
    }
}

impl ContextView {
    /// Whether a live module lies at `ptr`.
    pub open spec fn is_module(self, ptr: usize) -> bool {
        self.is_live(ptr) && self.object(ptr).body is Module
    }

    /// The exports of the module at `ptr`, oldest first.
    pub open spec fn exports_of(self, ptr: usize) -> Seq<Export> {
        if self.is_module(ptr) {
            self.object(ptr).body->exports
        } else {
            Seq::empty()
        }
    }

    /// The newest export of the module at `ptr` under `key`.
    pub open spec fn export_of(self, ptr: usize, key: Value) -> Option<Export> {
        match export_slot(self.exports_of(ptr), key, self.exports_of(ptr).len()) {
            Some(index) => Some(self.exports_of(ptr)[index]),
            None => None,
        }
    }

    /// The address that `name` was last registered for.
    pub open spec fn registered(self, name: Value) -> Option<usize> {
        match binding_slot(self.modules, name, self.modules.len()) {
            Some(index) => Some(self.modules[index].module),
            None => None,
        }
    }

    /// The live module that `name` was last registered for.
    pub open spec fn module_named(self, name: Value) -> Option<usize> {
        match self.registered(name) {
            Some(ptr) => if self.is_module(ptr) {
                Some(ptr)
            } else {
                None
            },
            None => None,
        }
    }

    /// The context with one more module, which exports nothing.
    pub open spec fn with_module(self) -> ContextView {
        self.with_object(3, 0, BodyModel::Module { exports: Seq::empty() })
    }

    /// The context with the module at `ptr` registered under `name`. What
    /// is no live module is not registered.
    pub open spec fn with_registration(self, name: Value, ptr: usize) -> ContextView {
        if self.is_module(ptr) {
            ContextView { modules: self.modules.push(ModuleBinding { name, module: ptr }), ..self }
        } else {
            self
        }
    }

    /// The context with one more export of the module at `ptr`.
    pub open spec fn with_export(self, ptr: usize, export: Export) -> ContextView {
        if self.is_module(ptr) {
            self.with_object_at(
                ptr,
                ObjectModel {
                    body: BodyModel::Module { exports: self.exports_of(ptr).push(export) },
                    ..self.object(ptr)
                },
            )
        } else {
            self
        }
    }

    /// The context with one more native function.
    pub open spec fn with_native(self, module: usize, signature: Type, procedure: usize) -> ContextView {
        self.with_object(6, 0, BodyModel::NativeFunction { module, signature, procedure })
    }

    /// Whether the heap has room for `count` more objects.
    pub open spec fn has_room_for(self, count: nat) -> bool {
        self.heap.len() + count <= MAX_OBJECTS
    }
}

impl Context {
    /// Whether the heap has room for `count` more objects.
    pub fn has_room_for(&self, count: usize) -> (room: bool)
        ensures
            room == self@.has_room_for(count as nat),
    {
        self.heap.len() <= MAX_OBJECTS && count <= MAX_OBJECTS - self.heap.len()
    }

    /// Whether `module` is a live module of this context.
    pub fn is_module(&self, module: &Module) -> (live: bool)
        ensures
            live == self@.is_module(module.ptr),
    {
        match self.slot(module.ptr) {
            Some(index) => match &self.heap[index].body {
                Body::Module { .. } => true,
                _ => false,
            },
            None => false,
        }
    }

    /// Make a module that exports nothing. Gives none, and changes nothing,
    /// where the heap is full.
    pub fn make_module(&mut self) -> (module: Option<Module>)
        ensures
            module is Some == old(self)@.has_room(),
            module matches Some(made) ==> made == (Module {
                ptr: old(self)@.next_address(),
                name: None,
                path: None,
            }) && final(self)@ == old(self)@.with_module(),
            module is None ==> final(self)@ == old(self)@,
    {
        let ptr = self.place(OBJECT_TYPE_MODULE, 0, Body::Module { exports: Vec::new() });
        Module::from_raw(ptr)
    }

    /// Register `module` under `name`, in place of what was registered
    /// under that name before. What is no live module is not registered.
    pub fn register_module(&mut self, name: Value, module: &Module)
        ensures
            final(self)@ == old(self)@.with_registration(name, module.ptr),
    {
        if self.is_module(module) {
            self.modules.push(ModuleBinding { name, module: module.ptr });
            assert(self@.heap =~= old(self)@.heap);
        }
    }

    /// The live module registered under `name`. `suppress_errors` says
    /// whether a failure is kept from the error report; it does not change
    /// what is found.
    pub fn find_module(&self, name: Value, suppress_errors: bool) -> (module: Option<Module>)
        ensures
            module == (match self@.module_named(name) {
                Some(ptr) => Some(Module { ptr, name: None, path: None }),
                None => None,
            }),
    {
        let mut i: usize = self.modules.len();
        while i > 0
            invariant
                i <= self.modules.len(),
                binding_slot(self.modules@, name, self.modules.len() as nat) == binding_slot(
                    self.modules@,
                    name,
                    i as nat,
                ),
            decreases i,
        {
            i -= 1;
            if self.modules[i].name == name {
                let found = Module { ptr: self.modules[i].module, name: None, path: None };
                if self.is_module(&found) {
                    return Some(found);
                } else {
                    return None;
                }
            }
        }
        None
    }

    /// Add an export to `module`: `value`, of the type `type_`, under
    /// `key`. Nothing is added to what is no live module.
    pub fn module_export(&mut self, module: &Module, type_: Type, key: Value, value: Value)
        ensures
            final(self)@ == old(self)@.with_export(module.ptr, Export { key, type_, value }),
    {
        match self.slot(module.ptr) {
            Some(index) => {
                match &mut self.heap[index].body {
                    Body::Module { exports } => {
                        exports.push(Export { key, type_, value });
                    },
                    _ => {},
                }
                assert(self@.heap =~= old(self)@.with_export(
                    module.ptr,
                    Export { key, type_, value },
                ).heap);
            },
            None => {},
        }
    }

    /// The newest export of `module` under `key`.
    pub fn find_export(&self, module: &Module, key: Value) -> (export: Option<Export>)
        ensures
            export == self@.export_of(module.ptr, key),
    {
        match self.slot(module.ptr) {
            Some(index) => match &self.heap[index].body {
                Body::Module { exports } => {
                    let mut i: usize = exports.len();
                    while i > 0
                        invariant
                            i <= exports.len(),
                            self@.exports_of(module.ptr) == exports@,
                            export_slot(exports@, key, exports.len() as nat) == export_slot(
                                exports@,
                                key,
                                i as nat,
                            ),
                        decreases i,
                    {
                        i -= 1;
                        if exports[i].key == key {
                            return Some(exports[i]);
                        }
                    }
                    None
                },
                _ => None,
            },
            None => None,
        }
    }

    /// Make the function object for the host procedure at the address
    /// `procedure`, which belongs to `module` and is called as `signature`
    /// says. Gives none, and changes nothing, where the heap is full.
    pub fn make_native(&mut self, module: &Module, signature: Type, procedure: usize) -> (native:
        Option<NativeFunction>)
        ensures
            native is Some == old(self)@.has_room(),
            native matches Some(made) ==> made == (NativeFunction {
                ptr: old(self)@.next_address(),
                type_: Some(signature),
            }) && final(self)@ == old(self)@.with_native(module.ptr, signature, procedure),
            native is None ==> final(self)@ == old(self)@,
    {
        let ptr = self.place(
            OBJECT_TYPE_NATIVE_FN,
            0,
            Body::NativeFunction { module: module.ptr, signature, procedure },
        );
        if ptr == 0 {
            None
        } else {
            Some(NativeFunction { ptr, type_: Some(signature) })
        }
    }

    /// Add the text `spec` to the paths that modules are looked for under.
    pub fn append_module_path<S: IntoCStr>(&mut self, spec: S) -> (done: Result<(), Error>)
        ensures
            match done {
                Ok(()) => {
                    &&& is_nul_free(spec.text_bytes())
                    &&& old(self)@.string_for(spec.text_bytes()) matches Some(path)
                    &&& final(self)@ == (ContextView {
                        module_paths: old(self)@.module_paths.push(path),
                        ..old(self)@.with_string(spec.text_bytes())
                    })
                },
                Err(Error::StringConversion { position }) => is_first_nul(
                    spec.text_bytes(),
                    position as int,
                ) && final(self)@ == old(self)@,
                Err(err) => is_nul_free(spec.text_bytes()) && old(self)@.string_for(
                    spec.text_bytes(),
                ) is None && is_out_of_memory(err) && final(self)@ == old(self)@,
            },
    {
        let path = self.get_or_make_interned(spec)?;
        self.module_paths.push(path);
        assert(self@.heap =~= old(self)@.with_string(spec.text_bytes()).heap);
        Ok(())
    }

    /// Make a module and register it under the name `name`.
    ///
    /// The name is refused where it holds a nul byte, before anything is
    /// made, and where a live module is registered under it already. The
    /// heap must have room for the name and the module.
    pub fn create_module(&mut self, name: &str) -> (module: Result<Module, ModuleError>)
        requires
            old(self)@.has_room_for(2),
        ensures
            match module {
                Ok(made) => {
                    &&& is_nul_free(name.spec_bytes())
                    &&& old(self)@.string_for(name.spec_bytes()) matches Some(text)
                    &&& old(self)@.module_named(object_value(text.ptr)) is None
                    &&& made.ptr == old(self)@.with_string(name.spec_bytes()).next_address()
                    &&& made.name matches Some(known) && known@ == name@
                    &&& made.path is None
                    &&& final(self)@ == old(self)@.with_string(
                        name.spec_bytes(),
                    ).with_module().with_registration(object_value(text.ptr), made.ptr)
                },
                Err(ModuleError::InvalidName(given)) => {
                    &&& !is_nul_free(name.spec_bytes())
                    &&& given@ == name@
                    &&& final(self)@ == old(self)@
                },
                Err(ModuleError::AlreadyRegistered(given)) => {
                    &&& is_nul_free(name.spec_bytes())
                    &&& old(self)@.string_for(name.spec_bytes()) matches Some(text)
                    &&& old(self)@.module_named(object_value(text.ptr)) is Some
                    &&& given@ == name@
                    &&& final(self)@ == old(self)@.with_string(name.spec_bytes())
                },
                Err(ModuleError::NotFound(_)) => false,
            },
    {
        let text = match self.get_or_make_interned(name) {
            Ok(text) => text,
            Err(_) => {
                return Err(ModuleError::InvalidName(name.to_owned()));
            },
        };
        let name_value = Value::from_object(text.as_object());
        proof {
            lemma_registry_ignores_strings(old(self)@, name.spec_bytes(), name_value);
        }
        if self.find_module(name_value, false).is_some() {
            return Err(ModuleError::AlreadyRegistered(name.to_owned()));
        }
        match self.make_module() {
            Some(made) => {
                self.register_module(name_value, &made);
                Ok(Module { ptr: made.ptr, name: Some(name.to_owned()), path: None })
            },
            // The heap has room for the module, so one was made.
            None => Err(ModuleError::InvalidName(name.to_owned())),
        }
    }

    /// The module registered under the name `name`.
    pub fn get_module(&self, name: &str) -> (module: Result<Module, ModuleError>)
        ensures
            match module {
                Ok(found) => {
                    &&& is_nul_free(name.spec_bytes())
                    &&& self@.interned(name.spec_bytes()) matches Some(text)
                    &&& self@.module_named(object_value(text.ptr)) == Some(found.ptr)
                    &&& found.name matches Some(known) && known@ == name@
                    &&& found.path is None
                },
                Err(ModuleError::InvalidName(given)) => {
                    &&& !is_nul_free(name.spec_bytes())
                    &&& given@ == name@
                },
                Err(ModuleError::NotFound(given)) => {
                    &&& is_nul_free(name.spec_bytes())
                    &&& given@ == name@
                    &&& match self@.interned(name.spec_bytes()) {
                        Some(text) => self@.module_named(object_value(text.ptr)) is None,
                        None => true,
                    }
                },
                Err(ModuleError::AlreadyRegistered(_)) => false,
            },
    {
        if find_nul(name.as_bytes()).is_some() {
            return Err(ModuleError::InvalidName(name.to_owned()));
        }
        let text = match self.find_string(name.as_bytes()) {
            Some(text) => text,
            None => {
                return Err(ModuleError::NotFound(name.to_owned()));
            },
        };
        let name_value = Value::from_object(text.as_object());
        match self.find_module(name_value, false) {
            Some(found) => Ok(Module { ptr: found.ptr, name: Some(name.to_owned()), path: None }),
            None => Err(ModuleError::NotFound(name.to_owned())),
        }
    }
}

/// Interning a text leaves the registry as it was: what was registered
/// under a name is still the module found under it.
pub proof fn lemma_registry_ignores_strings(ctx: ContextView, bytes: Seq<u8>, name: Value)
    ensures
        ctx.with_string(bytes).module_named(name) == ctx.module_named(name),
{
    match ctx.registered(name) {
        Some(ptr) => {
            crate::heap::lemma_slot_has_address(ptr, ctx.heap.len());
            crate::heap::lemma_slot_has_address(ptr, ctx.with_string(bytes).heap.len());
        },
        None => {},
    }
}

/// Module lifecycle. A module that is registered under a name is the
/// module found under that name, until another is registered under it;
/// a registration changes what is found under no other name; and under a
/// name that nothing was registered for, nothing is found.
pub proof fn lemma_registered_module_is_found(ctx: ContextView, name: Value, ptr: usize, other: Value)
    requires
        ctx.is_module(ptr),
    ensures
        ctx.with_registration(name, ptr).module_named(name) == Some(ptr),
        other != name ==> ctx.with_registration(name, ptr).module_named(other) == ctx.module_named(
            other,
        ),
        (forall|i: int| 0 <= i < ctx.modules.len() ==> ctx.modules[i].name != other)
            ==> ctx.module_named(other) is None,
{
    let after = ctx.with_registration(name, ptr);
    assert(after.modules.drop_last() =~= ctx.modules);
    lemma_binding_slot_of_prefix(after.modules, ctx.modules, other, ctx.modules.len());
    lemma_unbound_name(ctx.modules, other, ctx.modules.len());
}

/// Two registries that agree on their first `upto` bindings find the same
/// among them.
pub proof fn lemma_binding_slot_of_prefix(
    a: Seq<ModuleBinding>,
    b: Seq<ModuleBinding>,
    name: Value,
    upto: nat,
)
    requires
        upto <= a.len(),
        upto <= b.len(),
        forall|i: int| 0 <= i < upto ==> a[i] == b[i],
    ensures
        binding_slot(a, name, upto) == binding_slot(b, name, upto),
    decreases upto,
{
    if upto > 0 {
        lemma_binding_slot_of_prefix(a, b, name, (upto - 1) as nat);
    }
}

/// A name that none of the first `upto` bindings binds is not found among
/// them, and a binding that is found binds the name.
pub proof fn lemma_unbound_name(bindings: Seq<ModuleBinding>, name: Value, upto: nat)
    requires
        upto <= bindings.len(),
    ensures
        (forall|i: int| 0 <= i < upto ==> bindings[i].name != name) ==> binding_slot(
            bindings,
            name,
            upto,
        ) is None,
        binding_slot(bindings, name, upto) matches Some(index) ==> 0 <= index < upto
            && bindings[index].name == name,
    decreases upto,
{
    if upto > 0 {
        lemma_unbound_name(bindings, name, (upto - 1) as nat);
    }
}

/// Creating a module under a name and then looking that name up finds the
/// module that was created.
pub proof fn lemma_created_module_is_found(ctx: ContextView, bytes: Seq<u8>)
    requires
        ctx.has_room_for(2),
        ctx.string_for(bytes) is Some,
    ensures
        ({
            let text = ctx.string_for(bytes)->0;
            let named = ctx.with_string(bytes);
            let made = named.next_address();
            let after = named.with_module().with_registration(object_value(text.ptr), made);
            after.interned(bytes) == Some(text) && after.module_named(object_value(text.ptr))
                == Some(made)
        }),
{
    let text = ctx.string_for(bytes)->0;
    let named = ctx.with_string(bytes);
    let made = named.next_address();
    let with_module = named.with_module();
    let after = with_module.with_registration(object_value(text.ptr), made);
    crate::strings::lemma_interning_is_stable(ctx, bytes, bytes);
    crate::context::lemma_allocated_object(
        named,
        3,
        0,
        BodyModel::Module { exports: Seq::empty() },
        made,
    );
    assert(with_module.is_module(made));
    lemma_registered_module_is_found(with_module, object_value(text.ptr), made, object_value(text.ptr));
    named.lemma_string_slot_is_first(bytes, named.addressable());
    crate::strings::lemma_string_slot_of_prefix(named, after, bytes, named.heap.len());
    after.lemma_string_slot_is_stable(bytes, named.heap.len(), after.addressable());
}

} // verus!
