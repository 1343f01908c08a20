//! Enum types: named sets of options, each a name with a value. Options
//! are only ever added, one per name, and only while the enum is not
//! sealed.

use vstd::prelude::*;
use crate::bt_object::BoltString;
use crate::bt_object::Type;
use crate::context::Context;
use crate::context::ContextView;
use crate::error::Error;
use crate::heap::Body;
use crate::heap::EnumOption;
use crate::heap::TypeBody;
use crate::heap::TypeModel;
use crate::strings::is_out_of_memory;
use crate::strings::out_of_memory;
use crate::value::object_value;
use crate::value::Value;
use crate::wrappers::is_first_nul;
use crate::wrappers::is_nul_free;
use crate::wrappers::IntoCStr;

verus! {

/// The newest of the first `upto` options of `options` named `name`.
pub open spec fn option_by_name(options: Seq<EnumOption>, name: BoltString, upto: nat) -> Option<
    int,
>
    decreases upto,
{
    if upto == 0 {
        None
    } else if options[upto - 1].name == name {
        Some(upto - 1)
    } else {
        option_by_name(options, name, (upto - 1) as nat)
    }
}

/// The newest of the first `upto` options of `options` whose value is
/// `value`.
pub open spec fn option_by_value(options: Seq<EnumOption>, value: Value, upto: nat) -> Option<int>
    decreases upto,
{
    if upto == 0 {
        None
    } else if options[upto - 1].value == value {
        Some(upto - 1)
    } else {
        option_by_value(options, value, (upto - 1) as nat)
    }
}

/// What an enum keeps of a name. The engine counts the bytes of these
/// names in sixteen bits: of a longer name it keeps as many bytes, from
/// the front, as the low sixteen bits of the length say.
pub open spec fn name_kept(bytes: Seq<u8>) -> Seq<u8> {
    bytes.subrange(0, (bytes.len() % 65536) as int)
}

/// Cut `bytes` down to what an enum keeps of a name.
pub fn keep_name(bytes: Vec<u8>) -> (kept: Vec<u8>)
    ensures
        kept@ == name_kept(bytes@),
{
    let mut kept = bytes;
    let length: usize = kept.len() % 65536;
    kept.truncate(length);
    kept
}

impl ContextView {
    /// The options of the enum at `ptr`, in the order they were added.
    pub open spec fn options_of(self, ptr: usize) -> Option<Seq<EnumOption>> {
        match self.type_at(ptr) {
            Some(TypeModel::Enum { options, .. }) => Some(options),
            _ => None,
        }
    }

    /// Whether the enum at `ptr` takes one more option named as `option`
    /// is: it is a live enum, not sealed, without an option of that name.
    pub open spec fn takes_option(self, ptr: usize, option: EnumOption) -> bool {
        match self.type_at(ptr) {
            Some(TypeModel::Enum { sealed, options, .. }) => !sealed && option_by_name(
                options,
                option.name,
                options.len(),
            ) is None,
            _ => false,
        }
    }

    /// The context with `option` added to the enum at `ptr`, where the
    /// enum takes it.
    pub open spec fn with_option(self, ptr: usize, option: EnumOption) -> ContextView {
        match self.type_at(ptr) {
            Some(TypeModel::Enum { name, sealed, options }) => if self.takes_option(ptr, option) {
                self.with_type_at(
                    ptr,
                    TypeModel::Enum { name, sealed, options: options.push(option) },
                )
            } else {
                self
            },
            _ => self,
        }
    }

    /// The value of the option named `name` of the enum at `ptr`; null
    /// where there is none.
    pub open spec fn option_value(self, ptr: usize, name: BoltString) -> Value {
        match self.options_of(ptr) {
            Some(options) => match option_by_name(options, name, options.len()) {
                Some(index) => options[index].value,
                None => Value(0x7FFC_0000_0000_0000),
            },
            None => Value(0x7FFC_0000_0000_0000),
        }
    }

    /// The name, as a value, of the newest option of the enum at `ptr`
    /// whose value is `value`; null where there is none.
    pub open spec fn option_name(self, ptr: usize, value: Value) -> Value {
        match self.options_of(ptr) {
            Some(options) => match option_by_value(options, value, options.len()) {
                Some(index) => object_value(options[index].name.ptr),
                None => Value(0x7FFC_0000_0000_0000),
            },
            None => Value(0x7FFC_0000_0000_0000),
        }
    }
}

/// The newest option of `options` named `name`.
pub fn find_option_by_name(options: &Vec<EnumOption>, name: BoltString) -> (found: Option<usize>)
    ensures
        found is Some == option_by_name(options@, name, options.len() as nat) is Some,
        found matches Some(index) ==> index < options.len() && option_by_name(
            options@,
            name,
            options.len() as nat,
        ) == Some(index as int),
{
    let mut i: usize = options.len();
    while i > 0
        invariant
            i <= options.len(),
            option_by_name(options@, name, options.len() as nat) == option_by_name(
                options@,
                name,
                i as nat,
            ),
        decreases i,
    {
        i -= 1;
        if options[i].name == name {
            return Some(i);
        }
    }
    None
}

/// The newest option of `options` whose value is `value`.
pub fn find_option_by_value(options: &Vec<EnumOption>, value: Value) -> (found: Option<usize>)
    ensures
        found is Some == option_by_value(options@, value, options.len() as nat) is Some,
        found matches Some(index) ==> index < options.len() && option_by_value(
            options@,
            value,
            options.len() as nat,
        ) == Some(index as int),
{
    let mut i: usize = options.len();
    while i > 0
        invariant
            i <= options.len(),
            option_by_value(options@, value, options.len() as nat) == option_by_value(
                options@,
                value,
                i as nat,
            ),
        decreases i,
    {
        i -= 1;
        if options[i].value == value {
            return Some(i);
        }
    }
    None
}

impl Context {
    /// Make an enum type named `name` without options. Of a name of 65536
    /// bytes or more only `name_kept` is kept.
    ///
    /// The name is refused where it holds a nul byte, before anything is
    /// made. Where the heap has no room for the name and the type, nothing
    /// is made.
    pub fn make_enum_type<S: IntoCStr>(&mut self, name: S, is_sealed: bool) -> (made: Result<
        Type,
        Error,
    >)
        ensures
            match made {
                Ok(enum_) => {
                    &&& is_nul_free(name.text_bytes())
                    &&& old(self)@.has_room_for(2)
                    &&& old(self)@.string_for(name_kept(name.text_bytes())) matches Some(text)
                    &&& enum_.ptr == old(self)@.with_string(name_kept(name.text_bytes())).next_address()
                    &&& final(self)@ == old(self)@.with_string(name_kept(name.text_bytes())).with_type(
                        TypeModel::Enum { name: text, sealed: is_sealed, options: Seq::empty() },
                    )
                },
                Err(Error::StringConversion { position }) => is_first_nul(
                    name.text_bytes(),
                    position as int,
                ) && final(self)@ == old(self)@,
                Err(err) => is_nul_free(name.text_bytes()) && !old(self)@.has_room_for(2)
                    && is_out_of_memory(err) && final(self)@ == old(self)@,
            },
    {
        let bytes = name.as_c_str()?;
        if !self.has_room_for(2) {
            return Err(out_of_memory());
        }
        let text = match self.intern(keep_name(bytes)) {
            Some(text) => text,
            None => {
                return Err(out_of_memory());
            },
        };
        match self.place_type(
            TypeBody::Enum { name: text, sealed: is_sealed, options: Vec::new() },
        ) {
            Some(enum_) => Ok(enum_),
            None => Err(out_of_memory()),
        }
    }

    /// Add the option named `name`, with the value `value`, to the enum
    /// `enum_`. An enum that is sealed, or that has an option of that name
    /// already, is left as it is, and so is what is no enum.
    ///
    /// The name is refused where it holds a nul byte, before anything is
    /// made. Where the heap has no room for the name, nothing is added.
    pub fn enum_push_option<S: IntoCStr>(&mut self, enum_: Type, name: S, value: Value) -> (done:
        Result<(), Error>)
        ensures
            match done {
                Ok(()) => {
                    &&& is_nul_free(name.text_bytes())
                    &&& old(self)@.string_for(name_kept(name.text_bytes())) matches Some(text)
                    &&& final(self)@ == old(self)@.with_string(name_kept(name.text_bytes())).with_option(
                        enum_.ptr,
                        EnumOption { name: text, value },
                    )
                },
                Err(Error::StringConversion { position }) => is_first_nul(
                    name.text_bytes(),
                    position as int,
                ) && final(self)@ == old(self)@,
                Err(err) => is_nul_free(name.text_bytes()) && old(self)@.string_for(
                    name_kept(name.text_bytes()),
                ) is None && is_out_of_memory(err) && final(self)@ == old(self)@,
            },
    {
        let bytes = name.as_c_str()?;
        let text = match self.intern(keep_name(bytes)) {
            Some(text) => text,
            None => {
                return Err(out_of_memory());
            },
        };
        let ghost named = self@;
        match self.slot(enum_.ptr) {
            Some(index) => {
                match &mut self.heap[index].body {
                    Body::Type(TypeBody::Enum { sealed, options, .. }) => {
                        if !*sealed && find_option_by_name(options, text).is_none() {
                            options.push(EnumOption { name: text, value });
                        }
                    },
                    _ => {},
                }
                assert(self@.heap =~= named.with_option(
                    enum_.ptr,
                    EnumOption { name: text, value },
                ).heap);
            },
            None => {},
        }
        Ok(())
    }

    /// Whether the enum `enum_` has an option with the value `value`: the
    /// name of the newest such option, as a value, or null.
    pub fn enum_contains(&self, enum_: Type, value: Value) -> (name: Value)
        ensures
            name == self@.option_name(enum_.ptr, value),
    {
        match self.slot(enum_.ptr) {
            Some(index) => match &self.heap[index].body {
                Body::Type(TypeBody::Enum { options, .. }) => {
                    match find_option_by_value(options, value) {
                        Some(found) => Value::from_object(options[found].name.as_object()),
                        None => Value::null(),
                    }
                },
                _ => Value::null(),
            },
            None => Value::null(),
        }
    }

    /// The value of the option named `name` of the enum `enum_`, or null.
    pub fn enum_get(&self, enum_: Type, name: BoltString) -> (value: Value)
        ensures
            value == self@.option_value(enum_.ptr, name),
    {
        match self.slot(enum_.ptr) {
            Some(index) => match &self.heap[index].body {
                Body::Type(TypeBody::Enum { options, .. }) => {
                    match find_option_by_name(options, name) {
                        Some(found) => options[found].value,
                        None => Value::null(),
                    }
                },
                _ => Value::null(),
            },
            None => Value::null(),
        }
    }
}

/// Options are only added: an option that an enum takes is found by its
/// name from then on, every option that was there is still there under
/// its name, and an enum that does not take an option is left as it is.
pub proof fn lemma_enum_is_append_only(ctx: ContextView, ptr: usize, option: EnumOption, other: BoltString)
    requires
        ctx.options_of(ptr) is Some,
    ensures
        ctx.takes_option(ptr, option) ==> ctx.with_option(ptr, option).options_of(ptr) == Some(
            ctx.options_of(ptr)->0.push(option),
        ),
        ctx.takes_option(ptr, option) ==> ctx.with_option(ptr, option).option_value(
            ptr,
            option.name,
        ) == option.value,
        !ctx.takes_option(ptr, option) ==> ctx.with_option(ptr, option) == ctx,
        other != option.name ==> ctx.with_option(ptr, option).option_value(ptr, other)
            == ctx.option_value(ptr, other),
        !ctx.with_option(ptr, option).takes_option(ptr, option),
{
    crate::heap::lemma_slot_has_address(ptr, ctx.heap.len());
    let options = ctx.options_of(ptr)->0;
    if ctx.takes_option(ptr, option) {
        let grown = options.push(option);
        lemma_option_by_name_of_prefix(grown, options, other, options.len());
        lemma_option_by_name_is_bound(options, other, options.len());
    }
}

/// Two option lists that agree on their first `upto` options find the
/// same among them.
pub proof fn lemma_option_by_name_of_prefix(
    a: Seq<EnumOption>,
    b: Seq<EnumOption>,
    name: BoltString,
    upto: nat,
)
    requires
        upto <= a.len(),
        upto <= b.len(),
        forall|i: int| 0 <= i < upto ==> a[i] == b[i],
    ensures
        option_by_name(a, name, upto) == option_by_name(b, name, upto),
    decreases upto,
{
    if upto > 0 {
        lemma_option_by_name_of_prefix(a, b, name, (upto - 1) as nat);
    }
}

/// An option that is found among the first `upto` is one of them and has
/// the name.
pub proof fn lemma_option_by_name_is_bound(options: Seq<EnumOption>, name: BoltString, upto: nat)
    requires
        upto <= options.len(),
    ensures
        option_by_name(options, name, upto) matches Some(index) ==> 0 <= index < upto
            && options[index].name == name,
    decreases upto,
{
    if upto > 0 {
        lemma_option_by_name_is_bound(options, name, (upto - 1) as nat);
    }
}

} // verus!
