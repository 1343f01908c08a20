//! The tagged value: one 64-bit word that is either a number or a boxed
//! null, bool, enum option or object address.
//!
//! Numbers are stored as their IEEE 754 binary64 bit pattern. A word whose
//! bits 50 to 62 are all set is boxed: no arithmetic produces such a
//! pattern. Bits 48 and 49 of a boxed word say what it holds, and its low 48
//! bits hold the payload.

use vstd::prelude::*;
use crate::bt_object::Object;
use crate::bt_object::ObjectType;
use crate::object_mask::kind_of;

verus! {

/// The bits that are all set in a boxed word and in no number.
pub const BOX_BITS: u64 = 0x7FFC_0000_0000_0000;

/// The box bits together with the two bits that name the class.
pub const CLASS_BITS: u64 = 0x7FFF_0000_0000_0000;

/// The payload of a boxed word.
pub const PAYLOAD_BITS: u64 = 0x0000_FFFF_FFFF_FFFF;

/// The word of the null value.
pub const VALUE_NULL: u64 = 0x7FFC_0000_0000_0000;

/// The word of the bool false; also the class bits of a bool.
pub const VALUE_FALSE: u64 = 0x7FFD_0000_0000_0000;

/// The word of the bool true.
pub const VALUE_TRUE: u64 = 0x7FFD_0000_0000_0001;

/// Class bits of an enum option; the option is the low 32 bits.
pub const VALUE_ENUM: u64 = 0x7FFE_0000_0000_0000;

/// Class bits of an object; the address is the low 48 bits.
pub const VALUE_OBJECT: u64 = 0x7FFF_0000_0000_0000;

/// The quiet not-a-number that stands for every not-a-number whose own
/// pattern would read as a boxed word.
pub const CANONICAL_NAN: u64 = 0x7FF8_0000_0000_0000;

/// What a value holds.
pub enum Held {
    Null,
    Bool(bool),
    /// A number, as its binary64 bit pattern.
    Number(u64),
    /// An option of an enum type.
    Enum(u32),
    /// The address of a heap object; it may be null.
    Object(u64),
}

/// Whether `word` is a boxed word rather than a number.
pub open spec fn is_boxed(word: u64) -> bool {
    word & 0x7FFC_0000_0000_0000 == 0x7FFC_0000_0000_0000
}

/// What the word `word` holds.
pub open spec fn held_by(word: u64) -> Held {
    if word & 0x7FFC_0000_0000_0000 != 0x7FFC_0000_0000_0000 {
        Held::Number(word)
    } else if word & 0x7FFF_0000_0000_0000 == 0x7FFC_0000_0000_0000 {
        Held::Null
    } else if word & 0x7FFF_0000_0000_0000 == 0x7FFD_0000_0000_0000 {
        Held::Bool(word & 0x1 != 0)
    } else if word & 0x7FFF_0000_0000_0000 == 0x7FFE_0000_0000_0000 {
        Held::Enum((word & 0xFFFF_FFFF) as u32)
    } else {
        Held::Object(word & 0x0000_FFFF_FFFF_FFFF)
    }
}

/// The word that stores the number with the bit pattern `bits`.
pub open spec fn number_word(bits: u64) -> u64 {
    if is_boxed(bits) {
        0x7FF8_0000_0000_0000
    } else {
        bits
    }
}

/// The value that holds the address `ptr`.
pub open spec fn object_value(ptr: usize) -> Value {
    Value(0x7FFF_0000_0000_0000 | ((ptr as u64) & 0x0000_FFFF_FFFF_FFFF))
}

/// A tagged value. Values are plain words: copying one copies no memory
/// and owns none.
#[derive(Debug, Clone, Copy, PartialEq, Eq, Structural)]
pub struct Value(pub u64);

impl View for Value {
    type V = Held;

    open spec fn view(&self) -> Held {
        held_by(self.0)
    }
}

impl Value {
    /// The value with the word `val`.
    #[inline]
    pub fn from_raw(val: u64) -> (value: Self)
        ensures
            value.0 == val,
    {
        Self(val)
    }

    /// The word of the value.
    #[inline]
    pub fn as_raw(&self) -> (val: u64)
        ensures
            val == self.0,
    {
        self.0
    }

    /// The null value.
    pub fn null() -> (value: Self)
        ensures
            value.0 == VALUE_NULL,
            value@ == Held::Null,
    {
        proof {
            lemma_constructed_words(0, 0, 0);
        }
        Self(VALUE_NULL)
    }

    /// The value that holds `flag`.
    pub fn from_bool(flag: bool) -> (value: Self)
        ensures
            value.0 == (if flag { VALUE_TRUE } else { VALUE_FALSE }),
            value@ == Held::Bool(flag),
    {
        proof {
            lemma_constructed_words(0, 0, 0);
        }
        if flag {
            Self(VALUE_TRUE)
        } else {
            Self(VALUE_FALSE)
        }
    }

    /// The value that holds the number with the binary64 bit pattern
    /// `bits`. Every pattern is stored as it is, but for the not-a-number
    /// patterns with bits 50 and 51 both set, which are stored as the
    /// canonical quiet not-a-number.
    pub fn from_number(bits: u64) -> (value: Self)
        ensures
            value.0 == number_word(bits),
            value@ == Held::Number(number_word(bits)),
            is_finite(bits) ==> value@ == Held::Number(bits),
    {
        proof {
            lemma_number_words(bits);
        }
        if bits & BOX_BITS == BOX_BITS {
            Self(CANONICAL_NAN)
        } else {
            Self(bits)
        }
    }

    /// The value that holds the option `option` of an enum type.
    pub fn from_enum(option: u32) -> (value: Self)
        ensures
            value.0 == VALUE_ENUM | (option as u64),
            value@ == Held::Enum(option),
    {
        proof {
            lemma_constructed_words(option, 0, 0);
        }
        Self(VALUE_ENUM | (option as u64))
    }

    /// The value that holds the address of `obj`. A value carries the low
    /// 48 bits of an address.
    pub fn from_object(obj: Object) -> (value: Self)
        ensures
            value == object_value(obj.ptr),
            value@ == Held::Object((obj.ptr as u64) & PAYLOAD_BITS),
            obj.ptr <= PAYLOAD_BITS ==> value@ == Held::Object(obj.ptr as u64),
    {
        proof {
            lemma_constructed_words(0, obj.ptr as u64, 0);
        }
        Self(VALUE_OBJECT | ((obj.ptr as u64) & PAYLOAD_BITS))
    }

    /// Whether the value holds a number.
    #[inline]
    pub fn is_number(&self) -> (holds: bool)
        ensures
            holds == (self@ is Number),
    {
        proof {
            lemma_word_classes(self.0);
        }
        self.0 & BOX_BITS != BOX_BITS
    }

    /// Whether the value holds a bool.
    #[inline]
    pub fn is_bool(&self) -> (holds: bool)
        ensures
            holds == (self@ is Bool),
    {
        proof {
            lemma_word_classes(self.0);
        }
        self.0 & CLASS_BITS == VALUE_FALSE
    }

    /// Whether the value is null.
    #[inline]
    pub fn is_null(&self) -> (holds: bool)
        ensures
            holds == (self@ is Null),
    {
        proof {
            lemma_word_classes(self.0);
        }
        self.0 & CLASS_BITS == VALUE_NULL
    }

    /// Whether the value holds an option of an enum type.
    #[inline]
    pub fn is_enum(&self) -> (holds: bool)
        ensures
            holds == (self@ is Enum),
    {
        proof {
            lemma_word_classes(self.0);
        }
        self.0 & CLASS_BITS == VALUE_ENUM
    }

    /// Whether the value holds the address of an object.
    #[inline]
    pub fn is_object(&self) -> (holds: bool)
        ensures
            holds == (self@ is Object),
    {
        proof {
            lemma_word_classes(self.0);
        }
        self.0 & CLASS_BITS == VALUE_OBJECT
    }

    /// The binary64 bit pattern of the number held, if a number is held.
    #[inline]
    pub fn as_number(&self) -> (bits: Option<u64>)
        ensures
            bits == (match self@ {
                Held::Number(held) => Some(held),
                _ => None,
            }),
    {
        if self.is_number() {
            Some(self.0)
        } else {
            None
        }
    }

    /// The bool held, if a bool is held.
    #[inline]
    pub fn as_bool(&self) -> (flag: Option<bool>)
        ensures
            flag == (match self@ {
                Held::Bool(held) => Some(held),
                _ => None,
            }),
    {
        if self.is_bool() {
            Some(self.0 & 0x1 != 0)
        } else {
            None
        }
    }

    /// The enum option held, if one is held.
    #[inline]
    pub fn as_enum(&self) -> (option: Option<u32>)
        ensures
            option == (match self@ {
                Held::Enum(held) => Some(held),
                _ => None,
            }),
    {
        if self.is_enum() {
            Some((self.0 & 0xFFFF_FFFF) as u32)
        } else {
            None
        }
    }

    /// The object whose address is held, if an address other than null is
    /// held and it is one that this machine can form.
    #[inline]
    pub fn as_object(&self) -> (obj: Option<Object>)
        ensures
            obj == (match self@ {
                Held::Object(addr) => if addr == 0 || addr > usize::MAX {
                    None
                } else {
                    Some(Object { ptr: addr as usize })
                },
                _ => None,
            }),
    {
        if self.is_object() {
            let addr: u64 = self.0 & PAYLOAD_BITS;
            if addr > usize::MAX as u64 {
                None
            } else {
                Object::from_raw(addr as usize)
            }
        } else {
            None
        }
    }
}

/// The kind of a value: what it holds and, for an object, the kind that
/// the object's header names.
#[derive(Debug, Clone, Copy, PartialEq, Eq, Structural)]
pub enum ValueType {
    Null,
    Bool,
    Number,
    Enum,
    /// An object address that leads to no object of a known kind; distinct
    /// from `Null`.
    NoObject,
    Type,
    String,
    Module,
    Import,
    Function,
    NativeFunction,
    Closure,
    Array,
    Table,
    UserData,
    Annotation,
}

impl ValueType {
    /// The value kind of an object of the kind `kind`.
    pub open spec fn of_kind(kind: ObjectType) -> ValueType {
        match kind {
            ObjectType::NoObject => ValueType::NoObject,
            ObjectType::Type => ValueType::Type,
            ObjectType::String => ValueType::String,
            ObjectType::Module => ValueType::Module,
            ObjectType::Import => ValueType::Import,
            ObjectType::Function => ValueType::Function,
            ObjectType::NativeFunction => ValueType::NativeFunction,
            ObjectType::Closure => ValueType::Closure,
            ObjectType::Array => ValueType::Array,
            ObjectType::Table => ValueType::Table,
            ObjectType::UserData => ValueType::UserData,
            ObjectType::Annotation => ValueType::Annotation,
        }
    }

    /// The kind of a value that holds `held`, where `header` is the header
    /// word of the object at the address held, if there is such an object.
    /// The classes are tried in a fixed order: null, bool, number, enum,
    /// then object, whose kind the header names.
    pub open spec fn classified(held: Held, header: Option<u64>) -> ValueType {
        match held {
            Held::Null => ValueType::Null,
            Held::Bool(_) => ValueType::Bool,
            Held::Number(_) => ValueType::Number,
            Held::Enum(_) => ValueType::Enum,
            Held::Object(_) => match header {
                Some(mask) => Self::of_kind(ObjectType::of_tag(kind_of(mask))),
                None => ValueType::NoObject,
            },
        }
    }

    /// The value kind of an object whose header names `kind`.
    pub fn from_object_type(kind: ObjectType) -> (value_type: Self)
        ensures
            value_type == Self::of_kind(kind),
    {
        match kind {
            ObjectType::NoObject => ValueType::NoObject,
            ObjectType::Type => ValueType::Type,
            ObjectType::String => ValueType::String,
            ObjectType::Module => ValueType::Module,
            ObjectType::Import => ValueType::Import,
            ObjectType::Function => ValueType::Function,
            ObjectType::NativeFunction => ValueType::NativeFunction,
            ObjectType::Closure => ValueType::Closure,
            ObjectType::Array => ValueType::Array,
            ObjectType::Table => ValueType::Table,
            ObjectType::UserData => ValueType::UserData,
            ObjectType::Annotation => ValueType::Annotation,
        }
    }

    /// Find out what kind of value `val` is. `header` is the header word of
    /// the object at the address that `val` holds; it is read only where
    /// `val` holds an address, and none stands for an address at which no
    /// object lies.
    pub fn classify(val: Value, header: Option<u64>) -> (value_type: Self)
        ensures
            value_type == Self::classified(val@, header),
    {
        if val.is_null() {
            return ValueType::Null;
        }
        if val.is_bool() {
            return ValueType::Bool;
        }
        if val.is_number() {
            return ValueType::Number;
        }
        if val.is_enum() {
            return ValueType::Enum;
        }
        match header {
            Some(mask) => Self::from_object_type(ObjectType::from_mask(mask)),
            None => ValueType::NoObject,
        }
    }
}

/// Whether `bits` is the pattern of a finite number: its exponent bits are
/// not all set.
pub open spec fn is_finite(bits: u64) -> bool {
    bits & 0x7FF0_0000_0000_0000 != 0x7FF0_0000_0000_0000
}

/// The class bits of a boxed word take one of four values, and none of
/// them occurs in a number.
pub proof fn lemma_word_classes(word: u64)
    by (bit_vector)
    ensures
        word & 0x7FFC_0000_0000_0000 == 0x7FFC_0000_0000_0000 ==> {
            ||| word & 0x7FFF_0000_0000_0000 == 0x7FFC_0000_0000_0000
            ||| word & 0x7FFF_0000_0000_0000 == 0x7FFD_0000_0000_0000
            ||| word & 0x7FFF_0000_0000_0000 == 0x7FFE_0000_0000_0000
            ||| word & 0x7FFF_0000_0000_0000 == 0x7FFF_0000_0000_0000
        },
        word & 0x7FFC_0000_0000_0000 != 0x7FFC_0000_0000_0000 ==> {
            &&& word & 0x7FFF_0000_0000_0000 != 0x7FFC_0000_0000_0000
            &&& word & 0x7FFF_0000_0000_0000 != 0x7FFD_0000_0000_0000
            &&& word & 0x7FFF_0000_0000_0000 != 0x7FFE_0000_0000_0000
            &&& word & 0x7FFF_0000_0000_0000 != 0x7FFF_0000_0000_0000
        },
{
}

/// The class bits and payloads of the words that the constructors build.
pub proof fn lemma_constructed_words(option: u32, addr: u64, word: u64)
    by (bit_vector)
    ensures
        0x7FFC_0000_0000_0000u64 & 0x7FFC_0000_0000_0000 == 0x7FFC_0000_0000_0000,
        0x7FFC_0000_0000_0000u64 & 0x7FFF_0000_0000_0000 == 0x7FFC_0000_0000_0000,
        0x7FFD_0000_0000_0000u64 & 0x7FFC_0000_0000_0000 == 0x7FFC_0000_0000_0000,
        0x7FFD_0000_0000_0000u64 & 0x7FFF_0000_0000_0000 == 0x7FFD_0000_0000_0000,
        0x7FFD_0000_0000_0001u64 & 0x7FFC_0000_0000_0000 == 0x7FFC_0000_0000_0000,
        0x7FFD_0000_0000_0000u64 & 0x1 == 0,
        0x7FFD_0000_0000_0001u64 & 0x1 != 0,
        0x7FFD_0000_0000_0001u64 & 0x7FFF_0000_0000_0000 == 0x7FFD_0000_0000_0000,
        (0x7FFE_0000_0000_0000u64 | (option as u64)) & 0x7FFC_0000_0000_0000
            == 0x7FFC_0000_0000_0000,
        (0x7FFE_0000_0000_0000u64 | (option as u64)) & 0x7FFF_0000_0000_0000
            == 0x7FFE_0000_0000_0000,
        ((0x7FFE_0000_0000_0000u64 | (option as u64)) & 0xFFFF_FFFF) as u32 == option,
        (0x7FFF_0000_0000_0000u64 | (addr & 0x0000_FFFF_FFFF_FFFF)) & 0x7FFC_0000_0000_0000
            == 0x7FFC_0000_0000_0000,
        (0x7FFF_0000_0000_0000u64 | (addr & 0x0000_FFFF_FFFF_FFFF)) & 0x7FFF_0000_0000_0000
            == 0x7FFF_0000_0000_0000,
        (0x7FFF_0000_0000_0000u64 | (addr & 0x0000_FFFF_FFFF_FFFF)) & 0x0000_FFFF_FFFF_FFFF == addr
            & 0x0000_FFFF_FFFF_FFFF,
        addr <= 0x0000_FFFF_FFFF_FFFF ==> addr & 0x0000_FFFF_FFFF_FFFF == addr,
{
}

/// The canonical not-a-number is a number, and a finite pattern is never
/// boxed.
pub proof fn lemma_number_words(bits: u64)
    by (bit_vector)
    ensures
        0x7FF8_0000_0000_0000u64 & 0x7FFC_0000_0000_0000 != 0x7FFC_0000_0000_0000,
        bits & 0x7FF0_0000_0000_0000 != 0x7FF0_0000_0000_0000 ==> bits & 0x7FFC_0000_0000_0000
            != 0x7FFC_0000_0000_0000,
{
}

/// Every word holds exactly one of null, a bool, a number, an enum option
/// and an object address.
pub proof fn lemma_exactly_one_class(value: Value)
    ensures
        (if value@ is Null { 1int } else { 0 }) + (if value@ is Bool { 1int } else { 0 }) + (
        if value@ is Number { 1int } else { 0 }) + (if value@ is Enum { 1int } else { 0 }) + (
        if value@ is Object { 1int } else { 0 }) == 1,
{
}

/// A number that is stored and read back is the number stored, for every
/// finite number, whatever its sign, and for both infinities: for every
/// pattern that is not itself boxed. A boxed pattern reads back as the
/// canonical not-a-number.
pub proof fn lemma_number_round_trip(bits: u64)
    ensures
        is_finite(bits) ==> !is_boxed(bits),
        !is_boxed(bits) ==> held_by(number_word(bits)) == Held::Number(bits),
        is_boxed(bits) ==> held_by(number_word(bits)) == Held::Number(0x7FF8_0000_0000_0000),
{
    lemma_number_words(bits);
}

/// Both zeros and the two infinities are stored as they are.
pub proof fn lemma_plain_numbers()
    ensures
        is_finite(0),
        is_finite(0x8000_0000_0000_0000),
        !is_boxed(0x7FF0_0000_0000_0000),
        !is_boxed(0xFFF0_0000_0000_0000),
{
    assert(0u64 & 0x7FF0_0000_0000_0000 != 0x7FF0_0000_0000_0000 && 0x8000_0000_0000_0000u64
        & 0x7FF0_0000_0000_0000 != 0x7FF0_0000_0000_0000 && 0x7FF0_0000_0000_0000u64
        & 0x7FFC_0000_0000_0000 != 0x7FFC_0000_0000_0000 && 0xFFF0_0000_0000_0000u64
        & 0x7FFC_0000_0000_0000 != 0x7FFC_0000_0000_0000) by (bit_vector);
}

} // verus!
