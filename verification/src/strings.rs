//! The strings of a context. Every string is interned: the heap holds one
//! live string object for each text, so that two strings are the same
//! text exactly when they are the same object.

use vstd::prelude::*;
use crate::bt_object::BoltString;
use crate::bt_object::OBJECT_TYPE_STRING;
use crate::context::Context;
use crate::context::ContextView;
use crate::error::Error;
use crate::heap::address_of;
use crate::heap::Body;
use crate::heap::BodyModel;
use crate::heap::MAX_OBJECTS;
use crate::wrappers::is_first_nul;
use crate::wrappers::is_nul_free;
use crate::wrappers::IntoCStr;

verus! {

/// Whether `err` is the error for a heap that has no room left.
pub open spec fn is_out_of_memory(err: Error) -> bool {
    err matches Error::BoltError { msg } && msg@ == "Out of memory"@
}

/// The error for a heap that has no room left.
pub fn out_of_memory() -> (err: Error)
    ensures
        is_out_of_memory(err),
{
    Error::bolt("Out of memory")
}

/// Whether two runs of bytes are the same.
pub fn same_bytes(a: &[u8], b: &[u8]) -> (same: bool)
    ensures
        same == (a@ == b@),
{
    if a.len() != b.len() {
        return false;
    }
    let mut i: usize = 0;
    while i < a.len()
        invariant
            i <= a.len(),
            a.len() == b.len(),
            forall|j: int| 0 <= j < i ==> a@[j] == b@[j],
        decreases a.len() - i,
    {
        if a[i] != b[i] {
            return false;
        }
        i += 1;
    }
    assert(a@ =~= b@);
    true
}

impl ContextView {
    /// The text of the live string object at `ptr`.
    pub open spec fn string_at(self, ptr: usize) -> Option<Seq<u8>> {
        if self.is_live(ptr) {
            match self.object(ptr).body {
                BodyModel::String(bytes) => Some(bytes),
                _ => None,
            }
        } else {
            None
        }
    }

    /// Whether slot `index` holds a live string with the text `bytes`.
    pub open spec fn holds_string(self, index: int, bytes: Seq<u8>) -> bool {
        &&& 0 <= index < self.heap.len()
        &&& self.heap[index].live
        &&& self.heap[index].body == BodyModel::String(bytes)
    }

    /// The first of the first `upto` slots that holds a live string with
    /// the text `bytes`.
    pub open spec fn string_slot(self, bytes: Seq<u8>, upto: nat) -> Option<int>
        decreases upto,
    {
        if upto == 0 {
            None
        } else {
            match self.string_slot(bytes, (upto - 1) as nat) {
                Some(index) => Some(index),
                None => if self.holds_string(upto - 1, bytes) {
                    Some(upto - 1)
                } else {
                    None
                },
            }
        }
    }

    /// How many slots of the heap have an address: allocation fills no
    /// more than `MAX_OBJECTS`.
    pub open spec fn addressable(self) -> nat {
        if self.heap.len() <= MAX_OBJECTS {
            self.heap.len()
        } else {
            MAX_OBJECTS as nat
        }
    }

    /// The string object that holds the text `bytes`, if the heap holds one.
    pub open spec fn interned(self, bytes: Seq<u8>) -> Option<BoltString> {
        match self.string_slot(bytes, self.addressable()) {
            Some(index) => Some(BoltString { ptr: address_of(index) as usize }),
            None => None,
        }
    }

    /// The string object that interning the text `bytes` gives: the one the
    /// heap holds, else a new one, else none where the heap is full.
    pub open spec fn string_for(self, bytes: Seq<u8>) -> Option<BoltString> {
        match self.interned(bytes) {
            Some(found) => Some(found),
            None => if self.has_room() {
                Some(BoltString { ptr: self.next_address() })
            } else {
                None
            },
        }
    }

    /// The context after interning the text `bytes`.
    pub open spec fn with_string(self, bytes: Seq<u8>) -> ContextView {
        if self.interned(bytes) is None && self.has_room() {
            self.with_object(2, 0, BodyModel::String(bytes))
        } else {
            self
        }
    }
}

impl ContextView {
    /// A slot found among the first `upto` is found among any more.
    pub proof fn lemma_string_slot_is_stable(self, bytes: Seq<u8>, upto: nat, more: nat)
        requires
            upto <= more,
            self.string_slot(bytes, upto) is Some,
        ensures
            self.string_slot(bytes, more) == self.string_slot(bytes, upto),
        decreases more,
    {
        if upto < more {
            self.lemma_string_slot_is_stable(bytes, upto, (more - 1) as nat);
        }
    }

    /// The slot found holds the text, and no slot before it does.
    pub proof fn lemma_string_slot_is_first(self, bytes: Seq<u8>, upto: nat)
        ensures
            self.string_slot(bytes, upto) matches Some(index) ==> index < upto && self.holds_string(
                index,
                bytes,
            ) && forall|j: int| 0 <= j < index ==> !self.holds_string(j, bytes),
            self.string_slot(bytes, upto) is None ==> forall|j: int|
                0 <= j < upto ==> !self.holds_string(j, bytes),
        decreases upto,
    {
        if upto > 0 {
            self.lemma_string_slot_is_first(bytes, (upto - 1) as nat);
        }
    }
}

impl Context {
    /// The string object that holds the text `bytes`, if the heap holds one.
    pub fn find_string(&self, bytes: &[u8]) -> (found: Option<BoltString>)
        ensures
            found == self@.interned(bytes@),
    {
        let limit: usize = if self.heap.len() <= MAX_OBJECTS {
            self.heap.len()
        } else {
            MAX_OBJECTS
        };
        let mut i: usize = 0;
        while i < limit
            invariant
                i <= limit,
                limit == self@.addressable(),
                limit <= self.heap.len(),
                self@.string_slot(bytes@, i as nat) is None,
            decreases limit - i,
        {
            if self.heap[i].live {
                match &self.heap[i].body {
                    Body::String(text) => {
                        if same_bytes(text.as_slice(), bytes) {
                            proof {
                                assert(self@.heap[i as int].body =~= BodyModel::String(bytes@));
                                assert(self@.holds_string(i as int, bytes@));
                                assert(self@.string_slot(bytes@, (i + 1) as nat) == Some(i as int));
                                self@.lemma_string_slot_is_stable(
                                    bytes@,
                                    (i + 1) as nat,
                                    limit as nat,
                                );
                            }
                            return Some(BoltString { ptr: (i + 1) * 8 });
                        }
                    },
                    _ => {},
                }
            }
            assert(!self@.holds_string(i as int, bytes@));
            i += 1;
        }
        None
    }

    /// The text of `string`, if it is a live string object.
    pub fn string_bytes(&self, string: BoltString) -> (bytes: Option<Vec<u8>>)
        ensures
            bytes is Some == self@.string_at(string.ptr) is Some,
            bytes matches Some(text) ==> self@.string_at(string.ptr) == Some(text@),
    {
        match self.slot(string.ptr) {
            Some(index) => match &self.heap[index].body {
                Body::String(text) => Some(text.clone()),
                _ => None,
            },
            None => None,
        }
    }

    /// Intern the text `bytes`: give the string object that holds it, making
    /// one where the heap holds none. Gives none, and changes nothing,
    /// where one would have to be made and the heap is full.
    pub fn intern(&mut self, bytes: Vec<u8>) -> (string: Option<BoltString>)
        ensures
            string == old(self)@.string_for(bytes@),
            final(self)@ == old(self)@.with_string(bytes@),
    {
        match self.find_string(bytes.as_slice()) {
            Some(found) => Some(found),
            None => {
                let ptr = self.place(OBJECT_TYPE_STRING, 0, Body::String(bytes));
                BoltString::from_raw(ptr)
            },
        }
    }

    /// Get the string object for the text `s`, making it where the heap
    /// holds none for this text.
    pub fn get_or_make_interned<S: IntoCStr>(&mut self, s: S) -> (string: Result<BoltString, Error>)
        ensures
            match string {
                Ok(made) => is_nul_free(s.text_bytes()) && old(self)@.string_for(s.text_bytes())
                    == Some(made) && final(self)@ == old(self)@.with_string(s.text_bytes()),
                Err(Error::StringConversion { position }) => is_first_nul(
                    s.text_bytes(),
                    position as int,
                ) && final(self)@ == old(self)@,
                Err(err) => is_nul_free(s.text_bytes()) && old(self)@.string_for(s.text_bytes())
                    is None && is_out_of_memory(err) && final(self)@ == old(self)@,
            },
    {
        let bytes = s.as_c_str()?;
        match self.intern(bytes) {
            Some(made) => Ok(made),
            None => Err(out_of_memory()),
        }
    }

    /// Make the string object for the text `s`. Strings are interned, so
    /// this is `get_or_make_interned`.
    pub fn make_string<S: IntoCStr>(&mut self, s: S) -> (string: Result<BoltString, Error>)
        ensures
            match string {
                Ok(made) => is_nul_free(s.text_bytes()) && old(self)@.string_for(s.text_bytes())
                    == Some(made) && final(self)@ == old(self)@.with_string(s.text_bytes()),
                Err(Error::StringConversion { position }) => is_first_nul(
                    s.text_bytes(),
                    position as int,
                ) && final(self)@ == old(self)@,
                Err(err) => is_nul_free(s.text_bytes()) && old(self)@.string_for(s.text_bytes())
                    is None && is_out_of_memory(err) && final(self)@ == old(self)@,
            },
    {
        self.get_or_make_interned(s)
    }
}

/// The first `len` bytes of `bytes`, or all of them where there are fewer.
pub open spec fn text_prefix(bytes: Seq<u8>, len: u32) -> Seq<u8> {
    if len < bytes.len() {
        bytes.subrange(0, len as int)
    } else {
        bytes
    }
}

/// Whether `err` is the error for a handle that names no live string.
pub open spec fn is_not_a_string(err: Error) -> bool {
    err matches Error::BoltError { msg } && msg@ == "Not a string"@
}

impl Context {
    /// Make the string object for the text `s`. Strings are found by their
    /// text, so this is `get_or_make_interned`.
    pub fn make_string_hashed<S: IntoCStr>(&mut self, s: S) -> (string: Result<BoltString, Error>)
        ensures
            match string {
                Ok(made) => is_nul_free(s.text_bytes()) && old(self)@.string_for(s.text_bytes())
                    == Some(made) && final(self)@ == old(self)@.with_string(s.text_bytes()),
                Err(Error::StringConversion { position }) => is_first_nul(
                    s.text_bytes(),
                    position as int,
                ) && final(self)@ == old(self)@,
                Err(err) => is_nul_free(s.text_bytes()) && old(self)@.string_for(s.text_bytes())
                    is None && is_out_of_memory(err) && final(self)@ == old(self)@,
            },
    {
        self.get_or_make_interned(s)
    }

    /// Make the string object for the first `len` bytes of the text `s`,
    /// or for all of it where it has fewer.
    pub fn make_string_len<S: IntoCStr>(&mut self, s: S, len: u32) -> (string: Result<
        BoltString,
        Error,
    >)
        ensures
            match string {
                Ok(made) => is_nul_free(s.text_bytes()) && old(self)@.string_for(
                    text_prefix(s.text_bytes(), len),
                ) == Some(made) && final(self)@ == old(self)@.with_string(
                    text_prefix(s.text_bytes(), len),
                ),
                Err(Error::StringConversion { position }) => is_first_nul(
                    s.text_bytes(),
                    position as int,
                ) && final(self)@ == old(self)@,
                Err(err) => is_nul_free(s.text_bytes()) && old(self)@.string_for(
                    text_prefix(s.text_bytes(), len),
                ) is None && is_out_of_memory(err) && final(self)@ == old(self)@,
            },
    {
        let mut bytes = s.as_c_str()?;
        if (len as usize) < bytes.len() {
            bytes.truncate(len as usize);
        }
        match self.intern(bytes) {
            Some(made) => Ok(made),
            None => Err(out_of_memory()),
        }
    }

    /// Make the string object for the first `len` bytes of the text `s`.
    /// Strings are found by their text, so this is `make_string_len`.
    pub fn make_string_hashed_len<S: IntoCStr>(&mut self, s: S, len: u32) -> (string: Result<
        BoltString,
        Error,
    >)
        ensures
            match string {
                Ok(made) => is_nul_free(s.text_bytes()) && old(self)@.string_for(
                    text_prefix(s.text_bytes(), len),
                ) == Some(made) && final(self)@ == old(self)@.with_string(
                    text_prefix(s.text_bytes(), len),
                ),
                Err(Error::StringConversion { position }) => is_first_nul(
                    s.text_bytes(),
                    position as int,
                ) && final(self)@ == old(self)@,
                Err(err) => is_nul_free(s.text_bytes()) && old(self)@.string_for(
                    text_prefix(s.text_bytes(), len),
                ) is None && is_out_of_memory(err) && final(self)@ == old(self)@,
            },
    {
        self.make_string_len(s, len)
    }

    /// The string object for the text of `a` followed by the text of `b`.
    /// Gives none, and changes nothing, where `a` or `b` is no live string
    /// or the heap has no room.
    pub fn string_concat(&mut self, a: BoltString, b: BoltString) -> (string: Option<BoltString>)
        ensures
            match (old(self)@.string_at(a.ptr), old(self)@.string_at(b.ptr)) {
                (Some(front), Some(back)) => string == old(self)@.string_for(front + back)
                    && final(self)@ == old(self)@.with_string(front + back),
                _ => string is None && final(self)@ == old(self)@,
            },
    {
        let front = match self.string_bytes(a) {
            Some(front) => front,
            None => {
                return None;
            },
        };
        let back = match self.string_bytes(b) {
            Some(back) => back,
            None => {
                return None;
            },
        };
        self.intern(joined(front, back.as_slice()))
    }

    /// The string object for the text of `a` followed by the text `b`.
    ///
    /// `b` is refused where it holds a nul byte, before anything is made.
    pub fn string_append_cstr<S: IntoCStr>(&mut self, a: BoltString, b: S) -> (string: Result<
        BoltString,
        Error,
    >)
        ensures
            match string {
                Ok(made) => {
                    &&& is_nul_free(b.text_bytes())
                    &&& old(self)@.string_at(a.ptr) matches Some(front)
                    &&& old(self)@.string_for(front + b.text_bytes()) == Some(made)
                    &&& final(self)@ == old(self)@.with_string(front + b.text_bytes())
                },
                Err(Error::StringConversion { position }) => is_first_nul(
                    b.text_bytes(),
                    position as int,
                ) && final(self)@ == old(self)@,
                Err(err) => {
                    &&& is_nul_free(b.text_bytes())
                    &&& final(self)@ == old(self)@
                    &&& match old(self)@.string_at(a.ptr) {
                        Some(front) => old(self)@.string_for(front + b.text_bytes()) is None
                            && is_out_of_memory(err),
                        None => is_not_a_string(err),
                    }
                },
            },
    {
        let back = b.as_c_str()?;
        let front = match self.string_bytes(a) {
            Some(front) => front,
            None => {
                return Err(Error::bolt("Not a string"));
            },
        };
        match self.intern(joined(front, back.as_slice())) {
            Some(made) => Ok(made),
            None => Err(out_of_memory()),
        }
    }
}

/// `front` followed by `back`.
pub fn joined(front: Vec<u8>, back: &[u8]) -> (text: Vec<u8>)
    ensures
        text@ == front@ + back@,
{
    let mut text = front;
    let mut i: usize = 0;
    while i < back.len()
        invariant
            i <= back.len(),
            text@ == front@ + back@.subrange(0, i as int),
        decreases back.len() - i,
    {
        text.push(back[i]);
        i += 1;
    }
    assert(back@.subrange(0, back.len() as int) =~= back@);
    text
}

/// Interning is stable: after a text has been interned, the heap holds its
/// string object, interning it again gives the same object and changes
/// nothing, and every string that was there before is still there.
pub proof fn lemma_interning_is_stable(ctx: ContextView, bytes: Seq<u8>, other: Seq<u8>)
    requires
        ctx.string_for(bytes) is Some,
    ensures
        ctx.with_string(bytes).interned(bytes) == ctx.string_for(bytes),
        ctx.with_string(bytes).string_for(bytes) == ctx.string_for(bytes),
        ctx.with_string(bytes).with_string(bytes) == ctx.with_string(bytes),
        ctx.with_string(bytes).string_at(ctx.string_for(bytes)->0.ptr) == Some(bytes),
        ctx.interned(other) is Some ==> ctx.with_string(bytes).interned(other) == ctx.interned(
            other,
        ),
{
    let after = ctx.with_string(bytes);
    ctx.lemma_string_slot_is_first(bytes, ctx.addressable());
    ctx.lemma_string_slot_is_first(other, ctx.addressable());
    if ctx.interned(bytes) is None {
        let len = ctx.heap.len();
        assert(after.holds_string(len as int, bytes));
        lemma_string_slot_of_prefix(ctx, after, bytes, len);
        lemma_string_slot_of_prefix(ctx, after, other, len);
        assert(after.string_slot(bytes, (len + 1) as nat) == Some(len as int));
        if ctx.interned(other) is Some {
            after.lemma_string_slot_is_stable(other, len, (len + 1) as nat);
        }
    }
}

/// Two heaps that agree on their first `upto` slots find the same strings
/// among them.
pub proof fn lemma_string_slot_of_prefix(a: ContextView, b: ContextView, bytes: Seq<u8>, upto: nat)
    requires
        upto <= a.heap.len(),
        upto <= b.heap.len(),
        forall|j: int| 0 <= j < upto ==> a.heap[j] == b.heap[j],
    ensures
        a.string_slot(bytes, upto) == b.string_slot(bytes, upto),
    decreases upto,
{
    if upto > 0 {
        lemma_string_slot_of_prefix(a, b, bytes, (upto - 1) as nat);
    }
}

/// Two live strings are the same object exactly when they hold the same
/// text, provided each is the string that the heap holds for its text.
pub proof fn lemma_interned_strings_are_unique(ctx: ContextView, a: Seq<u8>, b: Seq<u8>)
    requires
        ctx.interned(a) is Some,
        ctx.interned(b) is Some,
    ensures
        ctx.interned(a) == ctx.interned(b) <==> a == b,
{
    ctx.lemma_string_slot_is_first(a, ctx.addressable());
    ctx.lemma_string_slot_is_first(b, ctx.addressable());
    let i = ctx.string_slot(a, ctx.addressable())->0;
    let j = ctx.string_slot(b, ctx.addressable())->0;
    if ctx.interned(a) == ctx.interned(b) {
        assert(address_of(i) as usize == address_of(j) as usize);
        assert(i == j);
    }
}

} // verus!
