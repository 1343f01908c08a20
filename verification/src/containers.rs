//! Arrays and tables: the two containers of the engine. An array holds
//! values by position, a table holds one value for each key.

use vstd::prelude::*;
use crate::bt_object::Array;
use crate::bt_object::Object;
use crate::bt_object::Table;
use crate::bt_object::OBJECT_TYPE_ARRAY;
use crate::bt_object::OBJECT_TYPE_TABLE;
use crate::context::Context;
use crate::context::ContextView;
use crate::heap::Body;
use crate::heap::BodyModel;
use crate::heap::FieldValue;
use crate::heap::ObjectModel;
use crate::value::Value;

verus! {

/// The first of the first `upto` pairs of `pairs` under `key`.
pub open spec fn pair_slot(pairs: Seq<FieldValue>, key: Value, upto: nat) -> Option<int>
    decreases upto,
{
    if upto == 0 {
        None
    } else {
        match pair_slot(pairs, key, (upto - 1) as nat) {
            Some(index) => Some(index),
            None => if pairs[upto - 1].key == key {
                Some(upto - 1)
            } else {
                None
            },
        }
    }
}

/// `pairs` with `value` under `key`: in place of the value that was under
/// `key`, or as a new pair at the end.
pub open spec fn pairs_with(pairs: Seq<FieldValue>, key: Value, value: Value) -> Seq<FieldValue> {
    match pair_slot(pairs, key, pairs.len()) {
        Some(index) => pairs.update(index, FieldValue { key, value }),
        None => pairs.push(FieldValue { key, value }),
    }
}

/// The capacity of a container that was made to hold `capacity` and holds
/// `len`.
pub open spec fn grown(capacity: u32, len: nat) -> u32 {
    if len <= capacity {
        capacity
    } else if len <= u32::MAX {
        len as u32
    } else {
        u32::MAX
    }
}

impl ContextView {
    /// The elements of the live array at `ptr`.
    pub open spec fn items_of(self, ptr: usize) -> Option<Seq<Value>> {
        if self.is_live(ptr) {
            match self.object(ptr).body {
                BodyModel::Array { items, .. } => Some(items),
                _ => None,
            }
        } else {
            None
        }
    }

    /// The pairs of the live table at `ptr`.
    pub open spec fn pairs_of(self, ptr: usize) -> Option<Seq<FieldValue>> {
        if self.is_live(ptr) {
            match self.object(ptr).body {
                BodyModel::Table { pairs, .. } => Some(pairs),
                _ => None,
            }
        } else {
            None
        }
    }

    /// The value under `key` in the table at `ptr`; null where the table
    /// has none, and where no live table lies at `ptr`.
    pub open spec fn pair_value(self, ptr: usize, key: Value) -> Value {
        match self.pairs_of(ptr) {
            Some(pairs) => match pair_slot(pairs, key, pairs.len()) {
                Some(index) => pairs[index].value,
                None => Value(0x7FFC_0000_0000_0000),
            },
            None => Value(0x7FFC_0000_0000_0000),
        }
    }

    /// The context with `value` at the end of the array at `ptr`.
    pub open spec fn with_item(self, ptr: usize, value: Value) -> ContextView {
        match self.items_of(ptr) {
            Some(items) => self.with_object_at(
                ptr,
                ObjectModel {
                    body: BodyModel::Array {
                        items: items.push(value),
                        capacity: grown(self.object(ptr).body->Array_capacity, items.len() + 1),
                    },
                    ..self.object(ptr)
                },
            ),
            None => self,
        }
    }

    /// The context with element `index` of the array at `ptr` replaced.
    /// An array that has no such element is left alone.
    pub open spec fn with_item_at(self, ptr: usize, index: u64, value: Value) -> ContextView {
        match self.items_of(ptr) {
            Some(items) => if index < items.len() {
                self.with_object_at(
                    ptr,
                    ObjectModel {
                        body: BodyModel::Array {
                            items: items.update(index as int, value),
                            capacity: self.object(ptr).body->Array_capacity,
                        },
                        ..self.object(ptr)
                    },
                )
            } else {
                self
            },
            None => self,
        }
    }

    /// The context with `value` under `key` in the table at `ptr`.
    pub open spec fn with_pair(self, ptr: usize, key: Value, value: Value) -> ContextView {
        match self.pairs_of(ptr) {
            Some(pairs) => self.with_object_at(
                ptr,
                ObjectModel {
                    body: BodyModel::Table {
                        pairs: pairs_with(pairs, key, value),
                        capacity: self.object(ptr).body->Table_capacity,
                    },
                    ..self.object(ptr)
                },
            ),
            None => self,
        }
    }
}

/// The first pair of `pairs` under `key`.
pub fn find_pair(pairs: &Vec<FieldValue>, key: Value) -> (found: Option<usize>)
    ensures
        found is Some == pair_slot(pairs@, key, pairs.len() as nat) is Some,
        found matches Some(index) ==> index < pairs.len() && pair_slot(
            pairs@,
            key,
            pairs.len() as nat,
        ) == Some(index as int),
{
    let mut i: usize = 0;
    while i < pairs.len()
        invariant
            i <= pairs.len(),
            pair_slot(pairs@, key, i as nat) is None,
        decreases pairs.len() - i,
    {
        if pairs[i].key == key {
            proof {
                assert(pair_slot(pairs@, key, (i + 1) as nat) == Some(i as int));
                lemma_pair_slot_is_stable(pairs@, key, (i + 1) as nat, pairs.len() as nat);
            }
            return Some(i);
        }
        i += 1;
    }
    None
}

/// A pair found among the first `upto` is found among any more.
pub proof fn lemma_pair_slot_is_stable(pairs: Seq<FieldValue>, key: Value, upto: nat, more: nat)
    requires
        upto <= more,
        pair_slot(pairs, key, upto) is Some,
    ensures
        pair_slot(pairs, key, more) == pair_slot(pairs, key, upto),
    decreases more,
{
    if upto < more {
        lemma_pair_slot_is_stable(pairs, key, upto, (more - 1) as nat);
    }
}

impl Context {
    /// Make an array without elements, to hold `capacity` of them before
    /// it grows. Gives none, and changes nothing, where the heap is full.
    pub fn make_array(&mut self, capacity: u32) -> (made: Option<Array>)
        ensures
            made is Some == old(self)@.has_room(),
            made matches Some(array) ==> array == (Array {
                ptr: old(self)@.next_address(),
                length: 0,
                capacity,
            }) && final(self)@ == old(self)@.with_object(
                8,
                0,
                BodyModel::Array { items: Seq::empty(), capacity },
            ),
            made is None ==> final(self)@ == old(self)@,
    {
        let ptr = self.place(OBJECT_TYPE_ARRAY, 0, Body::Array { items: Vec::new(), capacity });
        if ptr == 0 {
            None
        } else {
            Some(Array { ptr, length: 0, capacity })
        }
    }

    /// Put `value` at the end of `arr` and give the number of elements
    /// that `arr` has then; zero where `arr` is no live array.
    pub fn array_push(&mut self, arr: Array, value: Value) -> (length: u64)
        ensures
            final(self)@ == old(self)@.with_item(arr.ptr, value),
            length == (match final(self)@.items_of(arr.ptr) {
                Some(items) => items.len(),
                None => 0,
            }),
    {
        match self.slot(arr.ptr) {
            Some(index) => {
                let length = match &mut self.heap[index].body {
                    Body::Array { items, capacity } => {
                        items.push(value);
                        if items.len() > *capacity as usize {
                            *capacity = crate::convert::length_u32(items.len());
                        }
                        items.len() as u64
                    },
                    _ => 0,
                };
                assert(self@.heap =~= old(self)@.with_item(arr.ptr, value).heap);
                length
            },
            None => 0,
        }
    }

    /// Put `value` in place of element `index` of `arr`. Says whether
    /// `arr` has such an element; where it has none, nothing is changed.
    pub fn array_set(&mut self, arr: Array, index: u64, value: Value) -> (done: bool)
        ensures
            final(self)@ == old(self)@.with_item_at(arr.ptr, index, value),
            done == (match old(self)@.items_of(arr.ptr) {
                Some(items) => index < items.len(),
                None => false,
            }),
    {
        match self.slot(arr.ptr) {
            Some(slot) => {
                let done = match &mut self.heap[slot].body {
                    Body::Array { items, .. } => {
                        if index < items.len() as u64 {
                            items[index as usize] = value;
                            true
                        } else {
                            false
                        }
                    },
                    _ => false,
                };
                assert(self@.heap =~= old(self)@.with_item_at(arr.ptr, index, value).heap);
                done
            },
            None => false,
        }
    }

    /// Element `index` of `arr`; null where `arr` has no such element.
    pub fn array_get(&self, arr: Array, index: u64) -> (value: Value)
        ensures
            value == (match self@.items_of(arr.ptr) {
                Some(items) => if index < items.len() {
                    items[index as int]
                } else {
                    Value(0x7FFC_0000_0000_0000)
                },
                None => Value(0x7FFC_0000_0000_0000),
            }),
    {
        match self.slot(arr.ptr) {
            Some(slot) => match &self.heap[slot].body {
                Body::Array { items, .. } => {
                    if index < items.len() as u64 {
                        items[index as usize]
                    } else {
                        Value::null()
                    }
                },
                _ => Value::null(),
            },
            None => Value::null(),
        }
    }

    /// How many elements `arr` has; zero where `arr` is no live array.
    pub fn array_length(&self, arr: Array) -> (length: u64)
        ensures
            length == (match self@.items_of(arr.ptr) {
                Some(items) => items.len(),
                None => 0,
            }),
    {
        match self.slot(arr.ptr) {
            Some(slot) => match &self.heap[slot].body {
                Body::Array { items, .. } => items.len() as u64,
                _ => 0,
            },
            None => 0,
        }
    }

    /// Make a table without pairs, to hold `initial_size` of them before
    /// it grows. Gives none, and changes nothing, where the heap is full.
    pub fn make_table(&mut self, initial_size: u16) -> (made: Option<Table>)
        ensures
            made is Some == old(self)@.has_room(),
            made matches Some(table) ==> table == (Table {
                ptr: old(self)@.next_address(),
                length: 0,
                capacity: initial_size,
                is_inline: false,
            }) && final(self)@ == old(self)@.with_object(
                9,
                0,
                BodyModel::Table { pairs: Seq::empty(), capacity: initial_size },
            ),
            made is None ==> final(self)@ == old(self)@,
    {
        let ptr = self.place(
            OBJECT_TYPE_TABLE,
            0,
            Body::Table { pairs: Vec::new(), capacity: initial_size },
        );
        if ptr == 0 {
            None
        } else {
            Some(Table { ptr, length: 0, capacity: initial_size, is_inline: false })
        }
    }

    /// Put `value` under `key` in `tbl`, in place of the value that was
    /// under `key`. Says whether `tbl` is a live table; what is not is
    /// left alone.
    pub fn table_set(&mut self, tbl: Table, key: Value, value: Value) -> (done: bool)
        ensures
            final(self)@ == old(self)@.with_pair(tbl.ptr, key, value),
            done == old(self)@.pairs_of(tbl.ptr) is Some,
    {
        match self.slot(tbl.ptr) {
            Some(slot) => {
                let done = match &mut self.heap[slot].body {
                    Body::Table { pairs, .. } => {
                        match find_pair(pairs, key) {
                            Some(found) => {
                                pairs[found] = FieldValue { key, value };
                            },
                            None => {
                                pairs.push(FieldValue { key, value });
                            },
                        }
                        true
                    },
                    _ => false,
                };
                assert(self@.heap =~= old(self)@.with_pair(tbl.ptr, key, value).heap);
                done
            },
            None => false,
        }
    }

    /// The value under `key` in the table `obj`; null where the table has
    /// none, and where `obj` is no live table.
    pub fn get(&self, obj: Object, key: Value) -> (value: Value)
        ensures
            value == self@.pair_value(obj.ptr, key),
    {
        match self.slot(obj.ptr) {
            Some(slot) => match &self.heap[slot].body {
                Body::Table { pairs, .. } => match find_pair(pairs, key) {
                    Some(found) => pairs[found].value,
                    None => Value::null(),
                },
                _ => Value::null(),
            },
            None => Value::null(),
        }
    }

    /// Put `value` under `key` in the table `obj`. What is no live table
    /// is left alone.
    pub fn set(&mut self, obj: Object, key: Value, value: Value)
        ensures
            final(self)@ == old(self)@.with_pair(obj.ptr, key, value),
    {
        self.table_set(Table { ptr: obj.ptr, length: 0, capacity: 0, is_inline: false }, key, value);
    }
}

/// What is put in a table under a key is what is found under that key,
/// and it changes what is found under no other key.
pub proof fn lemma_table_holds_what_was_set(
    ctx: ContextView,
    ptr: usize,
    key: Value,
    value: Value,
    other: Value,
)
    requires
        ctx.pairs_of(ptr) is Some,
    ensures
        ctx.with_pair(ptr, key, value).pair_value(ptr, key) == value,
        other != key ==> ctx.with_pair(ptr, key, value).pair_value(ptr, other) == ctx.pair_value(
            ptr,
            other,
        ),
{
    crate::heap::lemma_slot_has_address(ptr, ctx.heap.len());
    let pairs = ctx.pairs_of(ptr)->0;
    let after = pairs_with(pairs, key, value);
    assert(ctx.with_pair(ptr, key, value).pairs_of(ptr) == Some(after));
    lemma_pairs_with(pairs, key, value, key);
    lemma_pairs_with(pairs, key, value, other);
}

/// After a value was put under `key`, the pair under `key` holds that
/// value, and the pair under any other key is the pair that was there.
pub proof fn lemma_pairs_with(pairs: Seq<FieldValue>, key: Value, value: Value, wanted: Value)
    ensures
        ({
            let after = pairs_with(pairs, key, value);
            let found = pair_slot(after, wanted, after.len());
            &&& wanted == key ==> found is Some && after[found->0].value == value
            &&& wanted != key ==> found == pair_slot(pairs, wanted, pairs.len())
            &&& wanted != key && found is Some ==> after[found->0] == pairs[found->0]
        }),
{
    let after = pairs_with(pairs, key, value);
    let len = pairs.len();
    lemma_pair_slot_bound(pairs, key, len);
    lemma_pair_slot_bound(pairs, wanted, len);
    lemma_pair_slot_of_same_keys(pairs, after, wanted, len);
    if pair_slot(pairs, key, len) is None {
        assert(after.len() == len + 1);
        assert(after[len as int].key == key);
    }
}

/// A pair that is found among the first `upto` is one of them, has the
/// key, and is the first that has it.
pub proof fn lemma_pair_slot_bound(pairs: Seq<FieldValue>, key: Value, upto: nat)
    requires
        upto <= pairs.len(),
    ensures
        pair_slot(pairs, key, upto) matches Some(index) ==> 0 <= index < upto && pairs[index].key
            == key,
        pair_slot(pairs, key, upto) is None ==> forall|i: int|
            0 <= i < upto ==> pairs[i].key != key,
    decreases upto,
{
    if upto > 0 {
        lemma_pair_slot_bound(pairs, key, (upto - 1) as nat);
    }
}

/// Two lists of pairs with the same keys in their first `upto` places
/// find the same places among them.
pub proof fn lemma_pair_slot_of_same_keys(
    a: Seq<FieldValue>,
    b: Seq<FieldValue>,
    key: Value,
    upto: nat,
)
    requires
        upto <= a.len(),
        upto <= b.len(),
        forall|i: int| 0 <= i < upto ==> a[i].key == b[i].key,
    ensures
        pair_slot(a, key, upto) == pair_slot(b, key, upto),
    decreases upto,
{
    if upto > 0 {
        lemma_pair_slot_of_same_keys(a, b, key, (upto - 1) as nat);
    }
}

} // verus!
