//! The header word at the front of every heap object.
//!
//! One 64-bit word carries three disjoint fields: the collector's mark in
//! bit 0, the intrusive list link in bits 1 to 55, and the object kind in
//! bits 56 to 63. Every mutator rewrites its own field and nothing else.

use vstd::prelude::*;

verus! {

/// Bit 0: set while the object is marked reachable in the current cycle.
pub const MARK_BIT: u64 = 0x1;

/// Bits 1 to 55: the link to the next object on an allocation or free list.
pub const PTR_BITS: u64 = 0x00FF_FFFF_FFFF_FFFE;

/// The object kind occupies the bits from this position upwards.
pub const TYPE_SHIFT: u32 = 56;

/// Width mask of the object kind, before shifting.
pub const TYPE_MASK: u64 = 0xFF;

/// The three fields of a header word, decoded.
pub struct HeaderFields {
    pub marked: bool,
    pub next: u64,
    pub kind: u32,
}

/// One write to a single field of a header word.
pub enum HeaderWrite {
    Mark(bool),
    Next(u64),
    Kind(u32),
}

/// The kind stored in `mask`.
pub open spec fn kind_of(mask: u64) -> u32 {
    ((mask >> 56) & 0xFF) as u32
}

/// The list link stored in `mask`.
pub open spec fn next_of(mask: u64) -> u64 {
    mask & 0x00FF_FFFF_FFFF_FFFE
}

/// Whether the mark is set in `mask`.
pub open spec fn marked_of(mask: u64) -> bool {
    mask & 0x1 != 0
}

/// All three fields of `mask`.
pub open spec fn fields_of(mask: u64) -> HeaderFields {
    HeaderFields { marked: marked_of(mask), next: next_of(mask), kind: kind_of(mask) }
}

/// What the link field keeps of `ptr`: its bits 1 to 55.
pub open spec fn link_part(ptr: u64) -> u64 {
    ptr & 0x00FF_FFFF_FFFF_FFFE
}

/// What the kind field keeps of `kind`: its low eight bits.
pub open spec fn kind_part(kind: u32) -> u32 {
    kind & 0xFF
}

/// `mask` with the mark set.
pub open spec fn with_mark(mask: u64) -> u64 {
    mask | 0x1
}

/// `mask` with the mark cleared.
pub open spec fn without_mark(mask: u64) -> u64 {
    mask & !0x1u64
}

/// `mask` with its kind replaced by the low eight bits of `kind`.
pub open spec fn with_kind(mask: u64, kind: u32) -> u64 {
    (mask & !(0xFFu64 << 56)) | ((kind as u64) << 56)
}

/// `mask` with its link replaced by bits 1 to 55 of `ptr`.
pub open spec fn with_next(mask: u64, ptr: u64) -> u64 {
    (mask & !0x00FF_FFFF_FFFF_FFFEu64) | (ptr & 0x00FF_FFFF_FFFF_FFFE)
}

/// `mask` after one field write.
pub open spec fn written(mask: u64, write: HeaderWrite) -> u64 {
    match write {
        HeaderWrite::Mark(true) => with_mark(mask),
        HeaderWrite::Mark(false) => without_mark(mask),
        HeaderWrite::Next(ptr) => with_next(mask, ptr),
        HeaderWrite::Kind(kind) => with_kind(mask, kind),
    }
}

/// `mask` after the writes of `writes`, applied first to last.
pub open spec fn written_all(mask: u64, writes: Seq<HeaderWrite>) -> u64
    decreases writes.len(),
{
    if writes.len() == 0 {
        mask
    } else {
        written(written_all(mask, writes.drop_last()), writes.last())
    }
}

/// The fields that the write `write` leaves behind, given the fields before it.
pub open spec fn fields_written(fields: HeaderFields, write: HeaderWrite) -> HeaderFields {
    match write {
        HeaderWrite::Mark(marked) => HeaderFields { marked, ..fields },
        HeaderWrite::Next(ptr) => HeaderFields { next: link_part(ptr), ..fields },
        HeaderWrite::Kind(kind) => HeaderFields { kind: kind_part(kind), ..fields },
    }
}

/// The fields after the writes of `writes`: each field holds what was last
/// written to it, or its first value where nothing was.
pub open spec fn fields_written_all(fields: HeaderFields, writes: Seq<HeaderWrite>) -> HeaderFields
    decreases writes.len(),
{
    if writes.len() == 0 {
        fields
    } else {
        fields_written(fields_written_all(fields, writes.drop_last()), writes.last())
    }
}

/// The kind stored in the header word `mask`.
pub fn get_type(mask: u64) -> (kind: u32)
    ensures
        kind == kind_of(mask),
        kind <= 0xFF,
{
    assert((mask >> 56) & 0xFF <= 0xFF) by (bit_vector);
    ((mask >> TYPE_SHIFT) & TYPE_MASK) as u32
}

/// The list link stored in the header word `mask`.
pub fn get_next_ptr(mask: u64) -> (next: u64)
    ensures
        next == next_of(mask),
        link_part(next) == next,
{
    assert((mask & 0x00FF_FFFF_FFFF_FFFE) & 0x00FF_FFFF_FFFF_FFFE == mask & 0x00FF_FFFF_FFFF_FFFE)
        by (bit_vector);
    mask & PTR_BITS
}

/// Whether the mark is set in the header word `mask`.
pub fn is_marked(mask: u64) -> (marked: bool)
    ensures
        marked == marked_of(mask),
{
    (mask & MARK_BIT) != 0
}

/// Set the mark. The link and the kind stay as they are.
pub fn set_mark(mask: &mut u64)
    ensures
        *final(mask) == with_mark(*old(mask)),
        fields_of(*final(mask)) == (HeaderFields { marked: true, ..fields_of(*old(mask)) }),
{
    proof {
        lemma_mark_written(*mask);
    }
    *mask |= MARK_BIT;
}

/// Clear the mark. The link and the kind stay as they are.
pub fn clear_mark(mask: &mut u64)
    ensures
        *final(mask) == without_mark(*old(mask)),
        fields_of(*final(mask)) == (HeaderFields { marked: false, ..fields_of(*old(mask)) }),
{
    proof {
        lemma_mark_written(*mask);
    }
    *mask &= !MARK_BIT;
}

/// Write the kind: the low eight bits of `object_type`. The mark and the
/// link stay as they are.
pub fn set_type(mask: &mut u64, object_type: u32)
    ensures
        *final(mask) == with_kind(*old(mask), object_type),
        fields_of(*final(mask)) == (HeaderFields {
            kind: kind_part(object_type),
            ..fields_of(*old(mask))
        }),
        object_type <= 0xFF ==> kind_of(*final(mask)) == object_type,
{
    proof {
        lemma_kind_written(*mask, object_type);
    }
    *mask = (*mask & !(TYPE_MASK << TYPE_SHIFT)) | ((object_type as u64) << TYPE_SHIFT);
}

/// Write the list link: bits 1 to 55 of `ptr`. The mark and the kind stay
/// as they are.
pub fn set_next_ptr(mask: &mut u64, ptr: u64)
    ensures
        *final(mask) == with_next(*old(mask), ptr),
        fields_of(*final(mask)) == (HeaderFields {
            next: link_part(ptr),
            ..fields_of(*old(mask))
        }),
        link_part(ptr) == ptr ==> next_of(*final(mask)) == ptr,
{
    proof {
        lemma_next_written(*mask, ptr);
    }
    *mask = (*mask & !PTR_BITS) | (ptr & PTR_BITS);
}

/// Setting or clearing the mark is read back by `marked_of` and leaves the
/// link and the kind as they were.
pub proof fn lemma_mark_written(mask: u64)
    ensures
        marked_of(with_mark(mask)),
        next_of(with_mark(mask)) == next_of(mask),
        kind_of(with_mark(mask)) == kind_of(mask),
        !marked_of(without_mark(mask)),
        next_of(without_mark(mask)) == next_of(mask),
        kind_of(without_mark(mask)) == kind_of(mask),
{
    assert((mask | 0x1) & 0x1 != 0) by (bit_vector);
    assert((mask | 0x1) & 0x00FF_FFFF_FFFF_FFFE == mask & 0x00FF_FFFF_FFFF_FFFE) by (bit_vector);
    assert(((mask | 0x1) >> 56) & 0xFF == (mask >> 56) & 0xFF) by (bit_vector);
    assert((mask & !0x1u64) & 0x1 == 0) by (bit_vector);
    assert((mask & !0x1u64) & 0x00FF_FFFF_FFFF_FFFE == mask & 0x00FF_FFFF_FFFF_FFFE)
        by (bit_vector);
    assert(((mask & !0x1u64) >> 56) & 0xFF == (mask >> 56) & 0xFF) by (bit_vector);
}

/// Writing a kind is read back by `kind_of`, up to the eight bits that the
/// field holds, and leaves the mark and the link as they were. A kind of at
/// most 255 is read back unchanged.
pub proof fn lemma_kind_written(mask: u64, kind: u32)
    ensures
        kind_of(with_kind(mask, kind)) == kind_part(kind),
        kind <= 0xFF ==> kind_of(with_kind(mask, kind)) == kind,
        next_of(with_kind(mask, kind)) == next_of(mask),
        marked_of(with_kind(mask, kind)) == marked_of(mask),
{
    let k = kind as u64;
    let m = (mask & !(0xFFu64 << 56)) | (k << 56);
    assert((((mask & !(0xFFu64 << 56)) | (k << 56)) >> 56) & 0xFF == k & 0xFF) by (bit_vector);
    assert(((mask & !(0xFFu64 << 56)) | (k << 56)) & 0x00FF_FFFF_FFFF_FFFE == mask
        & 0x00FF_FFFF_FFFF_FFFE) by (bit_vector);
    assert(((mask & !(0xFFu64 << 56)) | (k << 56)) & 0x1 == mask & 0x1) by (bit_vector);
    assert((kind as u64) & 0xFF == (kind & 0xFF) as u64) by (bit_vector);
    assert(kind <= 0xFF ==> kind & 0xFF == kind) by (bit_vector);
    assert(kind & 0xFF <= 0xFF) by (bit_vector);
}

/// Writing a link is read back by `next_of`, up to the bits that the field
/// holds, and leaves the mark and the kind as they were. A link that lies
/// within bits 1 to 55 is read back unchanged.
pub proof fn lemma_next_written(mask: u64, ptr: u64)
    ensures
        next_of(with_next(mask, ptr)) == link_part(ptr),
        link_part(ptr) == ptr ==> next_of(with_next(mask, ptr)) == ptr,
        kind_of(with_next(mask, ptr)) == kind_of(mask),
        marked_of(with_next(mask, ptr)) == marked_of(mask),
{
    assert(((mask & !0x00FF_FFFF_FFFF_FFFEu64) | (ptr & 0x00FF_FFFF_FFFF_FFFE))
        & 0x00FF_FFFF_FFFF_FFFE == ptr & 0x00FF_FFFF_FFFF_FFFE) by (bit_vector);
    assert((((mask & !0x00FF_FFFF_FFFF_FFFEu64) | (ptr & 0x00FF_FFFF_FFFF_FFFE)) >> 56) & 0xFF
        == (mask >> 56) & 0xFF) by (bit_vector);
    assert(((mask & !0x00FF_FFFF_FFFF_FFFEu64) | (ptr & 0x00FF_FFFF_FFFF_FFFE)) & 0x1 == mask
        & 0x1) by (bit_vector);
}

/// One write changes the field it names and no other.
pub proof fn lemma_write_is_isolated(mask: u64, write: HeaderWrite)
    ensures
        fields_of(written(mask, write)) == fields_written(fields_of(mask), write),
{
    match write {
        HeaderWrite::Mark(_) => {
            lemma_mark_written(mask);
        },
        HeaderWrite::Next(ptr) => {
            lemma_next_written(mask, ptr);
        },
        HeaderWrite::Kind(kind) => {
            lemma_kind_written(mask, kind);
        },
    }
}

/// After any sequence of writes, decoding a field gives what was last
/// written to that field, and a field that was never written is unchanged.
pub proof fn lemma_writes_are_isolated(mask: u64, writes: Seq<HeaderWrite>)
    ensures
        fields_of(written_all(mask, writes)) == fields_written_all(fields_of(mask), writes),
    decreases writes.len(),
{
    if writes.len() > 0 {
        lemma_writes_are_isolated(mask, writes.drop_last());
        lemma_write_is_isolated(written_all(mask, writes.drop_last()), writes.last());
    }
}

/// The three fields cover the whole word: two header words with the same
/// fields are the same word.
pub proof fn lemma_fields_determine_mask(a: u64, b: u64)
    requires
        fields_of(a) == fields_of(b),
    ensures
        a == b,
{
    assert(((a >> 56) & 0xFF) as u32 == ((b >> 56) & 0xFF) as u32 ==> (a >> 56) & 0xFF == (b >> 56)
        & 0xFF) by (bit_vector);
    assert(((a & 0x1 != 0) == (b & 0x1 != 0)) && a & 0x00FF_FFFF_FFFF_FFFE == b
        & 0x00FF_FFFF_FFFF_FFFE && (a >> 56) & 0xFF == (b >> 56) & 0xFF ==> a == b)
        by (bit_vector);
}

} // verus!
