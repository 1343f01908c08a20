//! Host strings on their way to the engine. The engine takes strings that
//! end at the first nul byte, so a host string that holds a nul byte cannot
//! be handed over, and is refused before anything else is done with it.

use vstd::prelude::*;
use vstd::slice::slice_to_vec;
use vstd::string::StringSliceAdditionalSpecFns;
use vstd::utf8::encode_utf8;
use crate::error::Error;

verus! {

/// Whether no byte of `bytes` is nul.
pub open spec fn is_nul_free(bytes: Seq<u8>) -> bool {
    forall|i: int| 0 <= i < bytes.len() ==> bytes[i] != 0
}

/// Whether `position` is where the first nul byte of `bytes` lies.
pub open spec fn is_first_nul(bytes: Seq<u8>, position: int) -> bool {
    &&& 0 <= position < bytes.len()
    &&& bytes[position] == 0
    &&& forall|i: int| 0 <= i < position ==> bytes[i] != 0
}

/// What handing `bytes` over gives: the bytes themselves, or the error that
/// names the place of their first nul byte.
pub open spec fn is_conversion_of(bytes: Seq<u8>, converted: Result<Vec<u8>, Error>) -> bool {
    match converted {
        Ok(text) => is_nul_free(bytes) && text@ == bytes,
        Err(Error::StringConversion { position }) => is_first_nul(bytes, position as int),
        Err(_) => false,
    }
}

/// The place of the first nul byte of `bytes`, if it holds one.
pub fn find_nul(bytes: &[u8]) -> (found: Option<usize>)
    ensures
        found is None <==> is_nul_free(bytes@),
        found matches Some(position) ==> is_first_nul(bytes@, position as int),
{
    let mut i: usize = 0;
    while i < bytes.len()
        invariant
            i <= bytes.len(),
            forall|j: int| 0 <= j < i ==> bytes@[j] != 0,
        decreases bytes.len() - i,
    {
        if bytes[i] == 0 {
            return Some(i);
        }
        i += 1;
    }
    None
}

/// The bytes of a host string as the engine can take them, or the error
/// for the first nul byte among them.
pub fn c_string_bytes(bytes: &[u8]) -> (converted: Result<Vec<u8>, Error>)
    ensures
        is_conversion_of(bytes@, converted),
{
    match find_nul(bytes) {
        Some(position) => Err(Error::StringConversion { position }),
        None => Ok(slice_to_vec(bytes)),
    }
}

/// Text that can be handed to the engine as a nul-terminated string.
pub trait IntoCStr {
    /// The bytes of the text.
    spec fn text_bytes(&self) -> Seq<u8>;

    /// The bytes of the text, without a terminator, where none of them is
    /// nul; else the error that names the place of the first nul byte.
    fn as_c_str(&self) -> (converted: Result<Vec<u8>, Error>)
        ensures
            is_conversion_of(self.text_bytes(), converted),
    ;
}

impl IntoCStr for &str {
    open spec fn text_bytes(&self) -> Seq<u8> {
        self.spec_bytes()
    }

    fn as_c_str(&self) -> (converted: Result<Vec<u8>, Error>) {
        c_string_bytes(self.as_bytes())
    }
}

impl IntoCStr for String {
    open spec fn text_bytes(&self) -> Seq<u8> {
        encode_utf8(self@)
    }

    fn as_c_str(&self) -> (converted: Result<Vec<u8>, Error>) {
        c_string_bytes(self.as_str().as_bytes())
    }
}

/// A host string is handed over exactly when it holds no nul byte, and an
/// error names a place where a nul byte lies.
pub proof fn lemma_conversion_succeeds_iff_nul_free(
    bytes: Seq<u8>,
    converted: Result<Vec<u8>, Error>,
)
    requires
        is_conversion_of(bytes, converted),
    ensures
        converted is Ok <==> is_nul_free(bytes),
        converted matches Err(err) ==> err matches Error::StringConversion { position }
            && position < bytes.len() && bytes[position as int] == 0,
{
}

} // verus!
