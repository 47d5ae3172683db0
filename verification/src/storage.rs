//! Text and bytes of a fixed capacity, as the `heapless` crate keeps them.

use vstd::prelude::*;

verus! {

/// A text of at most so many bytes of UTF-8.
#[verifier::external_type_specification]
#[verifier::external_body]
pub struct ExHeaplessString<const N: usize>(heapless::String<N>);

/// A list of at most so many items.
#[verifier::external_type_specification]
#[verifier::external_body]
#[verifier::reject_recursive_types(T)]
pub struct ExHeaplessVec<T, const N: usize>(heapless::Vec<T, N>);

/// The characters that a text holds.
pub uninterp spec fn text_of(text: heapless::String<16>) -> Seq<char>;

/// The bytes that a buffer holds.
pub uninterp spec fn bytes_of(buffer: heapless::Vec<u8, 256>) -> Seq<u8>;

/// Calls `heapless::String::new`, which makes an empty text.
#[verifier::external_body]
pub(crate) fn new_text() -> (r: heapless::String<16>)
    ensures
        text_of(r) == Seq::<char>::empty(),
{
    heapless::String::new()
}

/// Calls `heapless::String::push_str`, which appends a string where the bytes of both fit in the
/// capacity, and otherwise fails and leaves the text as it was.
#[verifier::external_body]
pub(crate) fn push_str(text: &mut heapless::String<16>, s: &str) -> (r: Result<(), ()>)
    ensures
        r is Ok <==> vstd::utf8::encode_utf8(text_of(*old(text))).len()
            + vstd::utf8::encode_utf8(s@).len() <= 16,
        r is Ok ==> text_of(*final(text)) == text_of(*old(text)) + s@,
        r is Err ==> text_of(*final(text)) == text_of(*old(text)),
{
    text.push_str(s)
}

/// Calls `heapless::Vec::new`, which makes an empty buffer.
#[verifier::external_body]
pub(crate) fn new_bytes() -> (r: heapless::Vec<u8, 256>)
    ensures
        bytes_of(r) == Seq::<u8>::empty(),
{
    heapless::Vec::new()
}

/// Calls `heapless::Vec::clear`, which removes everything from a buffer.
#[verifier::external_body]
pub(crate) fn clear_bytes(buffer: &mut heapless::Vec<u8, 256>)
    ensures
        bytes_of(*final(buffer)) == Seq::<u8>::empty(),
{
    buffer.clear()
}

/// Calls `heapless::Vec::extend_from_slice`, which appends bytes where all of them fit in the
/// capacity, and otherwise fails and leaves the buffer as it was.
#[verifier::external_body]
pub(crate) fn extend_bytes(buffer: &mut heapless::Vec<u8, 256>, data: &[u8]) -> (r: Result<(), ()>)
    ensures
        r is Ok <==> bytes_of(*old(buffer)).len() + data@.len() <= 256,
        r is Ok ==> bytes_of(*final(buffer)) == bytes_of(*old(buffer)) + data@,
        r is Err ==> bytes_of(*final(buffer)) == bytes_of(*old(buffer)),
{
    buffer.extend_from_slice(data)
}

/// Calls `heapless::Vec::as_slice`, which gives the bytes that a buffer holds; they are never more
/// than its capacity.
#[verifier::external_body]
pub(crate) fn slice_of(buffer: &heapless::Vec<u8, 256>) -> (r: &[u8])
    ensures
        r@ == bytes_of(*buffer),
        r@.len() <= 256,
{
    buffer.as_slice()
}

/// Calls `heapless::Vec::clone`, which makes a buffer that holds the same bytes.
#[verifier::external_body]
pub(crate) fn clone_bytes(buffer: &heapless::Vec<u8, 256>) -> (r: heapless::Vec<u8, 256>)
    ensures
        bytes_of(r) == bytes_of(*buffer),
{
    buffer.clone()
}

} // verus!
