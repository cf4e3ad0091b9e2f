//! The completion buffer of an operation record: a small vector that keeps
//! the first few completions in place.

use vstd::prelude::*;

verus! {

/// The buffer: a `smallvec::SmallVec` with room for four items in place.
/// Its items are completions as plain values: the result code and the flags.
///
/// The verifier does not look into the vector. All that is known of it is
/// what the functions of this file state of `SmallVec`'s methods.
#[verifier::external_body]
pub struct CompletionBuffer {
    items: smallvec::SmallVec<[(i32, u32); 4]>,
}

/// The completions that a buffer holds, oldest first.
pub uninterp spec fn buffered(buffer: CompletionBuffer) -> Seq<(i32, u32)>;

/// `SmallVec::new`: the new vector is empty.
#[verifier::external_body]
pub(crate) fn buffer_new() -> (buffer: CompletionBuffer)
    ensures
        buffered(buffer) == Seq::<(i32, u32)>::empty(),
{
    CompletionBuffer { items: smallvec::SmallVec::new() }
}

/// `SmallVec::len`: the number of items in the vector.
#[verifier::external_body]
pub(crate) fn buffer_len(buffer: &CompletionBuffer) -> (n: usize)
    ensures
        n == buffered(*buffer).len(),
{
    buffer.items.len()
}

/// `SmallVec::push`: the item is appended, and the items before it stay.
#[verifier::external_body]
pub(crate) fn buffer_push(buffer: &mut CompletionBuffer, item: (i32, u32))
    ensures
        buffered(*final(buffer)) == buffered(*old(buffer)).push(item),
{
    buffer.items.push(item)
}

/// `SmallVec::remove`: the item at `index` is taken out and returned, and
/// the items after it move one place to the front. The index has to be in
/// bounds.
#[verifier::external_body]
pub(crate) fn buffer_remove(buffer: &mut CompletionBuffer, index: usize) -> (item: (i32, u32))
    requires
        index < buffered(*old(buffer)).len(),
    ensures
        item == buffered(*old(buffer))[index as int],
        buffered(*final(buffer)) == buffered(*old(buffer)).remove(index as int),
{
    buffer.items.remove(index)
}

} // verus!
