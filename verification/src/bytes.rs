//! Small verified routines on byte buffers.

use vstd::prelude::*;

verus! {

/// A 16-bit value in network byte order.
pub open spec fn be16(value: u16) -> Seq<u8> {
    seq![(value / 256) as u8, (value % 256) as u8]
}

/// A 32-bit value in network byte order.
pub open spec fn be32(value: u32) -> Seq<u8> {
    seq![
        (value / 0x100_0000) as u8,
        ((value / 0x1_0000) % 256) as u8,
        ((value / 0x100) % 256) as u8,
        (value % 256) as u8,
    ]
}

/// `n` zero bytes.
pub open spec fn zeros(n: nat) -> Seq<u8> {
    Seq::new(n, |i: int| 0u8)
}

/// The buffer `target` with the bytes from `at` on replaced by `source`.
pub open spec fn overwritten(target: Seq<u8>, at: int, source: Seq<u8>) -> Seq<u8> {
    target.subrange(0, at) + source + target.subrange(at + source.len(), target.len() as int)
}

/// Copies `source` over the bytes of `target` that start at `at`.
pub fn copy_into(target: &mut Vec<u8>, at: usize, source: &[u8])
    requires
        at + source@.len() <= old(target)@.len(),
    ensures
        final(target)@ == overwritten(old(target)@, at as int, source@),
        final(target)@.len() == old(target)@.len(),
{
    let len: usize = target.len();
    let mut i: usize = 0;
    while i < source.len()
        invariant
            i <= source@.len(),
            at + source@.len() <= len,
            target@.len() == len,
            len == old(target)@.len(),
            target@ =~= overwritten(old(target)@, at as int, source@.subrange(0, i as int)),
        decreases source@.len() - i,
    {
        target[at + i] = source[i];
        i = i + 1;
    }
}

/// Whether two byte strings hold the same bytes.
pub fn bytes_equal(left: &[u8], right: &[u8]) -> (equal: bool)
    ensures
        equal <==> left@ == right@,
{
    if left.len() != right.len() {
        return false;
    }
    let mut i: usize = 0;
    while i < left.len()
        invariant
            i <= left@.len(),
            left@.len() == right@.len(),
            left@.subrange(0, i as int) =~= right@.subrange(0, i as int),
        decreases left@.len() - i,
    {
        if left[i] != right[i] {
            return false;
        }
        i = i + 1;
    }
    assert(left@ =~= left@.subrange(0, i as int));
    assert(right@ =~= right@.subrange(0, i as int));
    true
}

/// The four bytes of `value` in network byte order.
pub fn be32_bytes(value: u32) -> (bytes: [u8; 4])
    ensures
        bytes@ == be32(value),
{
    let bytes: [u8; 4] = [
        (value / 0x100_0000) as u8,
        ((value / 0x1_0000) % 256) as u8,
        ((value / 0x100) % 256) as u8,
        (value % 256) as u8,
    ];
    bytes
}

/// Different values have different bytes.
pub proof fn lemma_be32_injective(first: u32, second: u32)
    ensures
        be32(first).len() == 4,
        be32(first) == be32(second) ==> first == second,
{
}

} // verus!
