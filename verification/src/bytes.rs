//! Byte-buffer helpers shared by the compositor and the configuration
//! store.

use vstd::prelude::*;

verus! {

/// A buffer of `len` zero bytes.
pub(crate) fn zero_bytes(len: usize) -> (result: Vec<u8>)
    ensures
        result@.len() == len,
        forall|i: int| 0 <= i < len ==> result@[i] == 0u8,
{
    let mut v: Vec<u8> = Vec::new();
    while v.len() < len
        invariant
            v@.len() <= len,
            forall|i: int| 0 <= i < v@.len() ==> v@[i] == 0u8,
        decreases len - v@.len(),
    {
        v.push(0u8);
    }
    v
}

/// An owned copy of a byte buffer.
pub(crate) fn copy_bytes(src: &Vec<u8>) -> (result: Vec<u8>)
    ensures
        result@ == src@,
{
    let mut v: Vec<u8> = Vec::new();
    let mut i: usize = 0;
    while i < src.len()
        invariant
            0 <= i <= src@.len(),
            v@ == src@.subrange(0, i as int),
        decreases src@.len() - i,
    {
        v.push(src[i]);
        proof {
            assert(v@ =~= src@.subrange(0, i + 1 as int));
        }
        i = i + 1;
    }
    proof {
        assert(v@ =~= src@);
    }
    v
}

/// An owned copy of a byte slice.
pub(crate) fn copy_slice(src: &[u8]) -> (result: Vec<u8>)
    ensures
        result@ == src@,
{
    let mut v: Vec<u8> = Vec::new();
    let mut i: usize = 0;
    while i < src.len()
        invariant
            0 <= i <= src@.len(),
            v@ == src@.subrange(0, i as int),
        decreases src@.len() - i,
    {
        v.push(src[i]);
        proof {
            assert(v@ =~= src@.subrange(0, i + 1 as int));
        }
        i = i + 1;
    }
    proof {
        assert(v@ =~= src@);
    }
    v
}

} // verus!
