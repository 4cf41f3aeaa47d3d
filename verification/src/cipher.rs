//! The message cipher: each byte is combined, by exclusive or, with the byte
//! of the key that stands at its position, the key repeating as often as the
//! data needs.

use vstd::prelude::*;

verus! {

/// `data` with the repeating `key` folded in byte by byte.
pub open spec fn xor_keystream(data: Seq<u8>, key: Seq<u8>) -> Seq<u8> {
    Seq::new(data.len(), |i: int| data[i] ^ key[i % (key.len() as int)])
}

/// Folds the repeating `key` into `data`. The same call undoes itself.
pub fn apply_keystream(data: &[u8], key: &[u8]) -> (out: Vec<u8>)
    requires
        key@.len() > 0,
    ensures
        out@ == xor_keystream(data@, key@),
{
    let mut out: Vec<u8> = Vec::with_capacity(data.len());
    let mut i: usize = 0;
    while i < data.len()
        invariant
            i <= data.len(),
            key@.len() > 0,
            out@.len() == i,
            forall|j: int| 0 <= j < i ==> out@[j] == data@[j] ^ key@[j % (key@.len() as int)],
        decreases data.len() - i,
    {
        out.push(data[i] ^ key[i % key.len()]);
        i += 1;
    }
    out
}

/// Folding the same key in twice gives the data back.
pub proof fn lemma_xor_keystream_involution(data: Seq<u8>, key: Seq<u8>)
    ensures
        xor_keystream(xor_keystream(data, key), key) == data,
{
    let once = xor_keystream(data, key);
    let twice = xor_keystream(once, key);
    assert forall|i: int| 0 <= i < data.len() implies twice[i] == data[i] by {
        let d: u8 = data[i];
        let k: u8 = key[i % (key.len() as int)];
        assert((d ^ k) ^ k == d) by (bit_vector);
    }
    assert(twice =~= data);
}

} // verus!
