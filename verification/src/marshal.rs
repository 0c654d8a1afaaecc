use vstd::prelude::*;

verus! {

/// One invocation of the string-marshaling callback. The native side hands
/// over the first `n` bytes of `data` as the complete result of one logical
/// call; they are appended to the caller-owned buffer `ret`, which must still
/// be empty for that call. When the buffer is already populated the callback
/// was invoked more than once for one call: the function then returns false
/// and leaves the buffer untouched, and the caller must abort rather than
/// silently concatenate or drop data.
pub fn callback_get_vec_u8(ret: &mut Vec<u8>, data: &[u8], n: usize) -> (ok: bool)
    requires
        n <= data@.len(),
    ensures
        ok == (old(ret)@.len() == 0),
        ok ==> final(ret)@ == data@.subrange(0, n as int),
        !ok ==> final(ret)@ == old(ret)@,
{
    if ret.len() != 0 {
        return false;
    }
    let mut i: usize = 0;
    while i < n
        invariant
            i <= n,
            n <= data@.len(),
            ret@ =~= data@.subrange(0, i as int),
        decreases n - i,
    {
        ret.push(data[i]);
        i = i + 1;
    }
    true
}

} // verus!
