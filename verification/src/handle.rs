use core::marker::PhantomData;
use vstd::prelude::*;

verus! {

/// Exclusive owner of one non-null opaque native handle, recorded by its raw
/// address; `K` is a marker type naming the resource kind. The wrapper is
/// never implicitly duplicated — it has no clone — so two owners of "the
/// same" logical resource exist only where the native clone call produced a
/// second, fully independent handle whose address was then adopted. The
/// owner drives native calls with `ptr` and releases the handle exactly once,
/// at its own teardown.
pub struct Handle<K> {
    raw: usize,
    kind: PhantomData<K>,
}

impl<K> View for Handle<K> {
    type V = usize;

    closed spec fn view(&self) -> usize {
        self.raw
    }
}

impl<K> Handle<K> {
    #[verifier::type_invariant]
    spec fn non_null(self) -> bool {
        self.raw != 0
    }

    /// Take ownership of an already-owned raw handle.
    pub fn adopt(raw: usize) -> (h: Handle<K>)
        requires
            raw != 0,
        ensures
            h@ == raw,
    {
        Handle { raw, kind: PhantomData }
    }

    /// The handle's raw address, for the owner to drive native calls with.
    pub fn ptr(&self) -> (r: usize)
        ensures
            r == self@,
            r != 0,
    {
        proof {
            use_type_invariant(self);
        }
        self.raw
    }
}

} // verus!
