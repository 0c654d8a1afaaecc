use crate::handle::Handle;
use vstd::prelude::*;

verus! {

/// Marker for the native path resource kind.
pub struct PathKind;

/// Owner of one native path handle. Two paths referring to the same logical
/// store entry are two independent handles: a borrowed raw handle becomes a
/// `StorePath` only after the native clone call produced a fresh one, whose
/// address is then adopted here. The display-name query follows the one-shot
/// marshaling convention (`crate::marshal`) and reports no error through a
/// context, so decoding the marshaled bytes (`crate::text::decode_text`) is
/// its only failure mode.
pub struct StorePath {
    handle: Handle<PathKind>,
}

impl View for StorePath {
    type V = usize;

    closed spec fn view(&self) -> usize {
        self.handle@
    }
}

impl StorePath {
    /// Adopt an already-owned, non-null raw path handle.
    pub fn new_raw(raw: usize) -> (p: StorePath)
        requires
            raw != 0,
        ensures
            p@ == raw,
    {
        StorePath { handle: Handle::adopt(raw) }
    }

    /// The raw address of the owned path handle.
    pub fn ptr(&self) -> (r: usize)
        ensures
            r == self@,
            r != 0,
    {
        self.handle.ptr()
    }
}

} // verus!
