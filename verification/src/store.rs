use crate::context::{Context, NIX_OK};
use crate::error::Error;
use crate::handle::Handle;
use crate::init::{spec_cached, InitCache};
use crate::text::decode_text;
use vstd::prelude::*;
use vstd::utf8::{decode_utf8, valid_utf8};

verus! {

/// Marker for the native store-connection resource kind.
pub struct ConnectionKind;

/// Owner of one native store-connection handle.
pub struct StoreRef {
    handle: Handle<ConnectionKind>,
}

impl View for StoreRef {
    type V = usize;

    closed spec fn view(&self) -> usize {
        self.handle@
    }
}

impl StoreRef {
    /// Adopt an already-owned, non-null raw connection handle.
    pub fn adopt(raw: usize) -> (s: StoreRef)
        requires
            raw != 0,
        ensures
            s@ == raw,
    {
        StoreRef { handle: Handle::adopt(raw) }
    }

    /// The raw address of the owned connection handle.
    pub fn ptr(&self) -> (r: usize)
        ensures
            r == self@,
            r != 0,
    {
        self.handle.ptr()
    }
}

/// True of byte sequences without an interior NUL, the ones that can be
/// passed on as null-terminated text.
pub open spec fn nul_free(s: Seq<u8>) -> bool {
    forall|i: int| 0 <= i < s.len() ==> s[i] != 0
}

/// The first half of opening a store: consult the recorded one-time
/// initialization outcome — on a cached failure, fail immediately with its
/// stored description — and build the null-terminated URL bytes for the
/// native open call.
pub fn open_prepare(init: &InitCache, url: &[u8]) -> (r: Result<Vec<u8>, Error>)
    requires
        init@ is Some,
    ensures
        r is Ok <==> (spec_cached(init@) is Ok && nul_free(url@)),
        r matches Ok(b) ==> b@ == url@ + seq![0u8],
        spec_cached(init@) matches Err(d) ==> (r matches Err(Error::Initialization(m)) && m@
            == d),
        spec_cached(init@) is Ok && !nul_free(url@) ==> r == Err::<Vec<u8>, Error>(
            Error::UrlContainsNul,
        ),
{
    match init.consult() {
        Err(e) => Err(e),
        Ok(()) => {
            let mut out: Vec<u8> = Vec::new();
            let mut i: usize = 0;
            while i < url.len()
                invariant
                    init@ is Some,
                    spec_cached(init@) is Ok,
                    i <= url@.len(),
                    out@ =~= url@.subrange(0, i as int),
                    forall|k: int| 0 <= k < i ==> url@[k] != 0,
                decreases url@.len() - i,
            {
                let b = url[i];
                if b == 0 {
                    return Err(Error::UrlContainsNul);
                }
                out.push(b);
                i = i + 1;
            }
            out.push(0);
            proof {
                assert(out@ =~= url@ + seq![0u8]);
            }
            Ok(out)
        },
    }
}

/// What the native open call left behind, interpreted.
pub enum OpenOutcome {
    /// Success was reported and the returned handle is non-null: the wrapper
    /// now owns the connection.
    Opened(StoreRef),
    /// The native open reported an error through the context.
    Failed(Error),
    /// No error was reported, yet the returned handle is null: the two
    /// signaling mechanisms disagree. The caller must treat this as a fatal
    /// protocol violation and abort rather than continue.
    NullWithoutError,
}

/// The second half of opening a store: interpret the error context and the
/// raw handle the native open call returned.
pub fn open_finish(ctx: &Context, raw: usize) -> (r: OpenOutcome)
    ensures
        r is Opened <==> (ctx.code == NIX_OK && raw != 0),
        r matches OpenOutcome::Opened(s) ==> s@ == raw,
        r is NullWithoutError <==> (ctx.code == NIX_OK && raw == 0),
        ctx.code != NIX_OK && valid_utf8(ctx.msg@) ==> (r matches OpenOutcome::Failed(
            Error::NativeCall(code, message),
        ) && code == ctx.code && message@ == decode_utf8(ctx.msg@)),
        ctx.code != NIX_OK && !valid_utf8(ctx.msg@) ==> r == OpenOutcome::Failed(
            Error::TextDecoding,
        ),
{
    match ctx.check_err() {
        Err(e) => OpenOutcome::Failed(e),
        Ok(()) => {
            if raw == 0 {
                OpenOutcome::NullWithoutError
            } else {
                OpenOutcome::Opened(StoreRef::adopt(raw))
            }
        },
    }
}

/// The second half of querying a store's URI: check the reused error context,
/// then decode the bytes the one-shot marshaling callback accumulated.
pub fn get_uri_result(ctx: &Context, marshaled: &[u8]) -> (r: Result<String, Error>)
    ensures
        r is Ok <==> (ctx.code == NIX_OK && valid_utf8(marshaled@)),
        r matches Ok(s) ==> s@ == decode_utf8(marshaled@),
        ctx.code != NIX_OK && valid_utf8(ctx.msg@) ==> (r matches Err(
            Error::NativeCall(code, message),
        ) && code == ctx.code && message@ == decode_utf8(ctx.msg@)),
        ctx.code != NIX_OK && !valid_utf8(ctx.msg@) ==> r == Err::<String, Error>(
            Error::TextDecoding,
        ),
        ctx.code == NIX_OK && !valid_utf8(marshaled@) ==> r == Err::<String, Error>(
            Error::TextDecoding,
        ),
{
    match ctx.check_err() {
        Err(e) => Err(e),
        Ok(()) => decode_text(marshaled),
    }
}

} // verus!
