use crate::error::Error;
use vstd::prelude::*;

verus! {

/// The mathematical value of a recorded initialization outcome: success, or
/// the stored description of the failure.
pub open spec fn outcome_view(o: Result<(), String>) -> Result<(), Seq<char>> {
    match o {
        Ok(()) => Ok(()),
        Err(m) => Err(m@),
    }
}

/// Whether a cache state still calls for running the native bootstrap.
pub open spec fn spec_needs_bootstrap(s: Option<Result<(), Seq<char>>>) -> bool {
    s is None
}

/// The outcome a populated cache serves.
pub open spec fn spec_cached(s: Option<Result<(), Seq<char>>>) -> Result<(), Seq<char>>
    recommends
        s is Some,
{
    match s {
        Some(o) => o,
        None => Ok(()),
    }
}

/// The process-wide cache of the one-time native library initialization.
/// The bootstrap call itself happens outside the library; this type decides
/// when it may run — only while nothing is recorded — and serves the single
/// recorded outcome to every dependent operation afterwards. The owner is
/// expected to hold it behind a process-wide lock so racing first callers
/// observe one execution and one outcome.
pub struct InitCache {
    outcome: Option<Result<(), String>>,
}

impl View for InitCache {
    type V = Option<Result<(), Seq<char>>>;

    closed spec fn view(&self) -> Option<Result<(), Seq<char>>> {
        match self.outcome {
            Some(o) => Some(outcome_view(o)),
            None => None,
        }
    }
}

impl InitCache {
    /// A fresh cache with nothing recorded.
    pub fn new() -> (c: InitCache)
        ensures
            c@ is None,
    {
        InitCache { outcome: None }
    }

    /// Whether the bootstrap still has to run. Exactly while this holds may
    /// the owner perform the native bootstrap call and record its outcome.
    pub fn needs_bootstrap(&self) -> (r: bool)
        ensures
            r == spec_needs_bootstrap(self@),
    {
        match &self.outcome {
            None => true,
            Some(_) => false,
        }
    }

    /// Record the bootstrap outcome, once and for all: nothing may have been
    /// recorded before, and the outcome is never recomputed afterwards.
    pub fn record(&mut self, outcome: Result<(), String>)
        requires
            old(self)@ is None,
        ensures
            final(self)@ == Some(outcome_view(outcome)),
    {
        self.outcome = Some(outcome);
    }

    /// Consult the cached outcome: ok when the recorded bootstrap succeeded,
    /// otherwise an initialization error carrying the stored description of
    /// the failure, without re-attempting the bootstrap.
    pub fn consult(&self) -> (r: Result<(), Error>)
        requires
            self@ is Some,
        ensures
            r is Ok <==> spec_cached(self@) is Ok,
            r matches Err(e) ==> (e matches Error::Initialization(m) && spec_cached(self@)
                matches Err(d) && m@ == d),
    {
        match &self.outcome {
            Some(Ok(())) => Ok(()),
            Some(Err(m)) => Err(Error::Initialization(m.clone())),
            None => unreached(),
        }
    }
}

/// The one-time initialization law: once any outcome stands recorded, no
/// later round of the protocol calls for the bootstrap again, and every later
/// consultation observes exactly the originally recorded outcome.
pub proof fn lemma_init_once(s: Option<Result<(), Seq<char>>>, o: Result<(), Seq<char>>)
    requires
        s == Some(o),
    ensures
        !spec_needs_bootstrap(s),
        spec_cached(s) == o,
{
}

} // verus!
