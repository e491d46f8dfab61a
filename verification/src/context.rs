//! The context: a version that never changes, and the state cache.

use vstd::prelude::*;
use crate::state::{GlState, StateUpdate};
use crate::version::Version;

verus! {

/// What the layer knows about one driver context. Holding the context
/// mutably is the capture under which an operation runs: nothing else can
/// touch the cache while the operation decides.
///
/// The version is fixed when the context is made. The cache changes only
/// when an operation records what its calls do to the driver, or when
/// [`Context::mark_out_of_sync`] invalidates it.
#[derive(Debug)]
pub struct Context {
    version: Version,
    state: GlState,
}

impl Context {
    /// The version the context was made with.
    pub closed spec fn spec_version(&self) -> Version {
        self.version
    }

    /// The state cache.
    pub closed spec fn spec_state(&self) -> GlState {
        self.state
    }

    /// Makes the record of a context of the given version whose driver state
    /// is described by `state`.
    pub fn new(version: Version, state: GlState) -> (context: Context)
        ensures
            context.version() == version,
            context.state() == state,
    {
        Context { version, state }
    }

    /// The version detected when the context was made.
    #[verifier::when_used_as_spec(spec_version)]
    pub fn version(&self) -> (version: Version)
        ensures
            version == self.spec_version(),
    {
        self.version
    }

    /// A copy of the state cache, to read.
    #[verifier::when_used_as_spec(spec_state)]
    pub fn state(&self) -> (state: GlState)
        ensures
            state == self.spec_state(),
    {
        self.state
    }

    /// Invalidates the cache, so that the next operation assumes nothing
    /// about the driver and applies all the state it needs. To be called
    /// whenever the driver may have been used in a way the layer did not see.
    pub fn mark_out_of_sync(&mut self)
        ensures
            final(self).version() == old(self).version(),
            final(self).state() == old(self).state().invalidated(),
            final(self).state().out_of_sync(),
    {
        self.state.invalidate();
    }

    /// Records what the calls of an operation do to the driver state.
    pub(crate) fn record(&mut self, update: StateUpdate)
        ensures
            final(self).version() == old(self).version(),
            final(self).state() == old(self).state().written(update),
    {
        self.state.write(update);
    }
}

} // verus!
