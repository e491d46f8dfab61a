//! The state cache: what the layer believes the driver's state to be.

use vstd::prelude::*;

verus! {

/// A mirror of the driver state that the layer touches.
///
/// Each recorded value comes with a mark that tells whether it can still be
/// trusted. A value is trusted from the moment it is written, which happens
/// right after the driver call that sets it, until the cache is invalidated.
/// While no value is marked stale the record equals the driver's state, and
/// that is what allows an operation to skip a call the driver does not need.
#[derive(Clone, Copy, Debug, PartialEq, Eq, Structural)]
pub struct GlState {
    /// Framebuffer bound for reading.
    pub read_framebuffer: u32,
    /// Framebuffer bound for drawing.
    pub draw_framebuffer: u32,
    /// Whether the scissor test is enabled.
    pub enabled_scissor_test: bool,
    /// The driver's read binding may differ from `read_framebuffer`.
    pub stale_read_framebuffer: bool,
    /// The driver's draw binding may differ from `draw_framebuffer`.
    pub stale_draw_framebuffer: bool,
    /// The driver's scissor test may differ from `enabled_scissor_test`.
    pub stale_scissor_test: bool,
}

/// New values for a subset of the cached state. `None` leaves a value as it is.
#[derive(Clone, Copy, Debug, PartialEq, Eq, Structural)]
pub struct StateUpdate {
    /// Framebuffer that has just been bound for reading.
    pub read_framebuffer: Option<u32>,
    /// Framebuffer that has just been bound for drawing.
    pub draw_framebuffer: Option<u32>,
    /// State the scissor test has just been put in.
    pub enabled_scissor_test: Option<bool>,
}

impl StateUpdate {
    /// The update that writes nothing.
    pub fn none() -> (u: StateUpdate)
        ensures
            u == (StateUpdate {
                read_framebuffer: None,
                draw_framebuffer: None,
                enabled_scissor_test: None,
            }),
    {
        StateUpdate { read_framebuffer: None, draw_framebuffer: None, enabled_scissor_test: None }
    }
}

impl GlState {
    /// Some recorded value can no longer be trusted.
    pub open spec fn spec_out_of_sync(&self) -> bool {
        self.stale_read_framebuffer || self.stale_draw_framebuffer || self.stale_scissor_test
    }

    /// The cache that records the given driver state and trusts all of it.
    pub open spec fn spec_new(
        read_framebuffer: u32,
        draw_framebuffer: u32,
        enabled_scissor_test: bool,
    ) -> GlState {
        GlState {
            read_framebuffer,
            draw_framebuffer,
            enabled_scissor_test,
            stale_read_framebuffer: false,
            stale_draw_framebuffer: false,
            stale_scissor_test: false,
        }
    }

    /// The cache after `update` has been written: the values it names are
    /// replaced and trusted again, the others keep value and mark.
    pub open spec fn written(self, update: StateUpdate) -> GlState {
        GlState {
            read_framebuffer: match update.read_framebuffer {
                Some(framebuffer) => framebuffer,
                None => self.read_framebuffer,
            },
            draw_framebuffer: match update.draw_framebuffer {
                Some(framebuffer) => framebuffer,
                None => self.draw_framebuffer,
            },
            enabled_scissor_test: match update.enabled_scissor_test {
                Some(enabled) => enabled,
                None => self.enabled_scissor_test,
            },
            stale_read_framebuffer: self.stale_read_framebuffer && update.read_framebuffer is None,
            stale_draw_framebuffer: self.stale_draw_framebuffer && update.draw_framebuffer is None,
            stale_scissor_test: self.stale_scissor_test && update.enabled_scissor_test is None,
        }
    }

    /// The cache after it has been invalidated: every value is kept and
    /// marked stale.
    pub open spec fn invalidated(self) -> GlState {
        GlState {
            stale_read_framebuffer: true,
            stale_draw_framebuffer: true,
            stale_scissor_test: true,
            ..self
        }
    }

    /// Makes a cache that records the given driver state and trusts all of it.
    #[verifier::when_used_as_spec(spec_new)]
    pub fn new(read_framebuffer: u32, draw_framebuffer: u32, enabled_scissor_test: bool) -> (state:
        GlState)
        ensures
            state == GlState::spec_new(read_framebuffer, draw_framebuffer, enabled_scissor_test),
    {
        GlState {
            read_framebuffer,
            draw_framebuffer,
            enabled_scissor_test,
            stale_read_framebuffer: false,
            stale_draw_framebuffer: false,
            stale_scissor_test: false,
        }
    }

    /// Tells whether some recorded value can no longer be trusted, so that
    /// the next operation has to assume nothing and apply all it needs.
    #[verifier::when_used_as_spec(spec_out_of_sync)]
    pub fn out_of_sync(&self) -> (r: bool)
        ensures
            r == self.spec_out_of_sync(),
    {
        self.stale_read_framebuffer || self.stale_draw_framebuffer || self.stale_scissor_test
    }

    /// Records the values that `update` names, and trusts them again.
    pub fn write(&mut self, update: StateUpdate)
        ensures
            *final(self) == old(self).written(update),
    {
        if let Some(framebuffer) = update.read_framebuffer {
            self.read_framebuffer = framebuffer;
            self.stale_read_framebuffer = false;
        }
        if let Some(framebuffer) = update.draw_framebuffer {
            self.draw_framebuffer = framebuffer;
            self.stale_draw_framebuffer = false;
        }
        if let Some(enabled) = update.enabled_scissor_test {
            self.enabled_scissor_test = enabled;
            self.stale_scissor_test = false;
        }
    }

    /// Marks every recorded value stale. This is for the moment when the
    /// driver may have been used behind the layer's back.
    pub fn invalidate(&mut self)
        ensures
            *final(self) == old(self).invalidated(),
            final(self).out_of_sync(),
    {
        self.stale_read_framebuffer = true;
        self.stale_draw_framebuffer = true;
        self.stale_scissor_test = true;
    }
}

/// Writing never makes a trusted value stale, and a cache whose three values
/// have all been written is in sync again.
pub proof fn lemma_write_restores_trust(state: GlState, update: StateUpdate)
    ensures
        !state.out_of_sync() ==> !state.written(update).out_of_sync(),
        update.read_framebuffer is Some && update.draw_framebuffer is Some
            && update.enabled_scissor_test is Some ==> !state.written(update).out_of_sync(),
{
}

} // verus!
