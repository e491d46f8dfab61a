//! The driver calls an operation asks for, and what they do to the driver.

use vstd::prelude::*;
use crate::dialect::Dialect;
use crate::gl;
use crate::rect::Corners;
use crate::state::GlState;

verus! {

/// One call into the driver, with its arguments. An operation returns the
/// calls it needs in the order in which they are to be made.
#[derive(Clone, Copy, Debug, PartialEq, Eq, Structural)]
pub enum DriverCall {
    /// Switch a capability off.
    Disable {
        /// The capability.
        cap: u32,
    },
    /// Bind a framebuffer through the core entry point.
    BindFramebuffer {
        /// The binding point.
        target: u32,
        /// The framebuffer to bind.
        framebuffer: u32,
    },
    /// Bind a framebuffer through the entry point of the framebuffer extension.
    BindFramebufferExt {
        /// The binding point.
        target: u32,
        /// The framebuffer to bind.
        framebuffer: u32,
    },
    /// Copy pixels from the read binding to the draw binding through the
    /// core entry point.
    BlitFramebuffer {
        /// The area read.
        src: Corners,
        /// The area written.
        dst: Corners,
        /// The buffers to copy.
        mask: u32,
        /// How to sample when the areas differ in size.
        filter: u32,
    },
    /// Copy pixels from the read binding to the draw binding through the
    /// entry point of the framebuffer extension.
    BlitFramebufferExt {
        /// The area read.
        src: Corners,
        /// The area written.
        dst: Corners,
        /// The buffers to copy.
        mask: u32,
        /// How to sample when the areas differ in size.
        filter: u32,
    },
    /// Copy pixels between two framebuffers given by their handles, whatever
    /// is bound.
    BlitNamedFramebuffer {
        /// The framebuffer read.
        read_framebuffer: u32,
        /// The framebuffer written.
        draw_framebuffer: u32,
        /// The area read.
        src: Corners,
        /// The area written.
        dst: Corners,
        /// The buffers to copy.
        mask: u32,
        /// How to sample when the areas differ in size.
        filter: u32,
    },
}

impl DriverCall {
    /// The call binds a framebuffer.
    pub open spec fn spec_is_bind(&self) -> bool {
        *self is BindFramebuffer || *self is BindFramebufferExt
    }

    /// The call copies pixels.
    pub open spec fn spec_is_blit(&self) -> bool {
        *self is BlitFramebuffer || *self is BlitFramebufferExt || *self is BlitNamedFramebuffer
    }

    /// The dialect that the entry point belongs to. Switching a capability
    /// off is the same call in every dialect.
    pub open spec fn dialect(&self) -> Option<Dialect> {
        match *self {
            DriverCall::Disable { .. } => None,
            DriverCall::BindFramebuffer { .. } | DriverCall::BlitFramebuffer { .. } => Some(
                Dialect::Core,
            ),
            DriverCall::BindFramebufferExt { .. } | DriverCall::BlitFramebufferExt { .. } => Some(
                Dialect::Extension,
            ),
            DriverCall::BlitNamedFramebuffer { .. } => Some(Dialect::Named),
        }
    }

    /// The two areas, read and written, that a call copies between.
    pub open spec fn areas(&self) -> Option<(Corners, Corners)> {
        match *self {
            DriverCall::BlitFramebuffer { src, dst, .. } => Some((src, dst)),
            DriverCall::BlitFramebufferExt { src, dst, .. } => Some((src, dst)),
            DriverCall::BlitNamedFramebuffer { src, dst, .. } => Some((src, dst)),
            _ => None,
        }
    }

    /// Tells whether the call binds a framebuffer.
    #[verifier::when_used_as_spec(spec_is_bind)]
    pub fn is_bind(&self) -> (r: bool)
        ensures
            r == self.spec_is_bind(),
    {
        match self {
            DriverCall::BindFramebuffer { .. } | DriverCall::BindFramebufferExt { .. } => true,
            _ => false,
        }
    }

    /// Tells whether the call copies pixels.
    #[verifier::when_used_as_spec(spec_is_blit)]
    pub fn is_blit(&self) -> (r: bool)
        ensures
            r == self.spec_is_blit(),
    {
        match self {
            DriverCall::BlitFramebuffer { .. }
            | DriverCall::BlitFramebufferExt { .. }
            | DriverCall::BlitNamedFramebuffer { .. } => true,
            _ => false,
        }
    }
}

/// How many of `calls` bind a framebuffer.
pub open spec fn bind_count(calls: Seq<DriverCall>) -> nat
    decreases calls.len(),
{
    if calls.len() == 0 {
        0
    } else {
        bind_count(calls.drop_last()) + if calls.last().spec_is_bind() {
            1nat
        } else {
            0nat
        }
    }
}

/// Every call of `calls` that belongs to a dialect belongs to `dialect`.
pub open spec fn speaks(calls: Seq<DriverCall>, dialect: Dialect) -> bool {
    forall|i: int|
        0 <= i < calls.len() ==> (#[trigger] calls[i]).dialect() is None || calls[i].dialect()
            == Some(dialect)
}

/// Counts the calls that bind a framebuffer.
pub fn count_binds(calls: &Vec<DriverCall>) -> (n: usize)
    ensures
        n == bind_count(calls@),
{
    let mut n: usize = 0;
    let mut i: usize = 0;
    while i < calls.len()
        invariant
            i <= calls.len(),
            n <= i,
            n == bind_count(calls@.take(i as int)),
        decreases calls.len() - i,
    {
        proof {
            assert(calls@.take(i + 1).drop_last() =~= calls@.take(i as int));
        }
        if calls[i].is_bind() {
            n = n + 1;
        }
        i = i + 1;
    }
    proof {
        assert(calls@.take(i as int) =~= calls@);
    }
    n
}

/// The driver state that the cache mirrors, as the driver itself holds it.
/// The library never sees such a value. It is the subject of the theorems
/// that say what the cache is good for, and they take every call to do what
/// the driver's documentation says it does.
pub struct DriverState {
    /// Framebuffer bound for reading.
    pub read_framebuffer: u32,
    /// Framebuffer bound for drawing.
    pub draw_framebuffer: u32,
    /// Whether the scissor test is enabled.
    pub scissor_test: bool,
}

impl DriverState {
    /// The state with `framebuffer` bound to the binding point `target`.
    pub open spec fn bind(self, target: u32, framebuffer: u32) -> DriverState {
        if target == gl::READ_FRAMEBUFFER {
            DriverState { read_framebuffer: framebuffer, ..self }
        } else if target == gl::DRAW_FRAMEBUFFER {
            DriverState { draw_framebuffer: framebuffer, ..self }
        } else if target == gl::FRAMEBUFFER {
            DriverState { read_framebuffer: framebuffer, draw_framebuffer: framebuffer, ..self }
        } else {
            self
        }
    }

    /// The state after one call. Copying pixels changes none of it.
    pub open spec fn after(self, call: DriverCall) -> DriverState {
        match call {
            DriverCall::Disable { cap } => if cap == gl::SCISSOR_TEST {
                DriverState { scissor_test: false, ..self }
            } else {
                self
            },
            DriverCall::BindFramebuffer { target, framebuffer } => self.bind(target, framebuffer),
            DriverCall::BindFramebufferExt { target, framebuffer } => self.bind(
                target,
                framebuffer,
            ),
            _ => self,
        }
    }

    /// The state after a sequence of calls, made in order.
    pub open spec fn after_all(self, calls: Seq<DriverCall>) -> DriverState
        decreases calls.len(),
    {
        if calls.len() == 0 {
            self
        } else {
            self.after_all(calls.drop_last()).after(calls.last())
        }
    }
}

impl GlState {
    /// Every value that the cache trusts is the driver's.
    pub open spec fn mirrors(&self, driver: DriverState) -> bool {
        &&& !self.stale_read_framebuffer ==> self.read_framebuffer == driver.read_framebuffer
        &&& !self.stale_draw_framebuffer ==> self.draw_framebuffer == driver.draw_framebuffer
        &&& !self.stale_scissor_test ==> self.enabled_scissor_test == driver.scissor_test
    }
}

/// Making `calls` keeps the cache in step with the driver: if `before`
/// mirrored the driver when the first call was made, `after` mirrors it when
/// the last one has returned.
pub open spec fn keeps_in_step(before: GlState, calls: Seq<DriverCall>, after: GlState) -> bool {
    forall|driver: DriverState| #[trigger]
        before.mirrors(driver) ==> after.mirrors(driver.after_all(calls))
}

/// Calls made one sequence after another act as the two sequences joined.
pub proof fn lemma_after_all_concat(
    driver: DriverState,
    first: Seq<DriverCall>,
    second: Seq<DriverCall>,
)
    ensures
        driver.after_all(first + second) == driver.after_all(first).after_all(second),
    decreases second.len(),
{
    if second.len() == 0 {
        assert(first + second =~= first);
    } else {
        assert((first + second).drop_last() =~= first + second.drop_last());
        lemma_after_all_concat(driver, first, second.drop_last());
    }
}

/// A cache in sync that mirrors the driver records the driver's very state.
pub proof fn lemma_cache_in_sync_equals_driver(state: GlState, driver: DriverState)
    requires
        state.mirrors(driver),
        !state.out_of_sync(),
    ensures
        state.read_framebuffer == driver.read_framebuffer,
        state.draw_framebuffer == driver.draw_framebuffer,
        state.enabled_scissor_test == driver.scissor_test,
{
}

/// An invalidated cache claims nothing, so it mirrors the driver whatever
/// has been done to the driver in the meantime.
pub proof fn lemma_invalidated_cache_mirrors_any(state: GlState, driver: DriverState)
    ensures
        state.invalidated().mirrors(driver),
{
}

/// Operations that each keep the cache in step keep it in step when one
/// follows the other.
pub proof fn lemma_in_step_composes(
    before: GlState,
    first: Seq<DriverCall>,
    between: GlState,
    second: Seq<DriverCall>,
    after: GlState,
)
    requires
        keeps_in_step(before, first, between),
        keeps_in_step(between, second, after),
    ensures
        keeps_in_step(before, first + second, after),
{
    assert forall|driver: DriverState| #[trigger] before.mirrors(driver) implies after.mirrors(
        driver.after_all(first + second),
    ) by {
        lemma_after_all_concat(driver, first, second);
        assert(between.mirrors(driver.after_all(first)));
    }
}

} // verus!
