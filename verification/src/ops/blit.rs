//! Copying pixels from one framebuffer to another.

use vstd::prelude::*;
use crate::context::Context;
use crate::dialect::{blit_dialect, named_blit_minimum, Dialect};
use crate::driver::{bind_count, keeps_in_step, speaks, DriverCall};
use crate::fbo::{
    resolve_for_target, spec_resolve, view_of, AttachmentSet, AttachmentSetView, ValidationError,
};
use crate::gl;
use crate::ops::blit_laws::{
    lemma_blit_keeps_cache_in_step, lemma_blit_speaks_one_dialect, lemma_named_blit_binds_nothing,
};
use crate::rect::{BlitTarget, Corners, Rect};
use crate::state::{GlState, StateUpdate};
use crate::version::Version;

verus! {

/// Why a blit was not dispatched.
#[derive(Clone, Copy, Debug, PartialEq, Eq, Structural)]
pub enum BlitError {
    /// The mask selects the depth or the stencil buffer and the filter is not
    /// nearest-neighbour sampling. The driver leaves such a blit undefined.
    InvalidFilter,
    /// The source or the target cannot be used on this context.
    Validation(ValidationError),
}

/// A blit whose source and target have been resolved to framebuffer handles
/// and whose areas are in two-corner form.
#[derive(Clone, Copy, Debug, PartialEq, Eq, Structural)]
pub struct ResolvedBlit {
    /// The framebuffer read.
    pub read_framebuffer: u32,
    /// The framebuffer written.
    pub draw_framebuffer: u32,
    /// The area read.
    pub src: Corners,
    /// The area written.
    pub dst: Corners,
    /// The buffers to copy.
    pub mask: u32,
    /// How to sample when the areas differ in size.
    pub filter: u32,
}

/// The filter may be used with the mask: a blit of depth or stencil data
/// samples nearest-neighbour, a blit of color data alone samples as it likes.
pub open spec fn spec_filter_allowed(mask: u32, filter: u32) -> bool {
    (mask & gl::DEPTH_BUFFER_BIT == 0 && mask & gl::STENCIL_BUFFER_BIT == 0) || filter
        == gl::NEAREST
}

/// Tells whether the filter may be used with the mask.
#[verifier::when_used_as_spec(spec_filter_allowed)]
pub fn filter_allowed(mask: u32, filter: u32) -> (r: bool)
    ensures
        r == spec_filter_allowed(mask, filter),
{
    (mask & gl::DEPTH_BUFFER_BIT == 0 && mask & gl::STENCIL_BUFFER_BIT == 0) || filter
        == gl::NEAREST
}

/// What a blit changes in the driver state, given what the cache says of it.
///
/// The scissor test clips blits, so it is switched off unless the cache
/// knows that it is off already. It is not switched on again afterwards.
/// A framebuffer is bound unless the cache knows that it is bound already,
/// and never in the named dialect, which binds nothing. A cache that is out
/// of sync knows nothing.
pub open spec fn blit_update(dialect: Dialect, state: GlState, blit: ResolvedBlit) -> StateUpdate {
    let stale = state.out_of_sync();
    StateUpdate {
        enabled_scissor_test: if stale || state.enabled_scissor_test {
            Some(false)
        } else {
            None
        },
        read_framebuffer: if dialect != Dialect::Named && (stale || state.read_framebuffer
            != blit.read_framebuffer) {
            Some(blit.read_framebuffer)
        } else {
            None
        },
        draw_framebuffer: if dialect != Dialect::Named && (stale || state.draw_framebuffer
            != blit.draw_framebuffer) {
            Some(blit.draw_framebuffer)
        } else {
            None
        },
    }
}

/// The call that binds `framebuffer` for reading: the core entry point in the
/// core dialect, the extension's otherwise.
pub open spec fn spec_bind_read_call(dialect: Dialect, framebuffer: u32) -> DriverCall {
    if dialect == Dialect::Core {
        DriverCall::BindFramebuffer { target: gl::READ_FRAMEBUFFER, framebuffer }
    } else {
        DriverCall::BindFramebufferExt { target: gl::READ_FRAMEBUFFER_EXT, framebuffer }
    }
}

/// The call that binds `framebuffer` for drawing: the core entry point in the
/// core dialect, the extension's otherwise.
pub open spec fn spec_bind_draw_call(dialect: Dialect, framebuffer: u32) -> DriverCall {
    if dialect == Dialect::Core {
        DriverCall::BindFramebuffer { target: gl::DRAW_FRAMEBUFFER, framebuffer }
    } else {
        DriverCall::BindFramebufferExt { target: gl::DRAW_FRAMEBUFFER_EXT, framebuffer }
    }
}

/// The call that copies the pixels in the given dialect. Only the named
/// call carries the framebuffers; the others copy between the bindings.
pub open spec fn spec_blit_call(dialect: Dialect, blit: ResolvedBlit) -> DriverCall {
    match dialect {
        Dialect::Named => DriverCall::BlitNamedFramebuffer {
            read_framebuffer: blit.read_framebuffer,
            draw_framebuffer: blit.draw_framebuffer,
            src: blit.src,
            dst: blit.dst,
            mask: blit.mask,
            filter: blit.filter,
        },
        Dialect::Core => DriverCall::BlitFramebuffer {
            src: blit.src,
            dst: blit.dst,
            mask: blit.mask,
            filter: blit.filter,
        },
        Dialect::Extension => DriverCall::BlitFramebufferExt {
            src: blit.src,
            dst: blit.dst,
            mask: blit.mask,
            filter: blit.filter,
        },
    }
}

/// Makes the call that binds `framebuffer` for reading.
#[verifier::when_used_as_spec(spec_bind_read_call)]
pub fn bind_read_call(dialect: Dialect, framebuffer: u32) -> (call: DriverCall)
    ensures
        call == spec_bind_read_call(dialect, framebuffer),
{
    match dialect {
        Dialect::Core => DriverCall::BindFramebuffer { target: gl::READ_FRAMEBUFFER, framebuffer },
        _ => DriverCall::BindFramebufferExt { target: gl::READ_FRAMEBUFFER_EXT, framebuffer },
    }
}

/// Makes the call that binds `framebuffer` for drawing.
#[verifier::when_used_as_spec(spec_bind_draw_call)]
pub fn bind_draw_call(dialect: Dialect, framebuffer: u32) -> (call: DriverCall)
    ensures
        call == spec_bind_draw_call(dialect, framebuffer),
{
    match dialect {
        Dialect::Core => DriverCall::BindFramebuffer { target: gl::DRAW_FRAMEBUFFER, framebuffer },
        _ => DriverCall::BindFramebufferExt { target: gl::DRAW_FRAMEBUFFER_EXT, framebuffer },
    }
}

/// Makes the call that copies the pixels.
#[verifier::when_used_as_spec(spec_blit_call)]
pub fn blit_call(dialect: Dialect, blit: ResolvedBlit) -> (call: DriverCall)
    ensures
        call == spec_blit_call(dialect, blit),
{
    match dialect {
        Dialect::Named => DriverCall::BlitNamedFramebuffer {
            read_framebuffer: blit.read_framebuffer,
            draw_framebuffer: blit.draw_framebuffer,
            src: blit.src,
            dst: blit.dst,
            mask: blit.mask,
            filter: blit.filter,
        },
        Dialect::Core => DriverCall::BlitFramebuffer {
            src: blit.src,
            dst: blit.dst,
            mask: blit.mask,
            filter: blit.filter,
        },
        Dialect::Extension => DriverCall::BlitFramebufferExt {
            src: blit.src,
            dst: blit.dst,
            mask: blit.mask,
            filter: blit.filter,
        },
    }
}

/// The calls that bring about `update`, in the order in which they are made:
/// the scissor test, the read binding, the draw binding.
pub open spec fn update_calls(dialect: Dialect, update: StateUpdate) -> Seq<DriverCall> {
    let scissor = if update.enabled_scissor_test is Some {
        seq![DriverCall::Disable { cap: gl::SCISSOR_TEST }]
    } else {
        Seq::empty()
    };
    let read = match update.read_framebuffer {
        Some(framebuffer) => seq![bind_read_call(dialect, framebuffer)],
        None => Seq::empty(),
    };
    let draw = match update.draw_framebuffer {
        Some(framebuffer) => seq![bind_draw_call(dialect, framebuffer)],
        None => Seq::empty(),
    };
    scissor + read + draw
}

/// The calls of a blit: those that change the driver state as far as the
/// blit needs, then the copy itself.
pub open spec fn blit_calls(dialect: Dialect, state: GlState, blit: ResolvedBlit) -> Seq<
    DriverCall,
> {
    update_calls(dialect, blit_update(dialect, state, blit)).push(blit_call(dialect, blit))
}

/// Decides which driver calls a resolved blit needs on this context, and
/// records in the cache what they do. The calls are returned in the order in
/// which they are to be made; the cache describes the driver once all of
/// them have been made.
fn dispatch(context: &mut Context, blit: &ResolvedBlit) -> (calls: Vec<DriverCall>)
    ensures
        final(context).version() == old(context).version(),
        calls@ == blit_calls(blit_dialect(old(context).version()), old(context).state(), *blit),
        final(context).state() == old(context).state().written(
            blit_update(blit_dialect(old(context).version()), old(context).state(), *blit),
        ),
        speaks(calls@, blit_dialect(old(context).version())),
        old(context).version().at_least(named_blit_minimum()) ==> bind_count(calls@) == 0,
        keeps_in_step(old(context).state(), calls@, final(context).state()),
{
    let dialect: Dialect = blit_dialect(context.version());
    let state: GlState = context.state();
    let stale: bool = state.out_of_sync();
    let mut update: StateUpdate = StateUpdate::none();
    let mut calls: Vec<DriverCall> = Vec::new();

    if stale || state.enabled_scissor_test {
        calls.push(DriverCall::Disable { cap: gl::SCISSOR_TEST });
        update.enabled_scissor_test = Some(false);
    }
    if dialect != Dialect::Named {
        if stale || state.read_framebuffer != blit.read_framebuffer {
            calls.push(bind_read_call(dialect, blit.read_framebuffer));
            update.read_framebuffer = Some(blit.read_framebuffer);
        }
        if stale || state.draw_framebuffer != blit.draw_framebuffer {
            calls.push(bind_draw_call(dialect, blit.draw_framebuffer));
            update.draw_framebuffer = Some(blit.draw_framebuffer);
        }
    }
    calls.push(blit_call(dialect, *blit));
    proof {
        assert(update == blit_update(dialect, state, *blit));
        assert(calls@ =~= blit_calls(dialect, state, *blit));
        lemma_blit_speaks_one_dialect(context.version(), state, *blit);
        if dialect == Dialect::Named {
            lemma_named_blit_binds_nothing(context.version(), state, *blit);
        }
        lemma_blit_keeps_cache_in_step(dialect, state, *blit);
    }
    context.record(update);
    calls
}

/// The framebuffers that a blit reads and writes, or the reason why it is
/// refused. The filter is judged first, then the source, then the target.
pub open spec fn blit_framebuffers(
    version: Version,
    source: Option<AttachmentSetView>,
    target: Option<AttachmentSetView>,
    mask: u32,
    filter: u32,
) -> Result<(u32, u32), BlitError> {
    if !filter_allowed(mask, filter) {
        Err(BlitError::InvalidFilter)
    } else {
        match spec_resolve(version, source) {
            Err(error) => Err(BlitError::Validation(error)),
            Ok(read) => match spec_resolve(version, target) {
                Err(error) => Err(BlitError::Validation(error)),
                Ok(draw) => Ok((read, draw)),
            },
        }
    }
}

/// Copies the area `src_rect` of `source` to the area `target_rect` of
/// `target`, where `None` stands for the default framebuffer. Returns the
/// driver calls to make, in order, and records in the context's cache the
/// driver state that they leave behind.
///
/// The blit is refused, before anything is decided or recorded, if the
/// filter may not be used with the mask, or if the source or the target is
/// not legal on this context.
///
/// The scissor test would clip the blit, so it is switched off where the
/// cache does not know it to be off. It stays off afterwards: whoever needs
/// it enables it again.
///
/// Both areas must have corners that the driver's integers can hold. A
/// negative extent of the target area is no fault: it flips the image.
pub fn blit(
    context: &mut Context,
    source: Option<&AttachmentSet>,
    target: Option<&AttachmentSet>,
    mask: u32,
    src_rect: &Rect,
    target_rect: &BlitTarget,
    filter: u32,
) -> (result: Result<Vec<DriverCall>, BlitError>)
    requires
        src_rect.representable(),
        target_rect.representable(),
    ensures
        final(context).version() == old(context).version(),
        match blit_framebuffers(
            old(context).version(),
            view_of(source),
            view_of(target),
            mask,
            filter,
        ) {
            Err(error) => {
                &&& result == Err::<Vec<DriverCall>, BlitError>(error)
                &&& final(context).state() == old(context).state()
            },
            Ok((read_framebuffer, draw_framebuffer)) => {
                let dialect = blit_dialect(old(context).version());
                let blit = (ResolvedBlit {
                    read_framebuffer,
                    draw_framebuffer,
                    src: src_rect.corners(),
                    dst: target_rect.corners(),
                    mask,
                    filter,
                });
                &&& result matches Ok(calls)
                &&& calls@ == blit_calls(dialect, old(context).state(), blit)
                &&& final(context).state() == old(context).state().written(
                    blit_update(dialect, old(context).state(), blit),
                )
            },
        },
        result == Err::<Vec<DriverCall>, BlitError>(BlitError::InvalidFilter) <==> !filter_allowed(
            mask,
            filter,
        ),
        result matches Ok(calls) ==> {
            &&& speaks(calls@, blit_dialect(old(context).version()))
            &&& old(context).version().at_least(named_blit_minimum()) ==> bind_count(calls@) == 0
            &&& keeps_in_step(old(context).state(), calls@, final(context).state())
            &&& !final(context).state().enabled_scissor_test
            &&& calls@.len() > 0
            &&& calls@.last().areas() matches Some((src, dst))
            &&& src.spans(
                src_rect.left as int,
                src_rect.bottom as int,
                src_rect.width as int,
                src_rect.height as int,
            )
            &&& dst.spans(
                target_rect.left as int,
                target_rect.bottom as int,
                target_rect.width as int,
                target_rect.height as int,
            )
        },
{
    if !filter_allowed(mask, filter) {
        return Err(BlitError::InvalidFilter);
    }
    let read_framebuffer: u32 = match resolve_for_target(context, source) {
        Ok(framebuffer) => framebuffer,
        Err(error) => {
            return Err(BlitError::Validation(error));
        },
    };
    let draw_framebuffer: u32 = match resolve_for_target(context, target) {
        Ok(framebuffer) => framebuffer,
        Err(error) => {
            return Err(BlitError::Validation(error));
        },
    };
    let blit = ResolvedBlit {
        read_framebuffer,
        draw_framebuffer,
        src: src_rect.corners(),
        dst: target_rect.corners(),
        mask,
        filter,
    };
    Ok(dispatch(context, &blit))
}

} // verus!
