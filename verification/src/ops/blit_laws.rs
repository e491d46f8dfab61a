//! What holds of every blit, whatever the context, the cache and the request.

use vstd::prelude::*;
use crate::dialect::{blit_dialect, core_framebuffer_minimum, named_blit_minimum, Dialect};
use crate::driver::{
    bind_count, keeps_in_step, lemma_after_all_concat, speaks, DriverCall, DriverState,
};
use crate::gl;
use crate::ops::blit::{
    bind_draw_call, bind_read_call, blit_call, blit_calls, blit_update, update_calls, ResolvedBlit,
};
use crate::state::GlState;
use crate::version::Version;

verus! {

/// From primary 4.5 on a blit binds nothing: whatever the cache holds, its
/// calls are the named blit, preceded by nothing but the switch of the
/// scissor test, and the cache keeps its bindings as they were.
pub proof fn lemma_named_blit_binds_nothing(version: Version, state: GlState, blit: ResolvedBlit)
    requires
        version.at_least(named_blit_minimum()),
    ensures
        ({
            let dialect = blit_dialect(version);
            let calls = blit_calls(dialect, state, blit);
            let update = blit_update(dialect, state, blit);
            &&& dialect == Dialect::Named
            &&& bind_count(calls) == 0
            &&& speaks(calls, Dialect::Named)
            &&& calls == seq![blit_call(dialect, blit)] || calls == seq![
                DriverCall::Disable { cap: gl::SCISSOR_TEST },
                blit_call(dialect, blit),
            ]
            &&& update.read_framebuffer is None
            &&& update.draw_framebuffer is None
        }),
{
    let disable = DriverCall::Disable { cap: gl::SCISSOR_TEST };
    let copy = blit_call(Dialect::Named, blit);
    let calls = blit_calls(Dialect::Named, state, blit);
    if blit_update(Dialect::Named, state, blit).enabled_scissor_test is Some {
        assert(calls =~= seq![disable, copy]);
    } else {
        assert(calls =~= seq![copy]);
    }
    reveal_with_fuel(bind_count, 3);
}

/// A context speaks one dialect. From primary 3.0 up to, but not including,
/// primary 4.5 every bind and the copy go through the core entry points.
/// Below primary 3.0, and on every embedded version, they go through those
/// of the framebuffer extension. No call of another dialect is made.
pub proof fn lemma_blit_speaks_one_dialect(version: Version, state: GlState, blit: ResolvedBlit)
    ensures
        speaks(blit_calls(blit_dialect(version), state, blit), blit_dialect(version)),
        version.at_least(core_framebuffer_minimum()) && !version.at_least(named_blit_minimum())
            ==> blit_dialect(version) == Dialect::Core,
        !version.at_least(core_framebuffer_minimum()) ==> blit_dialect(version)
            == Dialect::Extension,
{
}

/// A blit copies once, and last: every call before the copy prepares the
/// driver for it.
pub proof fn lemma_blit_copies_once(dialect: Dialect, state: GlState, blit: ResolvedBlit)
    ensures
        ({
            let calls = blit_calls(dialect, state, blit);
            &&& 1 <= calls.len() <= 4
            &&& calls.last() == blit_call(dialect, blit)
            &&& calls.last().is_blit()
            &&& forall|i: int| 0 <= i < calls.len() - 1 ==> !(#[trigger] calls[i]).is_blit()
        }),
{
}

/// A blit that follows a blit of the same two framebuffers, on a cache that
/// was in sync, makes one call only, the copy: the scissor test is off and
/// both framebuffers are where the first blit left them.
pub proof fn lemma_repeated_blit_binds_nothing(
    version: Version,
    state: GlState,
    first: ResolvedBlit,
    second: ResolvedBlit,
)
    requires
        !state.out_of_sync(),
        second.read_framebuffer == first.read_framebuffer,
        second.draw_framebuffer == first.draw_framebuffer,
    ensures
        ({
            let dialect = blit_dialect(version);
            let between = state.written(blit_update(dialect, state, first));
            &&& !between.out_of_sync()
            &&& blit_calls(dialect, between, second) == seq![blit_call(dialect, second)]
            &&& bind_count(blit_calls(dialect, between, second)) == 0
            &&& between.written(blit_update(dialect, between, second)) == between
        }),
{
    let dialect = blit_dialect(version);
    let between = state.written(blit_update(dialect, state, first));
    assert(blit_calls(dialect, between, second) =~= seq![blit_call(dialect, second)]);
    reveal_with_fuel(bind_count, 2);
}

/// Below primary 4.5, a blit on a cache that is out of sync switches the
/// scissor test off and binds both framebuffers, whatever the cache holds,
/// and leaves the cache in sync. The first blit after the cache has been
/// invalidated is such a blit.
pub proof fn lemma_stale_cache_rebinds(version: Version, state: GlState, blit: ResolvedBlit)
    requires
        state.out_of_sync(),
        !version.at_least(named_blit_minimum()),
    ensures
        ({
            let dialect = blit_dialect(version);
            let calls = blit_calls(dialect, state, blit);
            &&& calls == seq![
                DriverCall::Disable { cap: gl::SCISSOR_TEST },
                bind_read_call(dialect, blit.read_framebuffer),
                bind_draw_call(dialect, blit.draw_framebuffer),
                blit_call(dialect, blit),
            ]
            &&& bind_count(calls) == 2
            &&& !state.written(blit_update(dialect, state, blit)).out_of_sync()
        }),
{
    let dialect = blit_dialect(version);
    assert(blit_calls(dialect, state, blit) =~= seq![
        DriverCall::Disable { cap: gl::SCISSOR_TEST },
        bind_read_call(dialect, blit.read_framebuffer),
        bind_draw_call(dialect, blit.draw_framebuffer),
        blit_call(dialect, blit),
    ]);
    reveal_with_fuel(bind_count, 5);
}

/// A blit never switches the scissor test on: after it the cache knows the
/// test to be off, whatever it held before.
pub proof fn lemma_blit_leaves_scissor_test_off(
    dialect: Dialect,
    state: GlState,
    blit: ResolvedBlit,
)
    ensures
        !state.written(blit_update(dialect, state, blit)).enabled_scissor_test,
        !state.written(blit_update(dialect, state, blit)).stale_scissor_test,
{
}

/// The calls that prepare a blit leave the driver as the blit needs it and
/// as the cache then records it.
proof fn lemma_update_calls_prepare(
    dialect: Dialect,
    state: GlState,
    blit: ResolvedBlit,
    driver: DriverState,
)
    requires
        state.mirrors(driver),
    ensures
        ({
            let update = blit_update(dialect, state, blit);
            let prepared = driver.after_all(update_calls(dialect, update));
            &&& state.written(update).mirrors(prepared)
            &&& !prepared.scissor_test
            &&& dialect != Dialect::Named ==> prepared.read_framebuffer == blit.read_framebuffer
            &&& dialect != Dialect::Named ==> prepared.draw_framebuffer == blit.draw_framebuffer
        }),
{
    let update = blit_update(dialect, state, blit);
    let scissor: Seq<DriverCall> = if update.enabled_scissor_test is Some {
        seq![DriverCall::Disable { cap: gl::SCISSOR_TEST }]
    } else {
        Seq::empty()
    };
    let read: Seq<DriverCall> = match update.read_framebuffer {
        Some(framebuffer) => seq![bind_read_call(dialect, framebuffer)],
        None => Seq::empty(),
    };
    let draw: Seq<DriverCall> = match update.draw_framebuffer {
        Some(framebuffer) => seq![bind_draw_call(dialect, framebuffer)],
        None => Seq::empty(),
    };
    lemma_after_all_concat(driver, scissor, read);
    lemma_after_all_concat(driver, scissor + read, draw);
    lemma_after_all_one_or_none(driver, scissor);
    lemma_after_all_one_or_none(driver.after_all(scissor), read);
    lemma_after_all_one_or_none(driver.after_all(scissor + read), draw);
}

/// A sequence of one call acts as that call, an empty one not at all.
proof fn lemma_after_all_one_or_none(driver: DriverState, calls: Seq<DriverCall>)
    requires
        calls.len() <= 1,
    ensures
        calls.len() == 0 ==> driver.after_all(calls) == driver,
        calls.len() == 1 ==> driver.after_all(calls) == driver.after(calls[0]),
{
    if calls.len() == 1 {
        assert(driver.after_all(calls.drop_last()) == driver);
        assert(calls.last() == calls[0]);
    }
}

/// A cache that mirrors the driver before a blit mirrors it after the calls
/// of the blit have been made.
pub proof fn lemma_blit_keeps_cache_in_step(dialect: Dialect, state: GlState, blit: ResolvedBlit)
    ensures
        keeps_in_step(
            state,
            blit_calls(dialect, state, blit),
            state.written(blit_update(dialect, state, blit)),
        ),
{
    let before = update_calls(dialect, blit_update(dialect, state, blit));
    let calls = blit_calls(dialect, state, blit);
    let after = state.written(blit_update(dialect, state, blit));
    assert(calls.drop_last() =~= before);
    assert forall|driver: DriverState| #[trigger] state.mirrors(driver) implies after.mirrors(
        driver.after_all(calls),
    ) by {
        lemma_update_calls_prepare(dialect, state, blit, driver);
    }
}

/// If the cache mirrors the driver before a blit, then at the moment of the
/// copy the scissor test is off and, in the dialects that copy between the
/// bindings, the two framebuffers of the blit are the ones bound.
pub proof fn lemma_blit_finds_driver_prepared(
    dialect: Dialect,
    state: GlState,
    blit: ResolvedBlit,
    driver: DriverState,
)
    requires
        state.mirrors(driver),
    ensures
        ({
            let calls = blit_calls(dialect, state, blit);
            let prepared = driver.after_all(calls.drop_last());
            &&& calls.last() == blit_call(dialect, blit)
            &&& !prepared.scissor_test
            &&& dialect != Dialect::Named ==> prepared.read_framebuffer == blit.read_framebuffer
            &&& dialect != Dialect::Named ==> prepared.draw_framebuffer == blit.draw_framebuffer
        }),
{
    let before = update_calls(dialect, blit_update(dialect, state, blit));
    lemma_update_calls_prepare(dialect, state, blit, driver);
    assert(blit_calls(dialect, state, blit).drop_last() =~= before);
}

} // verus!
