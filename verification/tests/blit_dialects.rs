use gl_dispatch::context::Context;
use gl_dispatch::dialect::Dialect;
use gl_dispatch::driver::{count_binds, DriverCall};
use gl_dispatch::fbo::AttachmentSet;
use gl_dispatch::gl;
use gl_dispatch::ops::blit::{bind_draw_call, bind_read_call, blit, blit_call, ResolvedBlit};
use gl_dispatch::rect::{BlitTarget, Corners, Rect};
use gl_dispatch::state::GlState;
use gl_dispatch::version::{Api, Version};

fn src() -> Rect {
    Rect { left: 1, bottom: 2, width: 30, height: 40 }
}

fn dst() -> BlitTarget {
    BlitTarget { left: 5, bottom: 6, width: 70, height: 80 }
}

fn src_corners() -> Corners {
    Corners { x0: 1, y0: 2, x1: 31, y1: 42 }
}

fn dst_corners() -> Corners {
    Corners { x0: 5, y0: 6, x1: 75, y1: 86 }
}

fn framebuffer(handle: u32) -> AttachmentSet {
    AttachmentSet { framebuffer: handle, color: vec![11], depth: Some(12), stencil: None }
}

fn states() -> Vec<GlState> {
    let mut all = Vec::new();
    for (read, draw) in [(0, 0), (7, 8), (8, 7), (7, 0), (0, 8), (3, 3)] {
        for scissor in [false, true] {
            let fresh = GlState::new(read, draw, scissor);
            let mut stale = fresh;
            stale.invalidate();
            all.push(fresh);
            all.push(stale);
        }
    }
    all
}

fn run(version: Version, state: GlState) -> (Vec<DriverCall>, GlState) {
    let mut context = Context::new(version, state);
    let source = framebuffer(7);
    let target = framebuffer(8);
    let calls = blit(
        &mut context,
        Some(&source),
        Some(&target),
        gl::COLOR_BUFFER_BIT,
        &src(),
        &dst(),
        gl::LINEAR,
    )
    .unwrap();
    assert_eq!(context.version(), version);
    (calls, context.state())
}

#[test]
fn primary_4_5_and_later_never_bind() {
    for version in [
        Version(Api::Gl, 4, 5),
        Version(Api::Gl, 4, 6),
        Version(Api::Gl, 5, 0),
        Version(Api::Gl, 255, 255),
    ] {
        for state in states() {
            let (calls, after) = run(version, state);
            assert_eq!(count_binds(&calls), 0);
            assert!(calls.iter().all(|call| !call.is_bind()));
            let named = DriverCall::BlitNamedFramebuffer {
                read_framebuffer: 7,
                draw_framebuffer: 8,
                src: src_corners(),
                dst: dst_corners(),
                mask: gl::COLOR_BUFFER_BIT,
                filter: gl::LINEAR,
            };
            if state.out_of_sync() || state.enabled_scissor_test {
                assert_eq!(calls, vec![DriverCall::Disable { cap: gl::SCISSOR_TEST }, named]);
            } else {
                assert_eq!(calls, vec![named]);
            }
            assert_eq!(after.read_framebuffer, state.read_framebuffer);
            assert_eq!(after.draw_framebuffer, state.draw_framebuffer);
            assert_eq!(after.stale_read_framebuffer, state.stale_read_framebuffer);
            assert_eq!(after.stale_draw_framebuffer, state.stale_draw_framebuffer);
            assert!(!after.enabled_scissor_test);
            assert!(!after.stale_scissor_test);
        }
    }
}

#[test]
fn primary_3_0_to_4_4_use_the_core_entry_points_only() {
    for version in [
        Version(Api::Gl, 3, 0),
        Version(Api::Gl, 3, 1),
        Version(Api::Gl, 3, 3),
        Version(Api::Gl, 4, 0),
        Version(Api::Gl, 4, 4),
    ] {
        for state in states() {
            let (calls, _) = run(version, state);
            for call in &calls {
                assert!(matches!(
                    call,
                    DriverCall::Disable { .. }
                        | DriverCall::BindFramebuffer { .. }
                        | DriverCall::BlitFramebuffer { .. }
                ));
            }
            assert_eq!(
                calls.last(),
                Some(&DriverCall::BlitFramebuffer {
                    src: src_corners(),
                    dst: dst_corners(),
                    mask: gl::COLOR_BUFFER_BIT,
                    filter: gl::LINEAR,
                })
            );
            assert_eq!(calls.iter().filter(|call| call.is_blit()).count(), 1);
        }
    }
}

#[test]
fn versions_below_primary_3_0_use_the_extension_entry_points_only() {
    for version in [
        Version(Api::Gl, 2, 1),
        Version(Api::Gl, 2, 255),
        Version(Api::Gl, 1, 5),
        Version(Api::Gl, 0, 0),
        Version(Api::GlEs, 2, 0),
        Version(Api::GlEs, 3, 0),
        Version(Api::GlEs, 3, 2),
        Version(Api::GlEs, 4, 5),
    ] {
        for state in states() {
            let (calls, _) = run(version, state);
            for call in &calls {
                assert!(matches!(
                    call,
                    DriverCall::Disable { .. }
                        | DriverCall::BindFramebufferExt { .. }
                        | DriverCall::BlitFramebufferExt { .. }
                ));
            }
            assert_eq!(
                calls.last(),
                Some(&DriverCall::BlitFramebufferExt {
                    src: src_corners(),
                    dst: dst_corners(),
                    mask: gl::COLOR_BUFFER_BIT,
                    filter: gl::LINEAR,
                })
            );
            assert_eq!(calls.iter().filter(|call| call.is_blit()).count(), 1);
        }
    }
}

#[test]
fn core_blit_from_scratch_makes_all_four_calls() {
    let (calls, after) = run(Version(Api::Gl, 3, 3), GlState::new(0, 0, true));
    assert_eq!(
        calls,
        vec![
            DriverCall::Disable { cap: 0x0C11 },
            DriverCall::BindFramebuffer { target: 0x8CA8, framebuffer: 7 },
            DriverCall::BindFramebuffer { target: 0x8CA9, framebuffer: 8 },
            DriverCall::BlitFramebuffer {
                src: src_corners(),
                dst: dst_corners(),
                mask: 0x4000,
                filter: 0x2601,
            },
        ]
    );
    assert_eq!(after, GlState::new(7, 8, false));
}

#[test]
fn extension_blit_from_scratch_makes_all_four_calls() {
    let (calls, after) = run(Version(Api::Gl, 2, 1), GlState::new(0, 0, true));
    assert_eq!(
        calls,
        vec![
            DriverCall::Disable { cap: 0x0C11 },
            DriverCall::BindFramebufferExt { target: 0x8CA8, framebuffer: 7 },
            DriverCall::BindFramebufferExt { target: 0x8CA9, framebuffer: 8 },
            DriverCall::BlitFramebufferExt {
                src: src_corners(),
                dst: dst_corners(),
                mask: 0x4000,
                filter: 0x2601,
            },
        ]
    );
    assert_eq!(after, GlState::new(7, 8, false));
}

#[test]
fn call_constructors_follow_the_dialect() {
    assert_eq!(
        bind_read_call(Dialect::Core, 3),
        DriverCall::BindFramebuffer { target: gl::READ_FRAMEBUFFER, framebuffer: 3 }
    );
    assert_eq!(
        bind_read_call(Dialect::Extension, 3),
        DriverCall::BindFramebufferExt { target: gl::READ_FRAMEBUFFER_EXT, framebuffer: 3 }
    );
    assert_eq!(
        bind_draw_call(Dialect::Core, 4),
        DriverCall::BindFramebuffer { target: gl::DRAW_FRAMEBUFFER, framebuffer: 4 }
    );
    assert_eq!(
        bind_draw_call(Dialect::Extension, 4),
        DriverCall::BindFramebufferExt { target: gl::DRAW_FRAMEBUFFER_EXT, framebuffer: 4 }
    );
    let request = ResolvedBlit {
        read_framebuffer: 3,
        draw_framebuffer: 4,
        src: src_corners(),
        dst: dst_corners(),
        mask: gl::DEPTH_BUFFER_BIT,
        filter: gl::NEAREST,
    };
    assert_eq!(
        blit_call(Dialect::Named, request),
        DriverCall::BlitNamedFramebuffer {
            read_framebuffer: 3,
            draw_framebuffer: 4,
            src: src_corners(),
            dst: dst_corners(),
            mask: gl::DEPTH_BUFFER_BIT,
            filter: gl::NEAREST,
        }
    );
    assert_eq!(
        blit_call(Dialect::Core, request),
        DriverCall::BlitFramebuffer {
            src: src_corners(),
            dst: dst_corners(),
            mask: gl::DEPTH_BUFFER_BIT,
            filter: gl::NEAREST,
        }
    );
    assert_eq!(
        blit_call(Dialect::Extension, request),
        DriverCall::BlitFramebufferExt {
            src: src_corners(),
            dst: dst_corners(),
            mask: gl::DEPTH_BUFFER_BIT,
            filter: gl::NEAREST,
        }
    );
}

#[test]
fn calls_tell_binds_from_blits() {
    let request = ResolvedBlit {
        read_framebuffer: 3,
        draw_framebuffer: 4,
        src: src_corners(),
        dst: dst_corners(),
        mask: gl::COLOR_BUFFER_BIT,
        filter: gl::NEAREST,
    };
    let disable = DriverCall::Disable { cap: gl::SCISSOR_TEST };
    assert!(!disable.is_bind());
    assert!(!disable.is_blit());
    for dialect in [Dialect::Core, Dialect::Extension] {
        assert!(bind_read_call(dialect, 1).is_bind());
        assert!(!bind_read_call(dialect, 1).is_blit());
        assert!(bind_draw_call(dialect, 1).is_bind());
    }
    for dialect in [Dialect::Named, Dialect::Core, Dialect::Extension] {
        assert!(blit_call(dialect, request).is_blit());
        assert!(!blit_call(dialect, request).is_bind());
    }
    let calls = vec![
        disable,
        bind_read_call(Dialect::Core, 1),
        blit_call(Dialect::Core, request),
        bind_draw_call(Dialect::Extension, 2),
    ];
    assert_eq!(count_binds(&calls), 2);
    assert_eq!(count_binds(&Vec::new()), 0);
}
