use gl_dispatch::context::Context;
use gl_dispatch::fbo::{resolve_for_target, AttachmentPoint, AttachmentSet, ValidationError};
use gl_dispatch::state::GlState;
use gl_dispatch::version::{Api, Version};

fn context(version: Version) -> Context {
    Context::new(version, GlState::new(0, 0, false))
}

fn set(framebuffer: u32, colors: usize) -> AttachmentSet {
    AttachmentSet {
        framebuffer,
        color: (0..colors).map(|i| 100 + i as u32).collect(),
        depth: Some(50),
        stencil: None,
    }
}

fn too_many_colors() -> ValidationError {
    ValidationError::MultipleColorAttachments { attachment: AttachmentPoint::Color(1) }
}

#[test]
fn no_attachments_resolve_to_the_default_framebuffer() {
    assert_eq!(resolve_for_target(&context(Version(Api::Gl, 4, 6)), None), Ok(0));
    assert_eq!(resolve_for_target(&context(Version(Api::GlEs, 2, 0)), None), Ok(0));
}

#[test]
fn legal_set_resolves_to_its_framebuffer() {
    assert_eq!(resolve_for_target(&context(Version(Api::Gl, 3, 1)), Some(&set(7, 1))), Ok(7));
    assert_eq!(resolve_for_target(&context(Version(Api::GlEs, 2, 0)), Some(&set(9, 1))), Ok(9));
    assert_eq!(resolve_for_target(&context(Version(Api::GlEs, 2, 0)), Some(&set(4, 0))), Ok(4));
    assert_eq!(resolve_for_target(&context(Version(Api::Gl, 2, 1)), Some(&set(0, 1))), Ok(0));
}

#[test]
fn several_color_attachments_need_embedded_3_0() {
    assert_eq!(
        resolve_for_target(&context(Version(Api::GlEs, 2, 0)), Some(&set(7, 2))),
        Err(too_many_colors())
    );
    assert_eq!(
        resolve_for_target(&context(Version(Api::GlEs, 2, 255)), Some(&set(7, 8))),
        Err(too_many_colors())
    );
    assert_eq!(resolve_for_target(&context(Version(Api::GlEs, 3, 0)), Some(&set(7, 2))), Ok(7));
    assert_eq!(resolve_for_target(&context(Version(Api::GlEs, 3, 2)), Some(&set(7, 4))), Ok(7));
    assert_eq!(resolve_for_target(&context(Version(Api::Gl, 2, 1)), Some(&set(7, 2))), Ok(7));
    assert_eq!(resolve_for_target(&context(Version(Api::Gl, 4, 6)), Some(&set(7, 8))), Ok(7));
}

#[test]
fn validate_names_the_second_color_attachment() {
    assert_eq!(set(7, 3).validate(Version(Api::GlEs, 2, 0)), Err(too_many_colors()));
    assert_eq!(set(7, 1).validate(Version(Api::GlEs, 2, 0)), Ok(()));
    assert_eq!(set(7, 3).validate(Version(Api::GlEs, 3, 0)), Ok(()));
}

#[test]
fn resolving_twice_gives_the_same_answer() {
    let context = context(Version(Api::GlEs, 2, 0));
    let legal = set(7, 1);
    let illegal = set(8, 2);
    let first = resolve_for_target(&context, Some(&legal));
    assert_eq!(resolve_for_target(&context, Some(&legal)), first);
    let first = resolve_for_target(&context, Some(&illegal));
    assert_eq!(resolve_for_target(&context, Some(&illegal)), first);
    assert_eq!(context.state(), GlState::new(0, 0, false));
}
