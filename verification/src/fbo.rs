//! Render targets made of attachments, and their resolution to the one
//! framebuffer handle that the driver knows them by.

use vstd::prelude::*;
use crate::context::Context;
use crate::gl;
use crate::version::{Api, Version};

verus! {

/// A place of a framebuffer to which a surface can be attached.
#[derive(Clone, Copy, Debug, PartialEq, Eq, Structural)]
pub enum AttachmentPoint {
    /// The color attachment with the given index.
    Color(u32),
    /// The depth attachment.
    Depth,
    /// The stencil attachment.
    Stencil,
}

/// Why a set of attachments cannot be used on a context. Each variant is one
/// rule, and names the attachment that breaks it.
#[derive(Clone, Copy, Debug, PartialEq, Eq, Structural)]
pub enum ValidationError {
    /// The set has more than one color attachment, on a version that draws
    /// to a single one.
    MultipleColorAttachments {
        /// The first color attachment beyond the one that is allowed.
        attachment: AttachmentPoint,
    },
}

/// A combination of surfaces used as one render target, together with the
/// handle of the framebuffer object that holds them.
#[derive(Debug)]
pub struct AttachmentSet {
    /// Handle of the framebuffer object.
    pub framebuffer: u32,
    /// Handles of the color surfaces, by attachment index.
    pub color: Vec<u32>,
    /// Handle of the depth surface, if there is one.
    pub depth: Option<u32>,
    /// Handle of the stencil surface, if there is one.
    pub stencil: Option<u32>,
}

/// An attachment set as a mathematical value.
pub struct AttachmentSetView {
    /// Handle of the framebuffer object.
    pub framebuffer: u32,
    /// Handles of the color surfaces, by attachment index.
    pub color: Seq<u32>,
    /// Handle of the depth surface, if there is one.
    pub depth: Option<u32>,
    /// Handle of the stencil surface, if there is one.
    pub stencil: Option<u32>,
}

impl View for AttachmentSet {
    type V = AttachmentSetView;

    open spec fn view(&self) -> AttachmentSetView {
        AttachmentSetView {
            framebuffer: self.framebuffer,
            color: self.color@,
            depth: self.depth,
            stencil: self.stencil,
        }
    }
}

/// The first version that draws to several color attachments at once:
/// embedded 3.0, and with it every primary version.
pub open spec fn multiple_color_minimum() -> Version {
    Version(Api::GlEs, 3, 0)
}

impl AttachmentSetView {
    /// The rule that the set breaks on a context of the given version, if it
    /// breaks one.
    pub open spec fn violation(self, version: Version) -> Option<ValidationError> {
        if self.color.len() > 1 && !version.at_least(multiple_color_minimum()) {
            Some(
                ValidationError::MultipleColorAttachments { attachment: AttachmentPoint::Color(1) },
            )
        } else {
            None
        }
    }

    /// The set can be used on a context of the given version.
    pub open spec fn legal(self, version: Version) -> bool {
        self.violation(version) is None
    }
}

/// The handle that a render target resolves to on a context of the given
/// version: the default framebuffer for no attachments at all, the set's own
/// framebuffer for a legal set, and the broken rule for an illegal one.
pub open spec fn spec_resolve(version: Version, attachments: Option<AttachmentSetView>) -> Result<
    u32,
    ValidationError,
> {
    match attachments {
        None => Ok(gl::DEFAULT_FRAMEBUFFER),
        Some(set) => match set.violation(version) {
            Some(error) => Err(error),
            None => Ok(set.framebuffer),
        },
    }
}

/// The mathematical value of an optional attachment set.
pub open spec fn view_of(attachments: Option<&AttachmentSet>) -> Option<AttachmentSetView> {
    match attachments {
        None => None,
        Some(set) => Some(set@),
    }
}

impl AttachmentSet {
    /// Checks the set against the rules of the given version: `Ok` for a
    /// legal set, the broken rule for an illegal one.
    pub fn validate(&self, version: Version) -> (r: Result<(), ValidationError>)
        ensures
            r is Ok <==> self@.legal(version),
            r matches Err(error) ==> self@.violation(version) == Some(error),
    {
        if self.color.len() > 1 && !version.at_least(Version(Api::GlEs, 3, 0)) {
            Err(ValidationError::MultipleColorAttachments { attachment: AttachmentPoint::Color(1) })
        } else {
            Ok(())
        }
    }
}

/// Resolves a render target to the handle of its framebuffer. No attachments
/// stand for the default framebuffer. A set of attachments is checked against
/// the rules of the context's version first. Nothing is bound and nothing is
/// recorded, so resolving the same target again gives the same answer.
pub fn resolve_for_target(context: &Context, attachments: Option<&AttachmentSet>) -> (r: Result<
    u32,
    ValidationError,
>)
    ensures
        r == spec_resolve(context.version(), view_of(attachments)),
{
    match attachments {
        None => Ok(gl::DEFAULT_FRAMEBUFFER),
        Some(set) => match set.validate(context.version()) {
            Err(error) => Err(error),
            Ok(()) => Ok(set.framebuffer),
        },
    }
}

} // verus!
