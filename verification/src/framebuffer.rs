//! Description of a framebuffer and of what is attached to it.
//!
//! A framebuffer is an off-screen render target assembled by attaching
//! renderbuffers and textures to named attachment points.  The description
//! records each attachment exactly as the driver-facing layer must replay
//! it: the attachment point, the kind of target, and the target's id.

use vstd::prelude::*;

use crate::glenum;
use crate::textures::{RenderBuffer, Texture2D};
use crate::types::{HasID, Texture};

verus! {

/// What an attachment points at: a renderbuffer, a whole texture, or one
/// 2D target of a texture.
#[derive(Clone, Copy, Debug, PartialEq, Eq, Structural)]
pub enum AttachTarget {
    /// A renderbuffer.
    Renderbuffer,
    /// A texture attached whole.
    Texture,
    /// A 2D texture attached through the given texture target.
    Texture2D(u32),
}

/// One attachment of the framebuffer: where, what kind of target, and
/// which object.
#[derive(Clone, Copy, Debug, PartialEq, Eq, Structural)]
pub struct Attachment {
    /// The attachment point.
    pub point: u32,
    /// The kind of target attached there.
    pub target: AttachTarget,
    /// The id of the attached object.
    pub target_id: u32,
}

/// OpenGL framebuffer.
#[derive(Clone, Debug)]
pub struct FrameBuffer {
    /// Unique id the driver assigned the object.
    pub id: u32,
    /// The attachments made so far, in order.
    pub attachments: Vec<Attachment>,
}

impl HasID for FrameBuffer {
    open spec fn spec_id(&self) -> u32 {
        self.id
    }

    fn get_id(&self) -> (r: u32)
        ensures
            r == self.spec_id(),
    {
        self.id
    }
}

impl FrameBuffer {
    /// Describe a new framebuffer with no attachments from the id the
    /// driver assigned it.
    pub fn new(id: u32) -> (f: Self)
        ensures
            f.spec_id() == id,
            f.attachments@ == Seq::<Attachment>::empty(),
    {
        FrameBuffer { id, attachments: Vec::new() }
    }

    /// Attach a renderbuffer without returning.
    pub fn inplace_attach_renderbuffer(&mut self, attachment: u32, target: &RenderBuffer)
        ensures
            final(self).id == old(self).id,
            final(self).attachments@ == old(self).attachments@.push(
                Attachment {
                    point: attachment,
                    target: AttachTarget::Renderbuffer,
                    target_id: target.spec_id(),
                },
            ),
    {
        let target_id = target.get_id();
        self.attachments.push(
            Attachment { point: attachment, target: AttachTarget::Renderbuffer, target_id },
        );
    }

    /// Attach a texture without returning.
    pub fn inplace_attach_texture<T: Texture>(&mut self, attachment: u32, target: &T)
        ensures
            final(self).id == old(self).id,
            final(self).attachments@ == old(self).attachments@.push(
                Attachment {
                    point: attachment,
                    target: AttachTarget::Texture,
                    target_id: target.spec_id(),
                },
            ),
    {
        let target_id = target.get_id();
        self.attachments.push(
            Attachment { point: attachment, target: AttachTarget::Texture, target_id },
        );
    }

    /// Attach a depth texture without returning.
    pub fn inplace_attach_depth<T: Texture>(&mut self, target: &T)
        ensures
            final(self).id == old(self).id,
            final(self).attachments@ == old(self).attachments@.push(
                Attachment {
                    point: glenum::DEPTH_ATTACHMENT,
                    target: AttachTarget::Texture,
                    target_id: target.spec_id(),
                },
            ),
    {
        self.inplace_attach_texture(glenum::DEPTH_ATTACHMENT, target);
    }

    /// Attach a depth and stencil texture without returning.
    pub fn inplace_attach_depth_stencil<T: Texture>(&mut self, target: &T)
        ensures
            final(self).id == old(self).id,
            final(self).attachments@ == old(self).attachments@.push(
                Attachment {
                    point: glenum::DEPTH_STENCIL_ATTACHMENT,
                    target: AttachTarget::Texture,
                    target_id: target.spec_id(),
                },
            ),
    {
        self.inplace_attach_texture(glenum::DEPTH_STENCIL_ATTACHMENT, target);
    }

    /// Attach an arbitrary 2D texture without returning.
    pub fn inplace_attach_raw_texture2d(
        &mut self,
        attachment: u32,
        target_type: u32,
        target: &Texture2D,
    )
        ensures
            final(self).id == old(self).id,
            final(self).attachments@ == old(self).attachments@.push(
                Attachment {
                    point: attachment,
                    target: AttachTarget::Texture2D(target_type),
                    target_id: target.spec_id(),
                },
            ),
    {
        let target_id = target.get_id();
        self.attachments.push(
            Attachment { point: attachment, target: AttachTarget::Texture2D(target_type), target_id },
        );
    }

    /// Attach a 2D texture to the colour attachment with the given number,
    /// without returning.
    pub fn inplace_attach_texture2d(&mut self, attachment_num: u32, target: &Texture2D)
        requires
            glenum::COLOR_ATTACHMENT0 + attachment_num <= u32::MAX,
        ensures
            final(self).id == old(self).id,
            final(self).attachments@ == old(self).attachments@.push(
                Attachment {
                    point: (glenum::COLOR_ATTACHMENT0 + attachment_num) as u32,
                    target: AttachTarget::Texture2D(glenum::TEXTURE_2D),
                    target_id: target.spec_id(),
                },
            ),
    {
        self.inplace_attach_raw_texture2d(
            glenum::COLOR_ATTACHMENT0 + attachment_num,
            glenum::TEXTURE_2D,
            target,
        );
    }

    /// Attach a multisampled 2D texture to the colour attachment with the
    /// given number, without returning.
    pub fn inplace_attach_multisampled_texture2d(&mut self, attachment_num: u32, target: &Texture2D)
        requires
            glenum::COLOR_ATTACHMENT0 + attachment_num <= u32::MAX,
        ensures
            final(self).id == old(self).id,
            final(self).attachments@ == old(self).attachments@.push(
                Attachment {
                    point: (glenum::COLOR_ATTACHMENT0 + attachment_num) as u32,
                    target: AttachTarget::Texture2D(glenum::TEXTURE_2D_MULTISAMPLE),
                    target_id: target.spec_id(),
                },
            ),
    {
        self.inplace_attach_raw_texture2d(
            glenum::COLOR_ATTACHMENT0 + attachment_num,
            glenum::TEXTURE_2D_MULTISAMPLE,
            target,
        );
    }

    /// Attach a renderbuffer, returning `self` afterwards.
    pub fn attach_renderbuffer(self, attachment: u32, target: &RenderBuffer) -> (r: Self)
        ensures
            r.id == self.id,
            r.attachments@ == self.attachments@.push(
                Attachment {
                    point: attachment,
                    target: AttachTarget::Renderbuffer,
                    target_id: target.spec_id(),
                },
            ),
    {
        let mut s = self;
        s.inplace_attach_renderbuffer(attachment, target);
        s
    }

    /// Attach a texture, returning `self` afterwards.
    pub fn attach_texture<T: Texture>(self, attachment: u32, target: &T) -> (r: Self)
        ensures
            r.id == self.id,
            r.attachments@ == self.attachments@.push(
                Attachment {
                    point: attachment,
                    target: AttachTarget::Texture,
                    target_id: target.spec_id(),
                },
            ),
    {
        let mut s = self;
        s.inplace_attach_texture(attachment, target);
        s
    }

    /// Attach a depth texture, returning `self` afterwards.
    pub fn attach_depth<T: Texture>(self, target: &T) -> (r: Self)
        ensures
            r.id == self.id,
            r.attachments@ == self.attachments@.push(
                Attachment {
                    point: glenum::DEPTH_ATTACHMENT,
                    target: AttachTarget::Texture,
                    target_id: target.spec_id(),
                },
            ),
    {
        let mut s = self;
        s.inplace_attach_depth(target);
        s
    }

    /// Attach a depth and stencil texture, returning `self` afterwards.
    pub fn attach_depth_stencil<T: Texture>(self, target: &T) -> (r: Self)
        ensures
            r.id == self.id,
            r.attachments@ == self.attachments@.push(
                Attachment {
                    point: glenum::DEPTH_STENCIL_ATTACHMENT,
                    target: AttachTarget::Texture,
                    target_id: target.spec_id(),
                },
            ),
    {
        let mut s = self;
        s.inplace_attach_depth_stencil(target);
        s
    }

    /// Attach an arbitrary 2D texture, returning `self` afterwards.
    pub fn attach_raw_texture2d(self, attachment: u32, target_type: u32, target: &Texture2D) -> (r:
        Self)
        ensures
            r.id == self.id,
            r.attachments@ == self.attachments@.push(
                Attachment {
                    point: attachment,
                    target: AttachTarget::Texture2D(target_type),
                    target_id: target.spec_id(),
                },
            ),
    {
        let mut s = self;
        s.inplace_attach_raw_texture2d(attachment, target_type, target);
        s
    }

    /// Attach a 2D texture to the colour attachment with the given number,
    /// returning `self` afterwards.
    pub fn attach_texture2d(self, attachment_num: u32, target: &Texture2D) -> (r: Self)
        requires
            glenum::COLOR_ATTACHMENT0 + attachment_num <= u32::MAX,
        ensures
            r.id == self.id,
            r.attachments@ == self.attachments@.push(
                Attachment {
                    point: (glenum::COLOR_ATTACHMENT0 + attachment_num) as u32,
                    target: AttachTarget::Texture2D(glenum::TEXTURE_2D),
                    target_id: target.spec_id(),
                },
            ),
    {
        let mut s = self;
        s.inplace_attach_texture2d(attachment_num, target);
        s
    }

    /// Attach a multisampled 2D texture to the colour attachment with the
    /// given number, returning `self` afterwards.
    pub fn attach_multisampled_texture2d(self, attachment_num: u32, target: &Texture2D) -> (r: Self)
        requires
            glenum::COLOR_ATTACHMENT0 + attachment_num <= u32::MAX,
        ensures
            r.id == self.id,
            r.attachments@ == self.attachments@.push(
                Attachment {
                    point: (glenum::COLOR_ATTACHMENT0 + attachment_num) as u32,
                    target: AttachTarget::Texture2D(glenum::TEXTURE_2D_MULTISAMPLE),
                    target_id: target.spec_id(),
                },
            ),
    {
        let mut s = self;
        s.inplace_attach_multisampled_texture2d(attachment_num, target);
        s
    }
}

} // verus!
