//! Render-pass attachment bookkeeping.
//!
//! A render pass is described by its ordered attachment list (color
//! attachments and at most one depth-stencil attachment) and a single
//! subpass.  The derived per-subpass color-attachment index list is
//! load-bearing: framebuffer image-binding order must match it exactly, so
//! its contract pins the list down completely — every attachment index in
//! declaration order, gap-skipping the depth slot.

use vstd::prelude::*;
use crate::format::Format;
use crate::format::ImageLayout;
use crate::format::LoadOp;
use crate::format::StoreOp;
use crate::format::ClearValue;

verus! {

/// What role an attachment plays for the caller.
#[derive(Clone, Copy, Debug, PartialEq, Eq, Structural)]
pub enum AttachmentType {
    /// A color image presented through the swapchain.
    SwapchainColor,
    /// A depth image owned by the swapchain.
    SwapchainDepth,
    /// Any other image.
    General,
}

/// A full description of one attachment of a render pass.
#[derive(Clone, Copy, Debug, PartialEq, Eq, Structural)]
pub struct AttachmentDescription {
    /// The attachment's pixel format.
    pub format: Format,
    /// The sample count.
    pub samples: u32,
    /// How existing contents are treated when the pass begins.
    pub load: LoadOp,
    /// Whether contents are kept when the pass ends.
    pub store: StoreOp,
    /// How existing stencil contents are treated when the pass begins.
    pub stencil_load: LoadOp,
    /// Whether stencil contents are kept when the pass ends.
    pub stencil_store: StoreOp,
    /// The layout the image is in when the pass begins.
    pub initial_layout: ImageLayout,
    /// The layout the image is left in when the pass ends.
    pub final_layout: ImageLayout,
}

/// The description of the single subpass derived from an attachment list.
#[derive(Clone, Debug, PartialEq, Eq)]
pub struct PassDescription {
    /// The color attachments, as (attachment index, layout) pairs in
    /// declaration order, skipping the depth slot.
    pub color_attachments: Vec<(usize, ImageLayout)>,
    /// The depth-stencil attachment, if one was declared.
    pub depth_stencil: Option<(usize, ImageLayout)>,
    /// Input attachments; always empty here.
    pub input_attachments: Vec<(usize, ImageLayout)>,
    /// Resolve attachments; always empty here.
    pub resolve_attachments: Vec<(usize, ImageLayout)>,
    /// Preserved attachments; always empty here.
    pub preserve_attachments: Vec<usize>,
}

/// The declarative attachment list of a render pass with one subpass.
#[derive(Clone, Debug)]
pub struct GraphicalRenderPassDescription {
    /// The attachments, each with its role, in declaration order.
    pub attachments: Vec<(AttachmentType, AttachmentDescription)>,
    /// The index of the depth-stencil attachment, if one was declared.
    pub depth_attachment: Option<usize>,
}

impl GraphicalRenderPassDescription {
    /// Well-formedness: a declared depth attachment points at an existing
    /// slot that indeed holds a depth format.
    pub open spec fn wf(self) -> bool {
        match self.depth_attachment {
            Some(k) => k < self.attachments@.len() && self.attachments@[k as int].1.format.depth,
            None => true,
        }
    }

    /// Append an attachment; the depth index is left untouched.
    pub fn push_attachment(
        self,
        attachment_type: AttachmentType,
        desc: AttachmentDescription,
    ) -> (r: GraphicalRenderPassDescription)
        ensures
            r.attachments@ == self.attachments@.push((attachment_type, desc)),
            r.depth_attachment == self.depth_attachment,
            self.wf() ==> r.wf(),
    {
        let mut attachments = self.attachments;
        attachments.push((attachment_type, desc));
        GraphicalRenderPassDescription { attachments, depth_attachment: self.depth_attachment }
    }

    /// The number of declared attachments.
    pub fn attachment_count(&self) -> (r: usize)
        ensures
            r == self.attachments@.len(),
    {
        self.attachments.len()
    }

    /// Remove and return the last attachment; the depth index is left
    /// untouched.
    pub fn pop_attachment(self) -> (r: (
        GraphicalRenderPassDescription,
        (AttachmentType, AttachmentDescription),
    ))
        requires
            self.attachments@.len() > 0,
        ensures
            r.0.attachments@ == self.attachments@.drop_last(),
            r.0.depth_attachment == self.depth_attachment,
            r.1 == self.attachments@.last(),
    {
        let mut attachments = self.attachments;
        let popped = attachments.pop().unwrap();
        (
            GraphicalRenderPassDescription { attachments, depth_attachment: self.depth_attachment },
            popped,
        )
    }

    /// The number of declared attachments.
    pub fn num_attachments(&self) -> (r: usize)
        ensures
            r == self.attachments@.len(),
    {
        self.attachments.len()
    }

    /// The description of the attachment at `num`, in declaration order.
    pub fn attachment_desc(&self, num: usize) -> (r: Option<AttachmentDescription>)
        ensures
            num < self.attachments@.len() ==> r == Some(self.attachments@[num as int].1),
            num >= self.attachments@.len() ==> r is None,
    {
        if num < self.attachments.len() {
            Some(self.attachments[num].1)
        } else {
            None
        }
    }

    /// The number of subpasses; always one.
    pub fn num_subpasses(&self) -> (r: usize)
        ensures
            r == 1usize,
    {
        1
    }

    /// The number of subpass dependencies; always zero.
    pub fn num_dependencies(&self) -> (r: usize)
        ensures
            r == 0usize,
    {
        0
    }

    /// The derived description of subpass `num`.
    ///
    /// For the single subpass, the color-attachment list holds every
    /// attachment index except the depth index, in declaration order,
    /// gap-skipping the depth slot; the depth-stencil reference is present
    /// exactly when a depth attachment was declared.
    pub fn subpass_desc(&self, num: usize) -> (r: Option<PassDescription>)
        requires
            self.wf(),
        ensures
            num != 0 ==> r is None,
            num == 0 ==> (r matches Some(d) && {
                &&& d.input_attachments@.len() == 0
                &&& d.resolve_attachments@.len() == 0
                &&& d.preserve_attachments@.len() == 0
                &&& match self.depth_attachment {
                    Some(k) => {
                        &&& d.depth_stencil == Some(
                            (k, ImageLayout::DepthStencilAttachmentOptimal),
                        )
                        &&& d.color_attachments@.len() == self.attachments@.len() - 1
                        &&& forall|i: int|
                            0 <= i < k ==> #[trigger] d.color_attachments@[i] == (
                                i as usize,
                                ImageLayout::ColorAttachmentOptimal,
                            )
                        &&& forall|i: int|
                            k <= i < self.attachments@.len() - 1
                                ==> #[trigger] d.color_attachments@[i] == (
                                (i + 1) as usize,
                                ImageLayout::ColorAttachmentOptimal,
                            )
                    },
                    None => {
                        &&& d.depth_stencil is None
                        &&& d.color_attachments@.len() == self.attachments@.len()
                        &&& forall|i: int|
                            0 <= i < self.attachments@.len()
                                ==> #[trigger] d.color_attachments@[i] == (
                                i as usize,
                                ImageLayout::ColorAttachmentOptimal,
                            )
                    },
                }
            }),
    {
        if num != 0 {
            return None;
        }
        let count = self.attachments.len();
        let mut color_attachments: Vec<(usize, ImageLayout)> = Vec::new();
        let depth_stencil: Option<(usize, ImageLayout)>;
        match self.depth_attachment {
            Some(depth_index) => {
                let mut i: usize = 0;
                while i < depth_index
                    invariant
                        i <= depth_index,
                        color_attachments@.len() == i,
                        forall|j: int|
                            0 <= j < i ==> #[trigger] color_attachments@[j] == (
                                j as usize,
                                ImageLayout::ColorAttachmentOptimal,
                            ),
                    decreases depth_index - i,
                {
                    color_attachments.push((i, ImageLayout::ColorAttachmentOptimal));
                    i = i + 1;
                }
                let mut i: usize = depth_index + 1;
                while i < count
                    invariant
                        depth_index < i <= count || (i == depth_index + 1),
                        color_attachments@.len() == i - 1,
                        forall|j: int|
                            0 <= j < depth_index ==> #[trigger] color_attachments@[j] == (
                                j as usize,
                                ImageLayout::ColorAttachmentOptimal,
                            ),
                        forall|j: int|
                            depth_index <= j < i - 1 ==> #[trigger] color_attachments@[j] == (
                                (j + 1) as usize,
                                ImageLayout::ColorAttachmentOptimal,
                            ),
                    decreases count - i,
                {
                    color_attachments.push((i, ImageLayout::ColorAttachmentOptimal));
                    i = i + 1;
                }
                depth_stencil = Some((depth_index, ImageLayout::DepthStencilAttachmentOptimal));
            },
            None => {
                let mut i: usize = 0;
                while i < count
                    invariant
                        i <= count,
                        color_attachments@.len() == i,
                        forall|j: int|
                            0 <= j < i ==> #[trigger] color_attachments@[j] == (
                                j as usize,
                                ImageLayout::ColorAttachmentOptimal,
                            ),
                    decreases count - i,
                {
                    color_attachments.push((i, ImageLayout::ColorAttachmentOptimal));
                    i = i + 1;
                }
                depth_stencil = None;
            },
        }
        Some(
            PassDescription {
                color_attachments,
                depth_stencil,
                input_attachments: Vec::new(),
                resolve_attachments: Vec::new(),
                preserve_attachments: Vec::new(),
            },
        )
    }

    /// Clear values pass through unchanged, one per attachment.
    pub fn convert_clear_values(&self, values: Vec<ClearValue>) -> (r: Vec<ClearValue>)
        ensures
            r == values,
    {
        values
    }
}

} // verus!
