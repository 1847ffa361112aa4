//! The canvas: the render target of a frame, with its viewport and the
//! images that are drawn to.

use unzip3::Unzip3;
use vstd::prelude::*;
use crate::geometry::Scalar;
use crate::gpu::Attachment;
use crate::gpu::Format;
use crate::gpu::Image;
use crate::gpu::ImageView;
use crate::gpu::LoadOp;
use crate::gpu::RenderPass;
use crate::gpu::SampleCount;
use crate::gpu::StoreOp;
use crate::gpu::Viewport;
use crate::pool::Handle;

verus! {

pub enum StaticCanvasProfile {
    /// One color attachment and one for depth.
    SIMPLE,
}

/// An image that a canvas needs: its name and the layout of its texels.
pub struct CanvasImage {
    pub name: String,
    pub format: Format,
}

/// An attachment as a canvas's configuration describes it.
pub struct CanvasAttachment {
    pub name: String,
    pub format: Format,
    pub samples: SampleCount,
    pub load_op: LoadOp,
    pub store_op: StoreOp,
    pub stencil_load_op: LoadOp,
    pub stencil_store_op: StoreOp,
    pub clear_color: [Scalar; 4],
}

/// A canvas's configuration.
pub struct CanvasJSONInfo {
    pub name: String,
    pub viewport: Viewport,
    pub color_attachments: Vec<CanvasAttachment>,
    pub depth_stencil: Option<CanvasAttachment>,
}

/// What was made for one attachment: the image, its view, and the
/// attachment of the render pass.
#[derive(Clone, Copy)]
pub struct MadeAttachment {
    pub image: Handle<Image>,
    pub view: Handle<ImageView>,
    pub attachment: Attachment,
}

/// `Unzip3::unzip3` on the triples of the attachments, taken in their
/// order: the images, the views and the attachments come out as three
/// vectors, each in the order of `made`.
#[verifier::external_body]
fn unzip_attachments(made: &Vec<MadeAttachment>) -> (parts: (
    Vec<Handle<Image>>,
    Vec<Handle<ImageView>>,
    Vec<Attachment>,
))
    ensures
        parts.0@ == made@.map_values(|m: MadeAttachment| m.image),
        parts.1@ == made@.map_values(|m: MadeAttachment| m.view),
        parts.2@ == made@.map_values(|m: MadeAttachment| m.attachment),
{
    made.iter().map(|m| (m.image, m.view, m.attachment)).unzip3()
}

pub struct Canvas {
    name: String,
    viewport: Viewport,
    color_images: Vec<Handle<Image>>,
    color_views: Vec<Handle<ImageView>>,
    depth: Option<Handle<Image>>,
    render_pass: Handle<RenderPass>,
}

impl Canvas {
    pub closed spec fn name_spec(&self) -> Seq<char> {
        self.name@
    }

    pub closed spec fn viewport_spec(&self) -> Viewport {
        self.viewport
    }

    /// The views of the color attachments, in their order.
    pub closed spec fn color_views(&self) -> Seq<Handle<ImageView>> {
        self.color_views@
    }

    pub closed spec fn color_images(&self) -> Seq<Handle<Image>> {
        self.color_images@
    }

    pub closed spec fn depth(&self) -> Option<Handle<Image>> {
        self.depth
    }

    pub closed spec fn render_pass_spec(&self) -> Handle<RenderPass> {
        self.render_pass
    }

    /// A canvas over images, views and a render pass that were made for it.
    pub fn new(
        name: String,
        viewport: Viewport,
        color_images: Vec<Handle<Image>>,
        color_views: Vec<Handle<ImageView>>,
        depth: Option<Handle<Image>>,
        render_pass: Handle<RenderPass>,
    ) -> (canvas: Canvas)
        ensures
            canvas.name_spec() == name@,
            canvas.viewport_spec() == viewport,
            canvas.color_images() == color_images@,
            canvas.color_views() == color_views@,
            canvas.depth() == depth,
            canvas.render_pass_spec() == render_pass,
    {
        Canvas { name, viewport, color_images, color_views, depth, render_pass }
    }

    /// The attachment of a render pass for `config`, over the view that was
    /// made for it.
    pub fn attachment(config: &CanvasAttachment, view: Handle<ImageView>) -> (attachment: Attachment)
        ensures
            attachment.view == view,
            attachment.samples == config.samples,
            attachment.load_op == config.load_op,
            attachment.store_op == config.store_op,
            attachment.stencil_load_op == config.stencil_load_op,
            attachment.stencil_store_op == config.stencil_store_op,
            attachment.clear_color == config.clear_color,
    {
        Attachment {
            view,
            samples: config.samples,
            load_op: config.load_op,
            store_op: config.store_op,
            stencil_load_op: config.stencil_load_op,
            stencil_store_op: config.stencil_store_op,
            clear_color: config.clear_color,
        }
    }

    /// The images, the views and the attachments of the color attachments
    /// that were made, each in their order.
    pub fn split(made: &Vec<MadeAttachment>) -> (parts: (
        Vec<Handle<Image>>,
        Vec<Handle<ImageView>>,
        Vec<Attachment>,
    ))
        ensures
            parts.0.len() == made.len(),
            parts.1.len() == made.len(),
            parts.2.len() == made.len(),
            forall|i: int|
                0 <= i < made.len() ==> {
                    &&& (#[trigger] parts.0[i]) == made[i].image
                    &&& parts.1[i] == made[i].view
                    &&& parts.2[i] == made[i].attachment
                },
    {
        unzip_attachments(made)
    }

    /// The images of a canvas of the given profile: the color attachments,
    /// then the one for depth.
    pub fn static_images(profile: StaticCanvasProfile) -> (images: (Vec<CanvasImage>, CanvasImage))
        ensures
            images.0.len() == 1,
            images.0[0].name@ == "color_attachment"@,
            images.0[0].format == Format::RGBA8,
            images.1.name@ == "Depth Image"@,
            images.1.format == Format::D24S8,
    {
        match profile {
            StaticCanvasProfile::SIMPLE => {
                let mut colors: Vec<CanvasImage> = Vec::new();
                colors.push(
                    CanvasImage {
                        name: "color_attachment".to_owned(),
                        format: Format::RGBA8,
                    },
                );
                (colors, CanvasImage { name: "Depth Image".to_owned(), format: Format::D24S8 })
            },
        }
    }

    /// The attachments of a canvas of the given profile over the views that
    /// were made for it: both are cleared when the pass begins and kept
    /// when it ends, the color attachment to opaque black, the depth
    /// attachment to 1.
    pub fn static_attachments(
        profile: StaticCanvasProfile,
        color: Handle<ImageView>,
        depth: Handle<ImageView>,
    ) -> (attachments: (Attachment, Attachment))
        ensures
            attachments.0.view == color,
            attachments.0.clear_color@ == seq![
                Scalar::zero_spec(),
                Scalar::zero_spec(),
                Scalar::zero_spec(),
                Scalar::one_spec(),
            ],
            attachments.1.view == depth,
            attachments.1.clear_color@ == seq![
                Scalar::one_spec(),
                Scalar::one_spec(),
                Scalar::one_spec(),
                Scalar::one_spec(),
            ],
            attachments.0.samples == SampleCount::S1 && attachments.1.samples == SampleCount::S1,
            attachments.0.load_op == LoadOp::Clear && attachments.1.load_op == LoadOp::Clear,
            attachments.0.store_op == StoreOp::Store && attachments.1.store_op == StoreOp::Store,
            attachments.0.stencil_load_op == LoadOp::DontCare && attachments.1.stencil_load_op
                == LoadOp::DontCare,
            attachments.0.stencil_store_op == StoreOp::DontCare && attachments.1.stencil_store_op
                == StoreOp::DontCare,
    {
        match profile {
            StaticCanvasProfile::SIMPLE => {
                let black: [Scalar; 4] = [
                    Scalar::zero(),
                    Scalar::zero(),
                    Scalar::zero(),
                    Scalar::one(),
                ];
                let far: [Scalar; 4] = [Scalar::one(), Scalar::one(), Scalar::one(), Scalar::one()];
                assert(black@ =~= seq![
                    Scalar::zero_spec(),
                    Scalar::zero_spec(),
                    Scalar::zero_spec(),
                    Scalar::one_spec(),
                ]);
                assert(far@ =~= seq![
                    Scalar::one_spec(),
                    Scalar::one_spec(),
                    Scalar::one_spec(),
                    Scalar::one_spec(),
                ]);
                (
                    Attachment {
                        view: color,
                        samples: SampleCount::S1,
                        load_op: LoadOp::Clear,
                        store_op: StoreOp::Store,
                        stencil_load_op: LoadOp::DontCare,
                        stencil_store_op: StoreOp::DontCare,
                        clear_color: black,
                    },
                    Attachment {
                        view: depth,
                        samples: SampleCount::S1,
                        load_op: LoadOp::Clear,
                        store_op: StoreOp::Store,
                        stencil_load_op: LoadOp::DontCare,
                        stencil_store_op: StoreOp::DontCare,
                        clear_color: far,
                    },
                )
            },
        }
    }

    pub fn viewport(&self) -> (viewport: Viewport)
        ensures
            viewport == self.viewport_spec(),
    {
        self.viewport
    }

    pub fn render_pass(&self) -> (pass: Handle<RenderPass>)
        ensures
            pass == self.render_pass_spec(),
    {
        self.render_pass
    }

    pub fn name(&self) -> (name: String)
        ensures
            name@ == self.name_spec(),
    {
        self.name.clone()
    }

    /// How many color attachments there are.
    pub fn color_attachment_count(&self) -> (count: usize)
        ensures
            count == self.color_views().len(),
    {
        self.color_views.len()
    }

    /// The view of color attachment `idx`.
    pub fn color_attachment(&self, idx: u32) -> (view: Handle<ImageView>)
        requires
            idx < self.color_views().len(),
        ensures
            view == self.color_views()[idx as int],
    {
        self.color_views[idx as usize]
    }
}

} // verus!
