//! Names for what lives on the GPU. The library never touches such an object:
//! it holds the handle that the backend gave out and hands it back in the
//! plans it makes.

use vstd::prelude::*;
use crate::allocator::TransientAllocation;
use crate::geometry::Rect2D;
use crate::geometry::Scalar;
use crate::pool::Handle;

verus! {

#[derive(Debug, PartialEq, Eq)]
pub struct Buffer {}

#[derive(Debug, PartialEq, Eq)]
pub struct Image {}

#[derive(Debug, PartialEq, Eq)]
pub struct ImageView {}

#[derive(Debug, PartialEq, Eq)]
pub struct Sampler {}

#[derive(Debug, PartialEq, Eq)]
pub struct BindGroup {}

#[derive(Debug, PartialEq, Eq)]
pub struct BindGroupLayout {}

#[derive(Debug, PartialEq, Eq)]
pub struct GraphicsPipelineLayout {}

#[derive(Debug, PartialEq, Eq)]
pub struct GraphicsPipeline {}

#[derive(Debug, PartialEq, Eq)]
pub struct ComputePipelineLayout {}

#[derive(Debug, PartialEq, Eq)]
pub struct ComputePipeline {}

#[derive(Debug, PartialEq, Eq)]
pub struct RenderPass {}

#[derive(Debug, PartialEq, Eq)]
pub struct Semaphore {}

/// How the texels of an image are laid out.
#[allow(non_camel_case_types)]
#[derive(Clone, Copy, Debug, PartialEq, Eq, Structural)]
pub enum Format {
    RGBA8,
    R8_UINT,
    D24S8,
}

/// An image on the GPU together with its size.
pub struct SizedImage {
    pub handle: Handle<Image>,
    pub view: Handle<ImageView>,
    pub dim: [u32; 3],
    pub format: Format,
}

/// A rectangle whose sides are carried numbers.
#[derive(Clone, Copy, Debug, PartialEq, Eq, Structural)]
pub struct FRect2D {
    pub x: Scalar,
    pub y: Scalar,
    pub w: Scalar,
    pub h: Scalar,
}

/// The part of the target that is drawn to.
#[derive(Clone, Copy, Debug, PartialEq, Eq, Structural)]
pub struct Viewport {
    pub area: FRect2D,
    pub scissor: Rect2D,
    pub min_depth: Scalar,
    pub max_depth: Scalar,
}

#[derive(Clone, Copy, Debug, PartialEq, Eq, Structural)]
pub enum SampleCount {
    S1,
    S2,
}

/// What becomes of an attachment's content when a render pass begins.
#[derive(Clone, Copy, Debug, PartialEq, Eq, Structural)]
pub enum LoadOp {
    Load,
    Clear,
    DontCare,
}

/// What becomes of an attachment's content when a render pass ends.
#[derive(Clone, Copy, Debug, PartialEq, Eq, Structural)]
pub enum StoreOp {
    Store,
    DontCare,
}

/// An image of a render pass, and how the pass treats it.
#[derive(Clone, Copy, Debug, PartialEq, Eq)]
pub struct Attachment {
    pub view: Handle<ImageView>,
    pub samples: SampleCount,
    pub load_op: LoadOp,
    pub store_op: StoreOp,
    pub stencil_load_op: LoadOp,
    pub stencil_store_op: StoreOp,
    pub clear_color: [Scalar; 4],
}

/// A copy of `size` bytes from one buffer to another.
#[derive(Clone, Copy, Debug, PartialEq, Eq)]
pub struct BufferCopy {
    pub src: Handle<Buffer>,
    pub dst: Handle<Buffer>,
    pub src_offset: usize,
    pub dst_offset: usize,
    pub size: usize,
}

/// What a slot of a bind group is bound to.
#[derive(Clone, Copy, Debug, PartialEq, Eq)]
pub enum ShaderResource {
    /// A block of the staging buffer, chosen anew for every draw.
    Dynamic,
    StorageBuffer(Handle<Buffer>),
    SampledImage(Handle<ImageView>, Handle<Sampler>),
}

#[derive(Clone, Copy, Debug, PartialEq, Eq)]
pub struct BindingInfo {
    pub resource: ShaderResource,
    pub binding: u32,
}

/// An image to make on the GPU. Its texels are handed over beside it.
pub struct ImageInfo {
    pub debug_name: String,
    pub dim: [u32; 3],
    pub format: Format,
    pub mip_levels: u32,
}

/// A compute dispatch: the pipeline, the blocks and bind groups in the order
/// of their slots, and the number of work groups along each axis.
pub struct Dispatch {
    pub compute: Handle<ComputePipeline>,
    pub dynamic_buffers: [Option<TransientAllocation>; 4],
    pub bind_groups: [Option<Handle<BindGroup>>; 4],
    pub workgroup_size: [u32; 3],
}

/// An indexed draw from vertex and index buffers on the GPU.
pub struct DrawIndexed {
    pub vertices: Handle<Buffer>,
    pub indices: Handle<Buffer>,
    pub dynamic_buffers: [Option<TransientAllocation>; 4],
    pub bind_groups: [Option<Handle<BindGroup>>; 4],
    pub index_count: u32,
    pub instance_count: u32,
    pub first_instance: u32,
}

/// An indexed draw whose vertices lie in a block of the staging buffer.
pub struct DrawIndexedDynamic {
    pub vertices: TransientAllocation,
    pub indices: Handle<Buffer>,
    pub dynamic_buffers: [Option<TransientAllocation>; 4],
    pub bind_groups: [Option<Handle<BindGroup>>; 4],
    pub index_count: u32,
    pub instance_count: u32,
    pub first_instance: u32,
}

} // verus!
