//! What the pipelines look like from outside: the slots that their shaders
//! declare, and the layout of their vertices. The bind groups that the
//! resource manager plans are held against these.

use vstd::prelude::*;
use crate::gpu::BindingInfo;
use crate::gpu::ImageView;
use crate::gpu::Sampler;
use crate::gpu::ShaderResource;
use crate::pool::Handle;
use crate::resource_manager::font_bindings_spec;
use crate::resource_manager::sprite_bindings_spec;

verus! {

#[derive(Clone, Copy, Debug, PartialEq, Eq, Structural)]
pub enum ShaderType {
    Vertex,
    Fragment,
    Compute,
}

/// What a shader expects in a slot.
#[derive(Clone, Copy, Debug, PartialEq, Eq, Structural)]
pub enum BindGroupVariableType {
    DynamicUniform,
    SampledImage,
    Storage,
}

#[derive(Clone, Copy, Debug, PartialEq, Eq, Structural)]
pub struct BindGroupVariable {
    pub var_type: BindGroupVariableType,
    pub binding: u32,
}

/// The slots that the shader of one stage declares.
pub struct ShaderInfo {
    pub shader_type: ShaderType,
    pub variables: Vec<BindGroupVariable>,
}

pub struct BindGroupLayoutInfo {
    pub shaders: Vec<ShaderInfo>,
}

#[derive(Clone, Copy, Debug, PartialEq, Eq, Structural)]
pub enum ShaderPrimitiveType {
    Vec2,
}

/// One attribute of a vertex: what it is, and where it begins in the vertex.
#[derive(Clone, Copy, Debug, PartialEq, Eq, Structural)]
pub struct VertexEntryInfo {
    pub format: ShaderPrimitiveType,
    pub location: u32,
    pub offset: u32,
}

#[derive(Clone, Copy, Debug, PartialEq, Eq, Structural)]
pub enum VertexRate {
    Vertex,
}

pub struct VertexDescriptionInfo {
    pub entries: Vec<VertexEntryInfo>,
    pub stride: u32,
    pub rate: VertexRate,
}

#[derive(Clone, Copy, Debug, PartialEq, Eq, Structural)]
pub enum Topology {
    TriangleList,
}

#[derive(Clone, Copy, Debug, PartialEq, Eq, Structural)]
pub enum CullMode {
    Off,
    Back,
}

#[derive(Clone, Copy, Debug, PartialEq, Eq, Structural)]
pub enum VertexOrdering {
    Clockwise,
    CounterClockwise,
}

#[derive(Clone, Copy, Debug, PartialEq, Eq, Structural)]
pub struct GraphicsPipelineDetails {
    pub topology: Topology,
    pub culling: CullMode,
    pub front_face: VertexOrdering,
    pub depth_test: bool,
}

/// A graphics pipeline but for its shaders. Without details the backend
/// takes its own.
pub struct GraphicsPipelineLayoutInfo {
    pub vertex_info: VertexDescriptionInfo,
    pub bg_layout: BindGroupLayoutInfo,
    pub details: Option<GraphicsPipelineDetails>,
}

/// A compute pipeline but for its shader.
pub struct ComputePipelineLayoutInfo {
    pub bg_layout: BindGroupLayoutInfo,
}

/// How many bytes an attribute takes.
pub open spec fn size_of_primitive(format: ShaderPrimitiveType) -> nat {
    match format {
        ShaderPrimitiveType::Vec2 => 8,
    }
}

/// The vertex of a quad: a position, then texture coordinates, two numbers
/// each.
pub open spec fn quad_vertex_entries() -> Seq<VertexEntryInfo> {
    seq![
        VertexEntryInfo { format: ShaderPrimitiveType::Vec2, location: 0, offset: 0 },
        VertexEntryInfo { format: ShaderPrimitiveType::Vec2, location: 1, offset: 8 },
    ]
}

/// The size of the vertex of a quad.
pub const QUAD_VERTEX_STRIDE: u32 = 16;

/// The slots of the shaders that draw sprites: the transform and the camera
/// for the vertices, the image for the fragments.
pub open spec fn sprite_variables() -> Seq<BindGroupVariable> {
    seq![
        BindGroupVariable { var_type: BindGroupVariableType::DynamicUniform, binding: 0 },
        BindGroupVariable { var_type: BindGroupVariableType::DynamicUniform, binding: 1 },
        BindGroupVariable { var_type: BindGroupVariableType::SampledImage, binding: 2 },
    ]
}

/// The slots of the vertex shader that draws sprites: the transform and the
/// camera.
pub open spec fn sprite_vertex_variables() -> Seq<BindGroupVariable> {
    seq![
        BindGroupVariable { var_type: BindGroupVariableType::DynamicUniform, binding: 0 },
        BindGroupVariable { var_type: BindGroupVariableType::DynamicUniform, binding: 1 },
    ]
}

/// The slot of the fragment shader that draws sprites: the image.
pub open spec fn sprite_fragment_variables() -> Seq<BindGroupVariable> {
    seq![BindGroupVariable { var_type: BindGroupVariableType::SampledImage, binding: 2 }]
}

/// The layout has two stages, the vertex stage with the slots `vertex`,
/// then the fragment stage with the slots `fragment`.
pub open spec fn stages_are(
    layout: BindGroupLayoutInfo,
    vertex: Seq<BindGroupVariable>,
    fragment: Seq<BindGroupVariable>,
) -> bool {
    &&& layout.shaders.len() == 2
    &&& layout.shaders[0].shader_type == ShaderType::Vertex
    &&& layout.shaders[0].variables@ == vertex
    &&& layout.shaders[1].shader_type == ShaderType::Fragment
    &&& layout.shaders[1].variables@ == fragment
}

/// The slots of the shaders that draw text: the color and the atlas, both
/// for the fragments.
pub open spec fn text_variables() -> Seq<BindGroupVariable> {
    seq![
        BindGroupVariable { var_type: BindGroupVariableType::DynamicUniform, binding: 1 },
        BindGroupVariable { var_type: BindGroupVariableType::SampledImage, binding: 2 },
    ]
}

/// The slots of the shader that moves the particles: the particles, and
/// what the frame tells the shader.
pub open spec fn particle_compute_variables() -> Seq<BindGroupVariable> {
    seq![
        BindGroupVariable { var_type: BindGroupVariableType::Storage, binding: 0 },
        BindGroupVariable { var_type: BindGroupVariableType::DynamicUniform, binding: 1 },
    ]
}

/// All slots of a layout, stage after stage.
pub open spec fn variables_of(shaders: Seq<ShaderInfo>) -> Seq<BindGroupVariable>
    decreases shaders.len(),
{
    if shaders.len() == 0 {
        Seq::empty()
    } else {
        variables_of(shaders.drop_last()) + shaders.last().variables@
    }
}

/// Whether a resource is what a slot of the given type expects.
pub open spec fn fills(resource: ShaderResource, var_type: BindGroupVariableType) -> bool {
    match resource {
        ShaderResource::Dynamic => var_type == BindGroupVariableType::DynamicUniform,
        ShaderResource::StorageBuffer(_) => var_type == BindGroupVariableType::Storage,
        ShaderResource::SampledImage(_, _) => var_type == BindGroupVariableType::SampledImage,
    }
}

/// A bind group fits a layout when it binds each slot of the layout, in the
/// layout's order, to a resource of the kind the slot expects, and binds
/// nothing else.
pub open spec fn fits(bindings: Seq<BindingInfo>, variables: Seq<BindGroupVariable>) -> bool {
    &&& bindings.len() == variables.len()
    &&& forall|i: int|
        0 <= i < bindings.len() ==> (#[trigger] bindings[i]).binding == variables[i].binding
            && fills(bindings[i].resource, variables[i].var_type)
}

/// The attributes of a vertex lie inside the vertex and share no byte.
pub open spec fn vertex_layout_ok(entries: Seq<VertexEntryInfo>, stride: nat) -> bool {
    &&& forall|i: int|
        0 <= i < entries.len() ==> (#[trigger] entries[i]).offset + size_of_primitive(
            entries[i].format,
        ) <= stride
    &&& forall|i: int, j: int|
        0 <= i < j < entries.len() ==> (#[trigger] entries[i]).offset + size_of_primitive(
            entries[i].format,
        ) <= (#[trigger] entries[j]).offset
}

fn quad_vertex_info() -> (info: VertexDescriptionInfo)
    ensures
        info.entries@ == quad_vertex_entries(),
        info.stride == QUAD_VERTEX_STRIDE,
        info.rate == VertexRate::Vertex,
        vertex_layout_ok(info.entries@, info.stride as nat),
{
    let mut entries: Vec<VertexEntryInfo> = Vec::new();
    entries.push(VertexEntryInfo { format: ShaderPrimitiveType::Vec2, location: 0, offset: 0 });
    entries.push(VertexEntryInfo { format: ShaderPrimitiveType::Vec2, location: 1, offset: 8 });
    assert(entries@ =~= quad_vertex_entries());
    VertexDescriptionInfo { entries, stride: QUAD_VERTEX_STRIDE, rate: VertexRate::Vertex }
}

fn uniform(binding: u32) -> (variable: BindGroupVariable)
    ensures
        variable == (BindGroupVariable {
            var_type: BindGroupVariableType::DynamicUniform,
            binding,
        }),
{
    BindGroupVariable { var_type: BindGroupVariableType::DynamicUniform, binding }
}

fn sampled_image(binding: u32) -> (variable: BindGroupVariable)
    ensures
        variable == (BindGroupVariable { var_type: BindGroupVariableType::SampledImage, binding }),
{
    BindGroupVariable { var_type: BindGroupVariableType::SampledImage, binding }
}

/// The layout of a vertex shader with the slots `vertex` and a fragment
/// shader with the slots `fragment`.
fn two_stage_layout(vertex: Vec<BindGroupVariable>, fragment: Vec<BindGroupVariable>) -> (layout:
    BindGroupLayoutInfo)
    ensures
        layout.shaders.len() == 2,
        layout.shaders[0].shader_type == ShaderType::Vertex,
        layout.shaders[0].variables == vertex,
        layout.shaders[1].shader_type == ShaderType::Fragment,
        layout.shaders[1].variables == fragment,
        variables_of(layout.shaders@) == vertex@ + fragment@,
{
    let mut shaders: Vec<ShaderInfo> = Vec::new();
    shaders.push(ShaderInfo { shader_type: ShaderType::Vertex, variables: vertex });
    shaders.push(ShaderInfo { shader_type: ShaderType::Fragment, variables: fragment });
    proof {
        let all = shaders@;
        assert(all.drop_last().drop_last() =~= Seq::<ShaderInfo>::empty());
        assert(variables_of(all.drop_last()) =~= vertex@) by {
            reveal_with_fuel(variables_of, 2);
        }
        assert(variables_of(all) =~= vertex@ + fragment@);
    }
    BindGroupLayoutInfo { shaders }
}

/// Triangles, drawn from both sides, without a depth test.
pub open spec fn sprite_details() -> GraphicsPipelineDetails {
    GraphicsPipelineDetails {
        topology: Topology::TriangleList,
        culling: CullMode::Off,
        front_face: VertexOrdering::CounterClockwise,
        depth_test: false,
    }
}

/// The pipeline that draws sprites and the sprites of sheets.
pub fn sprite_pipeline_layout() -> (layout: GraphicsPipelineLayoutInfo)
    ensures
        stages_are(layout.bg_layout, sprite_vertex_variables(), sprite_fragment_variables()),
        variables_of(layout.bg_layout.shaders@) == sprite_variables(),
        layout.vertex_info.entries@ == quad_vertex_entries(),
        layout.vertex_info.stride == QUAD_VERTEX_STRIDE,
        vertex_layout_ok(layout.vertex_info.entries@, layout.vertex_info.stride as nat),
        layout.details == Some(sprite_details()),
{
    let mut vertex: Vec<BindGroupVariable> = Vec::new();
    vertex.push(uniform(0));
    vertex.push(uniform(1));
    let mut fragment: Vec<BindGroupVariable> = Vec::new();
    fragment.push(sampled_image(2));
    assert(vertex@ =~= sprite_vertex_variables());
    assert(fragment@ =~= sprite_fragment_variables());
    let bg_layout = two_stage_layout(vertex, fragment);
    assert(variables_of(bg_layout.shaders@) =~= sprite_variables());
    GraphicsPipelineLayoutInfo {
        vertex_info: quad_vertex_info(),
        bg_layout,
        details: Some(
            GraphicsPipelineDetails {
                topology: Topology::TriangleList,
                culling: CullMode::Off,
                front_face: VertexOrdering::CounterClockwise,
                depth_test: false,
            },
        ),
    }
}

/// The pipeline that draws text.
pub fn text_pipeline_layout() -> (layout: GraphicsPipelineLayoutInfo)
    ensures
        stages_are(layout.bg_layout, Seq::empty(), text_variables()),
        variables_of(layout.bg_layout.shaders@) == text_variables(),
        layout.vertex_info.entries@ == quad_vertex_entries(),
        layout.vertex_info.stride == QUAD_VERTEX_STRIDE,
        vertex_layout_ok(layout.vertex_info.entries@, layout.vertex_info.stride as nat),
        layout.details is None,
{
    let vertex: Vec<BindGroupVariable> = Vec::new();
    let mut fragment: Vec<BindGroupVariable> = Vec::new();
    fragment.push(uniform(1));
    fragment.push(sampled_image(2));
    assert(vertex@ =~= Seq::<BindGroupVariable>::empty());
    assert(fragment@ =~= text_variables());
    let bg_layout = two_stage_layout(vertex, fragment);
    assert(variables_of(bg_layout.shaders@) =~= text_variables());
    GraphicsPipelineLayoutInfo {
        vertex_info: quad_vertex_info(),
        bg_layout,
        details: None,
    }
}

/// The pipeline that draws the particles: the slots and the details of the
/// pipeline for sprites.
pub fn particle_pipeline_layout() -> (layout: GraphicsPipelineLayoutInfo)
    ensures
        stages_are(layout.bg_layout, sprite_vertex_variables(), sprite_fragment_variables()),
        variables_of(layout.bg_layout.shaders@) == sprite_variables(),
        layout.vertex_info.entries@ == quad_vertex_entries(),
        layout.vertex_info.stride == QUAD_VERTEX_STRIDE,
        vertex_layout_ok(layout.vertex_info.entries@, layout.vertex_info.stride as nat),
        layout.details == Some(sprite_details()),
{
    sprite_pipeline_layout()
}

/// The pipeline that moves the particles.
pub fn particle_compute_layout() -> (layout: ComputePipelineLayoutInfo)
    ensures
        layout.bg_layout.shaders.len() == 1,
        layout.bg_layout.shaders[0].shader_type == ShaderType::Compute,
        layout.bg_layout.shaders[0].variables@ == particle_compute_variables(),
{
    let mut variables: Vec<BindGroupVariable> = Vec::new();
    variables.push(BindGroupVariable { var_type: BindGroupVariableType::Storage, binding: 0 });
    variables.push(uniform(1));
    assert(variables@ =~= particle_compute_variables());
    let mut shaders: Vec<ShaderInfo> = Vec::new();
    shaders.push(ShaderInfo { shader_type: ShaderType::Compute, variables });
    ComputePipelineLayoutInfo { bg_layout: BindGroupLayoutInfo { shaders } }
}

/// The bind group that the resource manager plans for a sprite or a sheet
/// fits the pipeline that draws sprites, and the one it plans for a font
/// fits the pipeline that draws text.
pub proof fn lemma_bind_groups_fit(view: Handle<ImageView>, sampler: Handle<Sampler>)
    ensures
        fits(sprite_bindings_spec(view, sampler), sprite_variables()),
        fits(font_bindings_spec(view, sampler), text_variables()),
{
}

} // verus!
