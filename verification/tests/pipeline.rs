use shoyu::gpu::BindingInfo;
use shoyu::gpu::ShaderResource;
use shoyu::particle::particle_bindings;
use shoyu::pipeline::particle_compute_layout;
use shoyu::pipeline::particle_pipeline_layout;
use shoyu::pipeline::sprite_pipeline_layout;
use shoyu::pipeline::text_pipeline_layout;
use shoyu::pipeline::BindGroupVariable;
use shoyu::pipeline::BindGroupVariableType;
use shoyu::pipeline::CullMode;
use shoyu::pipeline::ShaderPrimitiveType;
use shoyu::pipeline::ShaderType;
use shoyu::pipeline::Topology;
use shoyu::pipeline::VertexEntryInfo;
use shoyu::pipeline::VertexOrdering;
use shoyu::pipeline::VertexRate;
use shoyu::pool::Handle;

fn uniform(binding: u32) -> BindGroupVariable {
    BindGroupVariable { var_type: BindGroupVariableType::DynamicUniform, binding }
}

fn image(binding: u32) -> BindGroupVariable {
    BindGroupVariable { var_type: BindGroupVariableType::SampledImage, binding }
}

#[test]
fn the_sprite_pipeline_takes_two_uniform_blocks_and_an_image() {
    let layout = sprite_pipeline_layout();
    assert_eq!(layout.bg_layout.shaders.len(), 2);
    assert_eq!(layout.bg_layout.shaders[0].shader_type, ShaderType::Vertex);
    assert_eq!(layout.bg_layout.shaders[0].variables, vec![uniform(0), uniform(1)]);
    assert_eq!(layout.bg_layout.shaders[1].shader_type, ShaderType::Fragment);
    assert_eq!(layout.bg_layout.shaders[1].variables, vec![image(2)]);
    assert_eq!(
        layout.vertex_info.entries,
        vec![
            VertexEntryInfo { format: ShaderPrimitiveType::Vec2, location: 0, offset: 0 },
            VertexEntryInfo { format: ShaderPrimitiveType::Vec2, location: 1, offset: 8 },
        ]
    );
    assert_eq!(layout.vertex_info.stride, 16);
    assert_eq!(layout.vertex_info.rate, VertexRate::Vertex);
    let details = layout.details.unwrap();
    assert_eq!(details.topology, Topology::TriangleList);
    assert_eq!(details.culling, CullMode::Off);
    assert_eq!(details.front_face, VertexOrdering::CounterClockwise);
    assert!(!details.depth_test);
}

#[test]
fn the_text_pipeline_takes_a_uniform_block_and_an_image() {
    let layout = text_pipeline_layout();
    assert!(layout.bg_layout.shaders[0].variables.is_empty());
    assert_eq!(layout.bg_layout.shaders[1].variables, vec![uniform(1), image(2)]);
    assert_eq!(layout.vertex_info.stride, 16);
    assert!(layout.details.is_none());
}

#[test]
fn the_particle_pipelines_have_their_slots() {
    let draw = particle_pipeline_layout();
    assert_eq!(draw.bg_layout.shaders[0].variables, vec![uniform(0), uniform(1)]);
    assert_eq!(draw.bg_layout.shaders[1].variables, vec![image(2)]);
    let compute = particle_compute_layout();
    assert_eq!(compute.bg_layout.shaders.len(), 1);
    assert_eq!(compute.bg_layout.shaders[0].shader_type, ShaderType::Compute);
    assert_eq!(
        compute.bg_layout.shaders[0].variables,
        vec![BindGroupVariable { var_type: BindGroupVariableType::Storage, binding: 0 }, uniform(1)]
    );
}

#[test]
fn the_particle_bind_groups_bind_five_slots() {
    let bindings =
        particle_bindings(Handle::new(1, 0), Handle::new(2, 0), Handle::new(3, 0), Handle::new(4, 0));
    assert_eq!(
        bindings,
        vec![
            BindingInfo { resource: ShaderResource::StorageBuffer(Handle::new(1, 0)), binding: 0 },
            BindingInfo { resource: ShaderResource::StorageBuffer(Handle::new(2, 0)), binding: 1 },
            BindingInfo { resource: ShaderResource::Dynamic, binding: 2 },
            BindingInfo { resource: ShaderResource::Dynamic, binding: 3 },
            BindingInfo {
                resource: ShaderResource::SampledImage(Handle::new(3, 0), Handle::new(4, 0)),
                binding: 4
            },
        ]
    );
}
