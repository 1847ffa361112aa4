use shoyu::allocator::TransientAllocation;
use shoyu::allocator::TransientAllocator;
use shoyu::canvas::Canvas;
use shoyu::database::Database;
use shoyu::database::ImageLoadInfo;
use shoyu::error::Error;
use shoyu::font::Glyph;
use shoyu::font::GlyphOf;
use shoyu::font::TTFont;
use shoyu::frame::FrameState;
use shoyu::geometry::Double;
use shoyu::geometry::Rect2D;
use shoyu::geometry::Scalar;
use shoyu::geometry::Vec2;
use shoyu::geometry::Vec4;
use shoyu::gpu::BindingInfo;
use shoyu::gpu::FRect2D;
use shoyu::gpu::Format;
use shoyu::gpu::ShaderResource;
use shoyu::gpu::SizedImage;
use shoyu::gpu::Viewport;
use shoyu::json::DatabaseJSON;
use shoyu::json::SpriteJSON;
use shoyu::json::SpriteJSONEntry;
use shoyu::json::SpriteSheetJSON;
use shoyu::json::SpriteSheetJSONEntry;
use shoyu::json::SpriteSheetJSONSprite;
use shoyu::json::TTFJSONEntry;
use shoyu::json::TTFJSON;
use shoyu::particle::ParticleGpuObjects;
use shoyu::particle::ParticlePipelineInfo;
use shoyu::particle::ParticleSystem;
use shoyu::particle_json::ParticleSystemJSON;
use shoyu::pool::Handle;
use shoyu::renderer2d::Renderer2D;
use shoyu::renderer2d::SpriteDrawCommand;
use shoyu::renderer2d::SpriteSheetDrawCommand;
use shoyu::renderer2d::TextDrawCommand;
use shoyu::resource_manager::GraphicsPipelineInfo;
use shoyu::resource_manager::ManagerObjects;
use shoyu::resource_manager::ResourceManager;
use shoyu::types::FontInfo;
use shoyu::types::SpriteInfo;
use shoyu::types::SpriteSheetInfo;
use shoyu::types::Uploaded;

fn viewport() -> Viewport {
    Viewport {
        area: FRect2D {
            x: Scalar { bits: 0 },
            y: Scalar { bits: 0 },
            w: Scalar { bits: 1024.0f32.to_bits() },
            h: Scalar { bits: 1024.0f32.to_bits() },
        },
        scissor: Rect2D { x: 0, y: 0, w: 1024, h: 1024 },
        min_depth: Scalar { bits: 0 },
        max_depth: Scalar { bits: 1.0f32.to_bits() },
    }
}

fn canvas() -> Canvas {
    Canvas::new(
        "canvas".to_string(),
        viewport(),
        vec![Handle::new(40, 0)],
        vec![Handle::new(41, 0)],
        None,
        Handle::new(42, 0),
    )
}

fn glyph(x: u32) -> Glyph {
    Glyph {
        bounds: Rect2D { x, y: 0, w: 8, h: 12 },
        advance: Scalar { bits: 1 },
        bearing_x: Scalar { bits: 2 },
        bearing_y: Scalar { bits: 3 },
    }
}

fn database() -> Database {
    let mut db = Database::new(
        "db",
        DatabaseJSON {
            sprite_cfg: Some("sprites.json".to_string()),
            sprite_sheet_cfg: Some("sheets.json".to_string()),
            ttf_cfg: Some("fonts.json".to_string()),
            particle_cfg: None,
        },
        Some(SpriteJSON {
            sprites: vec![
                SpriteJSONEntry { name: "name".to_string(), image_path: "a.png".to_string() },
                SpriteJSONEntry { name: "cold".to_string(), image_path: "c.png".to_string() },
            ],
        }),
        Some(SpriteSheetJSON {
            sprite_sheets: vec![
                SpriteSheetJSONEntry {
                    name: "character".to_string(),
                    image_path: "sheet.png".to_string(),
                    sprites: Some(vec![
                        SpriteSheetJSONSprite {
                            name: "idle".to_string(),
                            id: 0,
                            bounds: Rect2D { x: 0, y: 0, w: 16, h: 16 },
                        },
                        SpriteSheetJSONSprite {
                            name: "walk".to_string(),
                            id: 7,
                            bounds: Rect2D { x: 16, y: 0, w: 16, h: 16 },
                        },
                        SpriteSheetJSONSprite {
                            name: "walk again".to_string(),
                            id: 7,
                            bounds: Rect2D { x: 32, y: 0, w: 16, h: 16 },
                        },
                    ]),
                    auto_gen: None,
                },
                SpriteSheetJSONEntry {
                    name: "bare".to_string(),
                    image_path: "bare.png".to_string(),
                    sprites: None,
                    auto_gen: None,
                },
            ],
        }),
        Some(TTFJSON {
            fonts: vec![TTFJSONEntry {
                name: "font".to_string(),
                path: "f.ttf".to_string(),
                size: Double { bits: 0 },
                glyphs: Some("ab".to_string()),
            }],
        }),
    );
    db.sprite_mut("name").unwrap().load(ImageLoadInfo::rgba8(4, 2, vec![0; 32]).unwrap());
    db.sprite_sheet_mut("character")
        .unwrap()
        .load(ImageLoadInfo::rgba8(64, 16, vec![0; 4096]).unwrap());
    db.ttf_mut("font").unwrap().load(TTFont::new(
        &vec![
            GlyphOf { character: 'a', glyph: glyph(0) },
            GlyphOf { character: 'b', glyph: glyph(8) },
        ],
        vec![0; 12],
        4,
        3,
    ));
    db
}

fn manager() -> ResourceManager {
    ResourceManager::new(
        ManagerObjects {
            vertices: Handle::new(1, 0),
            indices: Handle::new(2, 0),
            gfx: GraphicsPipelineInfo {
                bg_layout: Handle::new(3, 0),
                pipeline_layout: Handle::new(4, 0),
                pipeline: Handle::new(5, 0),
                text_bg_layout: Handle::new(6, 0),
                text_layout: Handle::new(7, 0),
                text_pipeline: Handle::new(8, 0),
            },
            sampler: Handle::new(9, 0),
        },
        canvas(),
        database(),
    )
}

fn objects() -> ManagerObjects {
    ManagerObjects {
        vertices: Handle::new(1, 0),
        indices: Handle::new(2, 0),
        gfx: GraphicsPipelineInfo {
            bg_layout: Handle::new(3, 0),
            pipeline_layout: Handle::new(4, 0),
            pipeline: Handle::new(5, 0),
            text_bg_layout: Handle::new(6, 0),
            text_layout: Handle::new(7, 0),
            text_pipeline: Handle::new(8, 0),
        },
        sampler: Handle::new(9, 0),
    }
}

fn uploaded(n: u32) -> Uploaded {
    Uploaded { image: Handle::new(n, 0), view: Handle::new(n + 1, 0), bg: Handle::new(n + 2, 0) }
}

fn particles(blocks: u32) -> ParticleSystem {
    ParticleSystem::new(
        &ParticleSystemJSON { particles: vec![] },
        SizedImage {
            handle: Handle::new(30, 0),
            view: Handle::new(31, 0),
            dim: [8, 8, 1],
            format: Format::RGBA8,
        },
        TransientAllocator::new(blocks * 16, blocks),
        ParticleGpuObjects {
            vertices: Handle::new(1, 0),
            indices: Handle::new(2, 0),
            particle_list_gpu: Handle::new(32, 0),
            particle_animations: Handle::new(33, 0),
            sampler: Handle::new(9, 0),
            draw_bg: Handle::new(34, 0),
            compute_bg: Handle::new(35, 0),
            pipelines: ParticlePipelineInfo {
                bg_layout: Handle::new(20, 0),
                pipeline_layout: Handle::new(21, 0),
                pipeline: Handle::new(36, 0),
                compute_bg_layout: Handle::new(22, 0),
                compute_layout: Handle::new(23, 0),
                compute_pipeline: Handle::new(37, 0),
            },
        },
    )
}

fn block(k: u32) -> TransientAllocation {
    TransientAllocation { offset: k * 9900, size: 9900 }
}

fn vec2(x: f32, y: f32) -> Vec2 {
    Vec2 { x: Scalar { bits: x.to_bits() }, y: Scalar { bits: y.to_bits() } }
}

#[test]
fn a_sprite_is_made_from_what_the_database_has() {
    let mut manager = manager();
    let info = SpriteInfo { name: "test", db_key: "name" };
    let image = manager.sprite_image(&info).ok().unwrap();
    assert_eq!(image.debug_name, "test");
    assert_eq!(image.dim, [4, 2, 1]);
    assert_eq!(image.format, Format::RGBA8);
    assert_eq!(image.mip_levels, 1);
    let first = manager.make_sprite(&info, uploaded(100)).ok().unwrap();
    let second = manager.make_sprite(&info, uploaded(200)).ok().unwrap();
    assert_ne!(first, second);
    let sprite = manager.fetch_sprite(first).unwrap();
    assert_eq!(sprite.dim, [4, 2]);
    assert_eq!(sprite.handle, Handle::new(100, 0));
    assert_eq!(sprite.view, Handle::new(101, 0));
    assert_eq!(sprite.bg, Handle::new(102, 0));
    assert_eq!(manager.fetch_sprite(second).unwrap().bg, Handle::new(202, 0));
    assert!(manager.fetch_sprite(Handle::new(5, 0)).is_none());
    manager.release_sprite(first);
    assert!(manager.fetch_sprite(first).is_some());
}

#[test]
fn making_fails_with_the_error_of_the_database() {
    let mut manager = manager();
    match manager.make_sprite(&SpriteInfo { name: "n", db_key: "nobody" }, uploaded(1)) {
        Err(Error::LookupError(e)) => assert_eq!(e.entry, "nobody"),
        _ => panic!("not a lookup error"),
    }
    match manager.make_sprite(&SpriteInfo { name: "n", db_key: "cold" }, uploaded(1)) {
        Err(Error::LoadingError(e)) => assert_eq!(e.path, "db/c.png"),
        _ => panic!("not a loading error"),
    }
    assert!(manager.sprite_image(&SpriteInfo { name: "n", db_key: "nobody" }).is_err());
    assert!(manager
        .make_sprite_sheet(&SpriteSheetInfo { name: "n", db_key: "nobody" }, uploaded(1))
        .is_err());
    assert!(manager.make_font(&FontInfo { name: "n", db_key: "nobody" }, uploaded(1)).is_err());
    assert!(manager.font_image(&FontInfo { name: "n", db_key: "nobody" }).is_err());
}

#[test]
fn a_sheet_is_made_with_the_table_of_its_sprites() {
    let mut manager = manager();
    let info = SpriteSheetInfo { name: "sheet", db_key: "character" };
    assert!(manager.check_sheet_has_sprites("character"));
    assert!(manager.check_sheet_has_sprites("nobody"));
    assert!(!manager.check_sheet_has_sprites("bare"));
    assert_eq!(manager.sprite_sheet_image(&info).ok().unwrap().dim, [64, 16, 1]);
    let handle = manager.make_sprite_sheet(&info, uploaded(100)).ok().unwrap();
    let sheet = manager.fetch_sprite_sheet(handle).unwrap();
    assert_eq!(sheet.dim, [64, 16]);
    assert_eq!(sheet.bg, Handle::new(102, 0));
    assert_eq!(sheet.sprites.len(), 2);
    assert_eq!(sheet.sprites[&0], Rect2D { x: 0, y: 0, w: 16, h: 16 });
    assert_eq!(sheet.sprites[&7], Rect2D { x: 32, y: 0, w: 16, h: 16 });
    manager.release_sprite_sheet(handle);
    assert!(manager.sprite_sheet(handle).is_some());
}

#[test]
fn a_font_is_made_with_its_atlas() {
    let mut manager = manager();
    let info = FontInfo { name: "font", db_key: "font" };
    let image = manager.font_image(&info).ok().unwrap();
    assert_eq!(image.dim, [4, 3, 1]);
    assert_eq!(image.format, Format::R8_UINT);
    let handle = manager.make_font(&info, uploaded(100)).ok().unwrap();
    let font = manager.fetch_font(handle).unwrap();
    assert_eq!(font.dim, [4, 3]);
    assert_eq!(font.atlas, Handle::new(100, 0));
    assert_eq!(font.atlas_view, Handle::new(101, 0));
    assert_eq!(font.font, "font");
}

#[test]
fn the_bind_groups_bind_uniform_blocks_and_the_image() {
    let manager = manager();
    let view = Handle::new(77, 0);
    assert_eq!(
        manager.sprite_bindings(view),
        vec![
            BindingInfo { resource: ShaderResource::Dynamic, binding: 0 },
            BindingInfo { resource: ShaderResource::Dynamic, binding: 1 },
            BindingInfo {
                resource: ShaderResource::SampledImage(view, Handle::new(9, 0)),
                binding: 2
            },
        ]
    );
    assert_eq!(
        manager.font_bindings(view),
        vec![
            BindingInfo { resource: ShaderResource::Dynamic, binding: 1 },
            BindingInfo {
                resource: ShaderResource::SampledImage(view, Handle::new(9, 0)),
                binding: 2
            },
        ]
    );
    assert_eq!(manager.vertices(), Handle::new(1, 0));
    assert_eq!(manager.indices(), Handle::new(2, 0));
    assert_eq!(manager.sampler(), Handle::new(9, 0));
    assert_eq!(manager.gfx().text_pipeline, Handle::new(8, 0));
    assert_eq!(manager.canvas().name(), "canvas");
}

#[test]
fn the_manager_allocates_the_blocks_of_a_frame() {
    let mut manager = manager();
    assert_eq!(manager.bump().unwrap(), block(0));
    assert_eq!(manager.allocator().bump().unwrap(), block(1));
    manager.reset_allocator();
    assert_eq!(manager.bump().unwrap(), block(0));
    for _ in 1..8080 {
        manager.bump().unwrap();
    }
    assert!(manager.bump().is_err());
}

#[test]
fn a_frame_goes_from_idle_to_recording_to_submitted_and_back() {
    let mut manager = manager();
    let sprite = manager.make_sprite(&SpriteInfo { name: "s", db_key: "name" }, uploaded(100));
    let sprite = sprite.ok().unwrap();
    let mut renderer = Renderer2D::new(manager, particles(8), Handle::new(50, 0));
    assert_eq!(renderer.frame_state(), FrameState::Idle);

    let begin = renderer
        .begin_drawing_at(Handle::new(60, 0), Handle::new(61, 0), 1_000_000_000)
        .unwrap();
    assert_eq!(renderer.frame_state(), FrameState::Recording);
    assert_eq!(begin.viewport, viewport());
    assert_eq!(begin.pipeline, Handle::new(5, 0));
    assert_eq!(begin.compute.dispatch.workgroup_size, [64, 1, 1]);
    assert_eq!(begin.compute.config.delta_ms, 0);

    let draw = renderer
        .draw_sprite(&SpriteDrawCommand {
            sprite,
            position: vec2(0.0, 0.0),
            size: vec2(1.0, 1.0),
            rotation: Scalar { bits: 0 },
        })
        .unwrap()
        .unwrap();
    assert_eq!(draw.size, vec2(1.0, 1.0));
    assert_eq!(draw.draw.dynamic_buffers, [Some(block(0)), Some(block(1)), None, None]);
    assert_eq!(draw.draw.bind_groups, [Some(Handle::new(102, 0)), None, None, None]);
    assert_eq!(draw.draw.vertices, Handle::new(1, 0));
    assert_eq!(draw.draw.indices, Handle::new(2, 0));
    assert_eq!(draw.draw.index_count, 6);
    assert_eq!(draw.draw.instance_count, 1);

    let end = renderer.finish_drawing_at(1_016_000_000).unwrap();
    assert_eq!(renderer.frame_state(), FrameState::Submitted);
    assert_eq!(end.slot, 0);
    assert_eq!(end.blit_src, Handle::new(41, 0));
    assert_eq!(end.blit_dst, Handle::new(60, 0));
    assert_eq!(end.wait_sem, Handle::new(61, 0));
    assert_eq!(end.signal_sem, Handle::new(50, 0));
    assert_eq!(end.particles.draw.instance_count, 2048);
    assert_eq!(end.particles.config.delta_ms, 16);

    renderer.presented();
    assert_eq!(renderer.frame_state(), FrameState::Idle);

    let begin = renderer
        .begin_drawing_at(Handle::new(62, 0), Handle::new(63, 0), 1_020_000_000)
        .unwrap();
    assert_eq!(begin.compute.config.delta_ms, 20);
    let draw = renderer
        .draw_sprite(&SpriteDrawCommand {
            sprite,
            position: vec2(0.0, 0.0),
            size: vec2(1.0, 1.0),
            rotation: Scalar { bits: 0 },
        })
        .unwrap()
        .unwrap();
    assert_eq!(draw.draw.dynamic_buffers[0], Some(block(0)));
    let end = renderer.finish_drawing_at(1_030_000_000).unwrap();
    assert_eq!(end.slot, 1);
    assert_eq!(end.blit_dst, Handle::new(62, 0));
}

#[test]
fn a_stale_handle_skips_the_draw_and_keeps_the_blocks() {
    let mut renderer = Renderer2D::new(manager(), particles(8), Handle::new(50, 0));
    renderer.begin_drawing(Handle::new(60, 0), Handle::new(61, 0)).unwrap();
    let none = renderer
        .draw_sprite(&SpriteDrawCommand {
            sprite: Handle::new(0, 0),
            position: vec2(0.0, 0.0),
            size: vec2(1.0, 1.0),
            rotation: Scalar { bits: 0 },
        })
        .unwrap();
    assert!(none.is_none());
    let none = renderer
        .draw_spritesheet(&SpriteSheetDrawCommand {
            sheet: Handle::new(0, 0),
            sprite_id: 0,
            position: vec2(0.0, 0.0),
            size: vec2(1.0, 1.0),
            rotation: Scalar { bits: 0 },
        })
        .unwrap();
    assert!(none.is_none());
    let none = renderer
        .draw_text(&TextDrawCommand { font: Handle::new(0, 0), text: "ab", ..Default::default() })
        .unwrap();
    assert!(none.is_none());
    assert_eq!(renderer.resources().bump().unwrap(), block(5));
    assert!(renderer.finish_drawing().is_ok());
}

#[test]
fn a_sprite_of_a_sheet_is_drawn_with_three_blocks() {
    let mut manager = manager();
    let sheet = manager
        .make_sprite_sheet(&SpriteSheetInfo { name: "s", db_key: "character" }, uploaded(100))
        .ok()
        .unwrap();
    let mut renderer = Renderer2D::new(manager, particles(8), Handle::new(50, 0));
    renderer.begin_drawing_at(Handle::new(60, 0), Handle::new(61, 0), 0).unwrap();
    let command = SpriteSheetDrawCommand {
        sheet,
        sprite_id: 7,
        position: vec2(10.0, 20.0),
        size: vec2(0.2, 0.2),
        rotation: Scalar { bits: 45.0f32.to_bits() },
    };
    let draw = renderer.draw_spritesheet(&command).unwrap().unwrap();
    assert_eq!(draw.bounds, Rect2D { x: 32, y: 0, w: 16, h: 16 });
    assert_eq!(draw.dim, [64, 16]);
    assert_eq!(draw.position, vec2(10.0, 20.0));
    assert_eq!(draw.rotation, Scalar { bits: 45.0f32.to_bits() });
    assert_eq!(draw.draw.vertices, block(0));
    assert_eq!(draw.draw.dynamic_buffers, [Some(block(1)), Some(block(2)), None, None]);
    assert_eq!(draw.draw.bind_groups[0], Some(Handle::new(102, 0)));
    assert_eq!(draw.draw.indices, Handle::new(2, 0));
    let missing = SpriteSheetDrawCommand { sprite_id: 3, ..command };
    assert!(renderer.draw_spritesheet(&missing).unwrap().is_none());
    assert_eq!(renderer.resources().bump().unwrap(), block(6));
}

#[test]
fn a_text_draws_the_characters_that_have_a_glyph() {
    let mut manager = manager();
    let font =
        manager.make_font(&FontInfo { name: "f", db_key: "font" }, uploaded(100)).ok().unwrap();
    let mut renderer = Renderer2D::new(manager, particles(8), Handle::new(50, 0));
    renderer.begin_drawing_at(Handle::new(60, 0), Handle::new(61, 0), 0).unwrap();
    let text = renderer
        .draw_text(&TextDrawCommand {
            font,
            position: vec2(0.0, 0.1),
            scale: Scalar { bits: 1.0f32.to_bits() },
            text: "a cab!",
            ..Default::default()
        })
        .unwrap()
        .unwrap();
    assert_eq!(text.position, vec2(0.0, 0.1));
    assert_eq!(text.dim, [4, 3]);
    assert_eq!(text.pipeline, Handle::new(8, 0));
    assert_eq!(text.viewport, viewport());
    let one = Scalar { bits: 0x3f80_0000 };
    assert_eq!(text.color, Vec4 { x: one, y: one, z: one, w: one });
    let drawn: Vec<char> = text.glyphs.iter().map(|g| g.character).collect();
    assert_eq!(drawn, vec!['a', 'a', 'b']);
    assert_eq!(text.glyphs[0].glyph, glyph(0));
    assert_eq!(text.glyphs[2].glyph, glyph(8));
    for (k, drawn) in text.glyphs.iter().enumerate() {
        let k = k as u32;
        assert_eq!(drawn.draw.vertices, block(2 * k));
        assert_eq!(drawn.draw.dynamic_buffers, [Some(block(2 * k + 1)), None, None, None]);
        assert_eq!(drawn.draw.bind_groups[0], Some(Handle::new(102, 0)));
        assert_eq!(drawn.draw.index_count, 6);
    }
    assert_eq!(renderer.resources().bump().unwrap(), block(6));
    let empty = renderer
        .draw_text(&TextDrawCommand { font, text: "xyz", ..Default::default() })
        .unwrap()
        .unwrap();
    assert!(empty.glyphs.is_empty());
}

#[test]
fn the_default_text_command_is_white_and_empty() {
    let command = TextDrawCommand::default();
    assert_eq!(command.text, "");
    assert_eq!(command.font, Handle::new(0, 0));
    assert_eq!(command.color.x, Scalar { bits: 1.0f32.to_bits() });
    assert_eq!(command.color.w, Scalar { bits: 1.0f32.to_bits() });
    assert_eq!(command.scale, Scalar { bits: 0 });
    assert_eq!(command.position, vec2(0.0, 0.0));
}

#[test]
fn a_frame_without_blocks_for_the_particles_does_not_begin() {
    let mut renderer = Renderer2D::new(manager(), particles(0), Handle::new(50, 0));
    assert!(renderer.begin_drawing_at(Handle::new(60, 0), Handle::new(61, 0), 0).is_err());
    assert_eq!(renderer.frame_state(), FrameState::Idle);
    let mut short = Renderer2D::new(manager(), particles(2), Handle::new(50, 0));
    assert!(short.begin_drawing_at(Handle::new(60, 0), Handle::new(61, 0), 0).is_ok());
    assert!(short.finish_drawing_at(0).is_err());
    assert_eq!(short.frame_state(), FrameState::Recording);
}

#[test]
fn particles_are_emitted_through_the_renderer() {
    let mut renderer = Renderer2D::new(manager(), particles(8), Handle::new(50, 0));
    let range = renderer.particle_system().emit(&shoyu::particle::ParticleEmitInfo {
        particle_id: 0,
        lifetime_ms: 2000,
        amount: 20,
        position: vec2(0.0, 0.0),
        size: vec2(0.1, 0.1),
        initial_velocity: vec2(0.0, 0.0),
        behaviour: shoyu::particle::ParticleBehaviour::GRAVITY,
    });
    assert_eq!(range.count, 20);
    assert_eq!(renderer.particle_system().cursor(), 20);
}

#[test]
fn a_full_pool_is_a_slot_error() {
    let mut manager = ResourceManager::with_capacity(objects(), canvas(), database(), 1);
    let info = SpriteInfo { name: "s", db_key: "name" };
    let first = manager.make_sprite(&info, uploaded(100)).ok().unwrap();
    match manager.make_sprite(&info, uploaded(200)) {
        Err(Error::SlotError()) => {}
        _ => panic!("not a slot error"),
    }
    assert_eq!(manager.sprite(first).unwrap().bg, Handle::new(102, 0));
    let sheet = SpriteSheetInfo { name: "s", db_key: "character" };
    assert!(manager.make_sprite_sheet(&sheet, uploaded(100)).is_ok());
    assert!(matches!(manager.make_sprite_sheet(&sheet, uploaded(100)), Err(Error::SlotError())));
    let font = FontInfo { name: "f", db_key: "font" };
    assert!(manager.make_font(&font, uploaded(100)).is_ok());
    assert!(matches!(manager.make_font(&font, uploaded(100)), Err(Error::SlotError())));
}

#[test]
fn a_draw_fails_when_the_frame_has_used_up_its_blocks() {
    let mut manager = manager();
    let sprite =
        manager.make_sprite(&SpriteInfo { name: "s", db_key: "name" }, uploaded(100)).ok().unwrap();
    let font =
        manager.make_font(&FontInfo { name: "f", db_key: "font" }, uploaded(100)).ok().unwrap();
    let mut renderer = Renderer2D::new(manager, particles(8), Handle::new(50, 0));
    renderer.begin_drawing_at(Handle::new(60, 0), Handle::new(61, 0), 0).unwrap();
    for _ in 0..8077 {
        renderer.resources().bump().unwrap();
    }
    let text = TextDrawCommand { font, text: "ab", ..Default::default() };
    assert!(renderer.draw_text(&text).is_err());
    assert!(renderer.resources().bump().is_err());
    let command = SpriteDrawCommand {
        sprite,
        position: vec2(0.0, 0.0),
        size: vec2(1.0, 1.0),
        rotation: Scalar { bits: 0 },
    };
    assert!(renderer.draw_sprite(&command).is_err());
    renderer.finish_drawing_at(0).unwrap();
    renderer.presented();
    renderer.begin_drawing_at(Handle::new(60, 0), Handle::new(61, 0), 0).unwrap();
    assert!(renderer.draw_sprite(&command).unwrap().is_some());
    assert_eq!(renderer.current_slot(), 1);
}
