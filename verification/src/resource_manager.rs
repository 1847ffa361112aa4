//! The resource manager: the pools of sprites, sprite sheets and fonts, the
//! allocator of a frame's uniform blocks, and the asset database behind them.

use std::collections::HashMap;
use vstd::prelude::*;
use vstd::string::StringExecFns;
use crate::allocator::TransientAllocation;
use crate::allocator::TransientAllocator;
use crate::canvas::Canvas;
use crate::database::Database;
use crate::database::SpriteSheetEntry;
use crate::error::Error;
use crate::error::SlotError;
use crate::geometry::Rect2D;
use crate::gpu::BindGroupLayout;
use crate::gpu::BindingInfo;
use crate::gpu::Buffer;
use crate::gpu::Format;
use crate::gpu::GraphicsPipeline;
use crate::gpu::GraphicsPipelineLayout;
use crate::gpu::ImageInfo;
use crate::gpu::ImageView;
use crate::gpu::Sampler;
use crate::gpu::ShaderResource;
use crate::json::SpriteSheetJSONSprite;
use crate::pool::Handle;
use crate::pool::ResourcePool;
use crate::types::Font;
use crate::types::FontInfo;
use crate::types::Sprite;
use crate::types::SpriteInfo;
use crate::types::SpriteSheet;
use crate::types::SpriteSheetInfo;
use crate::types::Uploaded;

verus! {

broadcast use vstd::std_specs::hash::group_hash_axioms;

/// The size of the staging buffer for the uniform blocks of a frame.
pub const ALLOCATOR_BYTES: u32 = 80000000;

/// How many uniform blocks a frame may take.
pub const ALLOCATOR_BLOCKS: u32 = 8080;

/// The pipelines that sprites and text are drawn with.
#[derive(Clone, Copy)]
pub struct GraphicsPipelineInfo {
    pub bg_layout: Handle<BindGroupLayout>,
    pub pipeline_layout: Handle<GraphicsPipelineLayout>,
    pub pipeline: Handle<GraphicsPipeline>,
    pub text_bg_layout: Handle<BindGroupLayout>,
    pub text_layout: Handle<GraphicsPipelineLayout>,
    pub text_pipeline: Handle<GraphicsPipeline>,
}

/// The objects on the GPU that every draw uses: the quad, the pipelines and
/// the sampler.
#[derive(Clone, Copy)]
pub struct ManagerObjects {
    pub vertices: Handle<Buffer>,
    pub indices: Handle<Buffer>,
    pub gfx: GraphicsPipelineInfo,
    pub sampler: Handle<Sampler>,
}

/// Where the sprites of a sheet lie, by their numbers. Where a number comes
/// twice, its last sprite counts.
pub open spec fn sprite_table(sprites: Seq<SpriteSheetJSONSprite>) -> Map<u32, Rect2D>
    decreases sprites.len(),
{
    if sprites.len() == 0 {
        Map::empty()
    } else {
        sprite_table(sprites.drop_last()).insert(sprites.last().id, sprites.last().bounds)
    }
}

/// The sprites that a sheet's configuration declares.
pub open spec fn declared_sprites(entry: SpriteSheetEntry) -> Seq<SpriteSheetJSONSprite> {
    match entry.cfg.sprites {
        Some(sprites) => sprites@,
        None => Seq::empty(),
    }
}

/// The bind group of a sprite or a sheet: two uniform blocks, for the
/// transform and for the camera, and the image.
pub open spec fn sprite_bindings_spec(view: Handle<ImageView>, sampler: Handle<Sampler>) -> Seq<
    BindingInfo,
> {
    seq![
        BindingInfo { resource: ShaderResource::Dynamic, binding: 0 },
        BindingInfo { resource: ShaderResource::Dynamic, binding: 1 },
        BindingInfo { resource: ShaderResource::SampledImage(view, sampler), binding: 2 },
    ]
}

/// The bind group of a font: one uniform block, for the color, and the
/// atlas.
pub open spec fn font_bindings_spec(view: Handle<ImageView>, sampler: Handle<Sampler>) -> Seq<
    BindingInfo,
> {
    seq![
        BindingInfo { resource: ShaderResource::Dynamic, binding: 1 },
        BindingInfo { resource: ShaderResource::SampledImage(view, sampler), binding: 2 },
    ]
}

pub struct ResourceManager {
    allocator: TransientAllocator,
    objects: ManagerObjects,
    canvas: Canvas,
    database: Database,
    sprites: ResourcePool<Sprite>,
    fonts: ResourcePool<Font>,
    sprite_sheets: ResourcePool<SpriteSheet>,
}

impl ResourceManager {
    pub closed spec fn wf(&self) -> bool {
        &&& self.allocator.wf()
        &&& self.sprites.wf()
        &&& self.fonts.wf()
        &&& self.sprite_sheets.wf()
    }

    pub closed spec fn allocator_spec(&self) -> TransientAllocator {
        self.allocator
    }

    pub closed spec fn objects(&self) -> ManagerObjects {
        self.objects
    }

    pub closed spec fn canvas_spec(&self) -> Canvas {
        self.canvas
    }

    pub closed spec fn database(&self) -> Database {
        self.database
    }

    pub closed spec fn sprites(&self) -> ResourcePool<Sprite> {
        self.sprites
    }

    pub closed spec fn fonts(&self) -> ResourcePool<Font> {
        self.fonts
    }

    pub closed spec fn sprite_sheets(&self) -> ResourcePool<SpriteSheet> {
        self.sprite_sheets
    }

    /// A manager without sprites, sheets or fonts.
    pub fn new(objects: ManagerObjects, canvas: Canvas, database: Database) -> (manager:
        ResourceManager)
        ensures
            manager.wf(),
            manager.objects() == objects,
            manager.canvas_spec() == canvas,
            manager.database() == database,
            manager.allocator_spec().byte_size() == ALLOCATOR_BYTES,
            manager.allocator_spec().blocks() == ALLOCATOR_BLOCKS,
            manager.allocator_spec().issued() == 0,
            manager.sprites()@ == Map::<Handle<Sprite>, Sprite>::empty(),
            manager.sprite_sheets()@ == Map::<Handle<SpriteSheet>, SpriteSheet>::empty(),
            manager.fonts()@ == Map::<Handle<Font>, Font>::empty(),
            manager.sprites().vacancies() == u32::MAX,
            manager.sprite_sheets().vacancies() == u32::MAX,
            manager.fonts().vacancies() == u32::MAX,
    {
        ResourceManager {
            allocator: TransientAllocator::new(ALLOCATOR_BYTES, ALLOCATOR_BLOCKS),
            objects,
            canvas,
            database,
            sprites: ResourcePool::new(),
            fonts: ResourcePool::new(),
            sprite_sheets: ResourcePool::new(),
        }
    }

    /// A manager without sprites, sheets or fonts that takes no more than
    /// `capacity` of each.
    pub fn with_capacity(
        objects: ManagerObjects,
        canvas: Canvas,
        database: Database,
        capacity: u32,
    ) -> (manager: ResourceManager)
        ensures
            manager.wf(),
            manager.objects() == objects,
            manager.canvas_spec() == canvas,
            manager.database() == database,
            manager.allocator_spec().byte_size() == ALLOCATOR_BYTES,
            manager.allocator_spec().blocks() == ALLOCATOR_BLOCKS,
            manager.allocator_spec().issued() == 0,
            manager.sprites()@ == Map::<Handle<Sprite>, Sprite>::empty(),
            manager.sprite_sheets()@ == Map::<Handle<SpriteSheet>, SpriteSheet>::empty(),
            manager.fonts()@ == Map::<Handle<Font>, Font>::empty(),
            manager.sprites().vacancies() == capacity,
            manager.sprite_sheets().vacancies() == capacity,
            manager.fonts().vacancies() == capacity,
    {
        ResourceManager {
            allocator: TransientAllocator::new(ALLOCATOR_BYTES, ALLOCATOR_BLOCKS),
            objects,
            canvas,
            database,
            sprites: ResourcePool::with_capacity(capacity),
            fonts: ResourcePool::with_capacity(capacity),
            sprite_sheets: ResourcePool::with_capacity(capacity),
        }
    }

    pub fn canvas(&self) -> (canvas: &Canvas)
        ensures
            *canvas == self.canvas_spec(),
    {
        &self.canvas
    }

    pub fn gfx(&self) -> (gfx: &GraphicsPipelineInfo)
        ensures
            *gfx == self.objects().gfx,
    {
        &self.objects.gfx
    }

    /// The allocator of the frame's uniform blocks. The manager stays well
    /// formed if the allocator does.
    pub fn allocator(&mut self) -> (allocator: &mut TransientAllocator)
        requires
            old(self).wf(),
        ensures
            *allocator == old(self).allocator_spec(),
            final(self).allocator_spec() == *final(allocator),
            final(allocator).wf() ==> final(self).wf(),
            final(self).objects() == old(self).objects(),
            final(self).canvas_spec() == old(self).canvas_spec(),
            final(self).database() == old(self).database(),
            final(self).sprites() == old(self).sprites(),
            final(self).sprite_sheets() == old(self).sprite_sheets(),
            final(self).fonts() == old(self).fonts(),
    {
        &mut self.allocator
    }

    /// The asset database, for loading what is to be made.
    pub fn database_mut(&mut self) -> (database: &mut Database)
        requires
            old(self).wf(),
        ensures
            *database == old(self).database(),
            final(self).database() == *final(database),
            final(self).wf(),
            final(self).allocator_spec() == old(self).allocator_spec(),
            final(self).objects() == old(self).objects(),
            final(self).canvas_spec() == old(self).canvas_spec(),
            final(self).sprites() == old(self).sprites(),
            final(self).sprite_sheets() == old(self).sprite_sheets(),
            final(self).fonts() == old(self).fonts(),
    {
        &mut self.database
    }

    pub fn vertices(&self) -> (vertices: Handle<Buffer>)
        ensures
            vertices == self.objects().vertices,
    {
        self.objects.vertices
    }

    pub fn indices(&self) -> (indices: Handle<Buffer>)
        ensures
            indices == self.objects().indices,
    {
        self.objects.indices
    }

    pub fn sampler(&self) -> (sampler: Handle<Sampler>)
        ensures
            sampler == self.objects().sampler,
    {
        self.objects.sampler
    }

    pub fn database_ref(&self) -> (database: &Database)
        ensures
            *database == self.database(),
    {
        &self.database
    }

    /// What stays as it is when an asset is made.
    pub open spec fn same_setup(&self, other: &ResourceManager) -> bool {
        &&& self.allocator_spec() == other.allocator_spec()
        &&& self.objects() == other.objects()
        &&& self.canvas_spec() == other.canvas_spec()
        &&& self.database() == other.database()
    }

    pub fn fetch_sprite(&mut self, handle: Handle<Sprite>) -> (found: Option<&mut Sprite>)
        requires
            old(self).wf(),
        ensures
            final(self).wf(),
            final(self).same_setup(old(self)),
            final(self).sprite_sheets() == old(self).sprite_sheets(),
            final(self).fonts() == old(self).fonts(),
            !old(self).sprites()@.dom().contains(handle) ==> found is None && final(self).sprites()
                == old(self).sprites(),
            old(self).sprites()@.dom().contains(handle) ==> {
                &&& found matches Some(sprite)
                &&& *sprite == old(self).sprites()@[handle]
                &&& final(self).sprites()@ == old(self).sprites()@.insert(handle, *final(sprite))
            },
    {
        self.sprites.get_mut(handle)
    }

    pub fn fetch_font(&mut self, handle: Handle<Font>) -> (found: Option<&mut Font>)
        requires
            old(self).wf(),
        ensures
            final(self).wf(),
            final(self).same_setup(old(self)),
            final(self).sprite_sheets() == old(self).sprite_sheets(),
            final(self).sprites() == old(self).sprites(),
            !old(self).fonts()@.dom().contains(handle) ==> found is None && final(self).fonts()
                == old(self).fonts(),
            old(self).fonts()@.dom().contains(handle) ==> {
                &&& found matches Some(font)
                &&& *font == old(self).fonts()@[handle]
                &&& final(self).fonts()@ == old(self).fonts()@.insert(handle, *final(font))
            },
    {
        self.fonts.get_mut(handle)
    }

    pub fn fetch_sprite_sheet(&mut self, handle: Handle<SpriteSheet>) -> (found: Option<
        &mut SpriteSheet,
    >)
        requires
            old(self).wf(),
        ensures
            final(self).wf(),
            final(self).same_setup(old(self)),
            final(self).sprites() == old(self).sprites(),
            final(self).fonts() == old(self).fonts(),
            !old(self).sprite_sheets()@.dom().contains(handle) ==> found is None
                && final(self).sprite_sheets() == old(self).sprite_sheets(),
            old(self).sprite_sheets()@.dom().contains(handle) ==> {
                &&& found matches Some(sheet)
                &&& *sheet == old(self).sprite_sheets()@[handle]
                &&& final(self).sprite_sheets()@ == old(self).sprite_sheets()@.insert(
                    handle,
                    *final(sheet),
                )
            },
    {
        self.sprite_sheets.get_mut(handle)
    }

    /// The bindings of the bind group of a sprite or a sheet whose image
    /// has the view `view`.
    pub fn sprite_bindings(&self, view: Handle<ImageView>) -> (bindings: Vec<BindingInfo>)
        ensures
            bindings@ == sprite_bindings_spec(view, self.objects().sampler),
    {
        let mut bindings: Vec<BindingInfo> = Vec::new();
        bindings.push(BindingInfo { resource: ShaderResource::Dynamic, binding: 0 });
        bindings.push(BindingInfo { resource: ShaderResource::Dynamic, binding: 1 });
        bindings.push(
            BindingInfo {
                resource: ShaderResource::SampledImage(view, self.objects.sampler),
                binding: 2,
            },
        );
        assert(bindings@ =~= sprite_bindings_spec(view, self.objects().sampler));
        bindings
    }

    /// The bindings of the bind group of a font whose atlas has the view
    /// `view`.
    pub fn font_bindings(&self, view: Handle<ImageView>) -> (bindings: Vec<BindingInfo>)
        ensures
            bindings@ == font_bindings_spec(view, self.objects().sampler),
    {
        let mut bindings: Vec<BindingInfo> = Vec::new();
        bindings.push(BindingInfo { resource: ShaderResource::Dynamic, binding: 1 });
        bindings.push(
            BindingInfo {
                resource: ShaderResource::SampledImage(view, self.objects.sampler),
                binding: 2,
            },
        );
        assert(bindings@ =~= font_bindings_spec(view, self.objects().sampler));
        bindings
    }

    /// The image to make for the sprite that `info` asks for. Fails as
    /// `Database::fetch_sprite` does.
    pub fn sprite_image(&self, info: &SpriteInfo) -> (result: Result<ImageInfo, Error>)
        ensures
            match result {
                Ok(image) => {
                    &&& self.database().sprites().dom().contains(info.db_key@)
                    &&& self.database().sprites()[info.db_key@].loaded matches Some(loaded)
                    &&& image.debug_name@ == info.name@
                    &&& image.dim@ == seq![loaded.size[0], loaded.size[1], 1u32]
                    &&& image.format == loaded.format
                    &&& image.mip_levels == 1
                },
                Err(Error::LookupError(error)) => !self.database().sprites().dom().contains(
                    info.db_key@,
                ) && error.entry@ == info.db_key@,
                Err(Error::LoadingError(error)) => self.database().sprites().dom().contains(
                    info.db_key@,
                ) && self.database().sprites()[info.db_key@].loaded is None && error.entry@
                    == info.db_key@,
                Err(Error::SlotError()) => false,
            },
    {
        match self.database.fetch_sprite(info.db_key) {
            Ok(entry) => match &entry.loaded {
                Some(loaded) => {
                    let image = ImageInfo {
                        debug_name: String::from_str(info.name),
                        dim: [loaded.size[0], loaded.size[1], 1],
                        format: loaded.format,
                        mip_levels: 1,
                    };
                    assert(image.dim@ =~= seq![loaded.size[0], loaded.size[1], 1u32]);
                    Ok(image)
                },
                None => vstd::pervasive::unreached(),
            },
            Err(error) => Err(error),
        }
    }

    /// Takes the sprite that `info` asks for into the pool, with what was
    /// made for it on the GPU. Fails as `Database::fetch_sprite` does, or
    /// with a slot error when the pool is exhausted, and then changes
    /// nothing. Asking twice for one sprite gives two sprites.
    pub fn make_sprite(&mut self, info: &SpriteInfo, made: Uploaded) -> (result: Result<
        Handle<Sprite>,
        Error,
    >)
        requires
            old(self).wf(),
        ensures
            final(self).wf(),
            final(self).same_setup(old(self)),
            final(self).sprite_sheets() == old(self).sprite_sheets(),
            final(self).fonts() == old(self).fonts(),
            match result {
                Ok(handle) => {
                    &&& old(self).database().sprites().dom().contains(info.db_key@)
                    &&& old(self).database().sprites()[info.db_key@].loaded matches Some(loaded)
                    &&& old(self).sprites().vacancies() > 0
                    &&& handle == old(self).sprites().next_handle()
                    &&& !old(self).sprites()@.dom().contains(handle)
                    &&& final(self).sprites()@ == old(self).sprites()@.insert(
                        handle,
                        Sprite {
                            dim: loaded.size,
                            handle: made.image,
                            view: made.view,
                            bg: made.bg,
                        },
                    )
                    &&& old(self).sprites().inserts_to(
                        &final(self).sprites(),
                        final(self).sprites()@[handle],
                        Ok(handle),
                    )
                },
                Err(Error::LookupError(error)) => {
                    &&& !old(self).database().sprites().dom().contains(info.db_key@)
                    &&& error.entry@ == info.db_key@
                    &&& final(self).sprites() == old(self).sprites()
                },
                Err(Error::LoadingError(error)) => {
                    &&& old(self).database().sprites().dom().contains(info.db_key@)
                    &&& old(self).database().sprites()[info.db_key@].loaded is None
                    &&& error.entry@ == info.db_key@
                    &&& final(self).sprites() == old(self).sprites()
                },
                Err(Error::SlotError()) => {
                    &&& old(self).database().sprites().dom().contains(info.db_key@)
                    &&& old(self).database().sprites()[info.db_key@].loaded is Some
                    &&& old(self).sprites().vacancies() == 0
                    &&& final(self).sprites()@ == old(self).sprites()@
                    &&& final(self).sprites().vacancies() == 0
                    &&& final(self).sprites().free_handles() == old(self).sprites().free_handles()
                    &&& final(self).sprites().slot_count() == old(self).sprites().slot_count()
                    &&& final(self).sprites().limit() == old(self).sprites().limit()
                },
            },
    {
        let dim: [u32; 2] = match self.database.fetch_sprite(info.db_key) {
            Ok(entry) => match &entry.loaded {
                Some(loaded) => loaded.size,
                None => vstd::pervasive::unreached(),
            },
            Err(error) => {
                return Err(error);
            },
        };
        let sprite = Sprite { dim, handle: made.image, view: made.view, bg: made.bg };
        match self.sprites.insert(sprite) {
            Ok(handle) => Ok(handle),
            Err(_) => Err(Error::SlotError()),
        }
    }

    /// Does nothing: what was made stays for as long as the manager does.
    pub fn release_sprite(&mut self, handle: Handle<Sprite>)
        ensures
            *final(self) == *old(self),
    {
    }

    /// Does nothing: what was made stays for as long as the manager does.
    pub fn release_sprite_sheet(&mut self, handle: Handle<SpriteSheet>)
        ensures
            *final(self) == *old(self),
    {
    }

    /// The image to make for the sheet that `info` asks for. Fails as
    /// `Database::fetch_sprite_sheet` does.
    pub fn sprite_sheet_image(&self, info: &SpriteSheetInfo) -> (result: Result<ImageInfo, Error>)
        ensures
            match result {
                Ok(image) => {
                    &&& self.database().sprite_sheets().dom().contains(info.db_key@)
                    &&& self.database().sprite_sheets()[info.db_key@].loaded matches Some(loaded)
                    &&& image.debug_name@ == info.name@
                    &&& image.dim@ == seq![loaded.size[0], loaded.size[1], 1u32]
                    &&& image.format == loaded.format
                    &&& image.mip_levels == 1
                },
                Err(Error::LookupError(error)) => !self.database().sprite_sheets().dom().contains(
                    info.db_key@,
                ) && error.entry@ == info.db_key@,
                Err(Error::LoadingError(error)) => self.database().sprite_sheets().dom().contains(
                    info.db_key@,
                ) && self.database().sprite_sheets()[info.db_key@].loaded is None && error.entry@
                    == info.db_key@,
                Err(Error::SlotError()) => false,
            },
    {
        match self.database.fetch_sprite_sheet(info.db_key) {
            Ok(entry) => match &entry.loaded {
                Some(loaded) => {
                    let image = ImageInfo {
                        debug_name: String::from_str(info.name),
                        dim: [loaded.size[0], loaded.size[1], 1],
                        format: loaded.format,
                        mip_levels: 1,
                    };
                    assert(image.dim@ =~= seq![loaded.size[0], loaded.size[1], 1u32]);
                    Ok(image)
                },
                None => vstd::pervasive::unreached(),
            },
            Err(error) => Err(error),
        }
    }

    /// Whether the sheet under `db_key` can be made: it is unknown, so that
    /// making it fails, or it declares a sprite.
    pub open spec fn sheet_has_sprites(&self, db_key: Seq<char>) -> bool {
        self.database().sprite_sheets().dom().contains(db_key) ==> declared_sprites(
            self.database().sprite_sheets()[db_key],
        ).len() > 0
    }

    /// Decides `sheet_has_sprites`.
    pub fn check_sheet_has_sprites(&self, db_key: &str) -> (ok: bool)
        ensures
            ok == self.sheet_has_sprites(db_key@),
    {
        match self.database.sprite_sheet(db_key) {
            Some(entry) => match &entry.cfg.sprites {
                Some(sprites) => sprites.len() > 0,
                None => false,
            },
            None => true,
        }
    }

    /// Takes the sheet that `info` asks for into the pool, with what was
    /// made for it on the GPU and with the table of its sprites. Fails as
    /// `Database::fetch_sprite_sheet` does, or with a slot error when the
    /// pool is exhausted, and then changes nothing.
    pub fn make_sprite_sheet(&mut self, info: &SpriteSheetInfo, made: Uploaded) -> (result: Result<
        Handle<SpriteSheet>,
        Error,
    >)
        requires
            old(self).wf(),
            old(self).sheet_has_sprites(info.db_key@),
        ensures
            final(self).wf(),
            final(self).same_setup(old(self)),
            final(self).sprites() == old(self).sprites(),
            final(self).fonts() == old(self).fonts(),
            match result {
                Ok(handle) => {
                    &&& old(self).database().sprite_sheets().dom().contains(info.db_key@)
                    &&& old(self).database().sprite_sheets()[info.db_key@].loaded matches Some(
                        loaded,
                    )
                    &&& old(self).sprite_sheets().vacancies() > 0
                    &&& handle == old(self).sprite_sheets().next_handle()
                    &&& !old(self).sprite_sheets()@.dom().contains(handle)
                    &&& final(self).sprite_sheets()@.dom().contains(handle)
                    &&& final(self).sprite_sheets()@ == old(self).sprite_sheets()@.insert(
                        handle,
                        final(self).sprite_sheets()@[handle],
                    )
                    &&& final(self).sprite_sheets()@[handle].dim == loaded.size
                    &&& final(self).sprite_sheets()@[handle].handle == made.image
                    &&& final(self).sprite_sheets()@[handle].view == made.view
                    &&& final(self).sprite_sheets()@[handle].bg == made.bg
                    &&& final(self).sprite_sheets()@[handle].sprites@ == sprite_table(
                        declared_sprites(old(self).database().sprite_sheets()[info.db_key@]),
                    )
                    &&& old(self).sprite_sheets().inserts_to(
                        &final(self).sprite_sheets(),
                        final(self).sprite_sheets()@[handle],
                        Ok(handle),
                    )
                },
                Err(Error::LookupError(error)) => {
                    &&& !old(self).database().sprite_sheets().dom().contains(info.db_key@)
                    &&& error.entry@ == info.db_key@
                    &&& final(self).sprite_sheets() == old(self).sprite_sheets()
                },
                Err(Error::LoadingError(error)) => {
                    &&& old(self).database().sprite_sheets().dom().contains(info.db_key@)
                    &&& old(self).database().sprite_sheets()[info.db_key@].loaded is None
                    &&& error.entry@ == info.db_key@
                    &&& final(self).sprite_sheets() == old(self).sprite_sheets()
                },
                Err(Error::SlotError()) => {
                    &&& old(self).database().sprite_sheets().dom().contains(info.db_key@)
                    &&& old(self).database().sprite_sheets()[info.db_key@].loaded is Some
                    &&& old(self).sprite_sheets().vacancies() == 0
                    &&& final(self).sprite_sheets()@ == old(self).sprite_sheets()@
                    &&& final(self).sprite_sheets().vacancies() == 0
                    &&& final(self).sprite_sheets().free_handles() == old(self).sprite_sheets().free_handles()
                    &&& final(self).sprite_sheets().slot_count() == old(self).sprite_sheets().slot_count()
                    &&& final(self).sprite_sheets().limit() == old(self).sprite_sheets().limit()
                },
            },
    {
        let mut hashed: HashMap<u32, Rect2D> = HashMap::new();
        let dim: [u32; 2] = match self.database.fetch_sprite_sheet(info.db_key) {
            Ok(entry) => {
                if let Some(sprites) = &entry.cfg.sprites {
                    assert(sprites@.take(0) =~= Seq::<SpriteSheetJSONSprite>::empty());
                    let mut k: usize = 0;
                    while k < sprites.len()
                        invariant
                            k <= sprites.len(),
                            hashed@ == sprite_table(sprites@.take(k as int)),
                        decreases sprites.len() - k,
                    {
                        assert(sprites@.take(k + 1).drop_last() =~= sprites@.take(k as int));
                        hashed.insert(sprites[k].id, sprites[k].bounds);
                        k = k + 1;
                    }
                    assert(sprites@.take(k as int) =~= sprites@);
                }
                match &entry.loaded {
                    Some(loaded) => loaded.size,
                    None => vstd::pervasive::unreached(),
                }
            },
            Err(error) => {
                return Err(error);
            },
        };
        let sheet = SpriteSheet {
            dim,
            handle: made.image,
            sprites: hashed,
            view: made.view,
            bg: made.bg,
        };
        match self.sprite_sheets.insert(sheet) {
            Ok(handle) => Ok(handle),
            Err(_) => Err(Error::SlotError()),
        }
    }

    /// The image to make for the font that `info` asks for: its atlas, one
    /// byte for each pixel. Fails as `Database::fetch_ttf` does.
    pub fn font_image(&self, info: &FontInfo) -> (result: Result<ImageInfo, Error>)
        ensures
            match result {
                Ok(image) => {
                    &&& self.database().ttfs().dom().contains(info.db_key@)
                    &&& self.database().ttfs()[info.db_key@].loaded matches Some(font)
                    &&& image.debug_name@ == info.name@
                    &&& image.dim@ == seq![font.atlas_size().0, font.atlas_size().1, 1u32]
                    &&& image.format == Format::R8_UINT
                    &&& image.mip_levels == 1
                },
                Err(Error::LookupError(error)) => !self.database().ttfs().dom().contains(
                    info.db_key@,
                ) && error.entry@ == info.db_key@,
                Err(Error::LoadingError(error)) => self.database().ttfs().dom().contains(
                    info.db_key@,
                ) && self.database().ttfs()[info.db_key@].loaded is None && error.entry@
                    == info.db_key@,
                Err(Error::SlotError()) => false,
            },
    {
        match self.database.fetch_ttf(info.db_key) {
            Ok(entry) => match &entry.loaded {
                Some(font) => {
                    let image = ImageInfo {
                        debug_name: String::from_str(info.name),
                        dim: [font.atlas_width(), font.atlas_height(), 1],
                        format: Format::R8_UINT,
                        mip_levels: 1,
                    };
                    assert(image.dim@ =~= seq![font.atlas_size().0, font.atlas_size().1, 1u32]);
                    Ok(image)
                },
                None => vstd::pervasive::unreached(),
            },
            Err(error) => Err(error),
        }
    }

    /// Takes the font that `info` asks for into the pool, with what was
    /// made for it on the GPU. Fails as `Database::fetch_ttf` does, or with
    /// a slot error when the pool is exhausted, and then changes nothing.
    pub fn make_font(&mut self, info: &FontInfo, made: Uploaded) -> (result: Result<
        Handle<Font>,
        Error,
    >)
        requires
            old(self).wf(),
        ensures
            final(self).wf(),
            final(self).same_setup(old(self)),
            final(self).sprites() == old(self).sprites(),
            final(self).sprite_sheets() == old(self).sprite_sheets(),
            match result {
                Ok(handle) => {
                    &&& old(self).database().ttfs().dom().contains(info.db_key@)
                    &&& old(self).database().ttfs()[info.db_key@].loaded matches Some(font)
                    &&& old(self).fonts().vacancies() > 0
                    &&& handle == old(self).fonts().next_handle()
                    &&& !old(self).fonts()@.dom().contains(handle)
                    &&& final(self).fonts()@.dom().contains(handle)
                    &&& final(self).fonts()@ == old(self).fonts()@.insert(
                        handle,
                        final(self).fonts()@[handle],
                    )
                    &&& final(self).fonts()@[handle].dim@ == seq![
                        font.atlas_size().0,
                        font.atlas_size().1,
                    ]
                    &&& final(self).fonts()@[handle].atlas == made.image
                    &&& final(self).fonts()@[handle].atlas_view == made.view
                    &&& final(self).fonts()@[handle].bg == made.bg
                    &&& final(self).fonts()@[handle].font@ == info.db_key@
                    &&& old(self).fonts().inserts_to(
                        &final(self).fonts(),
                        final(self).fonts()@[handle],
                        Ok(handle),
                    )
                },
                Err(Error::LookupError(error)) => {
                    &&& !old(self).database().ttfs().dom().contains(info.db_key@)
                    &&& error.entry@ == info.db_key@
                    &&& final(self).fonts() == old(self).fonts()
                },
                Err(Error::LoadingError(error)) => {
                    &&& old(self).database().ttfs().dom().contains(info.db_key@)
                    &&& old(self).database().ttfs()[info.db_key@].loaded is None
                    &&& error.entry@ == info.db_key@
                    &&& final(self).fonts() == old(self).fonts()
                },
                Err(Error::SlotError()) => {
                    &&& old(self).database().ttfs().dom().contains(info.db_key@)
                    &&& old(self).database().ttfs()[info.db_key@].loaded is Some
                    &&& old(self).fonts().vacancies() == 0
                    &&& final(self).fonts()@ == old(self).fonts()@
                    &&& final(self).fonts().vacancies() == 0
                    &&& final(self).fonts().free_handles() == old(self).fonts().free_handles()
                    &&& final(self).fonts().slot_count() == old(self).fonts().slot_count()
                    &&& final(self).fonts().limit() == old(self).fonts().limit()
                },
            },
    {
        let dim: [u32; 2] = match self.database.fetch_ttf(info.db_key) {
            Ok(entry) => match &entry.loaded {
                Some(font) => [font.atlas_width(), font.atlas_height()],
                None => vstd::pervasive::unreached(),
            },
            Err(error) => {
                return Err(error);
            },
        };
        assert(dim@ =~= seq![dim[0], dim[1]]);
        let font = Font {
            dim,
            atlas: made.image,
            atlas_view: made.view,
            bg: made.bg,
            font: String::from_str(info.db_key),
        };
        match self.fonts.insert(font) {
            Ok(handle) => Ok(handle),
            Err(_) => Err(Error::SlotError()),
        }
    }

    /// What stays as it is while a frame is drawn.
    pub open spec fn same_assets(&self, other: &ResourceManager) -> bool {
        &&& self.objects() == other.objects()
        &&& self.canvas_spec() == other.canvas_spec()
        &&& self.database() == other.database()
        &&& self.sprites() == other.sprites()
        &&& self.sprite_sheets() == other.sprite_sheets()
        &&& self.fonts() == other.fonts()
        &&& self.allocator_spec().byte_size() == other.allocator_spec().byte_size()
        &&& self.allocator_spec().block_size() == other.allocator_spec().block_size()
        &&& self.allocator_spec().blocks() == other.allocator_spec().blocks()
    }

    /// How many uniform blocks the frame has taken.
    pub open spec fn issued(&self) -> nat {
        self.allocator_spec().issued()
    }

    /// How many uniform blocks a frame may take.
    pub open spec fn blocks(&self) -> nat {
        self.allocator_spec().blocks()
    }

    /// Uniform block number `k` of a frame.
    pub open spec fn block(&self, k: nat) -> TransientAllocation {
        self.allocator_spec().region(k)
    }

    /// A well-formed manager has a well-formed allocator and well-formed
    /// pools.
    pub proof fn lemma_wf(self)
        requires
            self.wf(),
        ensures
            self.allocator_spec().wf(),
            self.sprites().wf(),
            self.sprite_sheets().wf(),
            self.fonts().wf(),
    {
    }

    /// The first `n` uniform blocks of a frame share no byte, each lies
    /// inside the staging buffer, and all have the size of a block: the
    /// blocks of a draw overlap neither each other nor the blocks that
    /// were taken before in the frame.
    pub proof fn lemma_frame_blocks(self, n: nat)
        requires
            self.wf(),
            n <= self.blocks(),
        ensures
            forall|j: nat, k: nat|
                j < k < n ==> !(#[trigger] self.block(j)).overlaps(#[trigger] self.block(k)),
            forall|k: nat|
                k < n ==> (#[trigger] self.block(k)).end() <= self.allocator_spec().byte_size()
                    && self.block(k).size == self.allocator_spec().block_size()
                    && self.block(k).offset == k * self.allocator_spec().block_size(),
    {
        self.allocator.lemma_frame_blocks(n);
        assert forall|k: nat| k < n implies (#[trigger] self.block(k)).end()
            <= self.allocator_spec().byte_size() && self.block(k).size
            == self.allocator_spec().block_size() && self.block(k).offset == k
            * self.allocator_spec().block_size() by {
            self.allocator.lemma_region_fits(k);
        }
    }

    /// No frame takes more uniform blocks than there are.
    pub proof fn lemma_issued_within(self)
        requires
            self.wf(),
        ensures
            self.issued() <= self.blocks(),
    {
        self.allocator.lemma_issued_within();
    }

    /// Takes back the uniform blocks of the frame before.
    pub fn reset_allocator(&mut self)
        requires
            old(self).wf(),
        ensures
            final(self).wf(),
            final(self).same_assets(old(self)),
            final(self).issued() == 0,
    {
        self.allocator.reset();
    }

    /// Takes the next uniform block of the frame. Fails, and changes
    /// nothing, when the frame has used up its blocks.
    pub fn bump(&mut self) -> (result: Result<TransientAllocation, SlotError>)
        requires
            old(self).wf(),
        ensures
            final(self).wf(),
            final(self).same_assets(old(self)),
            old(self).issued() < old(self).blocks() ==> {
                &&& result == Ok::<TransientAllocation, SlotError>(
                    old(self).block(old(self).issued()),
                )
                &&& final(self).issued() == old(self).issued() + 1
            },
            old(self).issued() >= old(self).blocks() ==> {
                &&& result is Err
                &&& final(self).issued() == old(self).issued()
                &&& old(self).issued() == old(self).blocks()
            },
    {
        proof {
            self.allocator.lemma_issued_within();
        }
        self.allocator.bump()
    }

    /// The sprite that `handle` names.
    pub fn sprite(&self, handle: Handle<Sprite>) -> (found: Option<&Sprite>)
        requires
            self.wf(),
        ensures
            self.sprites()@.dom().contains(handle) ==> found == Some(&self.sprites()@[handle]),
            !self.sprites()@.dom().contains(handle) ==> found is None,
    {
        self.sprites.get(handle)
    }

    /// The sprite sheet that `handle` names.
    pub fn sprite_sheet(&self, handle: Handle<SpriteSheet>) -> (found: Option<&SpriteSheet>)
        requires
            self.wf(),
        ensures
            self.sprite_sheets()@.dom().contains(handle) ==> found == Some(
                &self.sprite_sheets()@[handle],
            ),
            !self.sprite_sheets()@.dom().contains(handle) ==> found is None,
    {
        self.sprite_sheets.get(handle)
    }

    /// The font that `handle` names.
    pub fn font(&self, handle: Handle<Font>) -> (found: Option<&Font>)
        requires
            self.wf(),
        ensures
            self.fonts()@.dom().contains(handle) ==> found == Some(&self.fonts()@[handle]),
            !self.fonts()@.dom().contains(handle) ==> found is None,
    {
        self.fonts.get(handle)
    }
}

} // verus!
