//! The renderer of a frame: it takes the draws of a game between the
//! beginning and the end of a frame and plans, for each, the uniform blocks
//! and the draw call.

use vstd::prelude::*;
use crate::error::SlotError;
use crate::font::Glyph;
use crate::font::GlyphOf;
use crate::frame::FrameState;
use crate::frame::FrameSubmitter;
use crate::frame::slot_after;
use crate::geometry::Rect2D;
use crate::geometry::Scalar;
use crate::geometry::Vec2;
use crate::geometry::Vec4;
use crate::gpu::DrawIndexed;
use crate::gpu::DrawIndexedDynamic;
use crate::gpu::GraphicsPipeline;
use crate::gpu::ImageView;
use crate::gpu::Semaphore;
use crate::gpu::Viewport;
use crate::particle::ComputePass;
use crate::particle::ParticleDraw;
use crate::particle::ParticleSystem;
use crate::particle::QUAD_INDICES;
use crate::pool::Handle;
use crate::resource_manager::ResourceManager;
use crate::types::Font;
use crate::types::Sprite;
use crate::types::SpriteSheet;

verus! {

broadcast use vstd::std_specs::hash::group_hash_axioms;

/// How many frames may be under way at once.
pub const FRAMES_IN_FLIGHT: u32 = 3;

/// Draw the sprite at `position`, in pixels of the screen.
pub struct SpriteDrawCommand {
    pub sprite: Handle<Sprite>,
    pub position: Vec2,
    pub size: Vec2,
    pub rotation: Scalar,
}

/// Draw sprite number `sprite_id` of the sheet.
pub struct SpriteSheetDrawCommand {
    pub sheet: Handle<SpriteSheet>,
    pub sprite_id: u32,
    pub position: Vec2,
    pub size: Vec2,
    pub rotation: Scalar,
}

pub struct TextDrawCommand<'a> {
    pub font: Handle<Font>,
    pub position: Vec2,
    pub scale: Scalar,
    pub text: &'a str,
    pub color: Vec4,
}

/// White, and opaque.
pub open spec fn white() -> Vec4 {
    Vec4 { x: Scalar::one_spec(), y: Scalar::one_spec(), z: Scalar::one_spec(), w: Scalar::one_spec() }
}

impl<'a> Default for TextDrawCommand<'a> {
    /// No text, at the origin, in white.
    fn default() -> (command: TextDrawCommand<'a>)
        ensures
            command.font == Handle::<Font>::at(0, 0),
            command.position == Vec2::zero_spec(),
            command.scale == Scalar::zero_spec(),
            command.text@ == Seq::<char>::empty(),
            command.color == white(),
    {
        proof {
            reveal_strlit("");
        }
        let text = "";
        assert(text@ =~= Seq::<char>::empty());
        TextDrawCommand {
            font: Handle::new(0, 0),
            position: Vec2::zero(),
            scale: Scalar::zero(),
            text,
            color: Vec4 { x: Scalar::one(), y: Scalar::one(), z: Scalar::one(), w: Scalar::one() },
        }
    }
}

/// What begins a frame: the slot that the frame records into, the compute
/// pass of the particles, and the render pass that the draws go into.
pub struct FrameBegin {
    pub slot: u32,
    pub compute: ComputePass,
    pub viewport: Viewport,
    pub pipeline: Handle<GraphicsPipeline>,
}

/// What ends a frame: the draw of the particles, the copy of the canvas to
/// the image that is shown, the submission, which waits for that image and
/// signals when the frame is done, and the slot that was recorded into.
pub struct FrameEnd {
    pub particles: ParticleDraw,
    pub blit_src: Handle<ImageView>,
    pub blit_dst: Handle<ImageView>,
    pub wait_sem: Handle<Semaphore>,
    pub signal_sem: Handle<Semaphore>,
    pub slot: u32,
}

/// The draw of a sprite: the command, for the transform that goes into
/// uniform slot 0, and the draw call. The camera, at the origin, goes into
/// uniform slot 1.
pub struct SpriteDraw {
    pub position: Vec2,
    pub size: Vec2,
    pub rotation: Scalar,
    pub draw: DrawIndexed,
}

/// The draw of a sprite of a sheet: the command, where the sprite lies in
/// the sheet, and the draw call, whose vertices take a block of their own.
pub struct SpriteSheetDraw {
    pub position: Vec2,
    pub size: Vec2,
    pub rotation: Scalar,
    pub bounds: Rect2D,
    pub dim: [u32; 2],
    pub draw: DrawIndexedDynamic,
}

/// The draw of one glyph: the glyph, for the quad that goes into the block
/// of the vertices, and the draw call. The color goes into uniform slot 0.
pub struct GlyphDraw {
    pub character: char,
    pub glyph: Glyph,
    pub draw: DrawIndexedDynamic,
}

/// The draws of a text: the command, the size of the font's atlas, the
/// render pass for text, and the glyphs in the order of the text.
pub struct TextDraw {
    pub position: Vec2,
    pub scale: Scalar,
    pub color: Vec4,
    pub dim: [u32; 2],
    pub viewport: Viewport,
    pub pipeline: Handle<GraphicsPipeline>,
    pub glyphs: Vec<GlyphDraw>,
}

/// The character with its glyph in `glyphs`.
pub open spec fn glyph_in(character: char, glyphs: Map<u32, Glyph>) -> GlyphOf {
    GlyphOf { character, glyph: glyphs[character as u32] }
}

/// The characters of `text` that have a glyph in `glyphs`, in their order,
/// each with its glyph.
pub open spec fn glyphs_of(text: Seq<char>, glyphs: Map<u32, Glyph>) -> Seq<GlyphOf>
    decreases text.len(),
{
    if text.len() == 0 {
        Seq::empty()
    } else if glyphs.dom().contains(text.last() as u32) {
        glyphs_of(text.drop_last(), glyphs).push(glyph_in(text.last(), glyphs))
    } else {
        glyphs_of(text.drop_last(), glyphs)
    }
}

pub struct Renderer2D {
    state: FrameState,
    manager: ResourceManager,
    particle_system: ParticleSystem,
    cmd: FrameSubmitter,
    frame_done: Handle<Semaphore>,
    display_img: Handle<ImageView>,
    display_sem: Handle<Semaphore>,
}

impl Renderer2D {
    pub closed spec fn wf(&self) -> bool {
        &&& self.manager.wf()
        &&& self.particle_system.wf()
        &&& self.cmd.wf()
        &&& self.manager.canvas_spec().color_views().len() > 0
    }

    pub closed spec fn state(&self) -> FrameState {
        self.state
    }

    pub closed spec fn manager(&self) -> ResourceManager {
        self.manager
    }

    pub closed spec fn particles(&self) -> ParticleSystem {
        self.particle_system
    }

    pub closed spec fn submitter(&self) -> FrameSubmitter {
        self.cmd
    }

    /// The semaphore that tells that a frame is done.
    pub closed spec fn frame_done(&self) -> Handle<Semaphore> {
        self.frame_done
    }

    /// The image that the frame is shown in, and the semaphore that tells
    /// that the image can be written.
    pub closed spec fn display(&self) -> (Handle<ImageView>, Handle<Semaphore>) {
        (self.display_img, self.display_sem)
    }

    /// A well-formed renderer has a well-formed manager, particle system
    /// and ring of frames, and a canvas with a color attachment.
    pub proof fn lemma_wf(self)
        requires
            self.wf(),
        ensures
            self.manager().wf(),
            self.particles().wf(),
            self.submitter().wf(),
            self.manager().canvas_spec().color_views().len() > 0,
    {
    }

    /// What a draw leaves as it is.
    pub open spec fn same_frame(&self, other: &Renderer2D) -> bool {
        &&& self.state() == other.state()
        &&& self.particles() == other.particles()
        &&& self.submitter() == other.submitter()
        &&& self.frame_done() == other.frame_done()
        &&& self.display() == other.display()
        &&& self.manager().same_assets(&other.manager())
    }

    /// A renderer between frames. The canvas of the manager must have a
    /// color attachment: that is what is shown.
    pub fn new(
        manager: ResourceManager,
        particle_system: ParticleSystem,
        frame_done: Handle<Semaphore>,
    ) -> (renderer: Renderer2D)
        requires
            manager.wf(),
            particle_system.wf(),
            manager.canvas_spec().color_views().len() > 0,
        ensures
            renderer.wf(),
            renderer.state() == FrameState::Idle,
            renderer.manager() == manager,
            renderer.particles() == particle_system,
            renderer.submitter().in_flight() == FRAMES_IN_FLIGHT,
            renderer.submitter().slot() == 0,
            renderer.frame_done() == frame_done,
    {
        Renderer2D {
            state: FrameState::Idle,
            manager,
            particle_system,
            cmd: FrameSubmitter::new(FRAMES_IN_FLIGHT),
            frame_done,
            display_img: Handle::new(0, 0),
            display_sem: Handle::new(0, 0),
        }
    }

    pub fn frame_state(&self) -> (state: FrameState)
        ensures
            state == self.state(),
    {
        self.state
    }

    /// The slot that the frame records into.
    pub fn current_slot(&self) -> (slot: u32)
        requires
            self.wf(),
        ensures
            slot == self.submitter().slot(),
    {
        self.cmd.current_slot()
    }

    /// The particle system, for emitting. The renderer stays well formed
    /// if the particle system does.
    pub fn particle_system(&mut self) -> (system: &mut ParticleSystem)
        requires
            old(self).wf(),
        ensures
            *system == old(self).particles(),
            system.wf(),
            final(self).particles() == *final(system),
            final(system).wf() ==> final(self).wf(),
            final(self).state() == old(self).state(),
            final(self).manager() == old(self).manager(),
            final(self).submitter() == old(self).submitter(),
            final(self).frame_done() == old(self).frame_done(),
            final(self).display() == old(self).display(),
    {
        &mut self.particle_system
    }

    /// The resource manager, for making sprites, sheets and fonts. The
    /// renderer stays well formed if the manager does and keeps its canvas.
    pub fn resources(&mut self) -> (manager: &mut ResourceManager)
        requires
            old(self).wf(),
        ensures
            *manager == old(self).manager(),
            manager.wf(),
            final(self).manager() == *final(manager),
            final(manager).wf() && final(manager).canvas_spec() == old(self).manager().canvas_spec()
                ==> final(self).wf(),
            final(self).state() == old(self).state(),
            final(self).particles() == old(self).particles(),
            final(self).submitter() == old(self).submitter(),
            final(self).frame_done() == old(self).frame_done(),
            final(self).display() == old(self).display(),
    {
        &mut self.manager
    }

    /// What `begin_drawing_at` does at the reading `now`: the uniform
    /// blocks of the frame before are taken back, the particle system
    /// plans its compute pass, and the frame takes draws. Where the
    /// particle system has no block for its pass, the frame is not begun.
    pub open spec fn begins_to(
        &self,
        after: &Renderer2D,
        image: Handle<ImageView>,
        ready: Handle<Semaphore>,
        result: Result<FrameBegin, SlotError>,
        now: u128,
    ) -> bool {
        &&& after.manager().same_assets(&self.manager())
        &&& after.manager().issued() == 0
        &&& after.submitter() == self.submitter()
        &&& after.frame_done() == self.frame_done()
        &&& after.display() == (image, ready)
        &&& exists|pass: Result<ComputePass, SlotError>|
            self.particles().updates_to(&after.particles(), pass, now) && match (pass, result) {
                (Ok(pass), Ok(begin)) => {
                    &&& begin.slot == self.submitter().slot()
                    &&& begin.compute == pass
                    &&& begin.viewport == self.manager().canvas_spec().viewport_spec()
                    &&& begin.pipeline == self.manager().objects().gfx.pipeline
                    &&& after.state() == FrameState::Recording
                },
                (Err(_), Err(_)) => after.state() == FrameState::Idle,
                _ => false,
            }
    }

    /// Begins a frame at the clock reading `now`, with the image that the
    /// display gave for it and the semaphore that tells when that image can
    /// be written. The compute pass of the particles comes before the
    /// render pass that the draws go into.
    pub fn begin_drawing_at(
        &mut self,
        image: Handle<ImageView>,
        ready: Handle<Semaphore>,
        now: u128,
    ) -> (result: Result<FrameBegin, SlotError>)
        requires
            old(self).wf(),
            old(self).state() == FrameState::Idle,
        ensures
            final(self).wf(),
            old(self).begins_to(final(self), image, ready, result, now),
    {
        self.manager.reset_allocator();
        self.display_img = image;
        self.display_sem = ready;
        let pass = self.particle_system.update_at(now);
        match pass {
            Ok(compute) => {
                self.state = FrameState::Recording;
                let begin = FrameBegin {
                    slot: self.cmd.current_slot(),
                    compute,
                    viewport: self.manager.canvas().viewport(),
                    pipeline: self.manager.gfx().pipeline,
                };
                assert(old(self).particles().updates_to(
                    &self.particles(),
                    Ok::<ComputePass, SlotError>(begin.compute),
                    now,
                ));
                Ok(begin)
            },
            Err(error) => {
                assert(old(self).particles().updates_to(
                    &self.particles(),
                    Err::<ComputePass, SlotError>(error),
                    now,
                ));
                Err(error)
            },
        }
    }

    /// `begin_drawing_at` at the clock's reading.
    pub fn begin_drawing(&mut self, image: Handle<ImageView>, ready: Handle<Semaphore>) -> (result:
        Result<FrameBegin, SlotError>)
        requires
            old(self).wf(),
            old(self).state() == FrameState::Idle,
        ensures
            final(self).wf(),
            exists|now: u128| old(self).begins_to(final(self), image, ready, result, now),
    {
        let now = self.particle_system.now();
        self.begin_drawing_at(image, ready, now)
    }

    /// What `finish_drawing_at` does at the reading `now`: the particles
    /// are drawn last, the canvas is copied to the image that is shown,
    /// and the frame is handed to the GPU, so that the next frame records
    /// into the next slot. Where the particle system has not the blocks
    /// for its draw, the frame goes on taking draws.
    pub open spec fn finishes_to(
        &self,
        after: &Renderer2D,
        result: Result<FrameEnd, SlotError>,
        now: u128,
    ) -> bool {
        &&& after.manager() == self.manager()
        &&& after.frame_done() == self.frame_done()
        &&& after.display() == self.display()
        &&& after.submitter().in_flight() == self.submitter().in_flight()
        &&& exists|draw: Result<ParticleDraw, SlotError>|
            self.particles().draws_to(&after.particles(), draw, now) && match (draw, result) {
                (Ok(draw), Ok(end)) => {
                    &&& end.particles == draw
                    &&& end.blit_src == self.manager().canvas_spec().color_views()[0]
                    &&& end.blit_dst == self.display().0
                    &&& end.wait_sem == self.display().1
                    &&& end.signal_sem == self.frame_done()
                    &&& end.slot == self.submitter().slot()
                    &&& after.state() == FrameState::Submitted
                    &&& after.submitter().slot() == slot_after(
                        self.submitter().slot(),
                        1,
                        self.submitter().in_flight(),
                    )
                },
                (Err(_), Err(_)) => after.state() == FrameState::Recording
                    && after.submitter() == self.submitter(),
                _ => false,
            }
    }

    /// Ends the frame at the clock reading `now`.
    pub fn finish_drawing_at(&mut self, now: u128) -> (result: Result<FrameEnd, SlotError>)
        requires
            old(self).wf(),
            old(self).state() == FrameState::Recording,
        ensures
            final(self).wf(),
            old(self).finishes_to(final(self), result, now),
    {
        let draw = self.particle_system.draw_at(now);
        match draw {
            Ok(particles) => {
                let end = FrameEnd {
                    particles,
                    blit_src: self.manager.canvas().color_attachment(0),
                    blit_dst: self.display_img,
                    wait_sem: self.display_sem,
                    signal_sem: self.frame_done,
                    slot: self.cmd.current_slot(),
                };
                self.cmd.submit();
                self.state = FrameState::Submitted;
                assert(old(self).particles().draws_to(
                    &self.particles(),
                    Ok::<ParticleDraw, SlotError>(end.particles),
                    now,
                ));
                Ok(end)
            },
            Err(error) => {
                assert(old(self).particles().draws_to(
                    &self.particles(),
                    Err::<ParticleDraw, SlotError>(error),
                    now,
                ));
                Err(error)
            },
        }
    }

    /// `finish_drawing_at` at the clock's reading.
    pub fn finish_drawing(&mut self) -> (result: Result<FrameEnd, SlotError>)
        requires
            old(self).wf(),
            old(self).state() == FrameState::Recording,
        ensures
            final(self).wf(),
            exists|now: u128| old(self).finishes_to(final(self), result, now),
    {
        let now = self.particle_system.now();
        self.finish_drawing_at(now)
    }

    /// The frame was shown: the renderer is between frames again.
    pub fn presented(&mut self)
        requires
            old(self).wf(),
            old(self).state() == FrameState::Submitted,
        ensures
            final(self).wf(),
            final(self).state() == FrameState::Idle,
            final(self).manager() == old(self).manager(),
            final(self).particles() == old(self).particles(),
            final(self).submitter() == old(self).submitter(),
            final(self).frame_done() == old(self).frame_done(),
            final(self).display() == old(self).display(),
    {
        self.state = FrameState::Idle;
    }

    /// The draw of the sprite that `cmd` names, with the next two uniform
    /// blocks of the frame.
    pub open spec fn sprite_draw(&self, cmd: SpriteDrawCommand) -> SpriteDraw {
        SpriteDraw {
            position: cmd.position,
            size: cmd.size,
            rotation: cmd.rotation,
            draw: DrawIndexed {
                vertices: self.manager().objects().vertices,
                indices: self.manager().objects().indices,
                dynamic_buffers: [
                    Some(self.manager().block(self.manager().issued())),
                    Some(self.manager().block(self.manager().issued() + 1)),
                    None,
                    None,
                ],
                bind_groups: [Some(self.manager().sprites()@[cmd.sprite].bg), None, None, None],
                index_count: QUAD_INDICES,
                instance_count: 1,
                first_instance: 0,
            },
        }
    }

    /// Plans the draw of a sprite. It takes two uniform blocks, for the
    /// transform and for the camera, and fails when the frame has not that
    /// many left. A handle that names no sprite is no failure: then
    /// nothing is drawn, and the blocks are used up all the same.
    pub fn draw_sprite(&mut self, cmd: &SpriteDrawCommand) -> (result: Result<
        Option<SpriteDraw>,
        SlotError,
    >)
        requires
            old(self).wf(),
            old(self).state() == FrameState::Recording,
        ensures
            final(self).wf(),
            final(self).same_frame(old(self)),
            old(self).manager().issued() + 2 > old(self).manager().blocks() ==> {
                &&& result is Err
                &&& final(self).manager().issued() == old(self).manager().blocks()
            },
            old(self).manager().issued() + 2 <= old(self).manager().blocks() ==> {
                &&& final(self).manager().issued() == old(self).manager().issued() + 2
                &&& result == Ok::<Option<SpriteDraw>, SlotError>(
                    if old(self).manager().sprites()@.dom().contains(cmd.sprite) {
                        Some(old(self).sprite_draw(*cmd))
                    } else {
                        None
                    },
                )
            },
    {
        let b1 = match self.manager.bump() {
            Ok(block) => block,
            Err(error) => {
                return Err(error);
            },
        };
        let b2 = match self.manager.bump() {
            Ok(block) => block,
            Err(error) => {
                return Err(error);
            },
        };
        let sprite_bg = match self.manager.sprite(cmd.sprite) {
            Some(sprite) => sprite.bg,
            None => {
                return Ok(None);
            },
        };
        let plan = SpriteDraw {
            position: cmd.position,
            size: cmd.size,
            rotation: cmd.rotation,
            draw: DrawIndexed {
                vertices: self.manager.vertices(),
                indices: self.manager.indices(),
                dynamic_buffers: [Some(b1), Some(b2), None, None],
                bind_groups: [Some(sprite_bg), None, None, None],
                index_count: QUAD_INDICES,
                instance_count: 1,
                first_instance: 0,
            },
        };
        assert(plan.draw.dynamic_buffers =~= old(self).sprite_draw(*cmd).draw.dynamic_buffers);
        assert(plan.draw.bind_groups =~= old(self).sprite_draw(*cmd).draw.bind_groups);
        Ok(Some(plan))
    }

    /// The draw of the sprite of a sheet that `cmd` names, with the next
    /// three uniform blocks of the frame: for the vertices, for the
    /// transform and for the camera.
    pub open spec fn sprite_sheet_draw(&self, cmd: SpriteSheetDrawCommand) -> SpriteSheetDraw {
        let sheet = self.manager().sprite_sheets()@[cmd.sheet];
        SpriteSheetDraw {
            position: cmd.position,
            size: cmd.size,
            rotation: cmd.rotation,
            bounds: sheet.sprites@[cmd.sprite_id],
            dim: sheet.dim,
            draw: DrawIndexedDynamic {
                vertices: self.manager().block(self.manager().issued()),
                indices: self.manager().objects().indices,
                dynamic_buffers: [
                    Some(self.manager().block(self.manager().issued() + 1)),
                    Some(self.manager().block(self.manager().issued() + 2)),
                    None,
                    None,
                ],
                bind_groups: [Some(sheet.bg), None, None, None],
                index_count: QUAD_INDICES,
                instance_count: 1,
                first_instance: 0,
            },
        }
    }

    /// Whether `cmd` names a sprite of a sheet that there is.
    pub open spec fn sprite_sheet_known(&self, cmd: SpriteSheetDrawCommand) -> bool {
        self.manager().sprite_sheets()@.dom().contains(cmd.sheet)
            && self.manager().sprite_sheets()@[cmd.sheet].sprites@.dom().contains(cmd.sprite_id)
    }

    /// Plans the draw of a sprite of a sheet. It takes three uniform
    /// blocks and fails when the frame has not that many left. A handle
    /// that names no sheet, or a number that names no sprite of the sheet,
    /// is no failure: then nothing is drawn, and the blocks are used up
    /// all the same.
    pub fn draw_spritesheet(&mut self, cmd: &SpriteSheetDrawCommand) -> (result: Result<
        Option<SpriteSheetDraw>,
        SlotError,
    >)
        requires
            old(self).wf(),
            old(self).state() == FrameState::Recording,
        ensures
            final(self).wf(),
            final(self).same_frame(old(self)),
            old(self).manager().issued() + 3 > old(self).manager().blocks() ==> {
                &&& result is Err
                &&& final(self).manager().issued() == old(self).manager().blocks()
            },
            old(self).manager().issued() + 3 <= old(self).manager().blocks() ==> {
                &&& final(self).manager().issued() == old(self).manager().issued() + 3
                &&& result == Ok::<Option<SpriteSheetDraw>, SlotError>(
                    if old(self).sprite_sheet_known(*cmd) {
                        Some(old(self).sprite_sheet_draw(*cmd))
                    } else {
                        None
                    },
                )
            },
    {
        let vert_alloc = match self.manager.bump() {
            Ok(block) => block,
            Err(error) => {
                return Err(error);
            },
        };
        let b1 = match self.manager.bump() {
            Ok(block) => block,
            Err(error) => {
                return Err(error);
            },
        };
        let b2 = match self.manager.bump() {
            Ok(block) => block,
            Err(error) => {
                return Err(error);
            },
        };
        let sheet = match self.manager.sprite_sheet(cmd.sheet) {
            Some(sheet) => sheet,
            None => {
                return Ok(None);
            },
        };
        let bounds = match sheet.sprites.get(&cmd.sprite_id) {
            Some(bounds) => *bounds,
            None => {
                return Ok(None);
            },
        };
        let plan = SpriteSheetDraw {
            position: cmd.position,
            size: cmd.size,
            rotation: cmd.rotation,
            bounds,
            dim: sheet.dim,
            draw: DrawIndexedDynamic {
                vertices: vert_alloc,
                indices: self.manager.indices(),
                dynamic_buffers: [Some(b1), Some(b2), None, None],
                bind_groups: [Some(sheet.bg), None, None, None],
                index_count: QUAD_INDICES,
                instance_count: 1,
                first_instance: 0,
            },
        };
        assert(plan.draw.dynamic_buffers =~= old(self).sprite_sheet_draw(
            *cmd,
        ).draw.dynamic_buffers);
        assert(plan.draw.bind_groups =~= old(self).sprite_sheet_draw(*cmd).draw.bind_groups);
        Ok(Some(plan))
    }

    /// The glyphs of the font that `font` names: those that the database
    /// has under the font's name, none where it has no such font loaded.
    pub open spec fn font_glyphs(&self, font: Handle<Font>) -> Map<u32, Glyph> {
        let name = self.manager().fonts()@[font].font@;
        if self.manager().database().ttfs().dom().contains(name) {
            match self.manager().database().ttfs()[name].loaded {
                Some(loaded) => loaded.glyphs(),
                None => Map::empty(),
            }
        } else {
            Map::empty()
        }
    }

    /// The draw of glyph number `k` of a text in the font `font`: the
    /// vertices take block `2k` of those that the text takes, the color
    /// block `2k + 1`.
    pub open spec fn glyph_draw(&self, font: Handle<Font>, item: GlyphOf, k: nat) -> GlyphDraw {
        GlyphDraw {
            character: item.character,
            glyph: item.glyph,
            draw: DrawIndexedDynamic {
                vertices: self.manager().block(self.manager().issued() + 2 * k),
                indices: self.manager().objects().indices,
                dynamic_buffers: [
                    Some(self.manager().block(self.manager().issued() + 2 * k + 1)),
                    None,
                    None,
                    None,
                ],
                bind_groups: [Some(self.manager().fonts()@[font].bg), None, None, None],
                index_count: QUAD_INDICES,
                instance_count: 1,
                first_instance: 0,
            },
        }
    }

    /// What `draw_text` plans for `cmd` and leaves behind. A handle that
    /// names no font is no failure: then nothing is drawn and no block is
    /// taken. Else every character that the font has a glyph for is
    /// drawn, the others are passed over, and the text fails when the
    /// frame has not two blocks left for each glyph.
    pub open spec fn draws_text_to(
        &self,
        after: &Renderer2D,
        cmd: TextDrawCommand,
        result: Result<Option<TextDraw>, SlotError>,
    ) -> bool {
        let items = glyphs_of(cmd.text@, self.font_glyphs(cmd.font));
        &&& after.same_frame(self)
        &&& !self.manager().fonts()@.dom().contains(cmd.font) ==> {
            &&& result matches Ok(None)
            &&& after.manager().issued() == self.manager().issued()
        }
        &&& self.manager().fonts()@.dom().contains(cmd.font) && self.manager().issued() + 2
            * items.len() > self.manager().blocks() ==> {
            &&& result is Err
            &&& after.manager().issued() == self.manager().blocks()
        }
        &&& self.manager().fonts()@.dom().contains(cmd.font) && self.manager().issued() + 2
            * items.len() <= self.manager().blocks() ==> {
            &&& after.manager().issued() == self.manager().issued() + 2 * items.len()
            &&& result matches Ok(Some(text))
            &&& text.position == cmd.position
            &&& text.scale == cmd.scale
            &&& text.color == cmd.color
            &&& text.dim == self.manager().fonts()@[cmd.font].dim
            &&& text.viewport == self.manager().canvas_spec().viewport_spec()
            &&& text.pipeline == self.manager().objects().gfx.text_pipeline
            &&& text.glyphs@ == Seq::new(
                items.len(),
                |k: int| self.glyph_draw(cmd.font, items[k], k as nat),
            )
        }
    }

    /// Plans the draws of a text, one quad for each glyph.
    pub fn draw_text(&mut self, cmd: &TextDrawCommand) -> (result: Result<
        Option<TextDraw>,
        SlotError,
    >)
        requires
            old(self).wf(),
            old(self).state() == FrameState::Recording,
        ensures
            final(self).wf(),
            old(self).draws_text_to(final(self), *cmd, result),
    {
        let (font_bg, dim, name) = match self.manager.font(cmd.font) {
            Some(font) => (font.bg, font.dim, font.font.clone()),
            None => {
                return Ok(None);
            },
        };
        let ghost table = self.font_glyphs(cmd.font);
        let ghost first = self.manager().issued();
        proof {
            self.manager.lemma_issued_within();
        }
        let mut glyphs: Vec<GlyphDraw> = Vec::new();
        assert(cmd.text@.take(0) =~= Seq::<char>::empty());
        for character in it: cmd.text.chars()
            invariant
                it.seq() == cmd.text@,
                self.wf(),
                self.same_frame(old(self)),
                old(self).manager().fonts()@.dom().contains(cmd.font),
                table == old(self).font_glyphs(cmd.font),
                first == old(self).manager().issued(),
                name@ == old(self).manager().fonts()@[cmd.font].font@,
                font_bg == old(self).manager().fonts()@[cmd.font].bg,
                glyphs.len() == glyphs_of(cmd.text@.take(it.index() as int), table).len(),
                self.manager().issued() == first + 2 * glyphs.len(),
                self.manager().issued() <= self.manager().blocks(),
                forall|k: int|
                    0 <= k < glyphs.len() ==> (#[trigger] glyphs[k]) == old(self).glyph_draw(
                        cmd.font,
                        glyphs_of(cmd.text@.take(it.index() as int), table)[k],
                        k as nat,
                    ),
        {
            let ghost seen = cmd.text@.take(it.index() as int);
            let ghost through = cmd.text@.take(it.index() + 1);
            assert(through.drop_last() =~= seen);
            assert(through.last() == character);
            let found = match self.manager.database_ref().ttf(name.as_str()) {
                Some(entry) => match &entry.loaded {
                    Some(loaded) => loaded.glyph(character),
                    None => None,
                },
                None => None,
            };
            proof {
                lemma_glyphs_step(through, table);
                lemma_glyphs_grow(cmd.text@, table, it.index() + 1);
            }
            assert(found == if table.dom().contains(character as u32) {
                Some(table[character as u32])
            } else {
                None::<Glyph>
            });
            if let Some(glyph) = found {
                let ghost k = glyphs.len();
                let vert_alloc = match self.manager.bump() {
                    Ok(block) => block,
                    Err(error) => {
                        return Err(error);
                    },
                };
                let info = match self.manager.bump() {
                    Ok(block) => block,
                    Err(error) => {
                        return Err(error);
                    },
                };
                let draw = GlyphDraw {
                    character,
                    glyph,
                    draw: DrawIndexedDynamic {
                        vertices: vert_alloc,
                        indices: self.manager.indices(),
                        dynamic_buffers: [Some(info), None, None, None],
                        bind_groups: [Some(font_bg), None, None, None],
                        index_count: QUAD_INDICES,
                        instance_count: 1,
                        first_instance: 0,
                    },
                };
                proof {
                    let item = glyph_in(character, table);
                    assert(item == GlyphOf { character, glyph });
                    let expected = old(self).glyph_draw(cmd.font, item, k as nat);
                    assert(draw.draw.dynamic_buffers =~= expected.draw.dynamic_buffers);
                    assert(draw.draw.bind_groups =~= expected.draw.bind_groups);
                }
                glyphs.push(draw);
            }
        }
        assert(cmd.text@.take(cmd.text@.len() as int) =~= cmd.text@);
        let text = TextDraw {
            position: cmd.position,
            scale: cmd.scale,
            color: cmd.color,
            dim,
            viewport: self.manager.canvas().viewport(),
            pipeline: self.manager.gfx().text_pipeline,
            glyphs,
        };
        assert(text.glyphs@ =~= Seq::new(
            glyphs_of(cmd.text@, table).len(),
            |k: int| old(self).glyph_draw(cmd.font, glyphs_of(cmd.text@, table)[k], k as nat),
        ));
        Ok(Some(text))
    }
}

/// One more character adds its glyph, if it has one, behind the others.
pub proof fn lemma_glyphs_step(text: Seq<char>, glyphs: Map<u32, Glyph>)
    requires
        text.len() > 0,
    ensures
        glyphs.dom().contains(text.last() as u32) ==> glyphs_of(text, glyphs) == glyphs_of(
            text.drop_last(),
            glyphs,
        ).push(glyph_in(text.last(), glyphs)),
        !glyphs.dom().contains(text.last() as u32) ==> glyphs_of(text, glyphs) == glyphs_of(
            text.drop_last(),
            glyphs,
        ),
{
}

/// The glyphs of a longer part of a text begin with the glyphs of a shorter
/// part of it: a text never needs fewer blocks than a part of it.
pub proof fn lemma_glyphs_grow(text: Seq<char>, glyphs: Map<u32, Glyph>, n: int)
    requires
        0 <= n <= text.len(),
    ensures
        glyphs_of(text.take(n), glyphs).len() <= glyphs_of(text, glyphs).len(),
        forall|k: int|
            0 <= k < glyphs_of(text.take(n), glyphs).len() ==> glyphs_of(text.take(n), glyphs)[k]
                == glyphs_of(text, glyphs)[k],
    decreases text.len(),
{
    if n == text.len() {
        assert(text.take(n) =~= text);
    } else {
        let front = text.drop_last();
        assert(front.take(n) =~= text.take(n));
        lemma_glyphs_grow(front, glyphs, n);
        lemma_glyphs_step(text, glyphs);
    }
}

} // verus!
