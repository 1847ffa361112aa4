//! The particle system: a ring of particle records that emission fills from
//! a cursor, the table of animations, and the plans for the compute pass and
//! the draw call of a frame.

use vstd::prelude::*;
use crate::allocator::TransientAllocation;
use crate::allocator::TransientAllocator;
use crate::error::SlotError;
use crate::geometry::Rect2D;
use crate::geometry::Scalar;
use crate::geometry::Vec2;
use crate::particle_json::ParticleSystemJSON;
use crate::particle_json::ParticleSystemJSONAnimation;
use crate::particle_json::ParticleSystemJSONEntry;
use crate::particle_json::MAX_PARTICLE_ANIMATIONS;
use crate::gpu::BindGroup;
use crate::gpu::BindGroupLayout;
use crate::gpu::BindingInfo;
use crate::gpu::Buffer;
use crate::gpu::ComputePipeline;
use crate::gpu::ComputePipelineLayout;
use crate::gpu::Dispatch;
use crate::gpu::DrawIndexed;
use crate::gpu::GraphicsPipeline;
use crate::gpu::GraphicsPipelineLayout;
use crate::gpu::ImageView;
use crate::gpu::ShaderResource;
use crate::gpu::Sampler;
use crate::gpu::SizedImage;
use crate::pool::Handle;
use crate::timer::Timer;
use crate::timer::TimerState;
use crate::timer::NANOS_PER_MILLI;
use crate::timer::span;

verus! {

/// How a particle moves.
#[derive(Clone, Copy, Debug, PartialEq, Eq, Structural)]
pub enum ParticleBehaviour {
    LINEAR,
    GRAVITY,
}

impl ParticleBehaviour {
    /// The number that stands for the behaviour in a particle record.
    pub open spec fn code_spec(self) -> u32 {
        match self {
            ParticleBehaviour::LINEAR => 0,
            ParticleBehaviour::GRAVITY => 1,
        }
    }

    #[verifier::when_used_as_spec(code_spec)]
    pub fn code(self) -> (code: u32)
        ensures
            code == self.code_spec(),
    {
        match self {
            ParticleBehaviour::LINEAR => 0,
            ParticleBehaviour::GRAVITY => 1,
        }
    }
}

impl From<ParticleBehaviour> for u32 {
    fn from(value: ParticleBehaviour) -> (code: u32) {
        value.code()
    }
}

impl vstd::std_specs::convert::FromSpecImpl<ParticleBehaviour> for u32 {
    open spec fn obeys_from_spec() -> bool {
        true
    }

    open spec fn from_spec(value: ParticleBehaviour) -> u32 {
        value.code_spec()
    }
}

/// An entry of the animation table as the models see it.
pub struct AnimationModel {
    pub time_per_frame_ms: Scalar,
    pub anim_count: u32,
    pub regions: Seq<Rect2D>,
}

/// The table entry of a kind of particle: how long a frame lasts, how many
/// frames there are, and where each lies in the atlas. There is room for
/// `MAX_PARTICLE_ANIMATIONS` frames, and the unused ones are zero.
pub struct ParticleAnimation {
    pub time_per_frame_ms: Scalar,
    pub anim_count: u32,
    pub regions: Vec<Rect2D>,
}

impl View for ParticleAnimation {
    type V = AnimationModel;

    open spec fn view(&self) -> AnimationModel {
        AnimationModel {
            time_per_frame_ms: self.time_per_frame_ms,
            anim_count: self.anim_count,
            regions: self.regions@,
        }
    }
}

/// The table entry of a kind that has no animation.
pub open spec fn empty_animation() -> AnimationModel {
    AnimationModel {
        time_per_frame_ms: Scalar::zero_spec(),
        anim_count: 0,
        regions: Seq::new(MAX_PARTICLE_ANIMATIONS as nat, |k: int| Rect2D::zero_spec()),
    }
}

/// The table entry made from `value`: its frames in order, then zeroes.
pub open spec fn converted(value: ParticleSystemJSONAnimation) -> AnimationModel {
    AnimationModel {
        time_per_frame_ms: value.time_per_frame_ms,
        anim_count: value.sprites.len() as u32,
        regions: Seq::new(
            MAX_PARTICLE_ANIMATIONS as nat,
            |k: int|
                if k < value.sprites.len() {
                    value.sprites[k]
                } else {
                    Rect2D::zero_spec()
                },
        ),
    }
}

/// The animation that the table holds for kind `kind`: the last animation of
/// the last entry with that number that has any.
pub open spec fn chosen_animation(
    entries: Seq<ParticleSystemJSONEntry>,
    kind: int,
) -> Option<ParticleSystemJSONAnimation>
    decreases entries.len(),
{
    if entries.len() == 0 {
        None
    } else if entries.last().id == kind && entries.last().animations.len() > 0 {
        Some(entries.last().animations@.last())
    } else {
        chosen_animation(entries.drop_last(), kind)
    }
}

/// The table entry for kind `kind` under the configuration `entries`.
pub open spec fn table_entry(entries: Seq<ParticleSystemJSONEntry>, kind: int) -> AnimationModel {
    match chosen_animation(entries, kind) {
        Some(animation) => converted(animation),
        None => empty_animation(),
    }
}

impl ParticleAnimation {
    pub fn empty() -> (animation: ParticleAnimation)
        ensures
            animation@ == empty_animation(),
    {
        let mut regions: Vec<Rect2D> = Vec::new();
        let mut k: usize = 0;
        while k < MAX_PARTICLE_ANIMATIONS
            invariant
                k <= MAX_PARTICLE_ANIMATIONS,
                regions.len() == k,
                forall|j: int| 0 <= j < k ==> regions[j] == Rect2D::zero_spec(),
            decreases MAX_PARTICLE_ANIMATIONS - k,
        {
            regions.push(Rect2D::zero());
            k = k + 1;
        }
        assert(regions@ =~= empty_animation().regions);
        ParticleAnimation { time_per_frame_ms: Scalar::zero(), anim_count: 0, regions }
    }
}

/// Makes the table entry of an animation.
pub fn convert_animation(value: &ParticleSystemJSONAnimation) -> (animation: ParticleAnimation)
    requires
        value.fits(),
    ensures
        animation@ == converted(*value),
{
    let mut regions: Vec<Rect2D> = Vec::new();
    let mut k: usize = 0;
    while k < MAX_PARTICLE_ANIMATIONS
        invariant
            k <= MAX_PARTICLE_ANIMATIONS,
            regions.len() == k,
            forall|j: int| 0 <= j < k ==> regions[j] == converted(*value).regions[j],
        decreases MAX_PARTICLE_ANIMATIONS - k,
    {
        if k < value.sprites.len() {
            regions.push(value.sprites[k]);
        } else {
            regions.push(Rect2D::zero());
        }
        k = k + 1;
    }
    assert(regions@ =~= converted(*value).regions);
    ParticleAnimation {
        time_per_frame_ms: value.time_per_frame_ms,
        anim_count: value.sprites.len() as u32,
        regions,
    }
}

/// Builds the animation table: one entry for each kind of particle, found
/// under the kind's number.
pub fn build_animation_table(config: &ParticleSystemJSON) -> (table: Vec<ParticleAnimation>)
    requires
        config.fits(),
    ensures
        table.len() == MAX_PARTICLE_ANIMATIONS,
        forall|kind: int|
            0 <= kind < MAX_PARTICLE_ANIMATIONS ==> (#[trigger] table[kind])@ == table_entry(
                config.particles@,
                kind,
            ),
{
    let mut table: Vec<ParticleAnimation> = Vec::new();
    let mut k: usize = 0;
    while k < MAX_PARTICLE_ANIMATIONS
        invariant
            k <= MAX_PARTICLE_ANIMATIONS,
            table.len() == k,
            forall|j: int| 0 <= j < k ==> (#[trigger] table[j])@ == empty_animation(),
        decreases MAX_PARTICLE_ANIMATIONS - k,
    {
        table.push(ParticleAnimation::empty());
        k = k + 1;
    }
    assert(config.particles@.take(0) =~= Seq::<ParticleSystemJSONEntry>::empty());
    let mut e: usize = 0;
    while e < config.particles.len()
        invariant
            config.fits(),
            e <= config.particles.len(),
            table.len() == MAX_PARTICLE_ANIMATIONS,
            forall|kind: int|
                0 <= kind < MAX_PARTICLE_ANIMATIONS ==> (#[trigger] table[kind])@ == table_entry(
                    config.particles@.take(e as int),
                    kind,
                ),
        decreases config.particles.len() - e,
    {
        let entry = &config.particles[e];
        let ghost before = config.particles@.take(e as int);
        let ghost through = config.particles@.take(e + 1);
        assert(through.last() == *entry);
        assert(through.drop_last() =~= before);
        assert(entry.fits());
        let mut a: usize = 0;
        while a < entry.animations.len()
            invariant
                entry.fits(),
                a <= entry.animations.len(),
                table.len() == MAX_PARTICLE_ANIMATIONS,
                forall|kind: int|
                    0 <= kind < MAX_PARTICLE_ANIMATIONS && (kind != entry.id || a == 0) ==> (
                    #[trigger] table[kind])@ == table_entry(before, kind),
                a > 0 ==> entry.id < MAX_PARTICLE_ANIMATIONS && table[entry.id as int]@
                    == converted(entry.animations[a - 1]),
            decreases entry.animations.len() - a,
        {
            let animation = convert_animation(&entry.animations[a]);
            table.set(entry.id as usize, animation);
            a = a + 1;
        }
        e = e + 1;
    }
    assert(config.particles@.take(e as int) =~= config.particles@);
    table
}

/// How many particles the system of a renderer holds.
pub const MAX_PARTICLES: u32 = 2048;

/// How many particles one work group of the compute pass takes.
pub const WORKGROUP_WIDTH: u32 = 32;

/// How many indices draw one quad.
pub const QUAD_INDICES: u32 = 6;

/// One particle as the GPU reads it. Lifetimes are in whole milliseconds.
#[derive(Clone, Copy, Debug, PartialEq, Eq, Structural)]
pub struct ShaderParticle {
    pub position: Vec2,
    pub size: Vec2,
    pub velocity: Vec2,
    pub particle_type: i32,
    pub rot: Scalar,
    pub current_frame: u32,
    pub max_lifetime: u32,
    pub curr_lifetime: u32,
    pub behaviour: u32,
    pub active: u32,
    pub anim_timer: Scalar,
    pub padding: Vec2,
}

/// What to emit: `amount` particles of kind `particle_id`, at `position`
/// (in device coordinates) and of size `size`, that live `lifetime_ms`
/// milliseconds.
pub struct ParticleEmitInfo {
    pub particle_id: u32,
    pub lifetime_ms: u32,
    pub amount: u32,
    pub position: Vec2,
    pub size: Vec2,
    pub initial_velocity: Vec2,
    pub behaviour: ParticleBehaviour,
}

pub struct ParticleRandomEmitInfo {
    pub particle_id: u32,
    pub lifetime_ms: u32,
    pub amount: u32,
    pub center: Vec2,
    pub position_range: Rect2D,
    pub velocity_range: Vec2,
    pub behaviour: ParticleBehaviour,
}

/// What sets one particle of a random emission apart from the others.
#[derive(Clone, Copy, Debug, PartialEq, Eq, Structural)]
pub struct ParticleVariation {
    pub position: Vec2,
    pub size: Vec2,
    pub rot: Scalar,
    pub velocity: Vec2,
}

/// The kind's number as a record holds it: the same 32 bits, read as signed.
pub open spec fn kind_number(particle_id: u32) -> i32 {
    if particle_id <= i32::MAX {
        particle_id as i32
    } else {
        (particle_id - 0x1_0000_0000) as i32
    }
}

fn kind_number_of(particle_id: u32) -> (number: i32)
    ensures
        number == kind_number(particle_id),
{
    if particle_id <= 0x7fff_ffff {
        particle_id as i32
    } else {
        let low: u32 = particle_id - 0x8000_0000;
        low as i32 + i32::MIN
    }
}

impl ShaderParticle {
    /// The record of a slot that was never written.
    pub open spec fn unused_spec() -> ShaderParticle {
        ShaderParticle {
            position: Vec2::zero_spec(),
            size: Vec2::zero_spec(),
            velocity: Vec2::zero_spec(),
            particle_type: 0,
            rot: Scalar::zero_spec(),
            current_frame: 0,
            max_lifetime: 0,
            curr_lifetime: 0,
            behaviour: 0,
            active: 0,
            anim_timer: Scalar::zero_spec(),
            padding: Vec2::zero_spec(),
        }
    }

    #[verifier::when_used_as_spec(unused_spec)]
    pub fn unused() -> (particle: ShaderParticle)
        ensures
            particle == ShaderParticle::unused_spec(),
    {
        ShaderParticle {
            position: Vec2::zero(),
            size: Vec2::zero(),
            velocity: Vec2::zero(),
            particle_type: 0,
            rot: Scalar::zero(),
            current_frame: 0,
            max_lifetime: 0,
            curr_lifetime: 0,
            behaviour: 0,
            active: 0,
            anim_timer: Scalar::zero(),
            padding: Vec2::zero(),
        }
    }

    /// The particle that a plain emission writes: at rest at the position
    /// asked for, alive, with no time lived.
    pub open spec fn plain(info: ParticleEmitInfo) -> ShaderParticle {
        ShaderParticle {
            position: info.position,
            size: info.size,
            velocity: Vec2::zero_spec(),
            particle_type: kind_number(info.particle_id),
            rot: Scalar::zero_spec(),
            current_frame: 0,
            max_lifetime: info.lifetime_ms,
            curr_lifetime: 0,
            behaviour: info.behaviour.code_spec(),
            active: 1,
            anim_timer: Scalar::zero_spec(),
            padding: Vec2::zero_spec(),
        }
    }

    /// The particle that a random emission writes for `variation`.
    pub open spec fn varied(info: ParticleEmitInfo, variation: ParticleVariation) -> ShaderParticle {
        ShaderParticle {
            position: variation.position,
            size: variation.size,
            velocity: variation.velocity,
            rot: variation.rot,
            ..ShaderParticle::plain(info)
        }
    }

    /// Particle number `k` of an emission: varied where there is a
    /// variation for it, plain where there is none.
    pub open spec fn planned(
        info: ParticleEmitInfo,
        variations: Seq<ParticleVariation>,
        k: int,
    ) -> ShaderParticle {
        if 0 <= k < variations.len() {
            ShaderParticle::varied(info, variations[k])
        } else {
            ShaderParticle::plain(info)
        }
    }

    fn make(info: &ParticleEmitInfo, variations: &Vec<ParticleVariation>, k: usize) -> (particle:
        ShaderParticle)
        ensures
            particle == ShaderParticle::planned(*info, variations@, k as int),
    {
        let mut particle = ShaderParticle {
            position: info.position,
            size: info.size,
            velocity: Vec2::zero(),
            particle_type: kind_number_of(info.particle_id),
            rot: Scalar::zero(),
            current_frame: 0,
            max_lifetime: info.lifetime_ms,
            curr_lifetime: 0,
            behaviour: info.behaviour.code(),
            active: 1,
            anim_timer: Scalar::zero(),
            padding: Vec2::zero(),
        };
        if k < variations.len() {
            let variation = variations[k];
            particle.position = variation.position;
            particle.size = variation.size;
            particle.velocity = variation.velocity;
            particle.rot = variation.rot;
        }
        particle
    }

    /// The particle after `delta_ms` more milliseconds. A particle that is
    /// not active stays as it is. An active one has lived that much longer
    /// and is no longer active once it has lived its whole lifetime.
    pub open spec fn aged_spec(self, delta_ms: u32) -> ShaderParticle {
        if self.active == 0 {
            self
        } else {
            let lived: u32 = if self.curr_lifetime + delta_ms > u32::MAX {
                u32::MAX
            } else {
                (self.curr_lifetime + delta_ms) as u32
            };
            ShaderParticle {
                curr_lifetime: lived,
                active: if lived >= self.max_lifetime {
                    0
                } else {
                    self.active
                },
                ..self
            }
        }
    }

    #[verifier::when_used_as_spec(aged_spec)]
    pub fn aged(self, delta_ms: u32) -> (particle: ShaderParticle)
        ensures
            particle == self.aged_spec(delta_ms),
    {
        if self.active == 0 {
            self
        } else {
            let lived: u32 = if delta_ms > u32::MAX - self.curr_lifetime {
                u32::MAX
            } else {
                self.curr_lifetime + delta_ms
            };
            let mut particle = self;
            particle.curr_lifetime = lived;
            if lived >= self.max_lifetime {
                particle.active = 0;
            }
            particle
        }
    }

    /// The particle after the steps `deltas`, one after the other.
    pub open spec fn aged_through(self, deltas: Seq<u32>) -> ShaderParticle
        decreases deltas.len(),
    {
        if deltas.len() == 0 {
            self
        } else {
            self.aged_through(deltas.drop_last()).aged_spec(deltas.last())
        }
    }
}

/// The sum of the steps.
pub open spec fn total(deltas: Seq<u32>) -> nat
    decreases deltas.len(),
{
    if deltas.len() == 0 {
        0
    } else {
        total(deltas.drop_last()) + deltas.last() as nat
    }
}

/// A particle that was emitted with a lifetime and has gone through one step
/// or more is still active while the steps add up to less than that
/// lifetime, and it is no longer active once they add up to the lifetime or
/// more.
pub proof fn lemma_lifetime(particle: ShaderParticle, deltas: Seq<u32>)
    requires
        particle.active != 0,
        particle.curr_lifetime == 0,
        deltas.len() > 0,
    ensures
        particle.aged_through(deltas).active == 0 <==> total(deltas) >= particle.max_lifetime,
        particle.aged_through(deltas).active != 0 ==> particle.aged_through(deltas).curr_lifetime
            == total(deltas),
        particle.aged_through(deltas).max_lifetime == particle.max_lifetime,
    decreases deltas.len(),
{
    let earlier = deltas.drop_last();
    if earlier.len() == 0 {
        assert(particle.aged_through(earlier) == particle);
        assert(total(earlier) == 0);
    } else {
        lemma_lifetime(particle, earlier);
    }
}

/// The pipelines that draw and move the particles.
#[derive(Clone, Copy)]
pub struct ParticlePipelineInfo {
    pub bg_layout: Handle<BindGroupLayout>,
    pub pipeline_layout: Handle<GraphicsPipelineLayout>,
    pub pipeline: Handle<GraphicsPipeline>,
    pub compute_bg_layout: Handle<BindGroupLayout>,
    pub compute_layout: Handle<ComputePipelineLayout>,
    pub compute_pipeline: Handle<ComputePipeline>,
}

/// The objects on the GPU that the particle system works with.
#[derive(Clone, Copy)]
pub struct ParticleGpuObjects {
    pub vertices: Handle<Buffer>,
    pub indices: Handle<Buffer>,
    pub particle_list_gpu: Handle<Buffer>,
    pub particle_animations: Handle<Buffer>,
    pub sampler: Handle<Sampler>,
    pub draw_bg: Handle<BindGroup>,
    pub compute_bg: Handle<BindGroup>,
    pub pipelines: ParticlePipelineInfo,
}

/// The bindings of the particle system's two bind groups: the animation
/// table, the particles, two uniform blocks, and the atlas.
pub open spec fn particle_bindings_spec(
    animations: Handle<Buffer>,
    particles: Handle<Buffer>,
    atlas: Handle<ImageView>,
    sampler: Handle<Sampler>,
) -> Seq<BindingInfo> {
    seq![
        BindingInfo { resource: ShaderResource::StorageBuffer(animations), binding: 0 },
        BindingInfo { resource: ShaderResource::StorageBuffer(particles), binding: 1 },
        BindingInfo { resource: ShaderResource::Dynamic, binding: 2 },
        BindingInfo { resource: ShaderResource::Dynamic, binding: 3 },
        BindingInfo { resource: ShaderResource::SampledImage(atlas, sampler), binding: 4 },
    ]
}

pub fn particle_bindings(
    animations: Handle<Buffer>,
    particles: Handle<Buffer>,
    atlas: Handle<ImageView>,
    sampler: Handle<Sampler>,
) -> (bindings: Vec<BindingInfo>)
    ensures
        bindings@ == particle_bindings_spec(animations, particles, atlas, sampler),
{
    let mut bindings: Vec<BindingInfo> = Vec::new();
    bindings.push(BindingInfo { resource: ShaderResource::StorageBuffer(animations), binding: 0 });
    bindings.push(BindingInfo { resource: ShaderResource::StorageBuffer(particles), binding: 1 });
    bindings.push(BindingInfo { resource: ShaderResource::Dynamic, binding: 2 });
    bindings.push(BindingInfo { resource: ShaderResource::Dynamic, binding: 3 });
    bindings.push(
        BindingInfo { resource: ShaderResource::SampledImage(atlas, sampler), binding: 4 },
    );
    assert(bindings@ =~= particle_bindings_spec(animations, particles, atlas, sampler));
    bindings
}

/// What the shaders are told of a frame: the camera, and the milliseconds
/// since the frame before.
pub struct ShaderConfig {
    pub camera: Vec2,
    pub delta_ms: u128,
}

/// The compute pass of a frame: what goes into its uniform block, and the
/// dispatch.
pub struct ComputePass {
    pub config: ShaderConfig,
    pub dispatch: Dispatch,
}

/// The draw call of a frame: what goes into the block of the shader
/// configuration, the pipeline, and the draw. The other block takes the
/// identity transform.
pub struct ParticleDraw {
    pub config: ShaderConfig,
    pub pipeline: Handle<GraphicsPipeline>,
    pub draw: DrawIndexed,
}

/// The slots that an emission wrote: `count` slots from slot `first` on,
/// going on at slot 0 behind the last slot of the ring.
#[derive(Clone, Copy, Debug, PartialEq, Eq, Structural)]
pub struct EmitRange {
    pub first: u32,
    pub count: u32,
}

/// What changes in a particle system while it runs.
pub struct ParticleModel {
    pub particles: Seq<ShaderParticle>,
    pub cursor: nat,
    pub issued: nat,
    pub timer: TimerState,
}

/// A step of `delta_ms` milliseconds as a record takes it: no longer than a
/// lifetime can be.
pub open spec fn step_of(delta_ms: u128) -> u32 {
    if delta_ms > u32::MAX {
        u32::MAX
    } else {
        delta_ms as u32
    }
}

impl ParticleModel {
    pub open spec fn capacity(self) -> nat {
        self.particles.len()
    }

    /// How many slots an emission of `amount` particles writes: one for
    /// each particle, and no more than the ring has.
    pub open spec fn room(self, amount: u32) -> nat {
        if amount <= self.capacity() {
            amount as nat
        } else {
            self.capacity()
        }
    }

    /// How many slots behind the cursor the slot `slot` lies, going round
    /// the ring: the cursor's own slot lies 0 behind it, the slot before
    /// the cursor lies furthest.
    pub open spec fn behind(self, slot: int) -> int {
        if slot >= self.cursor {
            slot - self.cursor
        } else {
            slot + self.capacity() - self.cursor
        }
    }

    /// The number of the particle that the slot `slot` holds after an
    /// emission of `amount` particles that reached it. Particle `k` goes
    /// to the slot that lies `k` behind the cursor, going round the ring
    /// as often as it takes, and the last particle that reaches a slot
    /// stays there.
    pub open spec fn landed(self, amount: u32, slot: int) -> int {
        self.behind(slot) + self.capacity() * ((amount - 1 - self.behind(slot))
            / self.capacity() as int)
    }

    /// The slot that the cursor stands at after `amount` particles.
    pub open spec fn advanced(self, amount: u32) -> nat {
        if self.capacity() == 0 {
            0
        } else {
            ((self.cursor + amount) % self.capacity() as int) as nat
        }
    }

    /// The slot of the first particle of an emission of `amount` particles
    /// that is still there after it: the cursor's, unless the emission
    /// went round the whole ring.
    pub open spec fn first_written(self, amount: u32) -> nat {
        if amount <= self.capacity() {
            self.cursor
        } else {
            self.advanced(amount)
        }
    }

    /// The ring after an emission: particle `k` is in the slot that lies
    /// `k` behind the cursor, going on at slot 0 behind the last slot of
    /// the ring, the slots that no particle reached are as they were, and
    /// the cursor stands behind the slot of the last particle.
    pub open spec fn emitted(self, info: ParticleEmitInfo, variations: Seq<ParticleVariation>)
        -> ParticleModel {
        ParticleModel {
            particles: Seq::new(
                self.particles.len(),
                |i: int|
                    if self.behind(i) < info.amount {
                        ShaderParticle::planned(info, variations, self.landed(info.amount, i))
                    } else {
                        self.particles[i]
                    },
            ),
            cursor: self.advanced(info.amount),
            ..self
        }
    }

    /// The state after the compute pass of a frame at the clock reading
    /// `now`: the pass has the only block that is out, the timer counts
    /// from `now`, and every particle is older by what the timer showed.
    pub open spec fn updated(self, now: u128) -> ParticleModel {
        ParticleModel {
            particles: Seq::new(
                self.particles.len(),
                |i: int| self.particles[i].aged_spec(step_of(self.timer.shown(now) / NANOS_PER_MILLI)),
            ),
            cursor: self.cursor,
            issued: 1,
            timer: self.timer.stopped(now).started(now),
        }
    }
}

pub struct ParticleSystem {
    particle_list: Vec<ShaderParticle>,
    curr_particle: u32,
    animations: Vec<ParticleAnimation>,
    atlas: SizedImage,
    alloc: TransientAllocator,
    objects: ParticleGpuObjects,
    timer: Timer,
}

impl View for ParticleSystem {
    type V = ParticleModel;

    closed spec fn view(&self) -> ParticleModel {
        ParticleModel {
            particles: self.particle_list@,
            cursor: self.curr_particle as nat,
            issued: self.alloc.issued(),
            timer: self.timer@,
        }
    }
}

impl ParticleSystem {
    /// The cursor is a slot of the ring, the table has an entry for every
    /// kind, and the timer is not paused.
    pub closed spec fn wf(&self) -> bool {
        &&& self.particle_list.len() <= u32::MAX
        &&& self.curr_particle < self.particle_list.len() || self.curr_particle == 0
        &&& self.animations.len() == MAX_PARTICLE_ANIMATIONS
        &&& self.alloc.wf()
        &&& !self.timer@.paused
    }

    /// The timer of a system is never paused, the cursor is a slot of the
    /// ring, and the ring has no more slots than a slot number can name.
    pub proof fn lemma_wf(self)
        requires
            self.wf(),
        ensures
            !self@.timer.paused,
            self@.cursor < self@.capacity() || self@.cursor == 0,
            self@.capacity() <= u32::MAX,
            self@.issued <= self.blocks(),
    {
        self.alloc.lemma_issued_within();
    }

    /// The table entry of kind `kind`.
    pub closed spec fn animation(&self, kind: int) -> AnimationModel {
        self.animations[kind]@
    }

    /// How many blocks the system's allocator has for a frame.
    pub closed spec fn blocks(&self) -> nat {
        self.alloc.blocks()
    }

    /// Block number `k` of the system's allocator.
    pub closed spec fn block(&self, k: nat) -> TransientAllocation {
        self.alloc.region(k)
    }

    pub closed spec fn objects(&self) -> ParticleGpuObjects {
        self.objects
    }

    pub closed spec fn atlas(&self) -> SizedImage {
        self.atlas
    }

    /// What stays as it is while the system runs.
    pub open spec fn same_setup(&self, other: &ParticleSystem) -> bool {
        &&& self.blocks() == other.blocks()
        &&& self.objects() == other.objects()
        &&& self.atlas() == other.atlas()
        &&& forall|k: nat| self.block(k) == other.block(k)
        &&& forall|kind: int| self.animation(kind) == other.animation(kind)
    }

    /// A system of `capacity` unused slots with the animation table of
    /// `config`.
    pub fn with_capacity(
        config: &ParticleSystemJSON,
        capacity: u32,
        atlas: SizedImage,
        alloc: TransientAllocator,
        objects: ParticleGpuObjects,
    ) -> (system: ParticleSystem)
        requires
            config.fits(),
            alloc.wf(),
        ensures
            system.wf(),
            system@.particles == Seq::new(capacity as nat, |i: int| ShaderParticle::unused_spec()),
            system@.cursor == 0,
            system@.issued == alloc.issued(),
            system@.timer == TimerState::fresh(),
            system.blocks() == alloc.blocks(),
            system.objects() == objects,
            system.atlas() == atlas,
            forall|k: nat| system.block(k) == alloc.region(k),
            forall|kind: int|
                0 <= kind < MAX_PARTICLE_ANIMATIONS ==> #[trigger] system.animation(kind)
                    == table_entry(config.particles@, kind),
    {
        let mut particle_list: Vec<ShaderParticle> = Vec::new();
        let mut k: u32 = 0;
        while k < capacity
            invariant
                k <= capacity,
                particle_list.len() == k,
                forall|j: int| 0 <= j < k ==> particle_list[j] == ShaderParticle::unused_spec(),
            decreases capacity - k,
        {
            particle_list.push(ShaderParticle::unused());
            k = k + 1;
        }
        let animations = build_animation_table(config);
        let system = ParticleSystem {
            particle_list,
            curr_particle: 0,
            animations,
            atlas,
            alloc,
            objects,
            timer: Timer::new(),
        };
        assert(system@.particles =~= Seq::new(
            capacity as nat,
            |i: int| ShaderParticle::unused_spec(),
        ));
        system
    }

    /// A system of `MAX_PARTICLES` slots.
    pub fn new(
        config: &ParticleSystemJSON,
        atlas: SizedImage,
        alloc: TransientAllocator,
        objects: ParticleGpuObjects,
    ) -> (system: ParticleSystem)
        requires
            config.fits(),
            alloc.wf(),
        ensures
            system.wf(),
            system@.particles == Seq::new(
                MAX_PARTICLES as nat,
                |i: int| ShaderParticle::unused_spec(),
            ),
            system@.cursor == 0,
            system@.issued == alloc.issued(),
            system@.timer == TimerState::fresh(),
            system.blocks() == alloc.blocks(),
            system.objects() == objects,
            system.atlas() == atlas,
            forall|k: nat| system.block(k) == alloc.region(k),
            forall|kind: int|
                0 <= kind < MAX_PARTICLE_ANIMATIONS ==> #[trigger] system.animation(kind)
                    == table_entry(config.particles@, kind),
    {
        ParticleSystem::with_capacity(config, MAX_PARTICLES, atlas, alloc, objects)
    }

    /// Writes `info.amount` particles into the slots from the cursor on,
    /// going on at slot 0 behind the last slot of the ring, and moves the
    /// cursor behind the last of them. Particle number `k` takes
    /// `variations[k]` where there is one. What the slots held is
    /// overwritten, alive or not. The result names the slots written.
    pub fn emit_random(&mut self, info: &ParticleEmitInfo, variations: &Vec<ParticleVariation>) -> (range:
        EmitRange)
        requires
            old(self).wf(),
        ensures
            final(self).wf(),
            final(self).same_setup(old(self)),
            final(self)@ == old(self)@.emitted(*info, variations@),
            range.first == old(self)@.first_written(info.amount),
            range.count == old(self)@.room(info.amount),
    {
        let capacity: usize = self.particle_list.len();
        if capacity == 0 {
            assert(self@.particles =~= old(self)@.emitted(*info, variations@).particles);
            return EmitRange { first: 0, count: 0 };
        }
        let cursor: usize = self.curr_particle as usize;
        let amount: usize = info.amount as usize;
        let count: usize = if amount < capacity {
            amount
        } else {
            capacity
        };
        let ghost before = self@;
        let mut d: usize = 0;
        while d < count
            invariant
                d <= count,
                count <= capacity,
                count <= amount,
                amount == info.amount,
                cursor < capacity,
                capacity == self.particle_list.len(),
                before == old(self)@,
                before.cursor == cursor,
                before.particles.len() == capacity,
                self.particle_list.len() == old(self).particle_list.len(),
                self.curr_particle == old(self).curr_particle,
                self.animations == old(self).animations,
                self.alloc == old(self).alloc,
                self.objects == old(self).objects,
                self.atlas == old(self).atlas,
                self.timer == old(self).timer,
                forall|i: int|
                    0 <= i < capacity ==> self.particle_list[i] == if before.behind(i) < d {
                        ShaderParticle::planned(
                            *info,
                            variations@,
                            before.landed(info.amount, i),
                        )
                    } else {
                        before.particles[i]
                    },
            decreases count - d,
        {
            let slot: usize = if d < capacity - cursor {
                cursor + d
            } else {
                d - (capacity - cursor)
            };
            let laps: usize = (amount - 1 - d) / capacity;
            assert(capacity * laps <= amount - 1 - d) by (nonlinear_arith)
                requires
                    laps == (amount - 1 - d) / capacity as int,
                    capacity > 0,
                    amount - 1 - d >= 0,
            ;
            let k: usize = d + capacity * laps;
            assert(before.behind(slot as int) == d);
            assert(k == before.landed(info.amount, slot as int));
            let particle = ShaderParticle::make(info, variations, k);
            self.particle_list.set(slot, particle);
            d = d + 1;
        }
        let next: u64 = (cursor as u64 + amount as u64) % (capacity as u64);
        proof {
            vstd::arithmetic::div_mod::lemma_mod_bound(
                (cursor + amount) as int,
                capacity as int,
            );
        }
        self.curr_particle = next as u32;
        assert(self@.particles =~= old(self)@.emitted(*info, variations@).particles);
        let first: u32 = if amount <= capacity {
            cursor as u32
        } else {
            next as u32
        };
        EmitRange { first, count: count as u32 }
    }

    /// A plain emission: every particle is `ShaderParticle::plain(info)`.
    pub fn emit(&mut self, info: &ParticleEmitInfo) -> (range: EmitRange)
        requires
            old(self).wf(),
        ensures
            final(self).wf(),
            final(self).same_setup(old(self)),
            final(self)@ == old(self)@.emitted(*info, Seq::<ParticleVariation>::empty()),
            range.first == old(self)@.first_written(info.amount),
            range.count == old(self)@.room(info.amount),
    {
        let variations: Vec<ParticleVariation> = Vec::new();
        self.emit_random(info, &variations)
    }

    /// The compute pass that `update_at` plans at the reading `now`: both
    /// uniform slots take block 0, which holds the camera at the origin and
    /// the milliseconds the timer shows, and there is one work group for
    /// every `WORKGROUP_WIDTH` slots of the ring.
    pub open spec fn compute_pass(&self, now: u128) -> ComputePass {
        ComputePass {
            config: ShaderConfig {
                camera: Vec2::zero_spec(),
                delta_ms: self@.timer.shown(now) / NANOS_PER_MILLI,
            },
            dispatch: Dispatch {
                compute: self.objects().pipelines.compute_pipeline,
                dynamic_buffers: [Some(self.block(0)), Some(self.block(0)), None, None],
                bind_groups: [Some(self.objects().compute_bg), None, None, None],
                workgroup_size: [(self@.capacity() / WORKGROUP_WIDTH as nat) as u32, 1, 1],
            },
        }
    }

    /// What `update_at` does at the reading `now`. With no block to be had
    /// it fails, and only the allocator was reset.
    pub open spec fn updates_to(
        &self,
        after: &ParticleSystem,
        result: Result<ComputePass, SlotError>,
        now: u128,
    ) -> bool {
        &&& after.same_setup(self)
        &&& self.blocks() > 0 ==> {
            &&& result == Ok::<ComputePass, SlotError>(self.compute_pass(now))
            &&& after@ == self@.updated(now)
        }
        &&& self.blocks() == 0 ==> {
            &&& result is Err
            &&& after@ == ParticleModel { issued: 0, ..self@ }
        }
    }

    /// Begins the particle system's frame at the clock reading `now`: takes
    /// back the blocks of the frame before, plans the compute pass, lets the
    /// timer count from `now` and makes every particle older by what the
    /// timer showed. It belongs before the frame's render pass.
    pub fn update_at(&mut self, now: u128) -> (result: Result<ComputePass, SlotError>)
        requires
            old(self).wf(),
        ensures
            final(self).wf(),
            old(self).updates_to(final(self), result, now),
    {
        self.alloc.reset();
        let block = match self.alloc.bump() {
            Ok(block) => block,
            Err(error) => {
                return Err(error);
            },
        };
        let delta_ms: u128 = self.timer.elapsed_ms_at(now);
        self.timer.stop_at(now);
        self.timer.start_at(now);
        let step: u32 = if delta_ms > u32::MAX as u128 {
            u32::MAX
        } else {
            delta_ms as u32
        };
        let ghost ready = *self;
        let mut i: usize = 0;
        while i < self.particle_list.len()
            invariant
                i <= self.particle_list.len(),
                self.particle_list.len() == old(self).particle_list.len(),
                self.curr_particle == old(self).curr_particle,
                self.animations == old(self).animations,
                self.objects == old(self).objects,
                self.atlas == old(self).atlas,
                self.alloc == ready.alloc,
                self.timer == ready.timer,
                forall|j: int|
                    0 <= j < self.particle_list.len() ==> self.particle_list[j] == if j < i {
                        old(self).particle_list[j].aged_spec(step)
                    } else {
                        old(self).particle_list[j]
                    },
            decreases self.particle_list.len() - i,
        {
            let particle = self.particle_list[i].aged(step);
            self.particle_list.set(i, particle);
            i = i + 1;
        }
        let groups: u32 = (self.particle_list.len() / WORKGROUP_WIDTH as usize) as u32;
        let pass = ComputePass {
            config: ShaderConfig { camera: Vec2::zero(), delta_ms },
            dispatch: Dispatch {
                compute: self.objects.pipelines.compute_pipeline,
                dynamic_buffers: [Some(block), Some(block), None, None],
                bind_groups: [Some(self.objects.compute_bg), None, None, None],
                workgroup_size: [groups, 1, 1],
            },
        };
        assert(self@.particles =~= old(self)@.updated(now).particles);
        assert(pass.dispatch.dynamic_buffers =~= old(self).compute_pass(now).dispatch.dynamic_buffers);
        assert(pass.dispatch.bind_groups =~= old(self).compute_pass(now).dispatch.bind_groups);
        assert(pass.dispatch.workgroup_size =~= old(self).compute_pass(now).dispatch.workgroup_size);
        Ok(pass)
    }

    /// `update_at` at the clock's reading.
    pub fn update(&mut self) -> (result: Result<ComputePass, SlotError>)
        requires
            old(self).wf(),
        ensures
            final(self).wf(),
            exists|now: u128| old(self).updates_to(final(self), result, now),
    {
        let now = self.timer.now();
        self.update_at(now)
    }

    /// The draw call that `draw_at` plans at the reading `now`: one quad
    /// for every slot of the ring, alive or not. The first block taken
    /// holds the shader configuration and goes to uniform slot 1, the
    /// second holds the transform and goes to uniform slot 0.
    pub open spec fn particle_draw(&self, now: u128) -> ParticleDraw {
        ParticleDraw {
            config: ShaderConfig {
                camera: Vec2::zero_spec(),
                delta_ms: self@.timer.shown(now) / NANOS_PER_MILLI,
            },
            pipeline: self.objects().pipelines.pipeline,
            draw: DrawIndexed {
                vertices: self.objects().vertices,
                indices: self.objects().indices,
                dynamic_buffers: [
                    Some(self.block(self@.issued + 1)),
                    Some(self.block(self@.issued)),
                    None,
                    None,
                ],
                bind_groups: [Some(self.objects().draw_bg), None, None, None],
                index_count: QUAD_INDICES,
                instance_count: self@.capacity() as u32,
                first_instance: 0,
            },
        }
    }

    /// What `draw_at` does at the reading `now`. It needs two blocks. With
    /// fewer it fails, and a single block that was left is used up.
    pub open spec fn draws_to(
        &self,
        after: &ParticleSystem,
        result: Result<ParticleDraw, SlotError>,
        now: u128,
    ) -> bool {
        &&& after.same_setup(self)
        &&& self@.issued + 2 <= self.blocks() ==> {
            &&& result == Ok::<ParticleDraw, SlotError>(self.particle_draw(now))
            &&& after@ == ParticleModel { issued: self@.issued + 2, ..self@ }
        }
        &&& self@.issued + 2 > self.blocks() ==> {
            &&& result is Err
            &&& after@ == ParticleModel { issued: self.blocks(), ..self@ }
        }
    }

    /// Plans the draw call of the particles at the clock reading `now`.
    pub fn draw_at(&mut self, now: u128) -> (result: Result<ParticleDraw, SlotError>)
        requires
            old(self).wf(),
        ensures
            final(self).wf(),
            old(self).draws_to(final(self), result, now),
    {
        proof {
            self.alloc.lemma_issued_within();
        }
        let config_block = match self.alloc.bump() {
            Ok(block) => block,
            Err(error) => {
                return Err(error);
            },
        };
        let transform_block = match self.alloc.bump() {
            Ok(block) => block,
            Err(error) => {
                return Err(error);
            },
        };
        let delta_ms: u128 = self.timer.elapsed_ms_at(now);
        let plan = ParticleDraw {
            config: ShaderConfig { camera: Vec2::zero(), delta_ms },
            pipeline: self.objects.pipelines.pipeline,
            draw: DrawIndexed {
                vertices: self.objects.vertices,
                indices: self.objects.indices,
                dynamic_buffers: [Some(transform_block), Some(config_block), None, None],
                bind_groups: [Some(self.objects.draw_bg), None, None, None],
                index_count: QUAD_INDICES,
                instance_count: self.particle_list.len() as u32,
                first_instance: 0,
            },
        };
        assert(plan.draw.dynamic_buffers =~= old(self).particle_draw(now).draw.dynamic_buffers);
        assert(plan.draw.bind_groups =~= old(self).particle_draw(now).draw.bind_groups);
        Ok(plan)
    }

    /// `draw_at` at the clock's reading.
    pub fn draw(&mut self) -> (result: Result<ParticleDraw, SlotError>)
        requires
            old(self).wf(),
        ensures
            final(self).wf(),
            exists|now: u128| old(self).draws_to(final(self), result, now),
    {
        let now = self.timer.now();
        self.draw_at(now)
    }

    /// The clock's reading, as the system's timer takes it.
    pub fn now(&self) -> u128 {
        self.timer.now()
    }

    /// The ring of particle records.
    pub fn particles(&self) -> (ring: &Vec<ShaderParticle>)
        ensures
            ring@ == self@.particles,
    {
        &self.particle_list
    }

    /// The slot that the next emission writes first.
    pub fn cursor(&self) -> (slot: u32)
        ensures
            slot == self@.cursor,
    {
        self.curr_particle
    }

    /// The animation table, one entry for each kind.
    pub fn animations(&self) -> (table: &Vec<ParticleAnimation>)
        requires
            self.wf(),
        ensures
            table.len() == MAX_PARTICLE_ANIMATIONS,
            forall|kind: int|
                0 <= kind < MAX_PARTICLE_ANIMATIONS ==> (#[trigger] table[kind])@
                    == self.animation(kind),
    {
        &self.animations
    }

    pub fn gpu_objects(&self) -> (objects: &ParticleGpuObjects)
        ensures
            *objects == self.objects(),
    {
        &self.objects
    }

    pub fn atlas_image(&self) -> (atlas: &SizedImage)
        ensures
            *atlas == self.atlas(),
    {
        &self.atlas
    }
}

/// After the compute pass at the reading `now` the timer counts from `now`:
/// at a later reading it shows the time between the two, and that is what
/// the next pass makes the particles older by.
pub proof fn lemma_update_counts(model: ParticleModel, now: u128, then: u128)
    requires
        !model.timer.paused,
    ensures
        model.updated(now).timer.start == Some(now),
        !model.updated(now).timer.paused,
        model.updated(now).timer.shown(then) == span(then, now),
        model.updated(now).updated(then).timer.start == Some(then),
        forall|i: int|
            0 <= i < model.capacity() ==> #[trigger] model.updated(now).updated(then).particles[i]
                == model.updated(now).particles[i].aged_spec(
                step_of(span(then, now) / NANOS_PER_MILLI),
            ),
{
}

/// An emission that ends before the end of the ring writes exactly
/// `info.amount` slots in a row, from the cursor on. Each holds a particle
/// that is active and has lived no time, every other slot is as it was, and
/// the cursor stands behind the last slot written.
pub proof fn lemma_emit_inside(
    model: ParticleModel,
    info: ParticleEmitInfo,
    variations: Seq<ParticleVariation>,
)
    requires
        model.cursor + info.amount < model.capacity(),
    ensures
        model.emitted(info, variations).capacity() == model.capacity(),
        model.emitted(info, variations).cursor == model.cursor + info.amount,
        model.room(info.amount) == info.amount,
        model.first_written(info.amount) == model.cursor,
        forall|i: int|
            model.cursor <= i < model.cursor + info.amount ==> {
                &&& (#[trigger] model.emitted(info, variations).particles[i]).active == 1
                &&& model.emitted(info, variations).particles[i].curr_lifetime == 0
                &&& model.emitted(info, variations).particles[i] == ShaderParticle::planned(
                    info,
                    variations,
                    i - model.cursor,
                )
            },
        forall|i: int|
            0 <= i < model.capacity() && !(model.cursor <= i < model.cursor + info.amount)
                ==> #[trigger] model.emitted(info, variations).particles[i] == model.particles[i],
{
    let capacity = model.capacity() as int;
    vstd::arithmetic::div_mod::lemma_small_mod(model.cursor + info.amount as nat, model.capacity());
    assert forall|i: int| model.cursor <= i < model.cursor + info.amount implies model.landed(
        info.amount,
        i,
    ) == i - model.cursor by {
        lemma_no_lap(info.amount as int - 1 - (i - model.cursor), capacity);
    }
}

/// A span shorter than the ring goes round it no whole time.
proof fn lemma_no_lap(span: int, capacity: int)
    requires
        0 <= span < capacity,
    ensures
        capacity * (span / capacity) == 0,
{
    vstd::arithmetic::div_mod::lemma_basic_div(span, capacity);
}

/// The slot that lies `k` behind the cursor is slot `(cursor + k) mod
/// capacity`, for every `k` less than the capacity.
pub proof fn lemma_slot_behind(model: ParticleModel, k: int)
    requires
        model.cursor < model.capacity(),
        0 <= k < model.capacity(),
    ensures
        0 <= (model.cursor + k) % (model.capacity() as int) < model.capacity(),
        model.behind((model.cursor + k) % (model.capacity() as int)) == k,
        forall|slot: int|
            0 <= slot < model.capacity() && model.behind(slot) == k ==> slot == (model.cursor + k)
                % (model.capacity() as int),
{
    let capacity = model.capacity() as int;
    if model.cursor + k < capacity {
        vstd::arithmetic::div_mod::lemma_small_mod((model.cursor + k) as nat, model.capacity());
    } else {
        vstd::arithmetic::div_mod::lemma_mod_sub_multiples_vanish(model.cursor + k, capacity);
        vstd::arithmetic::div_mod::lemma_small_mod(
            (model.cursor + k - capacity) as nat,
            model.capacity(),
        );
    }
}

/// An emission of no more particles than the ring has slots puts particle
/// `k` into slot `(cursor + k) mod capacity`, so that an emission across
/// the end of the ring goes on from slot 0. Each of these slots holds a
/// particle that is active and has lived no time, every other slot is as
/// it was, and the cursor stands behind the slot of the last particle, at
/// `(cursor + amount) mod capacity`.
pub proof fn lemma_emit_ring(
    model: ParticleModel,
    info: ParticleEmitInfo,
    variations: Seq<ParticleVariation>,
)
    requires
        model.cursor < model.capacity(),
        info.amount <= model.capacity(),
    ensures
        model.emitted(info, variations).capacity() == model.capacity(),
        model.emitted(info, variations).cursor == (model.cursor + info.amount) % (
        model.capacity() as int),
        model.emitted(info, variations).cursor < model.capacity(),
        model.room(info.amount) == info.amount,
        model.first_written(info.amount) == model.cursor,
        forall|k: int|
            0 <= k < info.amount ==> {
                &&& 0 <= (model.cursor + k) % (model.capacity() as int) < model.capacity()
                &&& (#[trigger] model.emitted(info, variations).particles[(model.cursor + k) % (
                model.capacity() as int)]) == ShaderParticle::planned(info, variations, k)
                &&& ShaderParticle::planned(info, variations, k).active == 1
                &&& ShaderParticle::planned(info, variations, k).curr_lifetime == 0
            },
        forall|slot: int|
            0 <= slot < model.capacity() && (forall|k: int|
                0 <= k < info.amount ==> slot != #[trigger] ((model.cursor + k) % (
                model.capacity() as int))) ==> #[trigger] model.emitted(
                info,
                variations,
            ).particles[slot] == model.particles[slot],
{
    let capacity = model.capacity() as int;
    let after = model.emitted(info, variations);
    vstd::arithmetic::div_mod::lemma_mod_bound(model.cursor + info.amount, capacity);
    assert forall|k: int| 0 <= k < info.amount implies {
        &&& 0 <= (model.cursor + k) % capacity < capacity
        &&& (#[trigger] after.particles[(model.cursor + k) % capacity]) == ShaderParticle::planned(
            info,
            variations,
            k,
        )
    } by {
        lemma_slot_behind(model, k);
        lemma_no_lap(info.amount as int - 1 - k, capacity);
    }
    assert forall|slot: int|
        0 <= slot < capacity && (forall|k: int|
            0 <= k < info.amount ==> slot != #[trigger] ((model.cursor + k) % capacity))
        implies #[trigger] after.particles[slot] == model.particles[slot] by {
        let k = model.behind(slot);
        if k < info.amount {
            lemma_slot_behind(model, k);
            assert(slot == (model.cursor + k) % capacity);
        }
    }
}

/// Of an emission of any size, the particles that are still there after it
/// are the last ones, as many as the ring has slots: each such particle `k`
/// is in slot `(cursor + k) mod capacity`.
pub proof fn lemma_emit_laps(
    model: ParticleModel,
    info: ParticleEmitInfo,
    variations: Seq<ParticleVariation>,
    k: int,
)
    requires
        model.cursor < model.capacity(),
        0 <= k < info.amount,
        info.amount - model.capacity() <= k,
    ensures
        0 <= (model.cursor + k) % (model.capacity() as int) < model.capacity(),
        model.emitted(info, variations).particles[(model.cursor + k) % (model.capacity() as int)]
            == ShaderParticle::planned(info, variations, k),
        model.emitted(info, variations).cursor == (model.cursor + info.amount) % (
        model.capacity() as int),
{
    let capacity = model.capacity() as int;
    let d = k % capacity;
    let q = k / capacity;
    vstd::arithmetic::div_mod::lemma_fundamental_div_mod(k, capacity);
    vstd::arithmetic::div_mod::lemma_mod_bound(k, capacity);
    assert(k == q * capacity + d) by (nonlinear_arith)
        requires
            k == capacity * q + d,
    ;
    let turns = (model.cursor + d) / capacity;
    vstd::arithmetic::div_mod::lemma_fundamental_div_mod(model.cursor + d, capacity);
    vstd::arithmetic::div_mod::lemma_mod_bound(model.cursor + d, capacity);
    assert((q + turns) * capacity == q * capacity + capacity * turns) by (nonlinear_arith);
    vstd::arithmetic::div_mod::lemma_fundamental_div_mod_converse(
        model.cursor + k,
        capacity,
        q + turns,
        (model.cursor + d) % capacity,
    );
    lemma_slot_behind(model, d);
    let slot = (model.cursor + k) % capacity;
    assert(slot == (model.cursor + d) % capacity);
    vstd::arithmetic::div_mod::lemma_fundamental_div_mod_converse(
        info.amount - 1 - d,
        capacity,
        q,
        info.amount - 1 - k,
    );
}

/// An emission of as many particles as the ring has slots writes every
/// slot and leaves the cursor where it was.
pub proof fn lemma_emit_full(
    model: ParticleModel,
    info: ParticleEmitInfo,
    variations: Seq<ParticleVariation>,
)
    requires
        model.cursor < model.capacity(),
        info.amount == model.capacity(),
    ensures
        model.emitted(info, variations).cursor == model.cursor,
        forall|slot: int|
            0 <= slot < model.capacity() ==> #[trigger] model.emitted(
                info,
                variations,
            ).particles[slot] == ShaderParticle::planned(info, variations, model.behind(slot)),
{
    let capacity = model.capacity() as int;
    vstd::arithmetic::div_mod::lemma_mod_sub_multiples_vanish(
        model.cursor + info.amount,
        capacity,
    );
    vstd::arithmetic::div_mod::lemma_small_mod(model.cursor, model.capacity());
    assert forall|slot: int| 0 <= slot < capacity implies #[trigger] model.emitted(
        info,
        variations,
    ).particles[slot] == ShaderParticle::planned(info, variations, model.behind(slot)) by {
        lemma_no_lap(info.amount as int - 1 - model.behind(slot), capacity);
    }
}

} // verus!
