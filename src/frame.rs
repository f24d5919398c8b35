use vstd::prelude::*;

use crate::buffers::{payload_view, plan_of, synced, BufferPool, MeshBytes, SlotWrite};
use crate::clip::{
    lemma_rect_past_surface_not_drawn, scissor_for, scissor_of, viewport_for, viewport_of,
    ClipRect, Scissor, Viewport, UNITS_PER_POINT,
};
use crate::screen::ScreenDescriptor;
use crate::textures::{needs_upload, rgba_of, TextureCache, TextureError, TextureId};

verus! {

/// Bytes per vertex: position (two 32-bit floats), texture coordinate (two
/// 32-bit floats) and a packed 32-bit color.
pub const VERTEX_STRIDE: usize = 20;

/// A triangle mesh as the pass reads it: its indices, its vertices already laid
/// out as `VERTEX_STRIDE` bytes each, and the texture it samples.
pub struct Mesh {
    pub indices: Vec<u32>,
    pub vertices: Vec<u8>,
    pub texture_id: TextureId,
}

/// A mesh with the clip rectangle it is drawn within.
pub struct ClippedMesh {
    pub clip_rect: ClipRect,
    pub mesh: Mesh,
}

/// One indexed draw: the buffers of pool slot `slot`, the scissor, the texture
/// to bind and the number of indices.
#[derive(Clone, Copy, Debug, PartialEq, Eq, Structural)]
pub struct DrawCall {
    pub slot: usize,
    pub scissor: Scissor,
    pub texture_id: TextureId,
    pub index_count: usize,
}

/// What `execute` records for a frame: one viewport, then the draws in paint
/// order.
pub struct FramePlan {
    pub viewport: Viewport,
    pub draws: Vec<DrawCall>,
}

/// What `update_buffers` hands back: the logical screen size for the uniform
/// buffer, the bytes of every mesh, and what to do with each pool slot.
pub struct BufferUpdate {
    pub screen_size: (u32, u32),
    pub payloads: Vec<MeshBytes>,
    pub plan: Vec<SlotWrite>,
}

/// Byte `k` (0 to 3) of `x` in little-endian order, or in big-endian order
/// where `little` is false.
pub open spec fn byte_of(x: u32, k: int, little: bool) -> u8 {
    let shift = if little {
        8 * k
    } else {
        8 * (3 - k)
    };
    ((x >> (shift as u32)) & 0xff) as u8
}

/// The memory of a `u32` sequence as bytes, four per value, in one byte order.
pub open spec fn u32_bytes(values: Seq<u32>, little: bool) -> Seq<u8> {
    Seq::new(4 * values.len(), |i: int| byte_of(values[i / 4], i % 4, little))
}

/// Relies on bytemuck::cast_slice from `u32` to `u8`: the same memory seen as
/// bytes, four for each index in the machine's byte order (it cannot fail for
/// this pair of types).
#[verifier::external_body]
fn index_bytes(indices: &Vec<u32>) -> (r: Vec<u8>)
    ensures
        r@ == u32_bytes(indices@, true) || r@ == u32_bytes(indices@, false),
{
    bytemuck::cast_slice::<u32, u8>(indices.as_slice()).to_vec()
}

/// `bytes` are the bytes of `mesh`, as `mesh_bytes` gives them.
pub open spec fn payload_of(bytes: MeshBytes, mesh: Mesh) -> bool {
    &&& bytes.indices@ == u32_bytes(mesh.indices@, true) || bytes.indices@ == u32_bytes(
        mesh.indices@,
        false,
    )
    &&& bytes.indices@.len() == 4 * mesh.indices@.len()
    &&& bytes.vertices@ == mesh.vertices@
}

/// The bytes of a mesh for its two GPU buffers: the indices in the machine's
/// byte order, the vertices as they are.
pub fn mesh_bytes(mesh: &Mesh) -> (r: MeshBytes)
    ensures
        payload_of(r, *mesh),
{
    let indices = index_bytes(&mesh.indices);
    let mut vertices: Vec<u8> = Vec::with_capacity(mesh.vertices.len());
    let mut i: usize = 0;
    while i < mesh.vertices.len()
        invariant
            i <= mesh.vertices.len(),
            vertices@ == mesh.vertices@.take(i as int),
        decreases mesh.vertices.len() - i,
    {
        vertices.push(mesh.vertices[i]);
        assert(vertices@ =~= mesh.vertices@.take(i + 1));
        i = i + 1;
    }
    assert(vertices@ =~= mesh.vertices@);
    MeshBytes { indices, vertices }
}

/// The draws of the first `n` meshes of a batch, or the first texture error
/// among them. A mesh is drawn when it has a pool slot and its scissor is not
/// empty; only a drawn mesh has its texture resolved.
pub open spec fn draws_upto<D>(
    jobs: Seq<ClippedMesh>,
    screen: ScreenDescriptor,
    textures: TextureCache<D>,
    slots: nat,
    n: nat,
) -> Result<Seq<DrawCall>, TextureError>
    decreases n,
{
    if n == 0 {
        Ok(Seq::empty())
    } else {
        let i = (n - 1) as nat;
        match draws_upto(jobs, screen, textures, slots, i) {
            Err(e) => Err(e),
            Ok(ds) => if i >= slots {
                Ok(ds)
            } else {
                match scissor_of(jobs[i as int].clip_rect, screen) {
                    None => Ok(ds),
                    Some(s) => match textures.spec_resolve(jobs[i as int].mesh.texture_id) {
                        Err(e) => Err(e),
                        Ok(_) => Ok(
                            ds.push(
                                DrawCall {
                                    slot: i as usize,
                                    scissor: s,
                                    texture_id: jobs[i as int].mesh.texture_id,
                                    index_count: jobs[i as int].mesh.indices@.len() as usize,
                                },
                            ),
                        ),
                    },
                }
            },
        }
    }
}

/// Once a texture error is met, it is the result for every longer prefix.
proof fn lemma_error_persists<D>(
    jobs: Seq<ClippedMesh>,
    screen: ScreenDescriptor,
    textures: TextureCache<D>,
    slots: nat,
    k: nat,
    m: nat,
)
    requires
        k <= m,
        draws_upto(jobs, screen, textures, slots, k) is Err,
    ensures
        draws_upto(jobs, screen, textures, slots, m) == draws_upto(jobs, screen, textures, slots, k),
    decreases m - k,
{
    if k < m {
        lemma_error_persists(jobs, screen, textures, slots, k, (m - 1) as nat);
    }
}

/// Every draw among the first `n` meshes comes from a mesh before `n` that has
/// a slot, and carries that mesh's scissor.
proof fn lemma_draws_have_scissors<D>(
    jobs: Seq<ClippedMesh>,
    screen: ScreenDescriptor,
    textures: TextureCache<D>,
    slots: nat,
    n: nat,
)
    requires
        n <= jobs.len() <= usize::MAX,
        draws_upto(jobs, screen, textures, slots, n) is Ok,
    ensures
        forall|k: int|
            0 <= k < draws_upto(jobs, screen, textures, slots, n)->Ok_0.len() ==> {
                let d = #[trigger] draws_upto(jobs, screen, textures, slots, n)->Ok_0[k];
                &&& d.slot < n
                &&& d.slot < slots
                &&& scissor_of(jobs[d.slot as int].clip_rect, screen) == Some(d.scissor)
            },
    decreases n,
{
    if n > 0 {
        let m = (n - 1) as nat;
        lemma_draws_have_scissors(jobs, screen, textures, slots, m);
        let prev = draws_upto(jobs, screen, textures, slots, m)->Ok_0;
        let cur = draws_upto(jobs, screen, textures, slots, n)->Ok_0;
        assert(cur.len() == prev.len() || cur.len() == prev.len() + 1);
        assert forall|k: int| 0 <= k < cur.len() implies {
            let d = #[trigger] cur[k];
            &&& d.slot < n
            &&& d.slot < slots
            &&& scissor_of(jobs[d.slot as int].clip_rect, screen) == Some(d.scissor)
        } by {
            if k < prev.len() {
                assert(cur[k] == prev[k]);
            }
        }
    }
}

/// A mesh whose clip rectangle starts at or beyond the right or the bottom
/// edge of the surface gets no draw call.
pub proof fn lemma_mesh_past_surface_not_drawn<D>(
    jobs: Seq<ClippedMesh>,
    screen: ScreenDescriptor,
    textures: TextureCache<D>,
    slots: nat,
    i: int,
)
    requires
        screen.scale_factor.valid(),
        jobs.len() <= usize::MAX,
        0 <= i < jobs.len(),
        jobs[i].clip_rect.min_x * screen.scale_factor.num() >= screen.physical_width
            * UNITS_PER_POINT * screen.scale_factor.den() || jobs[i].clip_rect.min_y
            * screen.scale_factor.num() >= screen.physical_height * UNITS_PER_POINT
            * screen.scale_factor.den(),
        draws_upto(jobs, screen, textures, slots, jobs.len()) is Ok,
    ensures
        forall|k: int|
            0 <= k < draws_upto(jobs, screen, textures, slots, jobs.len())->Ok_0.len()
                ==> (#[trigger] draws_upto(jobs, screen, textures, slots, jobs.len())->Ok_0[k]).slot
                != i,
{
    lemma_rect_past_surface_not_drawn(jobs[i].clip_rect, screen);
    lemma_draws_have_scissors(jobs, screen, textures, slots, jobs.len());
}

/// The state of the UI pass between frames: the texture cache, with
/// descriptor sets of type `D`, and the geometry buffer pool.
pub struct PassState<D> {
    textures: TextureCache<D>,
    buffers: BufferPool,
}

impl<D> PassState<D> {
    pub closed spec fn cache(&self) -> TextureCache<D> {
        self.textures
    }

    pub closed spec fn pool(&self) -> BufferPool {
        self.buffers
    }

    pub open spec fn wf(&self) -> bool {
        self.cache().wf() && self.pool().wf()
    }

    /// A pass with no texture and no buffer.
    pub fn new() -> (r: Self)
        ensures
            r.wf(),
            r.cache().version() is None,
            r.cache().primary_set() is None,
            r.cache().user_slots().len() == 0,
            r.pool().view().len() == 0,
    {
        PassState { textures: TextureCache::new(), buffers: BufferPool::new() }
    }

    pub fn textures(&self) -> (r: &TextureCache<D>)
        ensures
            *r == self.cache(),
    {
        &self.textures
    }

    pub fn buffers(&self) -> (r: &BufferPool)
        ensures
            *r == self.pool(),
    {
        &self.buffers
    }

    /// Stores an uploaded user texture under the next handle and returns it.
    pub fn register_user_texture(&mut self, set: D) -> (id: u64)
        requires
            old(self).wf(),
        ensures
            final(self).wf(),
            id == old(self).cache().user_slots().len(),
            final(self).cache().user_slots() == old(self).cache().user_slots().push(
                crate::textures::UserTexture::Live(set),
            ),
            final(self).cache().primary_set() == old(self).cache().primary_set(),
            final(self).cache().version() == old(self).cache().version(),
            final(self).pool() == old(self).pool(),
    {
        self.textures.register_user_texture(set)
    }

    /// Releases the user texture under `handle`, as
    /// `TextureCache::release_user_texture` does.
    pub fn release_user_texture(&mut self, handle: u64) -> (r: Result<(), TextureError>)
        requires
            old(self).wf(),
        ensures
            final(self).wf(),
            r is Ok <==> old(self).cache().spec_resolve(TextureId::User(handle)) is Ok,
            r matches Err(e) ==> old(self).cache().spec_resolve(TextureId::User(handle)) == Err::<
                D,
                TextureError,
            >(e),
            r is Ok ==> final(self).cache().user_slots() == old(self).cache().user_slots().update(
                handle as int,
                crate::textures::UserTexture::Freed,
            ),
            r is Err ==> final(self).cache().user_slots() == old(self).cache().user_slots(),
            final(self).cache().primary_set() == old(self).cache().primary_set(),
            final(self).cache().version() == old(self).cache().version(),
            final(self).pool() == old(self).pool(),
    {
        self.textures.release_user_texture(handle)
    }

    /// Brings the primary texture up to `version`, as
    /// `TextureCache::update_primary` does; returns whether it uploaded.
    pub fn update_texture<F: FnOnce(Vec<u8>) -> D>(
        &mut self,
        version: u64,
        pixels: &Vec<u8>,
        upload: F,
    ) -> (uploaded: bool)
        requires
            old(self).wf(),
            4 * pixels.len() <= usize::MAX,
            forall|rgba: Vec<u8>| upload.requires((rgba,)),
        ensures
            final(self).wf(),
            uploaded == needs_upload(old(self).cache().version(), version),
            final(self).cache().version() == Some(version),
            final(self).cache().user_slots() == old(self).cache().user_slots(),
            !uploaded ==> final(self).cache().primary_set() == old(self).cache().primary_set(),
            uploaded ==> final(self).cache().primary_set() is Some,
            uploaded ==> exists|rgba: Vec<u8>|
                rgba@ == rgba_of(pixels@) && #[trigger] upload.ensures(
                    (rgba,),
                    final(self).cache().primary_set()->Some_0,
                ),
            final(self).pool() == old(self).pool(),
    {
        self.textures.update_primary(version, pixels, upload)
    }

    /// Prepares the buffers for a frame: the logical screen size for the
    /// uniform buffer, the bytes of each mesh, and the pool's plan, after which
    /// slot `i` holds the bytes of mesh `i`.
    pub fn update_buffers(&mut self, jobs: &Vec<ClippedMesh>, screen: &ScreenDescriptor) -> (r:
        BufferUpdate)
        requires
            old(self).wf(),
        ensures
            final(self).wf(),
            (r.screen_size.0 as int, r.screen_size.1 as int) == screen.spec_logical_size(),
            r.payloads@.len() == jobs@.len(),
            forall|i: int|
                0 <= i < jobs@.len() ==> payload_of(#[trigger] r.payloads@[i], jobs@[i].mesh),
            final(self).pool().view() == synced(
                old(self).pool().view(),
                payload_view(r.payloads@),
            ),
            r.plan@ == plan_of(old(self).pool().view(), payload_view(r.payloads@)),
            final(self).cache() == old(self).cache(),
    {
        let screen_size = screen.logical_size();
        let mut payloads: Vec<MeshBytes> = Vec::new();
        let mut i: usize = 0;
        while i < jobs.len()
            invariant
                i <= jobs.len(),
                payloads@.len() == i,
                forall|k: int| 0 <= k < i ==> payload_of(#[trigger] payloads@[k], jobs@[k].mesh),
            decreases jobs.len() - i,
        {
            payloads.push(mesh_bytes(&jobs[i].mesh));
            i = i + 1;
        }
        let plan = self.buffers.sync(&payloads);
        BufferUpdate { screen_size, payloads, plan }
    }

    /// Plans the draws of a frame. Mesh `i` is drawn from pool slot `i` (a
    /// mesh without a slot is not drawn), within its scissor; a mesh whose
    /// scissor is empty is skipped. The first drawn mesh whose texture does
    /// not resolve fails the whole frame with that error.
    pub fn execute(&self, jobs: &Vec<ClippedMesh>, screen: &ScreenDescriptor) -> (r: Result<
        FramePlan,
        TextureError,
    >)
        requires
            self.wf(),
        ensures
            match r {
                Ok(plan) => {
                    &&& plan.viewport == viewport_of(*screen)
                    &&& draws_upto(
                        jobs@,
                        *screen,
                        self.cache(),
                        self.pool().view().len(),
                        jobs@.len(),
                    ) == Ok::<Seq<DrawCall>, TextureError>(plan.draws@)
                },
                Err(e) => draws_upto(
                    jobs@,
                    *screen,
                    self.cache(),
                    self.pool().view().len(),
                    jobs@.len(),
                ) == Err::<Seq<DrawCall>, TextureError>(e),
            },
            r matches Ok(plan) ==> forall|k: int|
                0 <= k < plan.draws@.len() ==> {
                    let d = #[trigger] plan.draws@[k];
                    &&& d.slot < jobs@.len()
                    &&& d.slot < self.pool().view().len()
                    &&& scissor_of(jobs@[d.slot as int].clip_rect, *screen) == Some(d.scissor)
                    &&& self.cache().spec_resolve(d.texture_id) is Ok
                },
    {
        let slots = self.buffers.len();
        let mut draws: Vec<DrawCall> = Vec::new();
        let mut i: usize = 0;
        while i < jobs.len()
            invariant
                i <= jobs.len(),
                slots == self.pool().view().len(),
                self.wf(),
                draws_upto(jobs@, *screen, self.cache(), slots as nat, i as nat) == Ok::<
                    Seq<DrawCall>,
                    TextureError,
                >(draws@),
                forall|k: int|
                    0 <= k < draws@.len() ==> {
                        let d = #[trigger] draws@[k];
                        &&& d.slot < i
                        &&& d.slot < slots
                        &&& scissor_of(jobs@[d.slot as int].clip_rect, *screen) == Some(d.scissor)
                        &&& self.cache().spec_resolve(d.texture_id) is Ok
                    },
            decreases jobs.len() - i,
        {
            if i < slots {
                let job = &jobs[i];
                match scissor_for(&job.clip_rect, screen) {
                    None => {},
                    Some(scissor) => {
                        match self.textures.resolve(job.mesh.texture_id) {
                            Err(e) => {
                                proof {
                                    lemma_error_persists(
                                        jobs@,
                                        *screen,
                                        self.cache(),
                                        slots as nat,
                                        (i + 1) as nat,
                                        jobs@.len(),
                                    );
                                }
                                return Err(e);
                            },
                            Ok(_) => {
                                draws.push(
                                    DrawCall {
                                        slot: i,
                                        scissor,
                                        texture_id: job.mesh.texture_id,
                                        index_count: job.mesh.indices.len(),
                                    },
                                );
                            },
                        }
                    },
                }
            }
            i = i + 1;
        }
        Ok(FramePlan { viewport: viewport_for(screen), draws })
    }
}

} // verus!
