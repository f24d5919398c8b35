use egui_maligog::buffers::{BufferPool, BufferWrite, MeshBytes, SlotWrite};
use egui_maligog::clip::{scissor_for, viewport_for, ClipRect, Scissor, Viewport, UNITS_PER_POINT};
use egui_maligog::frame::{mesh_bytes, ClippedMesh, DrawCall, Mesh, PassState};
use egui_maligog::screen::{ScaleFactor, ScreenDescriptor};
use egui_maligog::textures::{expand_to_rgba, TextureCache, TextureError, TextureId};

fn pt(points: f64) -> i64 {
    (points * UNITS_PER_POINT as f64) as i64
}

fn rect(min_x: f64, min_y: f64, max_x: f64, max_y: f64) -> ClipRect {
    ClipRect { min_x: pt(min_x), min_y: pt(min_y), max_x: pt(max_x), max_y: pt(max_y) }
}

fn screen(width: u32, height: u32, num: u32, den: u32) -> ScreenDescriptor {
    ScreenDescriptor {
        physical_width: width,
        physical_height: height,
        scale_factor: ScaleFactor::new(num, den).unwrap(),
    }
}

fn job(clip_rect: ClipRect, texture_id: TextureId, indices: Vec<u32>, vertex_count: usize) -> ClippedMesh {
    ClippedMesh {
        clip_rect,
        mesh: Mesh { indices, vertices: vec![7u8; 20 * vertex_count], texture_id },
    }
}

fn bytes(indices: &[u8], vertices: &[u8]) -> MeshBytes {
    MeshBytes { indices: indices.to_vec(), vertices: vertices.to_vec() }
}

const COPY: SlotWrite = SlotWrite { index: BufferWrite::CopyInPlace, vertex: BufferWrite::CopyInPlace };
const ALLOC: SlotWrite = SlotWrite { index: BufferWrite::Allocate, vertex: BufferWrite::Allocate };

#[test]
fn scale_factor_rejects_zero() {
    assert!(ScaleFactor::new(0, 1).is_none());
    assert!(ScaleFactor::new(1, 0).is_none());
    let s = ScaleFactor::new(5, 4).unwrap();
    assert_eq!((s.numerator(), s.denominator()), (5, 4));
}

#[test]
fn logical_size_divides_by_scale() {
    assert_eq!(screen(800, 600, 2, 1).logical_size(), (400, 300));
    assert_eq!(screen(1000, 750, 5, 4).logical_size(), (800, 600));
    assert_eq!(screen(801, 601, 2, 1).logical_size(), (400, 300));
    assert_eq!(screen(800, 600, 1, 2).logical_size(), (1600, 1200));
}

#[test]
fn logical_size_saturates() {
    assert_eq!(screen(u32::MAX, 10, 1, 2).logical_size(), (u32::MAX, 20));
}

#[test]
fn logical_size_invariant_under_common_scaling() {
    let a = screen(801, 603, 3, 2).logical_size();
    let b = screen(1602, 1206, 3, 1).logical_size();
    let c = screen(2403, 1809, 9, 2).logical_size();
    assert_eq!(a, (534, 402));
    assert_eq!(a, b);
    assert_eq!(a, c);
}

#[test]
fn huge_clip_rect_covers_surface() {
    let s = screen(800, 600, 1, 1);
    let r = scissor_for(&rect(0.0, 0.0, 1e9, 1e9), &s);
    assert_eq!(r, Some(Scissor { x: 0, y: 0, width: 800, height: 600 }));
}

#[test]
fn clip_rect_scaled_to_pixels() {
    let s = screen(200, 200, 2, 1);
    let r = scissor_for(&rect(10.0, 10.0, 50.0, 50.0), &s);
    assert_eq!(r, Some(Scissor { x: 20, y: 20, width: 80, height: 80 }));
}

#[test]
fn clip_rect_rounds_to_nearest_pixel() {
    let s = screen(100, 100, 1, 1);
    let r = scissor_for(&rect(10.25, 10.5, 20.5, 20.49), &s);
    assert_eq!(r, Some(Scissor { x: 10, y: 11, width: 11, height: 9 }));
}

#[test]
fn clip_rect_past_surface_skipped() {
    let s = screen(800, 600, 1, 1);
    assert_eq!(scissor_for(&rect(900.0, 0.0, 1000.0, 100.0), &s), None);
    assert_eq!(scissor_for(&rect(0.0, 600.0, 100.0, 700.0), &s), None);
    assert_eq!(scissor_for(&rect(799.6, 0.0, 900.0, 100.0), &s), None);
}

#[test]
fn clip_rect_before_surface_keeps_one_pixel() {
    let s = screen(800, 600, 1, 1);
    let r = scissor_for(&rect(-100.0, -100.0, -50.0, -50.0), &s);
    assert_eq!(r, Some(Scissor { x: 0, y: 0, width: 1, height: 1 }));
}

#[test]
fn degenerate_clip_rect_gets_one_pixel() {
    let s = screen(800, 600, 1, 1);
    let r = scissor_for(&rect(30.0, 40.0, 10.0, 40.0), &s);
    assert_eq!(r, Some(Scissor { x: 30, y: 40, width: 1, height: 1 }));
}

#[test]
fn empty_surface_draws_nothing() {
    let s = screen(0, 600, 1, 1);
    assert_eq!(scissor_for(&rect(0.0, 0.0, 10.0, 10.0), &s), None);
}

#[test]
fn viewport_is_flipped() {
    let v = viewport_for(&screen(200, 100, 2, 1));
    assert_eq!(v, Viewport { x: 0, y: 100, width: 200, height: -100 });
}

#[test]
fn rgba_expansion_repeats_each_byte() {
    assert_eq!(expand_to_rgba(&vec![1, 2]), vec![1, 1, 1, 1, 2, 2, 2, 2]);
    assert_eq!(expand_to_rgba(&vec![]), Vec::<u8>::new());
}

#[test]
fn user_texture_before_registration_is_invalid() {
    let cache: TextureCache<u32> = TextureCache::new();
    assert_eq!(cache.resolve(TextureId::User(0)), Err(TextureError::InvalidUserTextureId));
}

#[test]
fn primary_before_upload_is_unbound() {
    let cache: TextureCache<u32> = TextureCache::new();
    assert_eq!(cache.resolve(TextureId::Primary), Err(TextureError::UnboundTexture));
    assert_eq!(cache.primary_version(), None);
}

#[test]
fn user_textures_get_sequential_handles() {
    let mut cache: TextureCache<u32> = TextureCache::new();
    assert_eq!(cache.register_user_texture(10), 0);
    assert_eq!(cache.register_user_texture(11), 1);
    assert_eq!(cache.resolve(TextureId::User(1)), Ok(&11));
    assert_eq!(cache.resolve(TextureId::User(2)), Err(TextureError::InvalidUserTextureId));
    assert_eq!(cache.release_user_texture(0), Ok(()));
    assert_eq!(cache.resolve(TextureId::User(0)), Err(TextureError::FreedUserTexture));
    assert_eq!(cache.release_user_texture(0), Err(TextureError::FreedUserTexture));
    assert_eq!(cache.release_user_texture(5), Err(TextureError::InvalidUserTextureId));
    assert_eq!(cache.register_user_texture(12), 2);
    assert_eq!(cache.user_texture_count(), 3);
}

#[test]
fn primary_uploads_once_per_version() {
    let mut cache: TextureCache<Vec<u8>> = TextureCache::new();
    let mut uploads = 0;
    let pixels = vec![9u8, 3];
    assert!(cache.update_primary(4, &pixels, |rgba| {
        uploads += 1;
        rgba
    }));
    assert!(!cache.update_primary(4, &pixels, |rgba| {
        uploads += 1;
        rgba
    }));
    assert_eq!(uploads, 1);
    assert_eq!(cache.resolve(TextureId::Primary), Ok(&vec![9, 9, 9, 9, 3, 3, 3, 3]));
    assert!(cache.update_primary(5, &vec![1], |rgba| {
        uploads += 1;
        rgba
    }));
    assert_eq!(uploads, 2);
    assert_eq!(cache.primary_version(), Some(5));
    assert_eq!(cache.resolve(TextureId::Primary), Ok(&vec![1, 1, 1, 1]));
}

#[test]
fn index_bytes_are_the_indices_memory() {
    let m = Mesh { indices: vec![1, 0x0102_0304, 7], vertices: vec![5; 40], texture_id: TextureId::Primary };
    let b = mesh_bytes(&m);
    let mut expected = Vec::new();
    for i in &m.indices {
        expected.extend_from_slice(&i.to_ne_bytes());
    }
    assert_eq!(b.indices, expected);
    assert_eq!(b.vertices, vec![5; 40]);
}

#[test]
fn pool_sync_twice_copies_in_place() {
    let mut pool = BufferPool::new();
    let batch = vec![bytes(&[1, 2, 3, 4], &[9; 20]), bytes(&[5; 8], &[8; 40])];
    assert_eq!(pool.sync(&batch), vec![ALLOC, ALLOC]);
    assert_eq!(pool.sync(&batch), vec![COPY, COPY]);
    assert_eq!(pool.len(), 2);
    assert_eq!(pool.slot_sizes(0), (4, 20));
    assert_eq!(pool.slot_sizes(1), (8, 40));
}

#[test]
fn pool_grows_by_one_slot() {
    let mut pool = BufferPool::new();
    let first = vec![bytes(&[1; 4], &[2; 20])];
    pool.sync(&first);
    let next = vec![bytes(&[1; 4], &[2; 20]), bytes(&[3; 12], &[4; 60])];
    assert_eq!(pool.sync(&next), vec![COPY, ALLOC]);
    assert_eq!(pool.len(), 2);
    assert_eq!(pool.slot_sizes(0), (4, 20));
    assert_eq!(pool.slot_sizes(1), (12, 60));
}

#[test]
fn pool_reallocates_changed_sizes_and_never_shrinks() {
    let mut pool = BufferPool::new();
    pool.sync(&vec![bytes(&[1; 4], &[2; 20]), bytes(&[1; 4], &[2; 20])]);
    let plan = pool.sync(&vec![bytes(&[1; 8], &[2; 20])]);
    assert_eq!(plan, vec![SlotWrite { index: BufferWrite::Reallocate, vertex: BufferWrite::CopyInPlace }]);
    assert_eq!(pool.len(), 2);
    assert_eq!(pool.slot_sizes(0), (8, 20));
    assert_eq!(pool.slot_sizes(1), (4, 20));
    assert_eq!(pool.sync(&vec![]), vec![]);
    assert_eq!(pool.len(), 2);
}

#[test]
fn two_mesh_frame_scissor_and_viewport() {
    let s = screen(200, 200, 2, 1);
    let jobs = vec![
        job(rect(0.0, 0.0, 100.0, 100.0), TextureId::Primary, vec![0, 1, 2], 3),
        job(rect(10.0, 10.0, 50.0, 50.0), TextureId::Primary, vec![0, 1, 2, 2, 1, 3], 4),
    ];
    let mut state: PassState<u32> = PassState::new();
    let update = state.update_buffers(&jobs, &s);
    assert_eq!(update.screen_size, (100, 100));
    assert_eq!(update.plan, vec![ALLOC, ALLOC]);
    assert_eq!(update.payloads[1].indices.len(), 24);
    assert_eq!(update.payloads[1].vertices.len(), 80);
    assert!(state.update_texture(1, &vec![255; 4], |rgba| rgba.len() as u32));
    let plan = state.execute(&jobs, &s).unwrap();
    assert_eq!(plan.viewport, Viewport { x: 0, y: 200, width: 200, height: -200 });
    assert_eq!(plan.draws.len(), 2);
    assert_eq!(
        plan.draws[1],
        DrawCall {
            slot: 1,
            scissor: Scissor { x: 20, y: 20, width: 80, height: 80 },
            texture_id: TextureId::Primary,
            index_count: 6,
        }
    );
    assert_eq!(plan.draws[0].scissor, Scissor { x: 0, y: 0, width: 200, height: 200 });
}

#[test]
fn mesh_outside_surface_gets_no_draw() {
    let s = screen(800, 600, 1, 1);
    let jobs = vec![
        job(rect(900.0, 900.0, 950.0, 950.0), TextureId::User(3), vec![0, 1, 2], 3),
        job(rect(0.0, 0.0, 10.0, 10.0), TextureId::User(0), vec![0, 1, 2], 3),
    ];
    let mut state: PassState<u32> = PassState::new();
    state.register_user_texture(77);
    state.update_buffers(&jobs, &s);
    let plan = state.execute(&jobs, &s).unwrap();
    assert_eq!(plan.draws.len(), 1);
    assert_eq!(plan.draws[0].slot, 1);
    assert_eq!(state.textures().resolve(plan.draws[0].texture_id), Ok(&77));
}

#[test]
fn drawing_unbound_texture_fails_frame() {
    let s = screen(800, 600, 1, 1);
    let jobs = vec![job(rect(0.0, 0.0, 10.0, 10.0), TextureId::Primary, vec![0, 1, 2], 3)];
    let mut state: PassState<u32> = PassState::new();
    state.update_buffers(&jobs, &s);
    assert_eq!(state.execute(&jobs, &s).err(), Some(TextureError::UnboundTexture));
}

#[test]
fn freed_user_texture_fails_frame() {
    let s = screen(800, 600, 1, 1);
    let jobs = vec![job(rect(0.0, 0.0, 10.0, 10.0), TextureId::User(0), vec![0, 1, 2], 3)];
    let mut state: PassState<u32> = PassState::new();
    assert_eq!(state.register_user_texture(5), 0);
    state.update_buffers(&jobs, &s);
    assert!(state.execute(&jobs, &s).is_ok());
    assert_eq!(state.release_user_texture(0), Ok(()));
    assert_eq!(state.execute(&jobs, &s).err(), Some(TextureError::FreedUserTexture));
}

#[test]
fn meshes_without_slots_are_not_drawn() {
    let s = screen(800, 600, 1, 1);
    let jobs = vec![job(rect(0.0, 0.0, 10.0, 10.0), TextureId::Primary, vec![0, 1, 2], 3)];
    let state: PassState<u32> = PassState::new();
    let plan = state.execute(&jobs, &s).unwrap();
    assert!(plan.draws.is_empty());
    assert_eq!(state.buffers().len(), 0);
}
