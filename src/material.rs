//! The ray-marching material and the two-phase protocol that feeds it.
//!
//! Extract runs against the simulation side: it copies the camera's frame and
//! the aspect ratio, by value, into a fresh frame of snapshots, one per entity
//! that carries the material. Prepare runs against the render side, strictly
//! after extract: for each snapshot whose material already has its GPU-side
//! binding, it serializes the snapshot and issues one write of the block into
//! each of that binding's buffers. Prepare reads nothing but the extracted
//! frame, so whatever happens to the simulation state in between cannot reach
//! the bytes it writes.
use vstd::prelude::*;
use crate::buffer::written;
use crate::layout::{
    Vec3Bits, MaterialUniform, uniform_bytes, uniform_layout, UNIFORM_OFFSET, ZERO_BITS, ONE_BITS,
    MINUS_ONE_BITS, UNIFORM_SIZE, ASPECT_RATIO_OFFSET, camera_block, lemma_layout_shape,
};

verus! {

/// The camera's rigid transform as the render side sees it: its position and
/// its three derived unit axes.
#[derive(Clone, Copy, Debug, PartialEq, Eq, Structural)]
pub struct CameraTransform {
    pub translation: Vec3Bits,
    pub forward: Vec3Bits,
    pub right: Vec3Bits,
    pub up: Vec3Bits,
}

/// The material that draws the ray-marched scene, with the initial values of
/// its uniform block.
#[derive(Clone, Copy, Debug, PartialEq, Eq, Structural)]
pub struct RayMarchingMaterial {
    pub camera_position: Vec3Bits,
    pub camera_forward: Vec3Bits,
    pub camera_horizontal: Vec3Bits,
    pub camera_vertical: Vec3Bits,
    pub aspect_ratio: u32,
}

/// The material before any camera data reached it: a camera at the origin
/// looking down -Z, with +X to its right and +Y up, and an aspect ratio of 1.
pub open spec fn initial_material() -> RayMarchingMaterial {
    RayMarchingMaterial {
        camera_position: Vec3Bits { x: ZERO_BITS, y: ZERO_BITS, z: ZERO_BITS },
        camera_forward: Vec3Bits { x: ZERO_BITS, y: ZERO_BITS, z: MINUS_ONE_BITS },
        camera_horizontal: Vec3Bits { x: ONE_BITS, y: ZERO_BITS, z: ZERO_BITS },
        camera_vertical: Vec3Bits { x: ZERO_BITS, y: ONE_BITS, z: ZERO_BITS },
        aspect_ratio: ONE_BITS,
    }
}

/// The uniform block that a material's fields fill.
pub open spec fn material_uniform(m: RayMarchingMaterial) -> MaterialUniform {
    MaterialUniform {
        camera_position: m.camera_position,
        camera_forward: m.camera_forward,
        camera_horizontal: m.camera_horizontal,
        camera_vertical: m.camera_vertical,
        aspect_ratio: m.aspect_ratio,
    }
}

impl RayMarchingMaterial {
    pub fn new() -> (r: RayMarchingMaterial)
        ensures
            r == initial_material(),
    {
        RayMarchingMaterial {
            camera_position: Vec3Bits::new(ZERO_BITS, ZERO_BITS, ZERO_BITS),
            camera_forward: Vec3Bits::new(ZERO_BITS, ZERO_BITS, MINUS_ONE_BITS),
            camera_horizontal: Vec3Bits::new(ONE_BITS, ZERO_BITS, ZERO_BITS),
            camera_vertical: Vec3Bits::new(ZERO_BITS, ONE_BITS, ZERO_BITS),
            aspect_ratio: ONE_BITS,
        }
    }

    /// The uniform block that this material's fields fill.
    pub fn uniform(&self) -> (r: MaterialUniform)
        ensures
            r == material_uniform(*self),
    {
        MaterialUniform {
            camera_position: self.camera_position,
            camera_forward: self.camera_forward,
            camera_horizontal: self.camera_horizontal,
            camera_vertical: self.camera_vertical,
            aspect_ratio: self.aspect_ratio,
        }
    }
}

/// An entity of the simulation side that is drawn with the material.
#[derive(Clone, Copy, Debug, PartialEq, Eq, Structural)]
pub struct MaterialEntity {
    pub entity: u64,
    pub material: u64,
}

/// What extract hands the render side for one entity: its ids and a copy of
/// the camera's transform, if there was a camera to copy.
#[derive(Clone, Copy, Debug, PartialEq, Eq, Structural)]
pub struct ExtractedMaterial {
    pub entity: u64,
    pub material: u64,
    pub camera: Option<CameraTransform>,
}

/// One render cycle's snapshot of the simulation side.
pub struct ExtractedFrame {
    pub materials: Vec<ExtractedMaterial>,
    pub aspect_ratio: u32,
}

/// The camera transform that extract copies: that of the last camera, none
/// when there is no camera.
pub open spec fn extracted_camera(cameras: Seq<CameraTransform>) -> Option<CameraTransform> {
    if cameras.len() == 0 {
        None
    } else {
        Some(cameras.last())
    }
}

/// The snapshot that extract takes of one entity.
pub open spec fn extracted_material(
    e: MaterialEntity,
    cameras: Seq<CameraTransform>,
) -> ExtractedMaterial {
    ExtractedMaterial { entity: e.entity, material: e.material, camera: extracted_camera(cameras) }
}

/// Extract phase: copies the camera's transform and the aspect ratio, by
/// value, into a fresh frame with one snapshot per material entity.
/// `aspect_ratio` is the encoding of the ratio's single-precision value.
pub fn extract_raymarching_material(
    entities: &Vec<MaterialEntity>,
    cameras: &Vec<CameraTransform>,
    aspect_ratio: u32,
) -> (r: ExtractedFrame)
    ensures
        r.aspect_ratio == aspect_ratio,
        r.materials@.len() == entities@.len(),
        forall|i: int|
            0 <= i < entities@.len() ==> #[trigger] r.materials@[i] == extracted_material(
                entities@[i],
                cameras@,
            ),
{
    let camera: Option<CameraTransform> = if cameras.len() == 0 {
        None
    } else {
        Some(cameras[cameras.len() - 1])
    };
    let mut materials: Vec<ExtractedMaterial> = Vec::with_capacity(entities.len());
    let mut i: usize = 0;
    while i < entities.len()
        invariant
            i <= entities@.len(),
            camera == extracted_camera(cameras@),
            materials@.len() == i,
            forall|k: int|
                0 <= k < i ==> #[trigger] materials@[k] == extracted_material(
                    entities@[k],
                    cameras@,
                ),
        decreases entities@.len() - i,
    {
        let e = entities[i];
        materials.push(ExtractedMaterial { entity: e.entity, material: e.material, camera });
        i = i + 1;
    }
    ExtractedFrame { materials, aspect_ratio }
}

/// One resource bound to a material on the GPU side.
#[derive(Clone, Copy, Debug, PartialEq, Eq, Structural)]
pub enum Binding {
    /// A buffer, by its id.
    Buffer { id: u64 },
    /// A texture, a sampler or another resource that holds no uniform data.
    Other,
}

/// The GPU-side binding of a material, once its upload has completed.
pub struct PreparedMaterial {
    pub material: u64,
    pub bindings: Vec<Binding>,
}

/// A write of `data` into the buffer `buffer` at byte `offset`.
pub struct BufferWrite {
    pub buffer: u64,
    pub offset: usize,
    pub data: Vec<u8>,
}

/// The value of a write: target buffer, offset and bytes.
pub open spec fn write_view(w: BufferWrite) -> (u64, usize, Seq<u8>) {
    (w.buffer, w.offset, w.data@)
}

/// The uniform block that a camera transform and an aspect ratio fill.
pub open spec fn snapshot_uniform(cam: CameraTransform, aspect_ratio: u32) -> MaterialUniform {
    MaterialUniform {
        camera_position: cam.translation,
        camera_forward: cam.forward,
        camera_horizontal: cam.right,
        camera_vertical: cam.up,
        aspect_ratio,
    }
}

/// The index of the first GPU-side binding of `material` at or after `i`.
pub open spec fn find_prepared_from(gpu: Seq<PreparedMaterial>, material: u64, i: int) -> Option<
    int,
>
    decreases gpu.len() - i,
{
    if i < 0 || i >= gpu.len() {
        None
    } else if gpu[i].material == material {
        Some(i)
    } else {
        find_prepared_from(gpu, material, i + 1)
    }
}

/// The index of the GPU-side binding of `material`, if it has one.
pub open spec fn find_prepared(gpu: Seq<PreparedMaterial>, material: u64) -> Option<int> {
    find_prepared_from(gpu, material, 0)
}

/// One write of `data` at the uniform offset for each buffer among `bindings`.
pub open spec fn binding_writes(bindings: Seq<Binding>, data: Seq<u8>) -> Seq<(u64, usize, Seq<u8>)>
    decreases bindings.len(),
{
    if bindings.len() == 0 {
        Seq::empty()
    } else {
        let before = binding_writes(bindings.drop_last(), data);
        match bindings.last() {
            Binding::Buffer { id } => before.push((id, UNIFORM_OFFSET, data)),
            Binding::Other => before,
        }
    }
}

/// The writes that prepare issues for one snapshot: none without a camera
/// copy or without a GPU-side binding, else one per buffer of the binding.
pub open spec fn material_writes(
    m: ExtractedMaterial,
    gpu: Seq<PreparedMaterial>,
    aspect_ratio: u32,
) -> Seq<(u64, usize, Seq<u8>)> {
    match m.camera {
        None => Seq::empty(),
        Some(cam) => match find_prepared(gpu, m.material) {
            None => Seq::empty(),
            Some(k) => binding_writes(
                gpu[k].bindings@,
                uniform_layout(snapshot_uniform(cam, aspect_ratio)),
            ),
        },
    }
}

/// The writes that prepare issues for a sequence of snapshots, in order.
pub open spec fn prepared_writes(
    ms: Seq<ExtractedMaterial>,
    gpu: Seq<PreparedMaterial>,
    aspect_ratio: u32,
) -> Seq<(u64, usize, Seq<u8>)>
    decreases ms.len(),
{
    if ms.len() == 0 {
        Seq::empty()
    } else {
        prepared_writes(ms.drop_last(), gpu, aspect_ratio) + material_writes(
            ms.last(),
            gpu,
            aspect_ratio,
        )
    }
}

fn find_prepared_index(gpu: &Vec<PreparedMaterial>, material: u64) -> (r: Option<usize>)
    ensures
        r matches Some(k) ==> k < gpu@.len() && find_prepared(gpu@, material) == Some(k as int),
        r is None ==> find_prepared(gpu@, material) is None,
{
    let mut i: usize = 0;
    while i < gpu.len()
        invariant
            i <= gpu@.len(),
            find_prepared_from(gpu@, material, 0) == find_prepared_from(gpu@, material, i as int),
        decreases gpu@.len() - i,
    {
        if gpu[i].material == material {
            return Some(i);
        }
        i = i + 1;
    }
    None
}

/// Prepare phase: for each snapshot of the frame that has a camera copy and
/// whose material already has its GPU-side binding, serializes the snapshot
/// and issues one write of the block into each buffer of that binding, at the
/// uniform offset. Snapshots without a binding are skipped.
pub fn prepare_raymarching_material(frame: &ExtractedFrame, gpu: &Vec<PreparedMaterial>) -> (r: Vec<
    BufferWrite,
>)
    ensures
        r@.map_values(|w: BufferWrite| write_view(w)) == prepared_writes(
            frame.materials@,
            gpu@,
            frame.aspect_ratio,
        ),
{
    let ghost ms = frame.materials@;
    let mut out: Vec<BufferWrite> = Vec::new();
    let mut i: usize = 0;
    while i < frame.materials.len()
        invariant
            ms == frame.materials@,
            i <= ms.len(),
            out@.map_values(|w: BufferWrite| write_view(w)) == prepared_writes(
                ms.take(i as int),
                gpu@,
                frame.aspect_ratio,
            ),
        decreases ms.len() - i,
    {
        let m = frame.materials[i];
        let ghost before = out@.map_values(|w: BufferWrite| write_view(w));
        proof {
            assert(ms.take(i + 1).drop_last() =~= ms.take(i as int));
            assert(ms.take(i + 1).last() == ms[i as int]);
        }
        if let Some(cam) = m.camera {
            if let Some(k) = find_prepared_index(gpu, m.material) {
                let uniform = MaterialUniform {
                    camera_position: cam.translation,
                    camera_forward: cam.forward,
                    camera_horizontal: cam.right,
                    camera_vertical: cam.up,
                    aspect_ratio: frame.aspect_ratio,
                };
                let bindings = &gpu[k].bindings;
                let ghost data = uniform_layout(uniform);
                let mut j: usize = 0;
                while j < bindings.len()
                    invariant
                        j <= bindings@.len(),
                        data == uniform_layout(uniform),
                        out@.map_values(|w: BufferWrite| write_view(w)) == before + binding_writes(
                            bindings@.take(j as int),
                            data,
                        ),
                    decreases bindings@.len() - j,
                {
                    proof {
                        assert(bindings@.take(j + 1).drop_last() =~= bindings@.take(j as int));
                        assert(bindings@.take(j + 1).last() == bindings@[j as int]);
                    }
                    match bindings[j] {
                        Binding::Buffer { id } => {
                            let ghost prev = out@;
                            let bytes = uniform_bytes(&uniform);
                            out.push(BufferWrite { buffer: id, offset: UNIFORM_OFFSET, data: bytes });
                            assert(out@.map_values(|w: BufferWrite| write_view(w)) =~= prev.map_values(
                                |w: BufferWrite| write_view(w),
                            ).push((id, UNIFORM_OFFSET, data)));
                        },
                        Binding::Other => {},
                    }
                    j = j + 1;
                }
                assert(bindings@.take(bindings@.len() as int) =~= bindings@);
            }
        }
        proof {
            assert(out@.map_values(|w: BufferWrite| write_view(w)) =~= prepared_writes(
                ms.take(i + 1),
                gpu@,
                frame.aspect_ratio,
            ));
        }
        i = i + 1;
    }
    assert(ms.take(ms.len() as int) =~= ms);
    out
}

/// Every write of `ws` goes to the uniform offset and carries `data`.
pub open spec fn all_carry(ws: Seq<(u64, usize, Seq<u8>)>, data: Seq<u8>) -> bool {
    forall|j: int| 0 <= j < ws.len() ==> (#[trigger] ws[j]).1 == UNIFORM_OFFSET && ws[j].2 == data
}

proof fn lemma_binding_writes_carry(bindings: Seq<Binding>, data: Seq<u8>)
    ensures
        all_carry(binding_writes(bindings, data), data),
    decreases bindings.len(),
{
    if bindings.len() > 0 {
        lemma_binding_writes_carry(bindings.drop_last(), data);
        let before = binding_writes(bindings.drop_last(), data);
        let ws = binding_writes(bindings, data);
        assert forall|j: int| 0 <= j < ws.len() implies (#[trigger] ws[j]).1 == UNIFORM_OFFSET
            && ws[j].2 == data by {
            if j < before.len() {
                assert(ws[j] == before[j]);
            }
        }
    }
}

/// Prepare delivers what extract saw. For a frame extracted from the given
/// entities, cameras and aspect ratio, every write that prepare issues for it
/// carries, at the uniform offset, exactly the block of the last camera's
/// transform and of that aspect ratio; without a camera it issues none. The
/// writes are a function of those extract-time values and of the GPU-side
/// bindings alone: a later change of the simulation state, or any number of
/// cycles between the two phases, cannot alter a byte of them.
pub proof fn lemma_prepare_reflects_extract(
    entities: Seq<MaterialEntity>,
    cameras: Seq<CameraTransform>,
    aspect_ratio: u32,
    ms: Seq<ExtractedMaterial>,
    gpu: Seq<PreparedMaterial>,
)
    requires
        ms.len() == entities.len(),
        forall|i: int| 0 <= i < ms.len() ==> #[trigger] ms[i] == extracted_material(entities[i], cameras),
    ensures
        cameras.len() == 0 ==> prepared_writes(ms, gpu, aspect_ratio).len() == 0,
        all_carry(
            prepared_writes(ms, gpu, aspect_ratio),
            uniform_layout(snapshot_uniform(cameras.last(), aspect_ratio)),
        ),
    decreases ms.len(),
{
    if ms.len() > 0 {
        let data = uniform_layout(snapshot_uniform(cameras.last(), aspect_ratio));
        let rest = ms.drop_last();
        assert forall|i: int| 0 <= i < rest.len() implies #[trigger] rest[i] == extracted_material(
            entities.drop_last()[i],
            cameras,
        ) by {
            assert(rest[i] == ms[i]);
        }
        lemma_prepare_reflects_extract(entities.drop_last(), cameras, aspect_ratio, rest, gpu);
        let m = ms.last();
        assert(m == extracted_material(entities[ms.len() - 1], cameras));
        let head = prepared_writes(rest, gpu, aspect_ratio);
        let tail = material_writes(m, gpu, aspect_ratio);
        let ws = prepared_writes(ms, gpu, aspect_ratio);
        assert(ws == head + tail);
        if cameras.len() > 0 {
            if let Some(k) = find_prepared(gpu, m.material) {
                lemma_binding_writes_carry(gpu[k].bindings@, data);
            }
        }
        assert(all_carry(tail, data));
        assert forall|j: int| 0 <= j < ws.len() implies (#[trigger] ws[j]).1 == UNIFORM_OFFSET
            && ws[j].2 == data by {
            if j < head.len() {
                assert(ws[j] == head[j]);
            } else {
                assert(ws[j] == tail[j - head.len()]);
            }
        }
    }
}

/// A change of the aspect ratio alone reaches only the aspect field. Where a
/// buffer holds the block of one snapshot at the uniform offset, writing there
/// the block of a snapshot with the same camera frame and another aspect ratio
/// changes bytes 60 to 63 of it, to the new ratio's bytes, and no other byte.
pub proof fn lemma_aspect_update_in_buffer(bytes: Seq<u8>, u1: MaterialUniform, u2: MaterialUniform)
    requires
        bytes.len() >= UNIFORM_OFFSET + UNIFORM_SIZE,
        bytes.subrange(UNIFORM_OFFSET as int, UNIFORM_OFFSET + UNIFORM_SIZE) == uniform_layout(u1),
        u1.camera_position == u2.camera_position,
        u1.camera_forward == u2.camera_forward,
        u1.camera_horizontal == u2.camera_horizontal,
        u1.camera_vertical == u2.camera_vertical,
    ensures
        written(bytes, UNIFORM_OFFSET as int, uniform_layout(u2)).len() == bytes.len(),
        forall|i: int|
            0 <= i < bytes.len() && !(UNIFORM_OFFSET + ASPECT_RATIO_OFFSET <= i < UNIFORM_OFFSET
                + UNIFORM_SIZE) ==> #[trigger] written(bytes, UNIFORM_OFFSET as int, uniform_layout(u2))[i]
                == bytes[i],
        written(bytes, UNIFORM_OFFSET as int, uniform_layout(u2)).subrange(
            UNIFORM_OFFSET + ASPECT_RATIO_OFFSET,
            UNIFORM_OFFSET + UNIFORM_SIZE,
        ) == crate::layout::word_bytes(u2.aspect_ratio),
{
    lemma_layout_shape(u1);
    lemma_layout_shape(u2);
    let w = written(bytes, UNIFORM_OFFSET as int, uniform_layout(u2));
    assert forall|i: int|
        0 <= i < bytes.len() && !(UNIFORM_OFFSET + ASPECT_RATIO_OFFSET <= i < UNIFORM_OFFSET
            + UNIFORM_SIZE) implies #[trigger] w[i] == bytes[i] by {
        if i < UNIFORM_OFFSET + ASPECT_RATIO_OFFSET {
            assert(w[i] == uniform_layout(u2)[i]);
            assert(uniform_layout(u2)[i] == camera_block(u2)[i]);
            assert(uniform_layout(u1)[i] == camera_block(u1)[i]);
            assert(bytes[i] == bytes.subrange(0, 64)[i]);
        }
    }
    assert(w.subrange(60, 64) =~= uniform_layout(u2).subrange(60, 64));
}

} // verus!
