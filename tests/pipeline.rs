use ray_marching_scene::aspect::AspectRatio;
use ray_marching_scene::buffer::UniformBuffer;
use ray_marching_scene::input::{process_camera_translation, AxisMove, LocalAxis, MoveKeys};
use ray_marching_scene::layout::{
    uniform_bytes, MaterialUniform, Vec3Bits, ASPECT_RATIO_OFFSET, UNIFORM_OFFSET, UNIFORM_SIZE,
};
use ray_marching_scene::material::{
    extract_raymarching_material, prepare_raymarching_material, Binding, BufferWrite,
    CameraTransform, MaterialEntity, PreparedMaterial, RayMarchingMaterial,
};

fn v3(x: f32, y: f32, z: f32) -> Vec3Bits {
    Vec3Bits::new(x.to_bits(), y.to_bits(), z.to_bits())
}

fn le(x: f32) -> [u8; 4] {
    x.to_bits().to_le_bytes()
}

fn camera_at(x: f32, y: f32, z: f32) -> CameraTransform {
    CameraTransform {
        translation: v3(x, y, z),
        forward: v3(0.0, 0.0, -1.0),
        right: v3(1.0, 0.0, 0.0),
        up: v3(0.0, 1.0, 0.0),
    }
}

fn one_material_gpu(material: u64, buffer: u64) -> Vec<PreparedMaterial> {
    vec![PreparedMaterial { material, bindings: vec![Binding::Buffer { id: buffer }] }]
}

fn ratio_bits(a: &AspectRatio) -> u32 {
    (a.width() as f32 / a.height() as f32).to_bits()
}

#[test]
fn initial_material_block_layout() {
    let m = RayMarchingMaterial::new();
    let bytes = uniform_bytes(&m.uniform());
    assert_eq!(bytes.len(), 64);
    assert_eq!(UNIFORM_SIZE, 64);
    assert_eq!(ASPECT_RATIO_OFFSET, 60);
    assert!(bytes[0..16].iter().all(|b| *b == 0));
    assert_eq!(&bytes[16..24], &[0u8; 8]);
    assert_eq!(&bytes[24..28], &le(-1.0));
    assert_eq!(&bytes[28..32], &[0u8; 4]);
    assert_eq!(&bytes[32..36], &le(1.0));
    assert_eq!(&bytes[36..48], &[0u8; 12]);
    assert_eq!(&bytes[48..52], &[0u8; 4]);
    assert_eq!(&bytes[52..56], &le(1.0));
    assert_eq!(&bytes[56..60], &[0u8; 4]);
    assert_eq!(&bytes[60..64], &le(1.0));
}

#[test]
fn block_fields_in_declared_order() {
    let u = MaterialUniform {
        camera_position: v3(1.0, 2.0, 3.0),
        camera_forward: v3(4.0, 5.0, 6.0),
        camera_horizontal: v3(7.0, 8.0, 9.0),
        camera_vertical: v3(10.0, 11.0, 12.0),
        aspect_ratio: 1.5f32.to_bits(),
    };
    let bytes = uniform_bytes(&u);
    let expected: Vec<(usize, f32)> = vec![
        (0, 1.0), (4, 2.0), (8, 3.0),
        (16, 4.0), (20, 5.0), (24, 6.0),
        (32, 7.0), (36, 8.0), (40, 9.0),
        (48, 10.0), (52, 11.0), (56, 12.0),
        (60, 1.5),
    ];
    for (at, x) in expected {
        assert_eq!(&bytes[at..at + 4], &le(x), "at {}", at);
    }
    for pad in [12usize, 28, 44] {
        assert_eq!(&bytes[pad..pad + 4], &[0u8; 4]);
    }
}

#[test]
fn non_positive_aspect_is_written_as_is() {
    let mut u = RayMarchingMaterial::new().uniform();
    u.aspect_ratio = 0.0f32.to_bits();
    assert_eq!(&uniform_bytes(&u)[60..64], &le(0.0));
    u.aspect_ratio = (-2.0f32).to_bits();
    assert_eq!(&uniform_bytes(&u)[60..64], &le(-2.0));
}

#[test]
fn buffer_write_leaves_other_bytes() {
    let mut b = UniformBuffer::new(32);
    for i in 0..32 {
        b.bytes[i] = 0xAA;
    }
    b.write(16, &[1, 2, 3, 4]);
    assert_eq!(b.len(), 32);
    assert!(b.bytes[0..16].iter().all(|x| *x == 0xAA));
    assert_eq!(&b.bytes[16..20], &[1, 2, 3, 4]);
    assert!(b.bytes[20..32].iter().all(|x| *x == 0xAA));
}

#[test]
fn buffer_starts_zeroed() {
    let b = UniformBuffer::new(8);
    assert_eq!(b.bytes, vec![0u8; 8]);
}

#[test]
fn extract_copies_last_camera_for_each_entity() {
    let entities = vec![
        MaterialEntity { entity: 1, material: 10 },
        MaterialEntity { entity: 2, material: 10 },
    ];
    let cameras = vec![camera_at(1.0, 0.0, 0.0), camera_at(2.0, 0.0, 0.0)];
    let frame = extract_raymarching_material(&entities, &cameras, 2.0f32.to_bits());
    assert_eq!(frame.aspect_ratio, 2.0f32.to_bits());
    assert_eq!(frame.materials.len(), 2);
    for (m, e) in frame.materials.iter().zip(entities.iter()) {
        assert_eq!(m.entity, e.entity);
        assert_eq!(m.material, 10);
        assert_eq!(m.camera, Some(cameras[1]));
    }
}

#[test]
fn extract_without_camera_prepares_nothing() {
    let entities = vec![MaterialEntity { entity: 1, material: 10 }];
    let frame = extract_raymarching_material(&entities, &vec![], 1.0f32.to_bits());
    assert_eq!(frame.materials[0].camera, None);
    let writes = prepare_raymarching_material(&frame, &one_material_gpu(10, 100));
    assert!(writes.is_empty());
}

#[test]
fn prepare_skips_material_without_binding() {
    let entities = vec![
        MaterialEntity { entity: 1, material: 10 },
        MaterialEntity { entity: 2, material: 20 },
    ];
    let cameras = vec![camera_at(0.0, 0.0, 5.0)];
    let frame = extract_raymarching_material(&entities, &cameras, 1.0f32.to_bits());
    let writes = prepare_raymarching_material(&frame, &one_material_gpu(20, 200));
    assert_eq!(writes.len(), 1);
    assert_eq!(writes[0].buffer, 200);
    assert_eq!(writes[0].offset, UNIFORM_OFFSET);
    assert_eq!(writes[0].offset, 0);
}

#[test]
fn prepare_writes_every_buffer_binding() {
    let entities = vec![MaterialEntity { entity: 1, material: 10 }];
    let cameras = vec![camera_at(0.0, 0.0, 5.0)];
    let frame = extract_raymarching_material(&entities, &cameras, 1.0f32.to_bits());
    let gpu = vec![PreparedMaterial {
        material: 10,
        bindings: vec![Binding::Buffer { id: 7 }, Binding::Other, Binding::Buffer { id: 8 }],
    }];
    let writes = prepare_raymarching_material(&frame, &gpu);
    let ids: Vec<u64> = writes.iter().map(|w| w.buffer).collect();
    assert_eq!(ids, vec![7, 8]);
    assert_eq!(writes[0].data, writes[1].data);
    assert_eq!(&writes[0].data[8..12], &le(5.0));
}

#[test]
fn prepare_is_deterministic_across_cycles() {
    let entities = vec![MaterialEntity { entity: 1, material: 10 }];
    let cameras = vec![camera_at(0.5, -1.0, 5.0)];
    let frame = extract_raymarching_material(&entities, &cameras, 1.25f32.to_bits());
    let gpu = one_material_gpu(10, 100);
    let first: Vec<Vec<u8>> = prepare_raymarching_material(&frame, &gpu).into_iter().map(|w| w.data).collect();
    for _ in 0..5 {
        let again: Vec<Vec<u8>> =
            prepare_raymarching_material(&frame, &gpu).into_iter().map(|w| w.data).collect();
        assert_eq!(again, first);
    }
}

#[test]
fn prepare_reflects_snapshot_not_later_mutation() {
    let entities = vec![MaterialEntity { entity: 1, material: 10 }];
    let mut cameras = vec![camera_at(0.0, 0.0, 5.0)];
    let mut aspect = AspectRatio::new();
    aspect.on_resize(800, 600);
    let frame = extract_raymarching_material(&entities, &cameras, ratio_bits(&aspect));
    cameras[0].translation = v3(9.0, 9.0, 9.0);
    aspect.on_resize(1280, 720);
    let writes = prepare_raymarching_material(&frame, &one_material_gpu(10, 100));
    let expected = uniform_bytes(&MaterialUniform {
        camera_position: v3(0.0, 0.0, 5.0),
        camera_forward: v3(0.0, 0.0, -1.0),
        camera_horizontal: v3(1.0, 0.0, 0.0),
        camera_vertical: v3(0.0, 1.0, 0.0),
        aspect_ratio: (800.0f32 / 600.0f32).to_bits(),
    });
    assert_eq!(writes.len(), 1);
    assert_eq!(writes[0].data, expected);
}

fn apply(buffer: &mut UniformBuffer, writes: &[BufferWrite]) {
    for w in writes {
        buffer.write(w.offset, &w.data);
    }
}

#[test]
fn end_to_end_forward_then_resize() {
    // Camera at (0, 0, 5) looking down -Z; forward held for 2 s at speed 1.
    let mut camera = camera_at(0.0, 0.0, 5.0);
    let moves = process_camera_translation(&MoveKeys {
        forward: true,
        back: false,
        left: false,
        right: false,
        up: false,
        down: false,
    });
    assert_eq!(moves, vec![AxisMove { axis: LocalAxis::Forward, negative: false }]);
    let amount = 1.0f32 * 2.0f32;
    let f = [
        f32::from_bits(camera.forward.x),
        f32::from_bits(camera.forward.y),
        f32::from_bits(camera.forward.z),
    ];
    let p = [
        f32::from_bits(camera.translation.x) + f[0] * amount,
        f32::from_bits(camera.translation.y) + f[1] * amount,
        f32::from_bits(camera.translation.z) + f[2] * amount,
    ];
    assert_eq!(p, [0.0, 0.0, 3.0]);
    camera.translation = v3(p[0], p[1], p[2]);

    let entities = vec![MaterialEntity { entity: 1, material: 10 }];
    let gpu = one_material_gpu(10, 100);
    let mut aspect = AspectRatio::new();
    let mut buffer = UniformBuffer::new(UNIFORM_SIZE);

    aspect.on_resize(800, 600);
    let frame = extract_raymarching_material(&entities, &vec![camera], ratio_bits(&aspect));
    apply(&mut buffer, &prepare_raymarching_material(&frame, &gpu));
    let before = buffer.bytes.clone();
    assert_eq!(&before[8..12], &le(3.0));
    assert_eq!(&before[60..64], &le(800.0 / 600.0));

    aspect.on_resize(1280, 720);
    let frame = extract_raymarching_material(&entities, &vec![camera], ratio_bits(&aspect));
    apply(&mut buffer, &prepare_raymarching_material(&frame, &gpu));
    assert_eq!(&buffer.bytes[0..60], &before[0..60]);
    assert_eq!(&buffer.bytes[60..64], &le(1280.0 / 720.0));
    assert_ne!(&buffer.bytes[60..64], &before[60..64]);
}
