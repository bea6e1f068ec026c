//! Byte layout of the camera uniform block that the ray-marching shader reads.
//!
//! Every scalar of the block is a single-precision IEEE-754 value. The library
//! never computes with those values: it carries each one as its 32-bit
//! encoding and lays the encodings out little-endian, as the GPU reads them.
//!
//! The block is `{ position: vec3, forward: vec3, horizontal: vec3,
//! vertical: vec3, aspect_ratio: scalar }` under the uniform packing rules:
//! a vec3 is 12 bytes aligned to 16, a scalar 4 bytes aligned to 4. So the
//! vectors start at 0, 16, 32 and 48, the aspect ratio sits in the last four
//! bytes of the vertical vector's slot, at 60, and the block is 64 bytes.
use vstd::prelude::*;

verus! {

/// Size in bytes of the serialized uniform block.
pub const UNIFORM_SIZE: usize = 64;

/// Byte offset of the aspect ratio inside the uniform block.
pub const ASPECT_RATIO_OFFSET: usize = 60;

/// Byte offset in the material's uniform buffer at which the block is written.
pub const UNIFORM_OFFSET: usize = 0;

/// Encoding of the single-precision value 0.0.
pub const ZERO_BITS: u32 = 0;

/// Encoding of the single-precision value 1.0.
pub const ONE_BITS: u32 = 0x3f80_0000;

/// Encoding of the single-precision value -1.0.
pub const MINUS_ONE_BITS: u32 = 0xbf80_0000;

/// The sign bit of a single-precision encoding.
pub const SIGN_BIT: u32 = 0x8000_0000;

/// A three-component vector of single-precision values, each held by its encoding.
#[derive(Clone, Copy, Debug, PartialEq, Eq, Structural)]
pub struct Vec3Bits {
    pub x: u32,
    pub y: u32,
    pub z: u32,
}

impl Vec3Bits {
    pub fn new(x: u32, y: u32, z: u32) -> (r: Vec3Bits)
        ensures
            r == (Vec3Bits { x, y, z }),
    {
        Vec3Bits { x, y, z }
    }
}

/// The values that the shader's uniform block holds: a point-in-time copy of
/// the camera's frame and of the viewport's aspect ratio.
#[derive(Clone, Copy, Debug, PartialEq, Eq, Structural)]
pub struct MaterialUniform {
    pub camera_position: Vec3Bits,
    pub camera_forward: Vec3Bits,
    pub camera_horizontal: Vec3Bits,
    pub camera_vertical: Vec3Bits,
    pub aspect_ratio: u32,
}

/// The four little-endian bytes of a 32-bit word.
pub open spec fn word_bytes(w: u32) -> Seq<u8> {
    seq![
        (w % 0x100) as u8,
        ((w / 0x100) % 0x100) as u8,
        ((w / 0x1_0000) % 0x100) as u8,
        (w / 0x100_0000) as u8,
    ]
}

/// The twelve bytes of a vec3.
pub open spec fn vec3_bytes(v: Vec3Bits) -> Seq<u8> {
    word_bytes(v.x) + word_bytes(v.y) + word_bytes(v.z)
}

/// A vec3 in its 16-byte slot: the twelve bytes of the vector, then four zero bytes.
pub open spec fn vec3_slot(v: Vec3Bits) -> Seq<u8> {
    vec3_bytes(v) + seq![0u8, 0u8, 0u8, 0u8]
}

/// The first 60 bytes of the block: everything that describes the camera.
pub open spec fn camera_block(u: MaterialUniform) -> Seq<u8> {
    vec3_slot(u.camera_position) + vec3_slot(u.camera_forward) + vec3_slot(u.camera_horizontal)
        + vec3_bytes(u.camera_vertical)
}

/// The bytes of the whole uniform block.
pub open spec fn uniform_layout(u: MaterialUniform) -> Seq<u8> {
    camera_block(u) + word_bytes(u.aspect_ratio)
}

fn push_word(out: &mut Vec<u8>, w: u32)
    ensures
        final(out)@ == old(out)@ + word_bytes(w),
{
    out.push((w % 0x100) as u8);
    out.push(((w / 0x100) % 0x100) as u8);
    out.push(((w / 0x1_0000) % 0x100) as u8);
    out.push((w / 0x100_0000) as u8);
    assert(final(out)@ =~= old(out)@ + word_bytes(w));
}

fn push_vec3(out: &mut Vec<u8>, v: Vec3Bits)
    ensures
        final(out)@ == old(out)@ + vec3_bytes(v),
{
    push_word(out, v.x);
    push_word(out, v.y);
    push_word(out, v.z);
    assert(final(out)@ =~= old(out)@ + vec3_bytes(v));
}

fn push_vec3_slot(out: &mut Vec<u8>, v: Vec3Bits)
    ensures
        final(out)@ == old(out)@ + vec3_slot(v),
{
    push_vec3(out, v);
    push_word(out, 0);
    assert(word_bytes(0) =~= seq![0u8, 0u8, 0u8, 0u8]);
    assert(final(out)@ =~= old(out)@ + vec3_slot(v));
}

/// Serializes a uniform snapshot into the exact byte layout of the shader's block.
pub fn uniform_bytes(u: &MaterialUniform) -> (r: Vec<u8>)
    ensures
        r@ == uniform_layout(*u),
        r@.len() == UNIFORM_SIZE,
{
    let mut out: Vec<u8> = Vec::with_capacity(UNIFORM_SIZE);
    push_vec3_slot(&mut out, u.camera_position);
    push_vec3_slot(&mut out, u.camera_forward);
    push_vec3_slot(&mut out, u.camera_horizontal);
    push_vec3(&mut out, u.camera_vertical);
    push_word(&mut out, u.aspect_ratio);
    assert(out@ =~= uniform_layout(*u));
    out
}

/// The block is 64 bytes, and its aspect ratio occupies bytes 60 to 63.
pub proof fn lemma_layout_shape(u: MaterialUniform)
    ensures
        uniform_layout(u).len() == UNIFORM_SIZE,
        camera_block(u).len() == ASPECT_RATIO_OFFSET,
        uniform_layout(u).subrange(0, ASPECT_RATIO_OFFSET as int) == camera_block(u),
        uniform_layout(u).subrange(ASPECT_RATIO_OFFSET as int, UNIFORM_SIZE as int) == word_bytes(
            u.aspect_ratio,
        ),
{
    assert(uniform_layout(u).subrange(0, 60) =~= camera_block(u));
    assert(uniform_layout(u).subrange(60, 64) =~= word_bytes(u.aspect_ratio));
}

/// Two snapshots that hold the same camera frame serialize to blocks that
/// differ at most in the aspect ratio's four bytes.
pub proof fn lemma_aspect_change_touches_only_aspect_field(u1: MaterialUniform, u2: MaterialUniform)
    requires
        u1.camera_position == u2.camera_position,
        u1.camera_forward == u2.camera_forward,
        u1.camera_horizontal == u2.camera_horizontal,
        u1.camera_vertical == u2.camera_vertical,
    ensures
        forall|i: int|
            0 <= i < UNIFORM_SIZE && !(ASPECT_RATIO_OFFSET <= i < UNIFORM_SIZE) ==> #[trigger] uniform_layout(
                u1,
            )[i] == uniform_layout(u2)[i],
        uniform_layout(u2).subrange(ASPECT_RATIO_OFFSET as int, UNIFORM_SIZE as int) == word_bytes(
            u2.aspect_ratio,
        ),
{
    lemma_layout_shape(u1);
    lemma_layout_shape(u2);
    assert forall|i: int| 0 <= i < ASPECT_RATIO_OFFSET implies #[trigger] uniform_layout(u1)[i]
        == uniform_layout(u2)[i] by {
        assert(uniform_layout(u1)[i] == camera_block(u1)[i]);
        assert(uniform_layout(u2)[i] == camera_block(u2)[i]);
    }
}

} // verus!
