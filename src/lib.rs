//! Camera-to-shader data pipeline of a full-screen ray-marched scene: the
//! screen quad, the viewport's aspect ratio, the mapping of input to camera
//! moves, and the extract/prepare protocol that delivers a camera snapshot
//! into the shader's uniform buffer.
pub mod layout;
pub mod buffer;
pub mod material;
pub mod aspect;
pub mod quad;
pub mod input;
