//! A deterministic bit-flip fault-injection engine.
//!
//! A [`Ray`] describes one reversible corruption: a byte offset and an 8-bit
//! XOR mask. An engine applies rays to a byte-addressable target and keeps an
//! ordered history of what it applied, so that every corruption can be undone
//! in exact reverse order, returning the target to its pristine bytes.
//!
//! [`RayBoxVec`] owns an in-memory buffer and flips its bytes directly;
//! [`RayBoxFile`] drives any seekable byte store through the [`ByteStore`]
//! capability trait. Both share the same history discipline: push on attack,
//! pop on restore, undo in reverse on restore_all.

mod buffer;
mod errors;
mod flip;
mod model;
mod options;
mod ray;
mod store;
mod stream;

pub use buffer::RayBoxVec;
pub use errors::Error;
pub use flip::affect;
pub use model::{
    apply_ray, apply_rays, flip_byte, lemma_apply_rays_push, lemma_flip_involution,
    lemma_restore_order, lemma_round_trip, lemma_xor_involution, rays_in_range, undo_rays,
};
pub use options::{file_name_start, last_index_of, stem_end, with_extension, Opt};
pub use ray::Ray;
pub use store::{ByteStore, VecStore};
pub use stream::RayBoxFile;
