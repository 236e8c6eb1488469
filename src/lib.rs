//! Deterministic avatars in SVG, derived from an identifier.
//!
//! The identifier bytes are hashed with SHA-256; the digest chooses the
//! colour of every sector of every ring, and the ring count chooses how many
//! nested rings of eight pie slices are drawn.
pub mod rings;
pub mod text;
pub mod geometry;
pub mod theme;
pub mod color;
pub mod digest;
pub mod document;
pub mod avatar;
pub mod builder;

pub use rings::Rings;
pub use avatar::SvgAvatar;
pub use builder::SvgAvatarBuilder;
