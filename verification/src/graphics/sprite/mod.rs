//! Sprites and groups of sprites.
pub mod group;
pub mod sprite_obj;

pub use group::SpriteGroup;
pub use sprite_obj::Sprite;
