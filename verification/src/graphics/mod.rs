//! What is drawn: sprites, their groups, and the capabilities they share.
pub mod sprite;
pub mod traits;

pub use self::sprite::Sprite;
