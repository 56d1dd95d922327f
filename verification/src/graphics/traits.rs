//! Capabilities of things that are drawn.
use vstd::prelude::*;

verus! {

/// Anything that is drawn on a layer.
pub trait Layered: Sized {
    /// The layer.
    spec fn layer(&self) -> u32;

    /// `self` with its layer replaced and nothing else changed.
    spec fn put_layer(self, layer: u32) -> Self;

    /// The layer.
    fn get_layer(&self) -> (layer: u32)
        ensures
            layer == self.layer(),
    ;

    /// The layer, to be changed in place.
    fn get_layer_mut(&mut self) -> (layer: &mut u32)
        ensures
            *layer == old(self).layer(),
            final(self).layer() == *final(layer),
            *final(self) == old(self).put_layer(*final(layer)),
    ;

    /// Moves `self` to `layer`.
    fn change_layer(&mut self, layer: u32)
        ensures
            *final(self) == old(self).put_layer(layer),
    {
        *self.get_layer_mut() = layer;
    }

    /// Moves `self` one layer up.
    fn increase_layer(&mut self)
        requires
            old(self).layer() < u32::MAX,
        ensures
            *final(self) == old(self).put_layer((old(self).layer() + 1) as u32),
    {
        let layer: u32 = self.get_layer();
        self.change_layer(layer + 1)
    }

    /// Moves `self` one layer down.
    fn decrease_layer(&mut self)
        requires
            old(self).layer() > 0,
        ensures
            *final(self) == old(self).put_layer((old(self).layer() - 1) as u32),
    {
        let layer: u32 = self.get_layer();
        self.change_layer(layer - 1)
    }

    /// `self` on `layer`.
    fn at_layer(self, layer: u32) -> (moved: Self)
        ensures
            moved == self.put_layer(layer),
    {
        let mut moved = self;
        moved.change_layer(layer);
        moved
    }
}

/// Anything whose texture is a grid of frames.
pub trait FrameList: Sized {
    /// The number of frames in a row and in a column.
    spec fn frames(&self) -> (u32, u32);

    /// `self` with its frame counts replaced and nothing else changed.
    spec fn put_frames(self, frames: (u32, u32)) -> Self;

    /// The number of frames in a row and in a column.
    fn get_frames(&self) -> (frames: (u32, u32))
        ensures
            frames == self.frames(),
    ;

    /// The two frame counts, to be changed in place.
    fn get_frames_mut(&mut self) -> (frames: (&mut u32, &mut u32))
        ensures
            (*frames.0, *frames.1) == old(self).frames(),
            final(self).frames() == (*final(frames.0), *final(frames.1)),
            *final(self) == old(self).put_frames((*final(frames.0), *final(frames.1))),
    ;

    /// Sets the number of frames in a row and in a column.
    fn set_frames(&mut self, frames_h: u32, frames_v: u32)
        ensures
            *final(self) == old(self).put_frames((frames_h, frames_v)),
    {
        let (h, v) = self.get_frames_mut();
        *h = frames_h;
        *v = frames_v;
    }

    /// `self` with `frames_h` frames in a row and `frames_v` in a column.
    fn with_frames(self, frames_h: u32, frames_v: u32) -> (framed: Self)
        ensures
            framed == self.put_frames((frames_h, frames_v)),
    {
        let mut framed = self;
        framed.set_frames(frames_h, frames_v);
        framed
    }
}

/// Anything that owns a texture.
pub trait HasTexture: Sized {
    /// The kind of texture.
    type Texture;

    /// The texture.
    spec fn texture(&self) -> Self::Texture;

    /// `self` with its texture replaced and nothing else changed.
    spec fn put_texture(self, texture: Self::Texture) -> Self;

    /// The texture.
    fn get_texture(&self) -> (texture: &Self::Texture)
        ensures
            *texture == self.texture(),
    ;

    /// The texture, to be changed in place.
    fn get_texture_mut(&mut self) -> (texture: &mut Self::Texture)
        ensures
            *texture == old(self).texture(),
            final(self).texture() == *final(texture),
            *final(self) == old(self).put_texture(*final(texture)),
    ;
}

} // verus!
