//! Sprites.
use vstd::prelude::*;
use crate::component::group::ticks;
use crate::component::group::ComponentsGroup;
use crate::component::traits::Composite;
use crate::graphics::traits::FrameList;
use crate::graphics::traits::HasTexture;
use crate::graphics::traits::Layered;
use crate::misc_traits::named::Named;
use crate::rect::Rect;
use crate::rect::Rectangular;
use crate::scalar::total;
use crate::scalar::Scalar;

verus! {

/// A sprite: a texture and the rectangle in which it is drawn. It is drawn on
/// a layer, may have a name, and may host components.
#[derive(Debug)]
#[verifier::reject_recursive_types(S)]
pub struct Sprite<S: Scalar, T> {
    pub rect: Rect<S>,
    pub texture: T,
    pub name: Option<String>,
    pub frames_h: u32,
    pub frames_v: u32,
    pub _cur_frame: u32,
    pub layer: u32,
    pub components: Option<ComponentsGroup<S>>,
    pub _hidden: bool,
}

impl<S: Scalar, T> Sprite<S, T> {
    /// The sprite with the given parts.
    pub fn new(
        rect: Rect<S>,
        texture: T,
        name: Option<String>,
        frames_h: u32,
        frames_v: u32,
        _cur_frame: u32,
        layer: u32,
        components: Option<ComponentsGroup<S>>,
        _hidden: bool,
    ) -> (sprite: Self)
        ensures
            sprite == (Sprite {
                rect,
                texture,
                name,
                frames_h,
                frames_v,
                _cur_frame,
                layer,
                components,
                _hidden,
            }),
    {
        Sprite { rect, texture, name, frames_h, frames_v, _cur_frame, layer, components, _hidden }
    }

    /// Whether every component of the sprite can take `dt` more milliseconds
    /// without its accumulated time leaving the range of `u32`.
    pub open spec fn has_time_for(self, dt: u32) -> bool {
        self.components matches Some(components) ==> components.has_time_for(dt)
    }

    /// Whether every component of the sprite can take `dt` more milliseconds
    /// without its accumulated time leaving the range of `u32`, so that the
    /// sprite can be updated for a frame of `dt` milliseconds.
    pub fn can_update(&self, dt: u32) -> (can: bool)
        ensures
            can == self.has_time_for(dt),
    {
        match &self.components {
            Some(components) => components.can_update(dt),
            None => true,
        }
    }

    /// The sprite after a frame of `dt` milliseconds: its components, if it
    /// has any, run one tick with the sprite as their host. Without
    /// components the sprite stays as it is.
    pub fn updated(self, dt: u32) -> (sprite: Sprite<S, T>)
        requires
            total::<S>(),
            self.has_time_for(dt),
        ensures
            match self.components {
                Some(before) => {
                    &&& sprite == (Sprite {
                        rect: sprite.rect,
                        components: sprite.components,
                        ..self
                    })
                    &&& sprite.components matches Some(after) && ticks(
                        before,
                        dt,
                        self.rect,
                        after,
                        sprite.rect,
                    )
                },
                None => sprite == self,
            },
    {
        let mut host = self;
        match host.components.take() {
            Some(components) => {
                let (components, mut host) = components.updated(dt, host);
                host.components = Some(components);
                host
            },
            None => host,
        }
    }
}

impl<S: Scalar, T> Composite<S> for Sprite<S, T> {
    open spec fn components(&self) -> Option<ComponentsGroup<S>> {
        self.components
    }

    open spec fn put_components(self, components: Option<ComponentsGroup<S>>) -> Self {
        Sprite { components, ..self }
    }

    fn get_components(&self) -> (components: &Option<ComponentsGroup<S>>) {
        &self.components
    }

    fn get_components_mut(&mut self) -> (components: &mut Option<ComponentsGroup<S>>) {
        assert(old(self).components == old(self).components());
        &mut self.components
    }
}

impl<S: Scalar, T> HasTexture for Sprite<S, T> {
    type Texture = T;

    open spec fn texture(&self) -> T {
        self.texture
    }

    open spec fn put_texture(self, texture: T) -> Self {
        Sprite { texture, ..self }
    }

    fn get_texture(&self) -> (texture: &T) {
        &self.texture
    }

    fn get_texture_mut(&mut self) -> (texture: &mut T) {
        assert(old(self).texture == old(self).texture());
        &mut self.texture
    }
}

impl<S: Scalar, T> Rectangular<S> for Sprite<S, T> {
    open spec fn rect(&self) -> Rect<S> {
        self.rect
    }

    open spec fn put_rect(self, rect: Rect<S>) -> Self {
        Sprite { rect, ..self }
    }

    fn get_rect(&self) -> (rect: &Rect<S>) {
        &self.rect
    }

    fn get_rect_mut(&mut self) -> (rect: &mut Rect<S>) {
        assert(old(self).rect == old(self).rect());
        &mut self.rect
    }
}

impl<S: Scalar, T> Layered for Sprite<S, T> {
    open spec fn layer(&self) -> u32 {
        self.layer
    }

    open spec fn put_layer(self, layer: u32) -> Self {
        Sprite { layer, ..self }
    }

    fn get_layer(&self) -> (layer: u32) {
        self.layer
    }

    fn get_layer_mut(&mut self) -> (layer: &mut u32) {
        assert(old(self).layer == old(self).layer());
        &mut self.layer
    }
}

impl<S: Scalar, T> FrameList for Sprite<S, T> {
    open spec fn frames(&self) -> (u32, u32) {
        (self.frames_h, self.frames_v)
    }

    open spec fn put_frames(self, frames: (u32, u32)) -> Self {
        Sprite { frames_h: frames.0, frames_v: frames.1, ..self }
    }

    fn get_frames(&self) -> (frames: (u32, u32)) {
        (self.frames_h, self.frames_v)
    }

    fn get_frames_mut(&mut self) -> (frames: (&mut u32, &mut u32)) {
        assert((old(self).frames_h, old(self).frames_v) == old(self).frames());
        (&mut self.frames_h, &mut self.frames_v)
    }
}

impl<S: Scalar, T> Named for Sprite<S, T> {
    open spec fn name(&self) -> Option<String> {
        self.name
    }

    open spec fn put_name(self, name: Option<String>) -> Self {
        Sprite { name, ..self }
    }

    fn get_name(&self) -> (name: &Option<String>) {
        &self.name
    }

    fn get_name_mut(&mut self) -> (name: &mut Option<String>) {
        assert(old(self).name == old(self).name());
        &mut self.name
    }
}

} // verus!
