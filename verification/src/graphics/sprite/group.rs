//! Groups of sprites, which can be searched by name.
use vstd::prelude::*;
use crate::graphics::sprite::sprite_obj::Sprite;
use crate::group::element_at;
use crate::group::populated;
use crate::group::without;
use crate::group::Group;
use crate::group::SomeGroup;
use crate::misc_traits::named::Named;
use crate::scalar::Scalar;

verus! {

/// A group like any other, for sprites, with what only sprites can do.
#[derive(Debug)]
#[verifier::reject_recursive_types(S)]
pub struct SpriteGroup<S: Scalar, T> {
    pub group: Group<Sprite<S, T>>,
}

/// Whether `slot` holds a sprite whose name is `name`.
pub open spec fn holds_named<S: Scalar, T>(slot: Option<Sprite<S, T>>, name: Seq<char>) -> bool {
    slot matches Some(sprite) && sprite.name matches Some(sprite_name) && sprite_name@ == name
}

/// Whether `i` is the first slot that holds a sprite whose name is `name`.
pub open spec fn first_named<S: Scalar, T>(
    slots: Seq<Option<Sprite<S, T>>>,
    name: Seq<char>,
    i: int,
) -> bool {
    &&& 0 <= i < slots.len()
    &&& holds_named(slots[i], name)
    &&& forall|j: int| 0 <= j < i ==> !holds_named(#[trigger] slots[j], name)
}

/// Whether no slot holds a sprite whose name is `name`.
pub open spec fn none_named<S: Scalar, T>(slots: Seq<Option<Sprite<S, T>>>, name: Seq<char>) -> bool {
    forall|j: int| 0 <= j < slots.len() ==> !holds_named(#[trigger] slots[j], name)
}

impl<S: Scalar, T> SpriteGroup<S, T> {
    /// An empty group.
    pub fn new() -> (group: Self)
        ensures
            group.group.elements@ == Seq::<Option<Sprite<S, T>>>::empty(),
    {
        SpriteGroup { group: Group::new() }
    }

    /// A group that holds the given sprites, in the order given.
    pub fn from(elements: Vec<Sprite<S, T>>) -> (group: Self)
        ensures
            group.group.elements@ == populated(elements@),
    {
        SpriteGroup { group: Group::from(elements) }
    }

    /// The first slot that holds a sprite of the name `name`, or nothing
    /// where no sprite has that name.
    pub fn find(&self, name: &str) -> (index: Option<usize>)
        ensures
            match index {
                Some(i) => first_named(self.group.elements@, name@, i as int),
                None => none_named(self.group.elements@, name@),
            },
    {
        let wanted = name.to_owned();
        let elements = self.get_elements();
        let mut i: usize = 0;
        while i < elements.len()
            invariant
                i <= elements.len(),
                elements@ == self.group.elements@,
                wanted@ == name@,
                forall|j: int| 0 <= j < i ==> !holds_named(#[trigger] elements@[j], name@),
            decreases elements.len() - i,
        {
            if let Some(sprite) = &elements[i] {
                if let Some(sprite_name) = sprite.get_name() {
                    if *sprite_name == wanted {
                        return Some(i);
                    }
                }
            }
            i = i + 1;
        }
        None
    }

    /// The first sprite of the name `name`, or nothing where no sprite has
    /// that name.
    pub fn find_get(&self, name: &str) -> (sprite: Option<&Sprite<S, T>>)
        ensures
            match sprite {
                Some(sprite) => exists|i: int|
                    first_named(self.group.elements@, name@, i) && self.group.elements@[i] == Some(
                        *sprite,
                    ),
                None => none_named(self.group.elements@, name@),
            },
    {
        let i = self.find(name);
        match i {
            Some(i) => self.get(i),
            None => None,
        }
    }

    /// The first sprite of the name `name`, to be changed in place, or
    /// nothing where no sprite has that name. Only that sprite can change.
    pub fn find_get_mut(&mut self, name: &str) -> (sprite: Option<&mut Sprite<S, T>>)
        ensures
            match sprite {
                Some(sprite) => exists|i: int|
                    {
                        &&& first_named(old(self).group.elements@, name@, i)
                        &&& old(self).group.elements@[i] == Some(*sprite)
                        &&& final(self).group.elements@ == old(self).group.elements@.update(
                            i,
                            Some(*final(sprite)),
                        )
                    },
                None => none_named(old(self).group.elements@, name@)
                    && final(self).group.elements@ == old(self).group.elements@,
            },
    {
        let i = self.find(name);
        match i {
            Some(i) => self.get_mut(i),
            None => None,
        }
    }

    /// Takes the first sprite of the name `name` out of the group, or
    /// nothing where no sprite has that name. The last slot is moved into
    /// the gap.
    pub fn find_take(&mut self, name: &str) -> (sprite: Option<Sprite<S, T>>)
        ensures
            match sprite {
                Some(sprite) => exists|i: int|
                    {
                        &&& first_named(old(self).group.elements@, name@, i)
                        &&& old(self).group.elements@[i] == Some(sprite)
                        &&& final(self).group.elements@ == without(old(self).group.elements@, i)
                    },
                None => none_named(old(self).group.elements@, name@)
                    && final(self).group.elements@ == old(self).group.elements@,
            },
    {
        let i = self.find(name);
        match i {
            Some(i) => self.take_el(i),
            None => None,
        }
    }
}

impl<S: Scalar, T> SomeGroup<Sprite<S, T>> for SpriteGroup<S, T> {
    open spec fn elements(&self) -> Vec<Option<Sprite<S, T>>> {
        self.group.elements
    }

    open spec fn put_elements(self, elements: Vec<Option<Sprite<S, T>>>) -> Self {
        SpriteGroup { group: Group { elements } }
    }

    fn get_elements(&self) -> (elements: &Vec<Option<Sprite<S, T>>>) {
        self.group.get_elements()
    }

    fn get_elements_mut(&mut self) -> (elements: &mut Vec<Option<Sprite<S, T>>>) {
        self.group.get_elements_mut()
    }
}

} // verus!
