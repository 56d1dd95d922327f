//! Slot-based containers.
//!
//! A group is a vector of optional slots. An element is updated by moving it
//! out of its slot, handing it to a transform by value and moving the result
//! back into the same slot, so a transform may take full ownership of the
//! element it is given.
use vstd::prelude::*;

verus! {

/// A group of anything: a vector of slots, each holding an element or nothing.
#[derive(Debug)]
pub struct Group<T> {
    pub elements: Vec<Option<T>>,
}

impl<T> Group<T> {
    /// An empty group.
    pub fn new() -> (group: Group<T>)
        ensures
            group.elements@ == Seq::<Option<T>>::empty(),
    {
        Group { elements: Vec::new() }
    }

    /// A group that holds the given elements, each in a slot of its own, in
    /// the order given.
    pub fn from(elements: Vec<T>) -> (group: Group<T>)
        ensures
            group.elements@ == populated(elements@),
    {
        let ghost given = elements@;
        let mut slots: Vec<Option<T>> = Vec::new();
        for element in it: elements
            invariant
                it.seq() == given,
                slots@ == populated(given.take(it.index() as int)),
        {
            proof {
                let done = given.take(it.index() as int);
                assert(given.take(it.index() + 1) == done.push(element));
                assert(populated(done.push(element)) == populated(done).push(Some(element)));
            }
            slots.push(Some(element));
        }
        proof {
            assert(given.take(given.len() as int) == given);
        }
        Group { elements: slots }
    }
}

/// The slots of a group in which every element is present.
pub open spec fn populated<T>(elements: Seq<T>) -> Seq<Option<T>> {
    Seq::new(elements.len(), |i: int| Some(elements[i]))
}

impl<T> SomeGroup<T> for Group<T> {
    open spec fn elements(&self) -> Vec<Option<T>> {
        self.elements
    }

    open spec fn put_elements(self, elements: Vec<Option<T>>) -> Self {
        Group { elements }
    }

    fn get_elements(&self) -> (elements: &Vec<Option<T>>) {
        &self.elements
    }

    fn get_elements_mut(&mut self) -> (elements: &mut Vec<Option<T>>) {
        &mut self.elements
    }
}

/// What one pass of a transform over the slots `before` may leave behind:
/// the same number of slots, every empty slot still empty, and in every other
/// slot a result of the transform on the element that was there.
pub open spec fn transformed<T, F: FnMut(T) -> T>(
    before: Seq<Option<T>>,
    after: Seq<Option<T>>,
    transform: F,
) -> bool {
    &&& after.len() == before.len()
    &&& forall|i: int|
        0 <= i < before.len() ==> match #[trigger] before[i] {
            Some(element) => after[i] matches Some(result) && call_ensures(
                transform,
                (element,),
                result,
            ),
            None => after[i] is None,
        }
}

/// The slots after the element at `i` has been taken out: the last slot
/// moves into its place and the sequence is one shorter.
pub open spec fn without<T>(slots: Seq<Option<T>>, i: int) -> Seq<Option<T>>
    recommends
        0 <= i < slots.len(),
{
    slots.update(i, slots.last()).drop_last()
}

/// The element at `i`, if `i` is a slot and the slot holds one.
pub open spec fn element_at<T>(slots: Seq<Option<T>>, i: int) -> Option<T> {
    if 0 <= i < slots.len() {
        slots[i]
    } else {
        None
    }
}

/// Anything that keeps its elements in a vector of slots. The two accessors
/// are all an implementor has to write; the operations come with them.
pub trait SomeGroup<T>: Sized {
    /// The vector of slots.
    spec fn elements(&self) -> Vec<Option<T>>;

    /// `self` with its vector of slots replaced and nothing else changed.
    spec fn put_elements(self, elements: Vec<Option<T>>) -> Self;

    /// The vector of slots. Meant for building other containers on top of a
    /// group, not for everyday use.
    fn get_elements(&self) -> (elements: &Vec<Option<T>>)
        ensures
            *elements == self.elements(),
    ;

    /// The vector of slots, to be changed in place. Meant for building other
    /// containers on top of a group, not for everyday use.
    fn get_elements_mut(&mut self) -> (elements: &mut Vec<Option<T>>)
        ensures
            *elements == old(self).elements(),
            final(self).elements() == *final(elements),
            *final(self) == old(self).put_elements(*final(elements)),
    ;

    /// Makes room for `additional` more slots. The slots stay as they are.
    fn reserve(&mut self, additional: usize)
        ensures
            final(self).elements()@ == old(self).elements()@,
            *final(self) == old(self).put_elements(final(self).elements()),
    {
        self.get_elements_mut().reserve(additional)
    }

    /// Appends `element` in a new last slot. The group owns it from now on.
    fn put(&mut self, element: T)
        ensures
            final(self).elements()@ == old(self).elements()@.push(Some(element)),
            *final(self) == old(self).put_elements(final(self).elements()),
    {
        self.get_elements_mut().push(Some(element));
    }

    /// Applies `closure` to every element, from the last slot to the first.
    /// Each element is moved out of its slot, handed to `closure` by value,
    /// and the result is moved back into the same slot. Empty slots are
    /// passed over.
    fn call<F>(&mut self, closure: F) where F: FnMut(T) -> T
        requires
            forall|i: int|
                0 <= i < old(self).elements()@.len() ==> (
                #[trigger] old(self).elements()@[i] matches Some(element) ==> call_requires(
                    closure,
                    (element,),
                )),
        ensures
            transformed(old(self).elements()@, final(self).elements()@, closure),
            *final(self) == old(self).put_elements(final(self).elements()),
    {
        let mut transform = closure;
        let slots = self.get_elements_mut();
        let ghost before = slots@;
        let mut i: usize = slots.len();
        while i > 0
            invariant
                i <= before.len(),
                transform == closure,
                slots@.len() == before.len(),
                forall|j: int| 0 <= j < i ==> slots@[j] == before[j],
                forall|j: int|
                    0 <= j < before.len() ==> (#[trigger] before[j] matches Some(element)
                        ==> call_requires(transform, (element,))),
                forall|j: int|
                    i <= j < before.len() ==> match #[trigger] before[j] {
                        Some(element) => slots@[j] matches Some(result) && call_ensures(
                            closure,
                            (element,),
                            result,
                        ),
                        None => slots@[j] is None,
                    },
            decreases i,
        {
            i = i - 1;
            assert(slots@[i as int] == before[i as int]);
            let slot = &mut slots[i];
            if slot.is_some() {
                let element = transform(slot.take().unwrap());
                *slot = Some(element);
            }
        }
    }

    /// Takes the element at `i` out of the group and returns it. The last
    /// slot is moved into the gap, so the order of the slots is not kept.
    fn take_el(&mut self, i: usize) -> (element: Option<T>)
        requires
            i < old(self).elements()@.len(),
        ensures
            element == old(self).elements()@[i as int],
            final(self).elements()@ == without(old(self).elements()@, i as int),
            *final(self) == old(self).put_elements(final(self).elements()),
    {
        self.get_elements_mut().swap_remove(i)
    }

    /// The element at `i`, or nothing where `i` is no slot or the slot is
    /// empty.
    fn get(&self, i: usize) -> (element: Option<&T>)
        ensures
            match element_at(self.elements()@, i as int) {
                Some(found) => element == Some(&found),
                None => element is None,
            },
    {
        let slots = self.get_elements();
        if i < slots.len() {
            slots[i].as_ref()
        } else {
            None
        }
    }

    /// The element at `i`, to be changed in place, or nothing where `i` is
    /// no slot or the slot is empty. Only that element can change.
    fn get_mut(&mut self, i: usize) -> (element: Option<&mut T>)
        ensures
            match element_at(old(self).elements()@, i as int) {
                Some(found) => element matches Some(held) && *held == found
                    && final(self).elements()@ == old(self).elements()@.update(
                    i as int,
                    Some(*final(held)),
                ),
                None => element is None && final(self).elements()@ == old(self).elements()@,
            },
            *final(self) == old(self).put_elements(final(self).elements()),
    {
        let slots = self.get_elements_mut();
        if i < slots.len() {
            slots[i].as_mut()
        } else {
            None
        }
    }
}

/// A transform that hands every element back as it was leaves the slots as
/// they were, order included.
pub proof fn lemma_identity_keeps_slots<T, F: FnMut(T) -> T>(
    before: Seq<Option<T>>,
    after: Seq<Option<T>>,
    transform: F,
)
    requires
        transformed(before, after, transform),
        forall|element: T, result: T|
            call_ensures(transform, (element,), result) ==> result == element,
    ensures
        after == before,
{
    assert forall|i: int| 0 <= i < before.len() implies after[i] == before[i] by {
        match before[i] {
            Some(element) => {},
            None => {},
        }
    }
    assert(after =~= before);
}

} // verus!
