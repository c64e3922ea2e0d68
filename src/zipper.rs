//! A non-empty list with a selected item.

use vstd::prelude::*;

verus! {

pub struct Zipper<T> {
    pub items: Vec<T>,
    pub index: usize,
}

impl<T> Zipper<T> {
    pub open spec fn wf(&self) -> bool {
        self.index < self.items@.len()
    }

    /// Selects the first item; `None` for an empty list.
    pub fn new(items: Vec<T>) -> (r: Option<Self>)
        ensures
            r is Some <==> items@.len() > 0,
            r matches Some(z) ==> z.wf() && z.items@ == items@ && z.index == 0,
    {
        if items.len() > 0 {
            Some(Zipper { items, index: 0 })
        } else {
            None
        }
    }

    /// Selects item `index`; `None` when there is no such item.
    pub fn new_with_index(items: Vec<T>, index: usize) -> (r: Option<Self>)
        ensures
            r is Some <==> index < items@.len(),
            r matches Some(z) ==> z.wf() && z.items@ == items@ && z.index == index,
    {
        if index < items.len() {
            Some(Zipper { items, index })
        } else {
            None
        }
    }

    pub fn get(&self) -> (r: &T)
        requires
            self.wf(),
        ensures
            *r == self.items@[self.index as int],
    {
        &self.items[self.index]
    }

    /// The selected item, for changing in place.
    pub fn get_mut(&mut self) -> (r: &mut T)
        requires
            old(self).wf(),
        ensures
            *r == old(self).items@[old(self).index as int],
            final(self).index == old(self).index,
            final(self).items@ == old(self).items@.update(old(self).index as int, *final(r)),
    {
        let index = self.index;
        &mut self.items[index]
    }
}

} // verus!
