use vstd::prelude::*;

verus! {

/// A last-in-first-out stack.
pub struct TStack<T>(Vec<T>);

impl<T> View for TStack<T> {
    type V = Seq<T>;

    /// The items of the stack, bottom first: the top is the last one.
    closed spec fn view(&self) -> Seq<T> {
        self.0@
    }
}

impl<T> Default for TStack<T> {
    /// The empty stack.
    fn default() -> (res: Self)
        ensures
            res@ == Seq::<T>::empty(),
    {
        TStack(Vec::new())
    }
}

impl<T> TStack<T> {
    /// Removes the top item and returns it; an empty stack stays empty and
    /// gives `None`.
    pub fn pop(&mut self) -> (res: Option<T>)
        ensures
            old(self)@.len() == 0 ==> res is None && final(self)@ == old(self)@,
            old(self)@.len() > 0 ==> res == Some(old(self)@.last()) && final(self)@ == old(
                self,
            )@.drop_last(),
    {
        self.0.pop()
    }

    /// Puts `item` on top of the stack.
    pub fn push(&mut self, item: T)
        ensures
            final(self)@ == old(self)@.push(item),
    {
        self.0.push(item);
    }

    /// Whether the stack holds no item.
    pub fn is_empty(&self) -> (res: bool)
        ensures
            res == (self@.len() == 0),
    {
        self.0.is_empty()
    }

    /// The number of items on the stack.
    pub fn len(&self) -> (res: usize)
        ensures
            res == self@.len(),
    {
        self.0.len()
    }

    /// The top item, which stays on the stack; `None` on an empty stack.
    pub fn peek(&self) -> (res: Option<&T>)
        ensures
            self@.len() == 0 ==> res is None,
            self@.len() > 0 ==> res == Some(&self@.last()),
    {
        self.0.last()
    }
}

} // verus!
