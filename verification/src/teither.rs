use vstd::prelude::*;

verus! {

/// A value that is one of two alternatives.
pub enum Either<S, T> {
    Left(S),
    Right(T),
}

impl<S, T> Either<S, T> {
    /// Whether this is the left alternative.
    pub fn is_left(&self) -> (res: bool)
        ensures
            res == (*self is Left),
    {
        match self {
            Either::Left(_) => true,
            Either::Right(_) => false,
        }
    }

    /// Whether this is the right alternative.
    pub fn is_right(&self) -> (res: bool)
        ensures
            res == (*self is Right),
    {
        match self {
            Either::Left(_) => false,
            Either::Right(_) => true,
        }
    }

    /// The left value, if this is the left alternative.
    pub fn left(&self) -> (res: Option<&S>)
        ensures
            res == match *self {
                Either::Left(s) => Some(&s),
                Either::Right(_) => None,
            },
    {
        match self {
            Either::Left(s) => Some(s),
            Either::Right(_) => None,
        }
    }

    /// A mutable borrow of the left value, if this is the left alternative.
    /// What the caller writes through it becomes the new left value; a right
    /// alternative stays as it is.
    pub fn left_mut(&mut self) -> (res: Option<&mut S>)
        ensures
            match *old(self) {
                Either::Left(s) => res is Some && *res->0 == s && *final(self) == Either::<
                    S,
                    T,
                >::Left(*final(res->0)),
                Either::Right(_) => res is None && *final(self) == *old(self),
            },
    {
        match self {
            Either::Left(s) => Some(s),
            Either::Right(_) => None,
        }
    }

    /// The right value, if this is the right alternative.
    pub fn right(&self) -> (res: Option<&T>)
        ensures
            res == match *self {
                Either::Left(_) => None,
                Either::Right(t) => Some(&t),
            },
    {
        match self {
            Either::Left(_) => None,
            Either::Right(t) => Some(t),
        }
    }

    /// A mutable borrow of the right value, if this is the right alternative.
    /// What the caller writes through it becomes the new right value; a left
    /// alternative stays as it is.
    pub fn right_mut(&mut self) -> (res: Option<&mut T>)
        ensures
            match *old(self) {
                Either::Left(_) => res is None && *final(self) == *old(self),
                Either::Right(t) => res is Some && *res->0 == t && *final(self) == Either::<
                    S,
                    T,
                >::Right(*final(res->0)),
            },
    {
        match self {
            Either::Left(_) => None,
            Either::Right(t) => Some(t),
        }
    }
}

} // verus!
