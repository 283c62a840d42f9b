//! The parameter store: an ordered, append-only collection of bound values.

use crate::value::SqlValue;
use vstd::prelude::*;

verus! {

/// Owns the values bound to a statement; the value pushed `n`-th sits behind
/// the placeholder `$n`.
pub struct Bucket {
    content: Vec<SqlValue>,
}

impl View for Bucket {
    type V = Seq<SqlValue>;

    closed spec fn view(&self) -> Seq<SqlValue> {
        self.content@
    }
}

impl Bucket {
    /// An empty store.
    pub fn new() -> (r: Bucket)
        ensures
            r@ == Seq::<SqlValue>::empty(),
    {
        Bucket { content: Vec::new() }
    }

    /// Moves `value` into the store and returns its 1-based index.
    pub fn push(&mut self, value: SqlValue) -> (index: usize)
        requires
            old(self)@.len() < usize::MAX,
        ensures
            final(self)@ == old(self)@.push(value),
            index == final(self)@.len(),
    {
        self.content.push(value);
        self.content.len()
    }

    /// The number of values held.
    pub fn len(&self) -> (r: usize)
        ensures
            r == self@.len(),
    {
        self.content.len()
    }

    /// The values in the order in which they were pushed, to be handed to
    /// the driver as the positional parameters.
    pub fn into_values(self) -> (r: Vec<SqlValue>)
        ensures
            r@ == self@,
    {
        self.content
    }

    /// The values held, in push order.
    pub fn values(&self) -> (r: &Vec<SqlValue>)
        ensures
            r@ == self@,
    {
        &self.content
    }
}

} // verus!
