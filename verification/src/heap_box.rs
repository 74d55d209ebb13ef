//! The box itself: construction, transparent read access and the facts that
//! tie the two together.

use crate::debug_text::{
    absent_text, debug_of, debug_text, lemma_present_text_is_not_absent, render_debug,
};
use vstd::prelude::*;

verus! {

/// An exclusive owner of one heap-allocated `T`.
///
/// The handle has two shapes, a live allocation or nothing, so that the whole
/// box is as wide as one pointer whatever `T` is. Every box that exists at run
/// time holds a live allocation: [`BlackBox::new`] is the only way to make one
/// and nothing ever clears the handle.
///
/// The view of a box is the value it holds.
///
/// A box is not `Clone`. It reads through to its value, so `b.clone()` on a
/// box of a `Clone` value clones that value and leaves the box as it was.
#[derive(Debug)]
pub struct BlackBox<T> {
    large_data_on_the_heap: Option<Box<T>>,
}

impl<T> View for BlackBox<T> {
    type V = T;

    closed spec fn view(&self) -> T {
        match self.large_data_on_the_heap {
            Some(value) => *value,
            None => arbitrary(),
        }
    }
}

impl<T> BlackBox<T> {
    /// The handle is present.
    #[verifier::type_invariant]
    pub closed spec fn is_present(&self) -> bool {
        self.large_data_on_the_heap is Some
    }

    /// The box whose handle is present and owns `value`.
    pub closed spec fn holding(value: T) -> Self {
        BlackBox { large_data_on_the_heap: Some(Box::new(value)) }
    }

    /// Moves `large_data_set` to the heap and returns the box that owns it.
    pub fn new(large_data_set: T) -> (created: Self)
        ensures
            created == Self::holding(large_data_set),
            created.is_present(),
            created@ == large_data_set,
    {
        BlackBox { large_data_on_the_heap: Some(Box::new(large_data_set)) }
    }

    /// Borrows the value on the heap. Nothing is copied and the box keeps
    /// ownership.
    pub fn get(&self) -> (value: &T)
        ensures
            *value == self@,
    {
        proof {
            use_type_invariant(self);
        }
        match &self.large_data_on_the_heap {
            Some(value) => &**value,
            None => unreached(),
        }
    }

    /// A box made from `value` is present and reads back as `value`.
    pub proof fn lemma_holding_reads_back(value: T)
        ensures
            Self::holding(value).is_present(),
            Self::holding(value)@ == value,
    {
    }
}

impl<T: std::fmt::Debug> BlackBox<T> {
    /// The debug text of the box: the debug text of the value it holds,
    /// in the compact form, under the label `large_data_on_the_heap`. The
    /// value is only read.
    ///
    /// The value's own `Debug` impl decides whether there is a text at all:
    /// where it reports an error the result is `None`, as formatting the box
    /// itself would fail. What that impl writes is not known here, so the
    /// contract fixes everything around it: a text that comes back is the
    /// layout of a present handle around some text, and never that of an
    /// absent one.
    pub fn format_debug(&self) -> (text: Option<String>)
        ensures
            text matches Some(shown) ==> (exists|inner: Seq<char>|
                shown@ == #[trigger] debug_text(Some(inner))) && shown@ != absent_text(),
    {
        proof {
            use_type_invariant(self);
        }
        match &self.large_data_on_the_heap {
            Some(value) => match debug_of(&**value) {
                Some(held) => {
                    let shown = render_debug(Some(held.as_str()));
                    proof {
                        lemma_present_text_is_not_absent(held@);
                    }
                    assert(shown@ == debug_text(Some(held@)));
                    Some(shown)
                },
                None => None,
            },
            None => Some(render_debug(None)),
        }
    }
}

impl<T> std::ops::Deref for BlackBox<T> {
    type Target = T;

    /// Reading through the box is reading the value it holds.
    fn deref(&self) -> (value: &T)
        ensures
            *value == self@,
    {
        self.get()
    }
}

} // verus!
