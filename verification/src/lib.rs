//! An owning, pointer-sized handle to a single value kept on the heap.
//!
//! [`BlackBox`] takes a value, moves it to the heap and from then on stands
//! for it: reading through the box yields the value itself, and the value is
//! released when the box goes away.

pub mod debug_text;
pub mod heap_box;

pub use heap_box::BlackBox;
