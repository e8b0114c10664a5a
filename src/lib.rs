//! A growable, contiguous buffer with an explicit capacity that follows a
//! doubling growth policy, together with an owning iterator over it.

mod access;
pub mod buffer;
pub mod cmp;
pub mod iter;
pub mod laws;

pub use buffer::Vector;
pub use iter::VecIterator;
