//! Ownership bookkeeping for a Rust object paired with a C++ peer object.
//!
//! The Rust half of such a pair lives in `Rc<RefCell<_>>`; the C++ half is
//! reached either through an owning handle or through a plain pointer.
//! Which side keeps the other alive is decided here.

pub mod autocxxsubclass;
pub mod weak_cell;
pub mod supers;
pub mod observer;
