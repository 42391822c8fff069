//! A weak pointer to a shared cell that remembers, for specifications, the
//! strong pointer it was made from.
use std::cell::RefCell;
use std::rc::Rc;
use std::rc::Weak;
use vstd::prelude::*;

verus! {

/// `std::rc::Weak`, the weak pointer itself. Nothing is stated of it
/// directly: what a `WeakCell` points to is its `target`.
#[verifier::external_body]
#[verifier::reject_recursive_types(T)]
struct WeakPtr<T> {
    weak: Weak<RefCell<T>>,
}

/// A non-owning pointer to an `Rc<RefCell<T>>` allocation.
///
/// A `WeakCell` is only ever made by [`WeakCell::downgrade`], so `target`
/// is always the strong pointer whose allocation `weak` points to.
#[verifier::reject_recursive_types(T)]
pub struct WeakCell<T> {
    weak: WeakPtr<T>,
    target: Ghost<Rc<RefCell<T>>>,
}

impl<T> WeakCell<T> {
    /// The allocation this pointer points to, given by a strong pointer to it.
    pub closed spec fn target(&self) -> Rc<RefCell<T>> {
        self.target@
    }

    /// `Rc::downgrade`: a weak pointer to the allocation of `rc`.
    #[verifier::external_body]
    pub(crate) fn downgrade(rc: &Rc<RefCell<T>>) -> (weak: WeakCell<T>)
        ensures
            weak.target() == *rc,
    {
        WeakCell { weak: WeakPtr { weak: Rc::downgrade(rc) }, target: Ghost(*rc) }
    }

    /// `Weak::upgrade`: a strong pointer to the allocation while a strong
    /// reference to it is still alive elsewhere, `None` once the last one
    /// has been dropped. Which of the two comes back is run-time state and
    /// is not stated; a pointer that comes back points to the target.
    #[verifier::external_body]
    pub(crate) fn upgrade(&self) -> (strong: Option<Rc<RefCell<T>>>)
        ensures
            strong matches Some(rc) ==> rc == self.target(),
    {
        self.weak.weak.upgrade()
    }
}

} // verus!
