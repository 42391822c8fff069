use std::cell::RefCell;
use std::cell::RefMut;
use std::rc::Rc;
use vstd::prelude::*;

use crate::weak_cell::WeakCell;

verus! {

/// `std::cell::RefCell`: a cell whose contents may change behind a shared
/// reference, so that its value says nothing of what it holds.
#[verifier::external_type_specification]
#[verifier::external_body]
#[verifier::reject_recursive_types(T)]
pub struct ExRefCell<T: ?Sized>(RefCell<T>);

/// `std::cell::RefMut`, the guard of a mutable borrow of a `RefCell`.
#[verifier::external_type_specification]
#[verifier::external_body]
#[verifier::reject_recursive_types(T)]
pub struct ExRefMut<'b, T: ?Sized + 'b>(RefMut<'b, T>);

/// `Rc::clone`: another pointer to the same allocation, so the result
/// is equal to the argument as far as specifications can tell.
#[verifier::external_body]
fn rc_clone<T>(rc: &Rc<T>) -> (res: Rc<T>)
    ensures
        res == *rc,
{
    Rc::clone(rc)
}

/// `RefCell::new`: a cell holding `value`.
#[verifier::external_body]
fn refcell_new<T>(value: T) -> RefCell<T> {
    RefCell::new(value)
}

/// `RefCell::try_borrow_mut`: a guard for mutable access to the contents,
/// or `None` while the cell is borrowed elsewhere. Which of the two comes
/// back is run-time state and is not stated.
#[verifier::external_body]
fn refcell_try_borrow_mut<T>(cell: &RefCell<T>) -> Option<RefMut<'_, T>> {
    cell.try_borrow_mut().ok()
}

/// `DerefMut::deref_mut` on a `RefMut`: the borrowed contents. Nothing is
/// stated of them, since the cell's value does not determine them.
#[verifier::external_body]
fn ref_mut_contents<'a, 'b, T>(guard: &'a mut RefMut<'b, T>) -> &'a mut T {
    &mut **guard
}

/// How the C++ peer holds the Rust half of the pair: strongly, so that it
/// keeps the Rust object alive, or weakly, so that it does not.
#[verifier::reject_recursive_types(T)]
pub enum AutocxxSubclassHolder<T> {
    Owned(Rc<RefCell<T>>),
    Unowned(WeakCell<T>),
}

impl<T> AutocxxSubclassHolder<T> {
    /// The holder keeps the Rust object alive.
    pub open spec fn is_owned(&self) -> bool {
        self is Owned
    }

    /// The Rust object the holder points to, given by a strong pointer to it.
    pub open spec fn target(&self) -> Rc<RefCell<T>> {
        match self {
            AutocxxSubclassHolder::Owned(strong) => *strong,
            AutocxxSubclassHolder::Unowned(weak) => weak.target(),
        }
    }

    /// A holder that does not keep `rc`'s object alive.
    pub fn unowned(rc: &Rc<RefCell<T>>) -> (holder: Self)
        ensures
            !holder.is_owned(),
            holder.target() == *rc,
    {
        AutocxxSubclassHolder::Unowned(WeakCell::downgrade(rc))
    }

    /// A strong pointer to the Rust object. An owning holder always gives
    /// one back; a non-owning one only while the object is still alive.
    pub fn get(&self) -> (res: Option<Rc<RefCell<T>>>)
        ensures
            self.is_owned() ==> res is Some,
            res matches Some(strong) ==> strong == self.target(),
    {
        match self {
            AutocxxSubclassHolder::Owned(strong) => Some(rc_clone(strong)),
            AutocxxSubclassHolder::Unowned(weak) => weak.upgrade(),
        }
    }

    /// Gives up the strong reference, if there is one: the holder keeps only
    /// a weak pointer to the same object afterwards. A holder that does not
    /// own the object is left as it is.
    pub fn relinquish_ownership(&mut self)
        ensures
            !final(self).is_owned(),
            final(self).target() == old(self).target(),
            !old(self).is_owned() ==> *final(self) == *old(self),
    {
        if let AutocxxSubclassHolder::Owned(strong) = self {
            *self = AutocxxSubclassHolder::Unowned(WeakCell::downgrade(strong))
        }
    }
}

} // verus!

verus! {

/// The C++ half of a subclass pair, as the Rust half sees it.
///
/// A peer is reached through one of two kinds of handle: an owning one
/// (a unique pointer, whose drop destroys the peer) or a plain pointer
/// that leaves the peer's lifetime to whoever owns it.
pub trait AutocxxSubclassPeer: Sized + 'static {
    /// Owning handle to a peer.
    type Owner;

    /// Non-owning handle to a peer.
    type Ptr: Copy;

    /// `owner` owns a peer (an owning handle may also be null).
    spec fn owner_valid(owner: Self::Owner) -> bool;

    /// `ptr` points at a peer (a plain pointer may also be null).
    spec fn ptr_valid(ptr: Self::Ptr) -> bool;

    /// The plain pointer to the peer that `owner` owns.
    spec fn pointer_to(owner: Self::Owner) -> Self::Ptr;

    /// Makes the peer drop its strong reference to the Rust half, if it
    /// holds one.
    fn relinquish_ownership(peer: PeerMut<'_, Self>)
        requires
            match peer {
                PeerMut::Owned(owner) => Self::owner_valid(*owner),
                PeerMut::Unowned(ptr) => Self::ptr_valid(ptr),
            },
    ;

    /// A non-owning handle to the peer that `owner` owns; `owner` keeps
    /// ownership.
    fn unowned_ptr(owner: &Self::Owner) -> (ptr: Self::Ptr)
        requires
            Self::owner_valid(*owner),
        ensures
            ptr == Self::pointer_to(*owner),
            Self::ptr_valid(ptr),
    ;
}

/// Access to a peer, through whichever handle reaches it. The handle
/// itself is only read: what changes is the C++ object behind it.
pub enum PeerMut<'a, CppPeer: AutocxxSubclassPeer> {
    Owned(&'a CppPeer::Owner),
    Unowned(CppPeer::Ptr),
}

impl<'a, CppPeer: AutocxxSubclassPeer> PeerMut<'a, CppPeer> {
    /// The handle reaches a peer.
    pub open spec fn valid(&self) -> bool {
        match *self {
            PeerMut::Owned(owner) => CppPeer::owner_valid(*owner),
            PeerMut::Unowned(ptr) => CppPeer::ptr_valid(ptr),
        }
    }
}

/// How the Rust half holds its C++ peer: not yet at all, owning it, or
/// through a plain pointer while someone else owns it.
pub enum CppPeerHolder<CppPeer: AutocxxSubclassPeer> {
    Empty,
    Owned(Box<CppPeer::Owner>),
    Unowned(CppPeer::Ptr),
}

impl<CppPeer: AutocxxSubclassPeer> Default for CppPeerHolder<CppPeer> {
    fn default() -> (res: Self)
        ensures
            res is Empty,
    {
        CppPeerHolder::Empty
    }
}

impl<CppPeer: AutocxxSubclassPeer> CppPeerHolder<CppPeer> {
    /// The holder holds a handle that reaches a peer.
    pub open spec fn has_peer(&self) -> bool {
        match *self {
            CppPeerHolder::Empty => false,
            CppPeerHolder::Owned(owner) => CppPeer::owner_valid(*owner),
            CppPeerHolder::Unowned(ptr) => CppPeer::ptr_valid(ptr),
        }
    }

    /// Access to the peer. A holder must have been given a handle that
    /// reaches a peer.
    pub fn pin_mut(&mut self) -> (peer: PeerMut<'_, CppPeer>)
        requires
            old(self).has_peer(),
        ensures
            *final(self) == *old(self),
            peer.valid(),
            match *old(self) {
                CppPeerHolder::Owned(b) => peer matches PeerMut::Owned(r) && *r == *b,
                CppPeerHolder::Unowned(p) => peer == PeerMut::<CppPeer>::Unowned(p),
                CppPeerHolder::Empty => false,
            },
    {
        match self {
            CppPeerHolder::Owned(peer) => PeerMut::Owned(&**peer),
            CppPeerHolder::Unowned(peer) => PeerMut::Unowned(*peer),
            CppPeerHolder::Empty => vstd::pervasive::unreached(),
        }
    }


    /// Takes ownership of `peer`, replacing whatever was held before.
    pub fn set_owned(&mut self, peer: CppPeer::Owner)
        ensures
            *final(self) == CppPeerHolder::<CppPeer>::Owned(Box::new(peer)),
    {
        *self = CppPeerHolder::Owned(Box::new(peer));
    }

    /// Points at the peer that `peer` owns without taking ownership of it,
    /// replacing whatever was held before. `peer` must own a peer.
    pub fn set_unowned(&mut self, peer: &CppPeer::Owner)
        requires
            CppPeer::owner_valid(*peer),
        ensures
            *final(self) == CppPeerHolder::<CppPeer>::Unowned(CppPeer::pointer_to(*peer)),
            final(self).has_peer(),
    {
        *self = CppPeerHolder::Unowned(CppPeer::unowned_ptr(peer));
    }
}

} // verus!

verus! {

/// The Rust half of a subclass pair.
///
/// This actually consists of two objects: this object itself and a C++-side
/// peer. The ownership relationship between those two things can work in
/// three different ways:
/// 1. Neither object is owned by Rust. The C++ peer is owned by an owning
///    handle held elsewhere in C++, and owns this Rust-side object through a
///    strong `Rc` ([`AutocxxSubclassConstruction::make_cpp_owned`]).
/// 2. The pair is owned by Rust, through a strong `Rc` to this object, which
///    owns the C++ peer through its owning handle. The peer only has a weak
///    pointer back, so that no reference cycle keeps the pair alive
///    ([`AutocxxSubclassConstruction::make_rust_owned`]).
/// 3. The pair owns itself and stays alive until [`AutocxxSubclass::delete_self`]
///    is called: each side holds the other strongly
///    ([`AutocxxSubclassConstruction::make_self_owned`]).
pub trait AutocxxSubclass<CppPeer: AutocxxSubclassPeer>: Sized {
    /// The peer holder of this object.
    spec fn peer_holder(&self) -> CppPeerHolder<CppPeer>;

    /// Mutable access to the peer holder of this object.
    fn get_peer(&mut self) -> (peer: &mut CppPeerHolder<CppPeer>)
        ensures
            *peer == old(self).peer_holder(),
            final(self).peer_holder() == *final(peer),
    ;

    /// Access to the C++ part of this object pair, e.g. to register
    /// listeners. The peer must have been set up with a handle that
    /// reaches it.
    fn pin_peer(&mut self) -> (peer: PeerMut<'_, CppPeer>)
        requires
            old(self).peer_holder().has_peer(),
        ensures
            final(self).peer_holder() == old(self).peer_holder(),
            peer.valid(),
            match old(self).peer_holder() {
                CppPeerHolder::Owned(b) => peer matches PeerMut::Owned(r) && *r == *b,
                CppPeerHolder::Unowned(p) => peer == PeerMut::<CppPeer>::Unowned(p),
                CppPeerHolder::Empty => false,
            },
    {
        self.get_peer().pin_mut()
    }

    /// Relinquishes ownership from the C++ side: the peer drops its strong
    /// reference to this object, so that, once no reference from the Rust
    /// side is left, the pair is destroyed. The peer must have been set up
    /// with a handle that reaches it.
    fn delete_self(&mut self)
        requires
            old(self).peer_holder().has_peer(),
        ensures
            final(self).peer_holder() == old(self).peer_holder(),
            match old(self).peer_holder() {
                CppPeerHolder::Owned(b) => exists|owner: &CppPeer::Owner|
                    *owner == *b && CppPeer::relinquish_ownership.ensures(
                        (PeerMut::<CppPeer>::Owned(owner),),
                        (),
                    ),
                CppPeerHolder::Unowned(p) => CppPeer::relinquish_ownership.ensures(
                    (PeerMut::<CppPeer>::Unowned(p),),
                    (),
                ),
                CppPeerHolder::Empty => false,
            },
    {
        CppPeer::relinquish_ownership(self.pin_peer())
    }
}

} // verus!

verus! {

/// A new subclass pair whose Rust half could not record its C++ peer,
/// because the peer's constructor left the Rust half's cell borrowed.
/// Both halves are handed back.
#[verifier::reject_recursive_types(Subclass)]
pub struct PeerNotRecorded<Subclass, Owner> {
    /// The Rust half.
    pub me: Rc<RefCell<Subclass>>,
    /// The owning handle to the C++ half.
    pub cpp_side: Owner,
}

/// Has the Rust half behind `guard` point at the peer that `cpp_side` owns,
/// if there is a guard. Either way `cpp_side` comes back: in `Ok` when the
/// peer was recorded, in `Err` when there was no guard to record it through.
pub fn record_unowned<CppPeer, Subclass>(
    guard: Option<RefMut<'_, Subclass>>,
    cpp_side: CppPeer::Owner,
) -> (res: Result<CppPeer::Owner, CppPeer::Owner>) where
    CppPeer: AutocxxSubclassPeer,
    Subclass: AutocxxSubclass<CppPeer>,

    requires
        CppPeer::owner_valid(cpp_side),
    ensures
        guard is Some <==> res is Ok,
        match res {
            Ok(owner) => owner == cpp_side,
            Err(owner) => owner == cpp_side,
        },
{
    match guard {
        Some(mut guard) => {
            ref_mut_contents(&mut guard).get_peer().set_unowned(&cpp_side);
            Ok(cpp_side)
        },
        None => Err(cpp_side),
    }
}

/// Has the Rust half behind `guard` take ownership of `cpp_side`, if there
/// is a guard. Without one, `cpp_side` comes back.
pub fn record_owned<CppPeer, Subclass>(
    guard: Option<RefMut<'_, Subclass>>,
    cpp_side: CppPeer::Owner,
) -> (unrecorded: Option<CppPeer::Owner>) where
    CppPeer: AutocxxSubclassPeer,
    Subclass: AutocxxSubclass<CppPeer>,

    ensures
        guard is Some <==> unrecorded is None,
        unrecorded matches Some(owner) ==> owner == cpp_side,
{
    match guard {
        Some(mut guard) => {
            ref_mut_contents(&mut guard).get_peer().set_owned(cpp_side);
            None
        },
        None => Some(cpp_side),
    }
}

/// The ways of creating a subclass pair, one for each ownership
/// arrangement described at [`AutocxxSubclass`]. Every subclass has them.
///
/// Each builds the C++ peer from a holder of the new Rust object and then
/// has the Rust object record the peer. Recording needs the object's cell
/// not to be borrowed; should the peer's constructor have left it borrowed,
/// the pair comes back as a [`PeerNotRecorded`] error instead.
pub trait AutocxxSubclassConstruction<CppPeer: AutocxxSubclassPeer>: AutocxxSubclass<CppPeer> {
    /// Creates a new instance of this subclass, owned by the returned owning
    /// handle to its C++ peer and thus suitable to be passed around in C++.
    /// The peer is built by `peer_constructor` from a holder that owns the
    /// new object; the object only points at its peer, so the owning handle
    /// that `peer_constructor` gives back must own a peer.
    fn make_cpp_owned<PeerConstructor, Subclass>(
        me: Subclass,
        peer_constructor: PeerConstructor,
    ) -> (res: Result<CppPeer::Owner, PeerNotRecorded<Subclass, CppPeer::Owner>>) where
        Subclass: AutocxxSubclass<CppPeer>,
        PeerConstructor: FnOnce(Box<AutocxxSubclassHolder<Subclass>>) -> CppPeer::Owner,

        requires
            forall|holder: Box<AutocxxSubclassHolder<Subclass>>|
                peer_constructor.requires((holder,)),
            forall|holder: Box<AutocxxSubclassHolder<Subclass>>, cpp_side: CppPeer::Owner|
                peer_constructor.ensures((holder,), cpp_side) ==> CppPeer::owner_valid(cpp_side),
        ensures
            match res {
                Ok(cpp_side) => exists|me: Rc<RefCell<Subclass>>|
                    peer_constructor.ensures(
                        (Box::new(AutocxxSubclassHolder::<Subclass>::Owned(me)),),
                        cpp_side,
                    ),
                Err(pair) => peer_constructor.ensures(
                    (Box::new(AutocxxSubclassHolder::<Subclass>::Owned(pair.me)),),
                    pair.cpp_side,
                ),
            },
    {
        let me = Rc::new(refcell_new(me));
        let holder = Box::new(AutocxxSubclassHolder::Owned(rc_clone(&me)));
        let cpp_side = peer_constructor(holder);
        let recorded = record_unowned::<CppPeer, Subclass>(refcell_try_borrow_mut(&*me), cpp_side);
        match recorded {
            Ok(cpp_side) => Ok(cpp_side),
            Err(cpp_side) => Err(PeerNotRecorded { me, cpp_side }),
        }
    }

    /// Creates a new instance of this subclass that owns its C++ peer. The
    /// peer is built by `peer_constructor` from the holder that `peer_boxer`
    /// makes of a pointer to the new object.
    fn make_owning_peer<PeerConstructor, Subclass, PeerBoxer>(
        me: Subclass,
        peer_constructor: PeerConstructor,
        peer_boxer: PeerBoxer,
    ) -> (res: Result<Rc<RefCell<Subclass>>, PeerNotRecorded<Subclass, CppPeer::Owner>>) where
        Subclass: AutocxxSubclass<CppPeer>,
        PeerConstructor: FnOnce(Box<AutocxxSubclassHolder<Subclass>>) -> CppPeer::Owner,
        PeerBoxer: FnOnce(Rc<RefCell<Subclass>>) -> AutocxxSubclassHolder<Subclass>,

        requires
            forall|holder: Box<AutocxxSubclassHolder<Subclass>>|
                peer_constructor.requires((holder,)),
            forall|me: Rc<RefCell<Subclass>>| peer_boxer.requires((me,)),
        ensures
            res matches Ok(me_rc) ==> exists|
                holder: AutocxxSubclassHolder<Subclass>,
                cpp_side: CppPeer::Owner,
            |
                peer_boxer.ensures((me_rc,), holder) && peer_constructor.ensures(
                    (Box::new(holder),),
                    cpp_side,
                ),
            res matches Err(pair) ==> exists|holder: AutocxxSubclassHolder<Subclass>|
                peer_boxer.ensures((pair.me,), holder) && peer_constructor.ensures(
                    (Box::new(holder),),
                    pair.cpp_side,
                ),
    {
        let me = Rc::new(refcell_new(me));
        let holder = Box::new(peer_boxer(rc_clone(&me)));
        let ghost made_holder = *holder;
        let cpp_side = peer_constructor(holder);
        let unrecorded = record_owned::<CppPeer, Subclass>(refcell_try_borrow_mut(&*me), cpp_side);
        match unrecorded {
            None => Ok(me),
            Some(cpp_side) => {
                let pair = PeerNotRecorded { me, cpp_side };
                let res: Result<Rc<RefCell<Subclass>>, PeerNotRecorded<Subclass, CppPeer::Owner>> =
                    Err(pair);
                assert(res->Err_0.me == pair.me);
                assert(res->Err_0.cpp_side == pair.cpp_side);
                assert(peer_boxer.ensures((pair.me,), made_holder));
                res
            },
        }
    }

    /// Creates a new instance of this subclass that is not owned by C++:
    /// its peer only points back at it weakly, so it is deleted once the
    /// last Rust pointer to it goes away.
    fn make_rust_owned<PeerConstructor, Subclass>(
        me: Subclass,
        peer_constructor: PeerConstructor,
    ) -> (res: Result<Rc<RefCell<Subclass>>, PeerNotRecorded<Subclass, CppPeer::Owner>>) where
        Subclass: AutocxxSubclass<CppPeer>,
        PeerConstructor: FnOnce(Box<AutocxxSubclassHolder<Subclass>>) -> CppPeer::Owner,

        requires
            forall|holder: Box<AutocxxSubclassHolder<Subclass>>|
                peer_constructor.requires((holder,)),
        ensures
            match res {
                Ok(me_rc) => exists|
                    holder: AutocxxSubclassHolder<Subclass>,
                    cpp_side: CppPeer::Owner,
                |
                    !holder.is_owned() && holder.target() == me_rc && peer_constructor.ensures(
                        (Box::new(holder),),
                        cpp_side,
                    ),
                Err(pair) => exists|holder: AutocxxSubclassHolder<Subclass>|
                    !holder.is_owned() && holder.target() == pair.me && peer_constructor.ensures(
                        (Box::new(holder),),
                        pair.cpp_side,
                    ),
            },
    {
        let weak_holder = |me: Rc<RefCell<Subclass>>| -> (holder: AutocxxSubclassHolder<
            Subclass,
        >)
            ensures
                !holder.is_owned(),
                holder.target() == me,
            { AutocxxSubclassHolder::unowned(&me) };
        Self::make_owning_peer(me, peer_constructor, weak_holder)
    }

    /// Creates a new instance of this subclass which owns itself: it and its
    /// peer hold each other strongly, so the returned pointer may be dropped
    /// without destroying the pair, which stays until
    /// [`AutocxxSubclass::delete_self`] is called. Useful for observers that
    /// register themselves for events.
    fn make_self_owned<PeerConstructor, Subclass>(
        me: Subclass,
        peer_constructor: PeerConstructor,
    ) -> (res: Result<Rc<RefCell<Subclass>>, PeerNotRecorded<Subclass, CppPeer::Owner>>) where
        Subclass: AutocxxSubclass<CppPeer>,
        PeerConstructor: FnOnce(Box<AutocxxSubclassHolder<Subclass>>) -> CppPeer::Owner,

        requires
            forall|holder: Box<AutocxxSubclassHolder<Subclass>>|
                peer_constructor.requires((holder,)),
        ensures
            match res {
                Ok(me_rc) => exists|cpp_side: CppPeer::Owner|
                    peer_constructor.ensures(
                        (Box::new(AutocxxSubclassHolder::<Subclass>::Owned(me_rc)),),
                        cpp_side,
                    ),
                Err(pair) => peer_constructor.ensures(
                    (Box::new(AutocxxSubclassHolder::<Subclass>::Owned(pair.me)),),
                    pair.cpp_side,
                ),
            },
    {
        let strong_holder = |me: Rc<RefCell<Subclass>>| -> (holder: AutocxxSubclassHolder<
            Subclass,
        >)
            ensures
                holder == AutocxxSubclassHolder::<Subclass>::Owned(me),
            { AutocxxSubclassHolder::Owned(me) };
        Self::make_owning_peer(me, peer_constructor, strong_holder)
    }
}

impl<CppPeer: AutocxxSubclassPeer, T: AutocxxSubclass<CppPeer>> AutocxxSubclassConstruction<
    CppPeer,
> for T {

}

} // verus!
