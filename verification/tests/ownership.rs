use std::cell::RefCell;
use std::rc::Rc;

use autocxx_subclass_demo::autocxxsubclass::{
    AutocxxSubclass, AutocxxSubclassConstruction, AutocxxSubclassHolder, AutocxxSubclassPeer,
    CppPeerHolder, PeerMut, PeerNotRecorded, record_owned, record_unowned,
};
use autocxx_subclass_demo::observer::{MyWebContentsObserver, SomeKindaEngine};

type Observer = MyWebContentsObserver<TestPeer>;

/// A stand-in for the C++ peer: it keeps the holder it was built from and
/// is pointed at by its number. Like a C++ object behind a handle, it can
/// change its holder through a shared reference.
struct TestPeer {
    holder: RefCell<Box<AutocxxSubclassHolder<Observer>>>,
    id: u32,
}

impl AutocxxSubclassPeer for TestPeer {
    type Owner = TestPeer;
    type Ptr = u32;

    fn owner_valid(_owner: TestPeer) -> bool {
        true
    }

    fn ptr_valid(_ptr: u32) -> bool {
        true
    }

    fn pointer_to(owner: TestPeer) -> u32 {
        owner.id
    }

    fn relinquish_ownership(peer: PeerMut<'_, Self>) {
        if let PeerMut::Owned(peer) = peer {
            peer.holder.borrow_mut().relinquish_ownership();
        }
    }

    fn unowned_ptr(owner: &TestPeer) -> u32 {
        owner.id
    }
}

fn new_observer() -> Observer {
    MyWebContentsObserver::new(SomeKindaEngine)
}

fn build_peer(holder: Box<AutocxxSubclassHolder<Observer>>) -> TestPeer {
    TestPeer { holder: RefCell::new(holder), id: 7 }
}

/// A peer constructor that leaves the new object's cell borrowed for good.
fn build_peer_leaving_a_borrow(holder: Box<AutocxxSubclassHolder<Observer>>) -> TestPeer {
    let me = holder.get().unwrap();
    std::mem::forget(me.borrow_mut());
    build_peer(holder)
}

fn made<T>(res: Result<T, PeerNotRecorded<Observer, TestPeer>>) -> T {
    match res {
        Ok(made) => made,
        Err(_) => panic!("the peer was not recorded"),
    }
}

fn holds_strongly(peer: &TestPeer) -> bool {
    matches!(**peer.holder.borrow(), AutocxxSubclassHolder::Owned(_))
}

#[test]
fn owned_holder_gives_back_its_pointer() {
    let rc = Rc::new(RefCell::new(5u32));
    let holder = AutocxxSubclassHolder::Owned(rc.clone());
    let got = holder.get().unwrap();
    assert!(Rc::ptr_eq(&got, &rc));
    assert_eq!(*got.borrow(), 5);
}

#[test]
fn unowned_holder_does_not_keep_its_object() {
    let rc = Rc::new(RefCell::new(5u32));
    let holder = AutocxxSubclassHolder::unowned(&rc);
    assert!(matches!(holder, AutocxxSubclassHolder::Unowned(_)));
    assert_eq!(Rc::strong_count(&rc), 1);
    assert!(Rc::ptr_eq(&holder.get().unwrap(), &rc));
    drop(rc);
    assert!(holder.get().is_none());
}

#[test]
fn relinquished_holder_keeps_only_a_weak_pointer() {
    let rc = Rc::new(RefCell::new(5u32));
    let mut holder = AutocxxSubclassHolder::Owned(rc.clone());
    assert_eq!(Rc::strong_count(&rc), 2);
    holder.relinquish_ownership();
    assert!(matches!(holder, AutocxxSubclassHolder::Unowned(_)));
    assert_eq!(Rc::strong_count(&rc), 1);
    let got = holder.get().unwrap();
    assert!(Rc::ptr_eq(&got, &rc));
    drop(got);
    drop(rc);
    assert!(holder.get().is_none());
}

#[test]
fn relinquishing_twice_is_relinquishing_once() {
    let rc = Rc::new(RefCell::new(1u32));
    let mut holder = AutocxxSubclassHolder::Owned(rc.clone());
    holder.relinquish_ownership();
    holder.relinquish_ownership();
    assert!(matches!(holder, AutocxxSubclassHolder::Unowned(_)));
    assert!(Rc::ptr_eq(&holder.get().unwrap(), &rc));
    assert_eq!(Rc::strong_count(&rc), 1);
}

#[test]
fn peer_holder_starts_empty_and_keeps_the_last_peer_set() {
    let mut holder: CppPeerHolder<TestPeer> = CppPeerHolder::default();
    assert!(matches!(holder, CppPeerHolder::Empty));
    let rc = Rc::new(RefCell::new(new_observer()));
    let peer = TestPeer { holder: RefCell::new(Box::new(AutocxxSubclassHolder::Owned(rc))), id: 3 };
    holder.set_unowned(&peer);
    assert!(matches!(holder.pin_mut(), PeerMut::Unowned(3)));
    holder.set_owned(peer);
    match holder.pin_mut() {
        PeerMut::Owned(p) => assert_eq!(p.id, 3),
        PeerMut::Unowned(_) => panic!("expected an owned peer"),
    }
    assert!(matches!(holder.pin_mut(), PeerMut::Owned(_)));
}

#[test]
fn new_observer_has_no_peer() {
    let mut observer = new_observer();
    assert!(matches!(observer.get_peer(), CppPeerHolder::Empty));
}

#[test]
fn cpp_owned_pair_is_kept_alive_by_its_peer() {
    let peer = made(Observer::make_cpp_owned(new_observer(), build_peer));
    assert!(holds_strongly(&peer));
    let me = peer.holder.borrow().get().unwrap();
    assert!(matches!(me.borrow_mut().pin_peer(), PeerMut::Unowned(7)));
    let weak = Rc::downgrade(&me);
    drop(me);
    assert!(weak.upgrade().is_some());
    drop(peer);
    assert!(weak.upgrade().is_none());
}

#[test]
fn rust_owned_pair_dies_with_its_last_rust_pointer() {
    let me = made(Observer::make_rust_owned(new_observer(), build_peer));
    match me.borrow_mut().pin_peer() {
        PeerMut::Owned(peer) => {
            assert_eq!(peer.id, 7);
            assert!(!holds_strongly(peer));
            assert!(Rc::ptr_eq(&peer.holder.borrow().get().unwrap(), &me));
        }
        PeerMut::Unowned(_) => panic!("expected an owned peer"),
    }
    assert_eq!(Rc::strong_count(&me), 1);
    let weak = Rc::downgrade(&me);
    drop(me);
    assert!(weak.upgrade().is_none());
}

#[test]
fn self_owned_pair_lives_until_delete_self() {
    let me = made(Observer::make_self_owned(new_observer(), build_peer));
    match me.borrow_mut().pin_peer() {
        PeerMut::Owned(peer) => {
            assert!(holds_strongly(peer));
            assert!(Rc::ptr_eq(&peer.holder.borrow().get().unwrap(), &me));
        }
        PeerMut::Unowned(_) => panic!("expected an owned peer"),
    }
    let weak = Rc::downgrade(&me);
    drop(me);
    assert!(weak.upgrade().is_some());
    weak.upgrade().unwrap().borrow_mut().delete_self();
    assert!(weak.upgrade().is_none());
}

#[test]
fn delete_self_on_a_rust_owned_pair_changes_nothing() {
    let me = made(Observer::make_rust_owned(new_observer(), build_peer));
    me.borrow_mut().delete_self();
    assert!(matches!(me.borrow_mut().pin_peer(), PeerMut::Owned(_)));
    assert_eq!(Rc::strong_count(&me), 1);
}

#[test]
fn make_owning_peer_builds_the_peer_from_the_boxed_pointer() {
    let me = made(Observer::make_owning_peer(
        new_observer(),
        build_peer,
        |rc: Rc<RefCell<Observer>>| AutocxxSubclassHolder::Owned(rc),
    ));
    assert_eq!(Rc::strong_count(&me), 2);
    match me.borrow_mut().pin_peer() {
        PeerMut::Owned(peer) => assert!(Rc::ptr_eq(&peer.holder.borrow().get().unwrap(), &me)),
        PeerMut::Unowned(_) => panic!("expected an owned peer"),
    }
    me.borrow_mut().delete_self();
    assert_eq!(Rc::strong_count(&me), 1);
}

#[test]
fn cpp_owned_pair_left_borrowed_comes_back_unrecorded() {
    match Observer::make_cpp_owned(new_observer(), build_peer_leaving_a_borrow) {
        Ok(_) => panic!("the peer cannot have been recorded"),
        Err(pair) => {
            assert!(holds_strongly(&pair.cpp_side));
            assert!(Rc::ptr_eq(&pair.cpp_side.holder.borrow().get().unwrap(), &pair.me));
            assert!(pair.me.try_borrow_mut().is_err());
        }
    }
}

#[test]
fn rust_owned_pair_left_borrowed_comes_back_unrecorded() {
    match Observer::make_rust_owned(new_observer(), build_peer_leaving_a_borrow) {
        Ok(_) => panic!("the peer cannot have been recorded"),
        Err(pair) => {
            assert!(!holds_strongly(&pair.cpp_side));
            assert!(Rc::ptr_eq(&pair.cpp_side.holder.borrow().get().unwrap(), &pair.me));
            assert_eq!(pair.cpp_side.id, 7);
        }
    }
}

#[test]
fn record_unowned_points_at_the_peer_when_there_is_a_guard() {
    let me = RefCell::new(new_observer());
    let rc = Rc::new(RefCell::new(new_observer()));
    let peer = TestPeer { holder: RefCell::new(Box::new(AutocxxSubclassHolder::Owned(rc))), id: 9 };
    match record_unowned::<TestPeer, Observer>(me.try_borrow_mut().ok(), peer) {
        Ok(peer) => assert_eq!(peer.id, 9),
        Err(_) => panic!("the guard was there"),
    }
    assert!(matches!(me.borrow_mut().pin_peer(), PeerMut::Unowned(9)));
}

#[test]
fn record_unowned_hands_the_peer_back_without_a_guard() {
    let rc = Rc::new(RefCell::new(new_observer()));
    let peer = TestPeer { holder: RefCell::new(Box::new(AutocxxSubclassHolder::Owned(rc))), id: 9 };
    match record_unowned::<TestPeer, Observer>(None, peer) {
        Ok(_) => panic!("there was no guard"),
        Err(peer) => assert_eq!(peer.id, 9),
    }
}

#[test]
fn record_owned_takes_the_peer_when_there_is_a_guard() {
    let me = RefCell::new(new_observer());
    let rc = Rc::new(RefCell::new(new_observer()));
    let peer = TestPeer { holder: RefCell::new(Box::new(AutocxxSubclassHolder::Owned(rc))), id: 5 };
    assert!(record_owned::<TestPeer, Observer>(me.try_borrow_mut().ok(), peer).is_none());
    match me.borrow_mut().pin_peer() {
        PeerMut::Owned(peer) => assert_eq!(peer.id, 5),
        PeerMut::Unowned(_) => panic!("expected an owned peer"),
    };
}

#[test]
fn record_owned_hands_the_peer_back_without_a_guard() {
    let rc = Rc::new(RefCell::new(new_observer()));
    let peer = TestPeer { holder: RefCell::new(Box::new(AutocxxSubclassHolder::Owned(rc))), id: 5 };
    match record_owned::<TestPeer, Observer>(None, peer) {
        Some(peer) => assert_eq!(peer.id, 5),
        None => panic!("there was no guard"),
    }
}
