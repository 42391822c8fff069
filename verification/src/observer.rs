//! A web-contents observer: a Rust subclass of a C++ observer class, whose
//! C++ peer forwards the notifications it gets to the Rust half.
use crate::autocxxsubclass::{AutocxxSubclass, AutocxxSubclassPeer, CppPeerHolder};
use vstd::prelude::*;

verus! {

/// The Rust-side engine that an observer reports to.
pub struct SomeKindaEngine;

/// The Rust half of a web-contents observer pair.
pub struct MyWebContentsObserver<CppPeer: AutocxxSubclassPeer> {
    cpp_peer: CppPeerHolder<CppPeer>,
    data: SomeKindaEngine,
}

impl<CppPeer: AutocxxSubclassPeer> MyWebContentsObserver<CppPeer> {
    /// An observer reporting to `data`, whose peer is not set up yet.
    pub fn new(data: SomeKindaEngine) -> (observer: Self)
        ensures
            observer.peer_holder() is Empty,
    {
        MyWebContentsObserver { cpp_peer: CppPeerHolder::default(), data }
    }

    /// The engine this observer reports to.
    pub fn data(&self) -> &SomeKindaEngine {
        &self.data
    }
}

impl<CppPeer: AutocxxSubclassPeer> AutocxxSubclass<CppPeer> for MyWebContentsObserver<CppPeer> {
    closed spec fn peer_holder(&self) -> CppPeerHolder<CppPeer> {
        self.cpp_peer
    }

    fn get_peer(&mut self) -> (peer: &mut CppPeerHolder<CppPeer>) {
        &mut self.cpp_peer
    }
}

} // verus!
