# autocxx-subclass-demo

Ownership bookkeeping for Rust subclasses of C++ classes. Each subclass
instance is a pair: a Rust object in an `Rc<RefCell<_>>` and a C++ peer.
The pair can be owned by C++, by Rust, or by itself until it deletes itself.

- `src/autocxxsubclass.rs`: the holders through which each half reaches the
  other, the `AutocxxSubclass` trait and the constructors for the three
  ownership arrangements, with their contracts.
- `src/weak_cell.rs`: the weak pointer used by a non-owning holder.
- `src/observer.rs`: a web-contents observer subclass, generic over its peer.
- `src/supers.rs`: provided trait methods that defer to "super" methods.
- `app/`: the C++ bindings (through `cxx`), printing, and `main`.
- `tests/`: the three arrangements exercised with a Rust stand-in peer.
