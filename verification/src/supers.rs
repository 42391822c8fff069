//! A trait whose provided methods call through to "super" implementations,
//! the shape that C++ subclass methods take when they may defer to the
//! base class, and a type that overrides one of them.
use vstd::prelude::*;

verus! {

/// The base-class behaviour that [`A`]'s provided methods fall back on.
/// Each method names the line that the call announces.
#[allow(non_camel_case_types)]
pub trait A_supers {
    fn a_super(&self) -> &'static str;

    fn b_super(&self) -> &'static str;
}

/// Methods that default to the base-class behaviour.
pub trait A: A_supers {
    fn a(&self) -> (line: &'static str)
        default_ensures
            Self::a_super.ensures((self,), line),
    {
        self.a_super()
    }

    fn b(&self) -> (line: &'static str)
        default_ensures
            Self::b_super.ensures((self,), line),
    {
        self.b_super()
    }
}

/// A type that keeps the base behaviour for `a` and overrides `b`.
pub struct C;

impl A_supers for C {
    fn a_super(&self) -> (line: &'static str)
        ensures
            line@ == "Calling super a"@,
    {
        "Calling super a"
    }

    fn b_super(&self) -> (line: &'static str)
        ensures
            line@ == "Calling super b"@,
    {
        "Calling super b"
    }
}

impl A for C {
    fn b(&self) -> (line: &'static str)
        ensures
            line@ == "Calling sub b"@,
    {
        "Calling sub b"
    }
}

} // verus!
