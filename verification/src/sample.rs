//! Sample castable types: a concrete type declaring one target interface,
//! and a concrete type declaring none.

use vstd::prelude::*;

use crate::cast::{TraitcastTo, Traitcastable, TypeQuery};
use crate::target::{table_model, TraitcastTarget};

verus! {

/// Stable identity of the concrete type `Source`.
pub const SOURCE_TYPE_ID: u64 = 1;

/// Stable identity of the target interface `Print`.
pub const PRINT_INTERFACE_ID: u64 = 2;

/// Stable identity of the concrete type `Woof`.
pub const WOOF_TYPE_ID: u64 = 3;

/// A target interface with a single method returning a wrapped integer.
pub trait Print {
    /// The value the interface reports.
    spec fn spec_print(&self) -> i32;

    /// Returns the wrapped integer.
    fn print(&self) -> (r: i32)
        ensures
            r == self.spec_print(),
    ;
}

/// A concrete type wrapping an integer and declaring the single target
/// interface `Print`.
#[derive(Debug)]
pub struct Source(pub i32);

impl Print for Source {
    open spec fn spec_print(&self) -> i32 {
        self.0
    }

    fn print(&self) -> (r: i32) {
        self.0
    }
}

impl Traitcastable for Source {
    open spec fn spec_type_id(&self) -> u64 {
        SOURCE_TYPE_ID
    }

    open spec fn spec_targets(&self) -> Seq<(u64, Seq<char>)> {
        seq![(PRINT_INTERFACE_ID, "Print"@)]
    }

    fn type_id(&self) -> (r: u64) {
        SOURCE_TYPE_ID
    }

    fn traitcast_targets(&self) -> (r: Vec<TraitcastTarget>) {
        let mut targets: Vec<TraitcastTarget> = Vec::new();
        targets.push(TraitcastTarget::create(PRINT_INTERFACE_ID, "Print"));
        proof {
            assert(table_model(targets@) =~= self.spec_targets());
        }
        targets
    }
}

/// A concrete type declared with zero target interfaces: it supports only
/// the direct same-type cast.
pub struct Woof {}

impl Traitcastable for Woof {
    open spec fn spec_type_id(&self) -> u64 {
        WOOF_TYPE_ID
    }

    open spec fn spec_targets(&self) -> Seq<(u64, Seq<char>)> {
        Seq::empty()
    }

    fn type_id(&self) -> (r: u64) {
        WOOF_TYPE_ID
    }

    fn traitcast_targets(&self) -> (r: Vec<TraitcastTarget>) {
        let targets: Vec<TraitcastTarget> = Vec::new();
        proof {
            assert(table_model(targets@) =~= Seq::<(u64, Seq<char>)>::empty());
        }
        targets
    }
}

/// Invoking `Print` through a cast view of a `Source` always succeeds and
/// yields exactly the value the concrete type's own implementation reports:
/// the view a positive lookup hands out behaves as the object itself.
pub fn print_via_cast(source: &Source) -> (r: Option<i32>)
    ensures
        r == Some(source.0),
{
    proof {
        assert(source.spec_targets()[0].0 == PRINT_INTERFACE_ID);
    }
    match source.downcast_ref(&TypeQuery::Interface(PRINT_INTERFACE_ID)) {
        Some(view) => Some(view.print()),
        None => None,
    }
}

/// A type declared with an empty castability table appears to support no
/// cross-interface cast: the direct same-type check still succeeds, while
/// every interface lookup comes back absent.
pub fn _test_empty_trait_cast_targets() {
    let woof = Woof {};
    let direct = woof.can_be(&TypeQuery::Concrete(WOOF_TYPE_ID));
    assert(direct);
    let as_print = woof.can_be(&TypeQuery::Interface(PRINT_INTERFACE_ID));
    assert(!as_print);
}

} // verus!
