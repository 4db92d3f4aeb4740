//! The dynamic object protocol and the downcast dispatcher.

use vstd::prelude::*;

use crate::target::{find_target, table_contains, table_model, TraitcastTarget};

verus! {

/// A requested cast target: either a concrete (fully specific) type or a
/// target interface, each identified by its stable type identity.
///
/// A concrete type and an interface never share an identity: the two kinds
/// live in one identifier space, and the kind is part of the request.
#[derive(Clone, Copy, PartialEq, Eq, Structural)]
pub enum TypeQuery {
    /// The exact concrete type with the given identity.
    Concrete(u64),
    /// The target interface with the given identity.
    Interface(u64),
}

impl TypeQuery {
    /// The identity the query asks for, whichever kind it is.
    pub open spec fn id(self) -> u64 {
        match self {
            TypeQuery::Concrete(id) => id,
            TypeQuery::Interface(id) => id,
        }
    }
}

/// Whether `target` is exactly the concrete type identified by
/// `concrete_id`.  An interface target never equals a concrete type.
pub open spec fn spec_is(concrete_id: u64, target: TypeQuery) -> bool {
    match target {
        TypeQuery::Concrete(id) => id == concrete_id,
        TypeQuery::Interface(_) => false,
    }
}

/// Whether a handle of the concrete type identified by `concrete_id`, whose
/// castability table has model `table`, can be viewed as `target`: a concrete
/// target must be the handle's own type; an interface target must appear in
/// the table.
pub open spec fn spec_can_be(concrete_id: u64, table: Seq<(u64, Seq<char>)>, target: TypeQuery) -> bool {
    match target {
        TypeQuery::Concrete(id) => id == concrete_id,
        TypeQuery::Interface(id) => table_contains(table, id),
    }
}

/// The dynamic object protocol: the capability every castable concrete type
/// exposes.  An implementation reports its own concrete-type identity and its
/// fixed table of castable target interfaces.
///
/// An implementation's obligations mirror the table builder's contract: the
/// identity must be the concrete type's own, process-wide stable identity,
/// and the table must list exactly the type's declared target interfaces.  A
/// type that declares no target interfaces reports an empty table and
/// supports only the direct same-type cast.
pub trait Traitcastable: Sized {
    /// The concrete type's stable identity.
    spec fn spec_type_id(&self) -> u64;

    /// The model of the concrete type's castability table: identity and
    /// display name of each declared target interface, in declaration order.
    spec fn spec_targets(&self) -> Seq<(u64, Seq<char>)>;

    /// Returns the stable identity of the concrete type behind this handle.
    fn type_id(&self) -> (r: u64)
        ensures
            r == self.spec_type_id(),
    ;

    /// Returns the concrete type's castability table, one record per
    /// declared target interface.
    fn traitcast_targets(&self) -> (r: Vec<TraitcastTarget>)
        ensures
            table_model(r@) == self.spec_targets(),
    ;
}

/// The downcast dispatcher: mimics a native same-type dynamic check but
/// additionally allows downcasts to the interfaces declared in the concrete
/// type's castability table.
///
/// Every operation is a single stateless query against the immutable table;
/// a failed cast is reported as an absent result, never as a fault.
pub trait TraitcastTo: Traitcastable {
    /// Returns true iff `target` is exactly the concrete type of `self`.
    fn is(&self, target: &TypeQuery) -> (r: bool)
        ensures
            r == spec_is(self.spec_type_id(), *target),
    ;

    /// Returns true iff a subsequent downcast of `self` to `target` would
    /// succeed.
    fn can_be(&self, target: &TypeQuery) -> (r: bool)
        ensures
            r == spec_can_be(self.spec_type_id(), self.spec_targets(), *target),
    ;

    /// Returns a shared view of the same object if it can be viewed as
    /// `target`, or `None` if it cannot.
    fn downcast_ref(&self, target: &TypeQuery) -> (r: Option<&Self>)
        ensures
            r is Some <==> spec_can_be(self.spec_type_id(), self.spec_targets(), *target),
            r is Some ==> r->0 == self,
    ;

    /// Returns an exclusive view of the same object if it can be viewed as
    /// `target`, or `None` if it cannot; the object itself is never changed.
    fn downcast_mut(&mut self, target: &TypeQuery) -> (r: Option<&mut Self>)
        ensures
            r is Some <==> spec_can_be(old(self).spec_type_id(), old(self).spec_targets(), *target),
            r is Some ==> *r.unwrap() == *old(self) && *final(self) == *final(r.unwrap()),
            r is None ==> *final(self) == *old(self),
    ;

    /// Ownership-transferring downcast of a sole-owning heap allocation.  On
    /// success the same object comes back, owned, as a view of `target`; on
    /// failure the original owning handle comes back unchanged, so the object
    /// is never dropped or leaked.
    fn downcast(self: Box<Self>, target: &TypeQuery) -> (r: Result<Box<Self>, Box<Self>>)
        ensures
            r is Ok <==> spec_can_be(self.spec_type_id(), self.spec_targets(), *target),
            match r {
                Ok(v) => v == self,
                Err(v) => v == self,
            },
    ;
}

impl<T: Traitcastable> TraitcastTo for T {
    fn is(&self, target: &TypeQuery) -> (r: bool) {
        match target {
            TypeQuery::Concrete(id) => *id == self.type_id(),
            TypeQuery::Interface(_) => false,
        }
    }

    fn can_be(&self, target: &TypeQuery) -> (r: bool) {
        match target {
            TypeQuery::Concrete(_) => self.is(target),
            TypeQuery::Interface(id) => {
                let targets = self.traitcast_targets();
                find_target(&targets, *id).is_some()
            },
        }
    }

    fn downcast_ref(&self, target: &TypeQuery) -> (r: Option<&Self>) {
        if self.can_be(target) {
            Some(self)
        } else {
            None
        }
    }

    fn downcast_mut(&mut self, target: &TypeQuery) -> (r: Option<&mut Self>) {
        if self.can_be(target) {
            Some(self)
        } else {
            None
        }
    }

    fn downcast(self: Box<Self>, target: &TypeQuery) -> (r: Result<Box<Self>, Box<Self>>) {
        if self.can_be(target) {
            Ok(self)
        } else {
            Err(self)
        }
    }
}

/// Identity reflexivity: every object can be viewed as its own exact
/// concrete type — both the direct check and the castability check succeed
/// against it.  By the contract of `downcast_ref`, the view such a cast
/// yields is the object itself, so it refers to the same underlying storage.
pub proof fn lemma_identity_reflexive<T: Traitcastable>(obj: T)
    ensures
        spec_is(obj.spec_type_id(), TypeQuery::Concrete(obj.spec_type_id())),
        spec_can_be(obj.spec_type_id(), obj.spec_targets(), TypeQuery::Concrete(obj.spec_type_id())),
{
}

/// Negative lookup: a target whose identity is neither in the object's
/// castability table nor the object's own concrete identity is refused —
/// the castability check is false, so by the contracts of `downcast_ref`,
/// `downcast_mut` and `downcast` every view operation comes back absent.
pub proof fn lemma_negative_lookup<T: Traitcastable>(obj: T, target: TypeQuery)
    requires
        !table_contains(obj.spec_targets(), target.id()),
        target.id() != obj.spec_type_id(),
    ensures
        !spec_is(obj.spec_type_id(), target),
        !spec_can_be(obj.spec_type_id(), obj.spec_targets(), target),
{
}

/// Positive lookup: every interface the object's castability table declares
/// passes the castability check, so by the contracts of `downcast_ref` and
/// `downcast_mut` the cast succeeds — and since the view it yields is the
/// object itself, the view's behaviour is the concrete type's own.
pub proof fn lemma_positive_lookup<T: Traitcastable>(obj: T, i: int)
    requires
        0 <= i < obj.spec_targets().len(),
    ensures
        spec_can_be(
            obj.spec_type_id(),
            obj.spec_targets(),
            TypeQuery::Interface(obj.spec_targets()[i].0),
        ),
{
    assert(obj.spec_targets()[i].0 == obj.spec_targets()[i].0);
}

/// Empty table: for an object whose concrete type declares no target
/// interfaces, castability collapses to the direct same-type check — only
/// the cast to the object's own concrete type succeeds.
pub proof fn lemma_empty_table<T: Traitcastable>(obj: T, target: TypeQuery)
    requires
        obj.spec_targets().len() == 0,
    ensures
        spec_can_be(obj.spec_type_id(), obj.spec_targets(), target)
            == spec_is(obj.spec_type_id(), target),
{
}

} // verus!
