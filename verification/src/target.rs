//! Registry entries: one record per (concrete type, target interface) pair.

use vstd::prelude::*;

verus! {

/// One record of a concrete type's castability table: the identity of a
/// target interface the concrete type can be viewed as, together with the
/// interface's display name (used only for diagnostics).
///
/// A table is an immutable sequence of such records, fixed per concrete type
/// for the type's entire lifetime.  The dispatch operations re-verify a
/// record's identity against the requested target before handing out a view,
/// so a record never grants access to an interface it does not name.
#[derive(Clone, Copy)]
pub struct TraitcastTarget {
    /// Stable identifier of the target interface.  Within one process run,
    /// two identifiers are equal iff they denote the same interface.
    pub target_type_id: u64,
    /// Human-readable name of the target interface, for diagnostics only.
    pub target_type_name: &'static str,
}

impl TraitcastTarget {
    /// Creates a `TraitcastTarget` for the interface with the given identity
    /// and display name.
    pub fn create(target_type_id: u64, target_type_name: &'static str) -> (r: Self)
        ensures
            r.target_type_id == target_type_id,
            r.target_type_name == target_type_name,
    {
        Self { target_type_id, target_type_name }
    }
}

/// The mathematical content of a table: for each record, the target
/// interface's identity and the characters of its display name.
pub open spec fn table_model(targets: Seq<TraitcastTarget>) -> Seq<(u64, Seq<char>)> {
    targets.map(|i: int, t: TraitcastTarget| (t.target_type_id, t.target_type_name@))
}

/// Whether some record of the table names the interface identified by `id`.
pub open spec fn table_contains(table: Seq<(u64, Seq<char>)>, id: u64) -> bool {
    exists|i: int| 0 <= i < table.len() && table[i].0 == id
}

/// Linear scan of a castability table for the interface identified by `id`;
/// the first matching record wins.
pub fn find_target(targets: &Vec<TraitcastTarget>, id: u64) -> (r: Option<usize>)
    ensures
        match r {
            Some(i) => i < targets@.len() && table_model(targets@)[i as int].0 == id
                && (forall|j: int| 0 <= j < i ==> table_model(targets@)[j].0 != id),
            None => !table_contains(table_model(targets@), id),
        },
{
    let mut i: usize = 0;
    while i < targets.len()
        invariant
            i <= targets@.len(),
            forall|j: int| 0 <= j < i ==> table_model(targets@)[j].0 != id,
        decreases targets@.len() - i,
    {
        if targets[i].target_type_id == id {
            return Some(i);
        }
        i += 1;
    }
    None
}

} // verus!
