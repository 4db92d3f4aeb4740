//! Diagnostic rendering of a castability table.

use vstd::prelude::*;
use vstd::string::StringExecFns;

use crate::target::{table_model, TraitcastTarget};

verus! {

/// The display names of a table's target interfaces, in table order.
pub open spec fn table_names(table: Seq<(u64, Seq<char>)>) -> Seq<Seq<char>> {
    table.map(|i: int, e: (u64, Seq<char>)| e.1)
}

/// The comma-separated join of a sequence of names.
pub open spec fn spec_joined(names: Seq<Seq<char>>) -> Seq<char>
    decreases names.len(),
{
    if names.len() == 0 {
        Seq::empty()
    } else if names.len() == 1 {
        names[0]
    } else {
        spec_joined(names.drop_last()) + ", "@ + names.last()
    }
}

/// The diagnostic listing built from the given target interface names: the
/// names, comma-separated, between a fixed prefix and a fixed suffix.  The
/// rendering is a function of the declared names alone — in particular the
/// concrete type's own name is not an input and so never appears on its
/// account.
pub open spec fn spec_rendered(names: Seq<Seq<char>>) -> Seq<char> {
    "Traitcastable to {"@ + spec_joined(names) + "}"@
}

/// Renders the castable-interfaces listing of a table, for debugging: the
/// display name of every record, in table order.
pub fn render_targets(targets: &Vec<TraitcastTarget>) -> (r: String)
    ensures
        r@ == spec_rendered(table_names(table_model(targets@))),
{
    let ghost names = table_names(table_model(targets@));
    let mut s = String::new();
    s.append("Traitcastable to {");
    let mut i: usize = 0;
    while i < targets.len()
        invariant
            i <= targets@.len(),
            names == table_names(table_model(targets@)),
            s@ == "Traitcastable to {"@ + spec_joined(names.take(i as int)),
        decreases targets@.len() - i,
    {
        if i != 0 {
            s.append(", ");
        }
        s.append(targets[i].target_type_name);
        proof {
            assert(names[i as int] == targets@[i as int].target_type_name@);
            if i == 0 {
                assert(s@ =~= "Traitcastable to {"@ + spec_joined(names.take(i as int + 1)));
            } else {
                assert(names.take(i as int + 1).drop_last() =~= names.take(i as int));
                assert(names.take(i as int + 1).last() == names[i as int]);
                assert(s@ =~= "Traitcastable to {"@ + spec_joined(names.take(i as int + 1)));
            }
        }
        i += 1;
    }
    proof {
        assert(names.take(targets@.len() as int) =~= names);
    }
    s.append("}");
    proof {
        assert(s@ =~= spec_rendered(names));
    }
    s
}

/// Every name of the sequence occurs contiguously in its comma-separated
/// join; the returned index is the offset at which it stands.
pub proof fn lemma_joined_contains_name(names: Seq<Seq<char>>, i: int) -> (k: int)
    requires
        0 <= i < names.len(),
    ensures
        0 <= k,
        k + names[i].len() <= spec_joined(names).len(),
        spec_joined(names).subrange(k, k + names[i].len() as int) == names[i],
    decreases names.len(),
{
    if names.len() == 1 {
        assert(spec_joined(names).subrange(0, 0 + names[0].len() as int) =~= names[0]);
        0
    } else if i == names.len() - 1 {
        let head = spec_joined(names.drop_last()) + ", "@;
        assert(spec_joined(names) == head + names[i]);
        let k = head.len() as int;
        assert(spec_joined(names).subrange(k, k + names[i].len() as int) =~= names[i]);
        k
    } else {
        let sub = names.drop_last();
        let k = lemma_joined_contains_name(sub, i);
        assert(sub[i] == names[i]);
        assert(spec_joined(names) == spec_joined(sub) + ", "@ + names.last());
        assert forall|m: int| 0 <= m < spec_joined(sub).len() implies spec_joined(
            names,
        )[m] == spec_joined(sub)[m] by {
            assert(spec_joined(names)[m] == (spec_joined(sub) + ", "@)[m]);
        }
        assert(spec_joined(names).subrange(k, k + names[i].len() as int) =~= spec_joined(
            sub,
        ).subrange(k, k + sub[i].len() as int));
        k
    }
}

/// Every declared target interface name occurs contiguously in the rendered
/// listing, at the returned offset.  Together with the exact contract of
/// `render_targets`, the listing contains exactly the declared names:
/// nothing but the fixed prefix, the separators and the fixed suffix stands
/// beside them.
pub proof fn lemma_rendered_contains_names(names: Seq<Seq<char>>, i: int) -> (k: int)
    requires
        0 <= i < names.len(),
    ensures
        0 <= k,
        k + names[i].len() <= spec_rendered(names).len(),
        spec_rendered(names).subrange(k, k + names[i].len() as int) == names[i],
{
    let j = lemma_joined_contains_name(names, i);
    let prefix = "Traitcastable to {"@;
    let k = j + prefix.len() as int;
    assert(spec_rendered(names) == prefix + spec_joined(names) + "}"@);
    assert forall|m: int| 0 <= m < spec_joined(names).len() implies spec_rendered(
        names,
    )[m + prefix.len()] == spec_joined(names)[m] by {
        assert(spec_rendered(names)[m + prefix.len()] == (prefix + spec_joined(names))[m
            + prefix.len()]);
    }
    assert(spec_rendered(names).subrange(k, k + names[i].len() as int) =~= spec_joined(
        names,
    ).subrange(j, j + names[i].len() as int));
    k
}

/// Diagnostic stability: the rendering is a deterministic function of the
/// declared target interface names — any two tables that declare the same
/// names, in the same order, render to the identical listing, whatever
/// concrete types they belong to.
pub proof fn lemma_diagnostic_stable(a: Seq<(u64, Seq<char>)>, b: Seq<(u64, Seq<char>)>)
    requires
        table_names(a) == table_names(b),
    ensures
        spec_rendered(table_names(a)) == spec_rendered(table_names(b)),
{
}

} // verus!
