//! Laws of the compilation, proved once and for all inputs.
//!
//! Each proof function here states a property that relates several parts of
//! the compilation — emptiness propagation through composites, which
//! children a composite keeps, and the preservation of nesting — over the
//! same spec functions the compile functions' own contracts use.

use vstd::prelude::*;

use crate::query::{
    compiled_children, compiled_compare, compiled_filter, nonempty_filters,
    FirestoreQueryFilter, FirestoreQueryFilterCompare, FirestoreQueryFilterComposite,
};
use crate::wire::{CompositeFilterView, FilterTypeView, FilterView, COMPOSITE_OP_AND};

verus! {

/// No node survives the keep step when every node is empty.
proof fn lemma_nonempty_filters_none<Val>(nodes: Seq<FilterView<Val>>)
    requires
        forall|i: int| 0 <= i < nodes.len() ==> (#[trigger] nodes[i]).is_empty(),
    ensures
        nonempty_filters(nodes).len() == 0,
    decreases nodes.len(),
{
    reveal(Seq::filter);
    if nodes.len() > 0 {
        lemma_nonempty_filters_none(nodes.drop_last());
    }
}

/// The keep step retains exactly the one non-empty node when every other
/// node is empty.
proof fn lemma_nonempty_filters_single<Val>(nodes: Seq<FilterView<Val>>, j: int)
    requires
        0 <= j < nodes.len(),
        !nodes[j].is_empty(),
        forall|i: int| 0 <= i < nodes.len() && i != j ==> (#[trigger] nodes[i]).is_empty(),
    ensures
        nonempty_filters(nodes) == seq![nodes[j]],
    decreases nodes.len(),
{
    reveal(Seq::filter);
    if j == nodes.len() - 1 {
        lemma_nonempty_filters_none(nodes.drop_last());
        assert(nonempty_filters(nodes.drop_last()) =~= Seq::empty());
        assert(nonempty_filters(nodes) =~= seq![nodes[j]]);
    } else {
        lemma_nonempty_filters_single(nodes.drop_last(), j);
        assert(nodes.drop_last()[j] == nodes[j]);
        assert(nodes.last().is_empty());
    }
}

/// Emptiness propagates upward: a composite all of whose children compile
/// to the empty node — in particular one holding only absent comparisons —
/// compiles to the empty node itself.
pub proof fn lemma_composite_all_empty<Val>(comp: FirestoreQueryFilterComposite<Val>)
    requires
        forall|i: int|
            0 <= i < comp.for_all_filters@.len() ==> (#[trigger] compiled_filter(
                comp.for_all_filters@[i],
            )).is_empty(),
    ensures
        compiled_filter(FirestoreQueryFilter::Composite(comp)).is_empty(),
{
    let cs = comp.for_all_filters@;
    let all = compiled_children(cs);
    assert forall|i: int| 0 <= i < all.len() implies (#[trigger] all[i]).is_empty() by {
        assert(all[i] == compiled_filter(cs[i]));
        assert(compiled_filter(comp.for_all_filters@[i]).is_empty());
    }
    lemma_nonempty_filters_none(all);
}

/// A composite with exactly one child that compiles to a real predicate,
/// among children that compile to the empty node, compiles to a composite
/// holding exactly that predicate.
pub proof fn lemma_composite_single_real<Val>(
    comp: FirestoreQueryFilterComposite<Val>,
    j: int,
)
    requires
        0 <= j < comp.for_all_filters@.len(),
        !compiled_filter(comp.for_all_filters@[j]).is_empty(),
        forall|i: int|
            0 <= i < comp.for_all_filters@.len() && i != j ==> (#[trigger] compiled_filter(
                comp.for_all_filters@[i],
            )).is_empty(),
    ensures
        compiled_filter(FirestoreQueryFilter::Composite(comp)) == (FilterView {
            filter_type: Some(
                FilterTypeView::CompositeFilter(
                    CompositeFilterView {
                        op: COMPOSITE_OP_AND,
                        filters: seq![compiled_filter(comp.for_all_filters@[j])],
                    },
                ),
            ),
        }),
{
    let cs = comp.for_all_filters@;
    let all = compiled_children(cs);
    assert forall|i: int| 0 <= i < all.len() && i != j implies (#[trigger] all[i]).is_empty() by {
        assert(all[i] == compiled_filter(cs[i]));
        assert(compiled_filter(comp.for_all_filters@[i]).is_empty());
    }
    assert(all[j] == compiled_filter(cs[j]));
    lemma_nonempty_filters_single(all, j);
}

/// Nesting is preserved, not flattened: a composite holding one composite
/// holding one comparison compiles to a two-level nested composite around
/// the comparison's wire node.
pub proof fn lemma_recursive_nesting<Val>(
    outer: FirestoreQueryFilterComposite<Val>,
    inner: FirestoreQueryFilterComposite<Val>,
    c: FirestoreQueryFilterCompare<Val>,
)
    requires
        outer.for_all_filters@ == seq![FirestoreQueryFilter::Composite(inner)],
        inner.for_all_filters@ == seq![FirestoreQueryFilter::Compare(Some(c))],
    ensures
        compiled_filter(FirestoreQueryFilter::Composite(outer)) == (FilterView {
            filter_type: Some(
                FilterTypeView::CompositeFilter(
                    CompositeFilterView {
                        op: COMPOSITE_OP_AND,
                        filters: seq![
                            FilterView {
                                filter_type: Some(
                                    FilterTypeView::CompositeFilter(
                                        CompositeFilterView {
                                            op: COMPOSITE_OP_AND,
                                            filters: seq![
                                                FilterView {
                                                    filter_type: Some(
                                                        FilterTypeView::FieldFilter(
                                                            compiled_compare(c),
                                                        ),
                                                    ),
                                                },
                                            ],
                                        },
                                    ),
                                ),
                            },
                        ],
                    },
                ),
            ),
        }),
{
    let leaf = compiled_filter(FirestoreQueryFilter::Compare(Some(c)));
    let inner_all = compiled_children(inner.for_all_filters@);
    assert(inner_all =~= seq![leaf]);
    lemma_nonempty_filters_single(inner_all, 0);
    let inner_compiled = compiled_filter(
        FirestoreQueryFilter::<Val>::Composite(inner),
    );
    assert(inner_compiled == (FilterView {
        filter_type: Some(
            FilterTypeView::CompositeFilter(
                CompositeFilterView { op: COMPOSITE_OP_AND, filters: seq![leaf] },
            ),
        ),
    }));
    let outer_all = compiled_children(outer.for_all_filters@);
    assert(outer_all =~= seq![inner_compiled]);
    lemma_nonempty_filters_single(outer_all, 0);
}

} // verus!
