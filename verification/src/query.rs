//! The query description model and its compilation into the wire message.
//!
//! A caller builds a [`FirestoreQueryParams`] value — collection selector,
//! optional filter tree, sort order, pagination bounds — and compiles it
//! with [`FirestoreQueryParams::to_structured_query`]. Compilation is a
//! total, pure function; its exact result is fixed by the spec functions in
//! this module, stated over the views of the wire types.

use vstd::prelude::*;

use crate::wire::{
    filter_views, lemma_filter_views_push, CollectionSelector, CollectionSelectorView,
    CompositeFilter, CompositeFilterView, FieldFilter, FieldFilterView, FieldReference, Filter,
    FilterType, FilterTypeView, FilterView, Order, OrderView, StructuredQuery,
    StructuredQueryView, UnaryFilter, UnaryFilterView, UnaryOperandType, COMPOSITE_OP_AND,
    DIRECTION_ASCENDING, DIRECTION_DESCENDING, FIELD_OP_ARRAY_CONTAINS,
    FIELD_OP_ARRAY_CONTAINS_ANY, FIELD_OP_EQUAL, FIELD_OP_GREATER_THAN,
    FIELD_OP_GREATER_THAN_OR_EQUAL, FIELD_OP_IN, FIELD_OP_LESS_THAN, FIELD_OP_LESS_THAN_OR_EQUAL,
    FIELD_OP_NOT_EQUAL, FIELD_OP_NOT_IN, UNARY_OP_IS_NAN, UNARY_OP_IS_NOT_NAN,
    UNARY_OP_IS_NOT_NULL, UNARY_OP_IS_NULL,
};

verus! {

/// The collection(s) a query scans: one collection, or a group of
/// collection identifiers queried together.
#[derive(Debug, PartialEq, Clone)]
pub enum FirestoreQueryCollection {
    Single(String),
    Group(Vec<String>),
}

/// A leaf filter with no value operand: a null or NaN test on one field.
#[derive(Debug, PartialEq, Clone)]
pub enum FirestoreQueryFilterUnary {
    IsNan(String),
    IsNull(String),
    IsNotNan(String),
    IsNotNull(String),
}

/// An opaque document field value, produced and understood by the
/// neighboring value codec; this crate stores and forwards it unchanged.
#[derive(Debug, PartialEq, Clone)]
pub struct FirestoreValue<Val> {
    pub value: Val,
}

/// A leaf filter comparing one field to a value under one of the ten
/// comparison operators.
#[derive(Debug, PartialEq, Clone)]
pub enum FirestoreQueryFilterCompare<Val> {
    LessThan(String, FirestoreValue<Val>),
    LessThanOrEqual(String, FirestoreValue<Val>),
    GreaterThan(String, FirestoreValue<Val>),
    GreaterThanOrEqual(String, FirestoreValue<Val>),
    Equal(String, FirestoreValue<Val>),
    NotEqual(String, FirestoreValue<Val>),
    ArrayContains(String, FirestoreValue<Val>),
    In(String, FirestoreValue<Val>),
    ArrayContainsAny(String, FirestoreValue<Val>),
    NotIn(String, FirestoreValue<Val>),
}

/// An ordered list of filters combined by logical AND.
#[derive(Debug, PartialEq)]
pub struct FirestoreQueryFilterComposite<Val> {
    pub for_all_filters: Vec<FirestoreQueryFilter<Val>>,
}

/// A filter expression: a composite of nested filters, a unary test, or an
/// optional comparison. `Compare(None)` stands for "no predicate" and
/// compiles to the structurally empty filter node.
#[derive(Debug, PartialEq)]
pub enum FirestoreQueryFilter<Val> {
    Composite(FirestoreQueryFilterComposite<Val>),
    Unary(FirestoreQueryFilterUnary),
    Compare(Option<FirestoreQueryFilterCompare<Val>>),
}

/// The direction of one sort-order entry; never defaulted, the caller
/// states it explicitly.
#[derive(Debug, PartialEq, Clone)]
pub enum FirestoreQueryDirection {
    Ascending,
    Descending,
}

/// One entry of the query's sort order: a field path and a direction.
#[derive(Debug, PartialEq, Clone)]
pub struct FirestoreQueryOrder {
    pub field_name: String,
    pub direction: FirestoreQueryDirection,
}

/// The complete description of a query: where to scan, what to filter,
/// how to sort, and how much to return.
#[derive(Debug, PartialEq)]
pub struct FirestoreQueryParams<Val> {
    pub parent: Option<String>,
    pub collection_id: FirestoreQueryCollection,
    pub limit: Option<u32>,
    pub offset: Option<u32>,
    pub order_by: Option<Vec<FirestoreQueryOrder>>,
    pub filter: Option<FirestoreQueryFilter<Val>>,
    pub all_descendants: Option<bool>,
}

/// The wire code of a comparison operator: the fixed 1:1 mapping of the
/// ten comparison operators onto the protocol's codes.
pub open spec fn compare_op_code<Val>(c: FirestoreQueryFilterCompare<Val>) -> i32 {
    match c {
        FirestoreQueryFilterCompare::LessThan(_, _) => FIELD_OP_LESS_THAN,
        FirestoreQueryFilterCompare::LessThanOrEqual(_, _) => FIELD_OP_LESS_THAN_OR_EQUAL,
        FirestoreQueryFilterCompare::GreaterThan(_, _) => FIELD_OP_GREATER_THAN,
        FirestoreQueryFilterCompare::GreaterThanOrEqual(_, _) => FIELD_OP_GREATER_THAN_OR_EQUAL,
        FirestoreQueryFilterCompare::Equal(_, _) => FIELD_OP_EQUAL,
        FirestoreQueryFilterCompare::NotEqual(_, _) => FIELD_OP_NOT_EQUAL,
        FirestoreQueryFilterCompare::ArrayContains(_, _) => FIELD_OP_ARRAY_CONTAINS,
        FirestoreQueryFilterCompare::In(_, _) => FIELD_OP_IN,
        FirestoreQueryFilterCompare::ArrayContainsAny(_, _) => FIELD_OP_ARRAY_CONTAINS_ANY,
        FirestoreQueryFilterCompare::NotIn(_, _) => FIELD_OP_NOT_IN,
    }
}

/// The field path a comparison speaks of.
pub open spec fn compare_field<Val>(c: FirestoreQueryFilterCompare<Val>) -> Seq<char> {
    match c {
        FirestoreQueryFilterCompare::LessThan(f, _) => f@,
        FirestoreQueryFilterCompare::LessThanOrEqual(f, _) => f@,
        FirestoreQueryFilterCompare::GreaterThan(f, _) => f@,
        FirestoreQueryFilterCompare::GreaterThanOrEqual(f, _) => f@,
        FirestoreQueryFilterCompare::Equal(f, _) => f@,
        FirestoreQueryFilterCompare::NotEqual(f, _) => f@,
        FirestoreQueryFilterCompare::ArrayContains(f, _) => f@,
        FirestoreQueryFilterCompare::In(f, _) => f@,
        FirestoreQueryFilterCompare::ArrayContainsAny(f, _) => f@,
        FirestoreQueryFilterCompare::NotIn(f, _) => f@,
    }
}

/// The value operand of a comparison, forwarded unchanged to the wire.
pub open spec fn compare_value<Val>(c: FirestoreQueryFilterCompare<Val>) -> Val {
    match c {
        FirestoreQueryFilterCompare::LessThan(_, v) => v.value,
        FirestoreQueryFilterCompare::LessThanOrEqual(_, v) => v.value,
        FirestoreQueryFilterCompare::GreaterThan(_, v) => v.value,
        FirestoreQueryFilterCompare::GreaterThanOrEqual(_, v) => v.value,
        FirestoreQueryFilterCompare::Equal(_, v) => v.value,
        FirestoreQueryFilterCompare::NotEqual(_, v) => v.value,
        FirestoreQueryFilterCompare::ArrayContains(_, v) => v.value,
        FirestoreQueryFilterCompare::In(_, v) => v.value,
        FirestoreQueryFilterCompare::ArrayContainsAny(_, v) => v.value,
        FirestoreQueryFilterCompare::NotIn(_, v) => v.value,
    }
}

/// The wire code of a unary operator: the fixed 1:1 mapping of the four
/// unary operators onto the protocol's codes.
pub open spec fn unary_op_code(u: FirestoreQueryFilterUnary) -> i32 {
    match u {
        FirestoreQueryFilterUnary::IsNan(_) => UNARY_OP_IS_NAN,
        FirestoreQueryFilterUnary::IsNull(_) => UNARY_OP_IS_NULL,
        FirestoreQueryFilterUnary::IsNotNan(_) => UNARY_OP_IS_NOT_NAN,
        FirestoreQueryFilterUnary::IsNotNull(_) => UNARY_OP_IS_NOT_NULL,
    }
}

/// The field path a unary test speaks of.
pub open spec fn unary_field(u: FirestoreQueryFilterUnary) -> Seq<char> {
    match u {
        FirestoreQueryFilterUnary::IsNan(f) => f@,
        FirestoreQueryFilterUnary::IsNull(f) => f@,
        FirestoreQueryFilterUnary::IsNotNan(f) => f@,
        FirestoreQueryFilterUnary::IsNotNull(f) => f@,
    }
}

/// The wire code of a sort direction.
pub open spec fn direction_code(d: FirestoreQueryDirection) -> i32 {
    match d {
        FirestoreQueryDirection::Ascending => DIRECTION_ASCENDING,
        FirestoreQueryDirection::Descending => DIRECTION_DESCENDING,
    }
}

/// The wire node a comparison compiles to: field, operator code and value,
/// each present.
pub open spec fn compiled_compare<Val>(c: FirestoreQueryFilterCompare<Val>) -> FieldFilterView<
    Val,
> {
    FieldFilterView {
        field: Some(compare_field(c)),
        op: compare_op_code(c),
        value: Some(compare_value(c)),
    }
}

/// The wire node a unary test compiles to: operator code and field operand.
pub open spec fn compiled_unary(u: FirestoreQueryFilterUnary) -> UnaryFilterView {
    UnaryFilterView { op: unary_op_code(u), operand: Some(unary_field(u)) }
}

/// The filter nodes of a list of compiled children, each taken by
/// [`compiled_filter`].
pub open spec fn compiled_children<Val>(cs: Seq<FirestoreQueryFilter<Val>>) -> Seq<
    FilterView<Val>,
>
    decreases cs,
{
    Seq::new(
        cs.len(),
        |i: int|
            if 0 <= i < cs.len() {
                compiled_filter(cs[i])
            } else {
                FilterView { filter_type: None }
            },
    )
}

/// The compiled children a composite keeps: exactly the non-empty nodes,
/// in their original relative order.
pub open spec fn nonempty_filters<Val>(nodes: Seq<FilterView<Val>>) -> Seq<FilterView<Val>> {
    nodes.filter(|child: FilterView<Val>| !child.is_empty())
}

/// Keeping non-empty nodes distributes over appending one node: a
/// non-empty node is kept at the end, an empty one is dropped.
pub proof fn lemma_nonempty_filters_push<Val>(nodes: Seq<FilterView<Val>>, x: FilterView<Val>)
    ensures
        nonempty_filters(nodes.push(x)) == if !x.is_empty() {
            nonempty_filters(nodes).push(x)
        } else {
            nonempty_filters(nodes)
        },
{
    reveal(Seq::filter);
    assert(nodes.push(x).drop_last() =~= nodes);
    assert(nodes.push(x).last() == x);
}

/// The wire node a filter expression compiles to.
///
/// An absent comparison gives the empty node. A composite compiles every
/// child in order, keeps only the non-empty results, and combines them
/// under logical AND; if no child survives, the composite itself is the
/// empty node, so emptiness propagates upward through nesting.
pub open spec fn compiled_filter<Val>(f: FirestoreQueryFilter<Val>) -> FilterView<Val>
    decreases f,
{
    match f {
        FirestoreQueryFilter::Compare(None) => FilterView { filter_type: None },
        FirestoreQueryFilter::Compare(Some(c)) => FilterView {
            filter_type: Some(FilterTypeView::FieldFilter(compiled_compare(c))),
        },
        FirestoreQueryFilter::Unary(u) => FilterView {
            filter_type: Some(FilterTypeView::UnaryFilter(compiled_unary(u))),
        },
        FirestoreQueryFilter::Composite(comp) => {
            let kept = nonempty_filters(
                compiled_children(f->Composite_0.for_all_filters@),
            );
            if kept.len() == 0 {
                FilterView { filter_type: None }
            } else {
                FilterView {
                    filter_type: Some(
                        FilterTypeView::CompositeFilter(
                            CompositeFilterView { op: COMPOSITE_OP_AND, filters: kept },
                        ),
                    ),
                }
            }
        },
    }
}

impl<Val> FirestoreQueryFilter<Val> {
    /// Compiles this filter expression into its wire node: the exact
    /// result is [`compiled_filter`] of the input. Total: every filter
    /// expression compiles.
    #[verifier::loop_isolation(false)]
    pub fn to_structured_query_filter(self) -> (r: Filter<Val>)
        ensures
            r@ == compiled_filter(self),
        decreases self,
    {
        let ghost g = self;
        match self {
            FirestoreQueryFilter::Compare(None) => Filter { filter_type: None },
            FirestoreQueryFilter::Compare(Some(cmp)) => {
                let (field_name, op, fvalue) = match cmp {
                    FirestoreQueryFilterCompare::LessThan(f, v) => (f, FIELD_OP_LESS_THAN, v),
                    FirestoreQueryFilterCompare::LessThanOrEqual(f, v) => (
                        f,
                        FIELD_OP_LESS_THAN_OR_EQUAL,
                        v,
                    ),
                    FirestoreQueryFilterCompare::GreaterThan(f, v) => (
                        f,
                        FIELD_OP_GREATER_THAN,
                        v,
                    ),
                    FirestoreQueryFilterCompare::GreaterThanOrEqual(f, v) => (
                        f,
                        FIELD_OP_GREATER_THAN_OR_EQUAL,
                        v,
                    ),
                    FirestoreQueryFilterCompare::Equal(f, v) => (f, FIELD_OP_EQUAL, v),
                    FirestoreQueryFilterCompare::NotEqual(f, v) => (f, FIELD_OP_NOT_EQUAL, v),
                    FirestoreQueryFilterCompare::ArrayContains(f, v) => (
                        f,
                        FIELD_OP_ARRAY_CONTAINS,
                        v,
                    ),
                    FirestoreQueryFilterCompare::In(f, v) => (f, FIELD_OP_IN, v),
                    FirestoreQueryFilterCompare::ArrayContainsAny(f, v) => (
                        f,
                        FIELD_OP_ARRAY_CONTAINS_ANY,
                        v,
                    ),
                    FirestoreQueryFilterCompare::NotIn(f, v) => (f, FIELD_OP_NOT_IN, v),
                };
                Filter {
                    filter_type: Some(
                        FilterType::FieldFilter(
                            FieldFilter {
                                field: Some(FieldReference { field_path: field_name }),
                                op,
                                value: Some(fvalue.value),
                            },
                        ),
                    ),
                }
            },
            FirestoreQueryFilter::Unary(u) => {
                let (field_name, op) = match u {
                    FirestoreQueryFilterUnary::IsNan(f) => (f, UNARY_OP_IS_NAN),
                    FirestoreQueryFilterUnary::IsNull(f) => (f, UNARY_OP_IS_NULL),
                    FirestoreQueryFilterUnary::IsNotNan(f) => (f, UNARY_OP_IS_NOT_NAN),
                    FirestoreQueryFilterUnary::IsNotNull(f) => (f, UNARY_OP_IS_NOT_NULL),
                };
                Filter {
                    filter_type: Some(
                        FilterType::UnaryFilter(
                            UnaryFilter {
                                op,
                                operand_type: Some(
                                    UnaryOperandType::Field(
                                        FieldReference { field_path: field_name },
                                    ),
                                ),
                            },
                        ),
                    ),
                }
            },
            FirestoreQueryFilter::Composite(comp) => {
                let ghost gcomp = comp;
                let mut rest = comp.for_all_filters;
                let ghost cs = rest@;
                let ghost all = compiled_children(cs);
                let mut kept: Vec<Filter<Val>> = Vec::new();
                while rest.len() > 0
                    invariant
                        rest@.len() <= cs.len(),
                        rest@ == cs.subrange(cs.len() - rest@.len(), cs.len() as int),
                        filter_views(kept@) == nonempty_filters(
                            all.subrange(0, cs.len() - rest@.len()),
                        ),
                        all == compiled_children(cs),
                        g == FirestoreQueryFilter::Composite(gcomp),
                        cs == gcomp.for_all_filters@,
                    decreases rest@.len(),
                {
                    let ghost done0 = cs.len() - rest@.len();
                    let ghost kept0 = kept@;
                    let c = rest.remove(0);
                    proof {
                        assert(cs.subrange(done0 as int, cs.len() as int)[0] == cs[done0 as int]);
                        assert(decreases_to!(g => g->Composite_0));
                        assert(decreases_to!(gcomp => gcomp.for_all_filters));
                        vstd::std_specs::vec::axiom_vec_index_decreases(
                            gcomp.for_all_filters,
                            done0 as int,
                        );
                        assert(rest@ =~= cs.subrange(cs.len() - rest@.len(), cs.len() as int));
                    }
                    let w = c.to_structured_query_filter();
                    let is_real = w.filter_type.is_some();
                    if is_real {
                        kept.push(w);
                    }
                    proof {
                        assert(all[done0 as int] == compiled_filter(cs[done0 as int]));
                        assert(w@ == all[done0 as int]);
                        assert(all.subrange(0, done0 as int + 1) =~= all.subrange(
                            0,
                            done0 as int,
                        ).push(all[done0 as int]));
                        lemma_nonempty_filters_push(
                            all.subrange(0, done0 as int),
                            all[done0 as int],
                        );
                        if is_real {
                            lemma_filter_views_push(kept0, w);
                            assert(!all[done0 as int].is_empty());
                        } else {
                            assert(all[done0 as int].is_empty());
                        }
                    }
                }
                proof {
                    assert(all.subrange(0, cs.len() as int) =~= all);
                    assert(g->Composite_0.for_all_filters@ == cs);
                    assert(filter_views(kept@).len() == kept@.len());
                }
                if kept.len() == 0 {
                    let r = Filter { filter_type: None };
                    proof {
                        assert(nonempty_filters(all).len() == 0);
                        assert(compiled_filter(g) == (FilterView::<
                            Val,
                        > { filter_type: None }));
                    }
                    r
                } else {
                    let r = Filter {
                        filter_type: Some(
                            FilterType::CompositeFilter(
                                CompositeFilter { op: COMPOSITE_OP_AND, filters: kept },
                            ),
                        ),
                    };
                    proof {
                        assert(r@ == compiled_filter(g));
                    }
                    r
                }
            },
        }
    }
}

/// The wire node a sort-order entry compiles to.
pub open spec fn compiled_order(o: FirestoreQueryOrder) -> OrderView {
    OrderView { field: Some(o.field_name@), direction: direction_code(o.direction) }
}

/// The comma-joined display form of a list of identifiers.
pub open spec fn comma_joined(ids: Seq<Seq<char>>) -> Seq<char>
    decreases ids.len(),
{
    if ids.len() == 0 {
        Seq::empty()
    } else if ids.len() == 1 {
        ids[0]
    } else {
        comma_joined(ids.drop_last()) + seq![','] + ids.last()
    }
}

/// The display form of a collection selector: the identifier itself for a
/// single collection, the comma-joined identifiers for a group. Used for
/// human-readable display only, never for wire encoding.
pub open spec fn collection_display(c: FirestoreQueryCollection) -> Seq<char> {
    match c {
        FirestoreQueryCollection::Single(s) => s@,
        FirestoreQueryCollection::Group(g) => comma_joined(
            Seq::new(g@.len(), |i: int| g@[i]@),
        ),
    }
}

impl FirestoreQueryCollection {
    /// A selector for one collection, from a borrowed identifier.
    pub fn single(collection_id: &str) -> (r: Self)
        ensures
            r matches FirestoreQueryCollection::Single(s) && s@ == collection_id@,
    {
        FirestoreQueryCollection::Single(collection_id.to_owned())
    }

    /// Renders this selector for display: the identifier itself, or the
    /// comma-joined list of a group's identifiers.
    pub fn to_string(&self) -> (r: String)
        ensures
            r@ == collection_display(*self),
    {
        match self {
            FirestoreQueryCollection::Single(single) => single.clone(),
            FirestoreQueryCollection::Group(group) => {
                let ghost ids = Seq::new(group@.len(), |i: int| group@[i]@);
                let mut out = String::new();
                let mut i: usize = 0;
                proof {
                    reveal_strlit(",");
                }
                while i < group.len()
                    invariant
                        i <= group.len(),
                        ids == Seq::new(group@.len(), |j: int| group@[j]@),
                        out@ == comma_joined(ids.subrange(0, i as int)),
                        ","@ == seq![','],
                    decreases group.len() - i,
                {
                    if i > 0 {
                        out.append(",");
                    }
                    out.append(group[i].as_str());
                    proof {
                        let pre = ids.subrange(0, i as int);
                        let cur = ids.subrange(0, i as int + 1);
                        assert(cur.drop_last() =~= pre);
                        assert(cur.last() == ids[i as int]);
                        if i > 0 {
                            assert(cur.len() > 1);
                            assert(out@ == comma_joined(pre) + seq![','] + ids[i as int]);
                        } else {
                            assert(cur =~= seq![ids[0]]);
                            assert(out@ =~= ids[0]);
                        }
                    }
                    i = i + 1;
                }
                proof {
                    assert(ids.subrange(0, group@.len() as int) =~= ids);
                }
                out
            },
        }
    }
}

/// The pairs the `from` clause names: one per identifier in selector
/// order, each carrying the same all-descendants flag; exactly one pair
/// for a single collection.
pub open spec fn compiled_from(c: FirestoreQueryCollection, all_descendants: bool) -> Seq<
    CollectionSelectorView,
> {
    match c {
        FirestoreQueryCollection::Single(s) => seq![
            CollectionSelectorView { collection_id: s@, all_descendants },
        ],
        FirestoreQueryCollection::Group(g) => Seq::new(
            g@.len(),
            |i: int| CollectionSelectorView { collection_id: g@[i]@, all_descendants },
        ),
    }
}

/// The wire order list of a list of sort-order entries, in order.
pub open spec fn compiled_orders(os: Seq<FirestoreQueryOrder>) -> Seq<OrderView> {
    Seq::new(os.len(), |i: int| compiled_order(os[i]))
}

/// A query description whose pagination counts the wire's signed 32-bit
/// fields can carry.
pub open spec fn wire_representable<Val>(p: FirestoreQueryParams<Val>) -> bool {
    &&& (p.limit matches Some(l) ==> l <= i32::MAX as u32)
    &&& (p.offset matches Some(o) ==> o <= i32::MAX as u32)
}

/// The complete wire message a query description compiles to.
///
/// Projection and cursors are never emitted. An absent offset compiles to
/// wire offset `0`; an absent limit stays absent (unbounded). An absent
/// order list compiles to the empty list; an absent filter to no `where`
/// clause. The all-descendants flag defaults to `false` and applies to
/// every collection the selector names.
pub open spec fn compiled_query<Val>(p: FirestoreQueryParams<Val>) -> StructuredQueryView<Val> {
    StructuredQueryView {
        select: None,
        from: compiled_from(
            p.collection_id,
            match p.all_descendants {
                Some(b) => b,
                None => false,
            },
        ),
        where_clause: match p.filter {
            Some(f) => Some(compiled_filter(f)),
            None => None,
        },
        order_by: match p.order_by {
            Some(os) => compiled_orders(os@),
            None => Seq::empty(),
        },
        start_at: None,
        end_at: None,
        offset: match p.offset {
            Some(o) => o as i32,
            None => 0,
        },
        limit: match p.limit {
            Some(l) => Some(l as i32),
            None => None,
        },
    }
}

impl<Val> FirestoreQueryParams<Val> {
    /// A query description scanning the given collection(s): no parent
    /// path, no filter, no explicit order, no pagination bounds, and the
    /// all-descendants flag left unset.
    pub fn new(collection_id: FirestoreQueryCollection) -> (r: Self)
        ensures
            r == (FirestoreQueryParams::<
                Val,
            > {
                parent: None,
                collection_id,
                limit: None,
                offset: None,
                order_by: None,
                filter: None,
                all_descendants: None,
            }),
    {
        FirestoreQueryParams {
            parent: None,
            collection_id,
            limit: None,
            offset: None,
            order_by: None,
            filter: None,
            all_descendants: None,
        }
    }

    /// The same description with the parent path set.
    pub fn with_parent(self, parent: String) -> (r: Self)
        ensures
            r == (FirestoreQueryParams { parent: Some(parent), ..self }),
    {
        FirestoreQueryParams { parent: Some(parent), ..self }
    }

    /// The same description with the result-count limit set.
    pub fn with_limit(self, limit: u32) -> (r: Self)
        ensures
            r == (FirestoreQueryParams { limit: Some(limit), ..self }),
    {
        FirestoreQueryParams { limit: Some(limit), ..self }
    }

    /// The same description with the skip-count offset set.
    pub fn with_offset(self, offset: u32) -> (r: Self)
        ensures
            r == (FirestoreQueryParams { offset: Some(offset), ..self }),
    {
        FirestoreQueryParams { offset: Some(offset), ..self }
    }

    /// The same description with the sort order set.
    pub fn with_order_by(self, order_by: Vec<FirestoreQueryOrder>) -> (r: Self)
        ensures
            r == (FirestoreQueryParams { order_by: Some(order_by), ..self }),
    {
        FirestoreQueryParams { order_by: Some(order_by), ..self }
    }

    /// The same description with the root filter set.
    pub fn with_filter(self, filter: FirestoreQueryFilter<Val>) -> (r: Self)
        ensures
            r == (FirestoreQueryParams { filter: Some(filter), ..self }),
    {
        FirestoreQueryParams { filter: Some(filter), ..self }
    }

    /// The same description with the all-descendants flag set.
    pub fn with_all_descendants(self, all_descendants: bool) -> (r: Self)
        ensures
            r == (FirestoreQueryParams { all_descendants: Some(all_descendants), ..self }),
    {
        FirestoreQueryParams { all_descendants: Some(all_descendants), ..self }
    }

    /// Compiles this query description into the complete wire message: the
    /// exact result is [`compiled_query`] of the input. Total for every
    /// description whose pagination counts the wire can carry.
    #[verifier::loop_isolation(false)]
    pub fn to_structured_query(self) -> (r: StructuredQuery<Val>)
        requires
            wire_representable(self),
        ensures
            r@ == compiled_query(self),
    {
        let ghost g = self;
        let FirestoreQueryParams {
            parent: _,
            collection_id,
            limit,
            offset,
            order_by,
            filter,
            all_descendants,
        } = self;
        let all_desc = match all_descendants {
            Some(b) => b,
            None => false,
        };
        let mut from: Vec<CollectionSelector> = Vec::new();
        match collection_id {
            FirestoreQueryCollection::Single(cid) => {
                from.push(CollectionSelector { collection_id: cid, all_descendants: all_desc });
            },
            FirestoreQueryCollection::Group(ids) => {
                let mut i: usize = 0;
                while i < ids.len()
                    invariant
                        i <= ids.len(),
                        from@.len() == i as int,
                        forall|k: int|
                            0 <= k < i as int ==> #[trigger] from@[k]@
                                == (CollectionSelectorView {
                                collection_id: ids@[k]@,
                                all_descendants: all_desc,
                            }),
                    decreases ids.len() - i,
                {
                    let cid = ids[i].clone();
                    from.push(
                        CollectionSelector { collection_id: cid, all_descendants: all_desc },
                    );
                    i = i + 1;
                }
            },
        }
        let mut order_out: Vec<Order> = Vec::new();
        match &order_by {
            Some(po) => {
                let mut i: usize = 0;
                while i < po.len()
                    invariant
                        i <= po.len(),
                        order_out@.len() == i as int,
                        forall|k: int|
                            0 <= k < i as int ==> #[trigger] order_out@[k]@ == compiled_order(
                                po@[k],
                            ),
                    decreases po.len() - i,
                {
                    order_out.push(po[i].to_structured_query_order());
                    i = i + 1;
                }
            },
            None => {},
        }
        let where_clause = match filter {
            Some(f) => Some(f.to_structured_query_filter()),
            None => None,
        };
        let r = StructuredQuery {
            select: None,
            from,
            where_clause,
            order_by: order_out,
            start_at: None,
            end_at: None,
            offset: match offset {
                Some(x) => x as i32,
                None => 0,
            },
            limit: match limit {
                Some(x) => Some(x as i32),
                None => None,
            },
        };
        proof {
            assert(Seq::new(r.from@.len(), |i: int| r.from@[i]@) =~= compiled_from(
                g.collection_id,
                all_desc,
            ));
            assert(Seq::new(r.order_by@.len(), |i: int| r.order_by@[i]@) =~= (
            match g.order_by {
                Some(os) => compiled_orders(os@),
                None => Seq::<OrderView>::empty(),
            }));
        }
        r
    }
}

impl FirestoreQueryOrder {
    /// Builds a sort-order entry from a field path and an explicit
    /// direction.
    pub fn new(field_name: String, direction: FirestoreQueryDirection) -> (r: Self)
        ensures
            r == (FirestoreQueryOrder { field_name, direction }),
    {
        FirestoreQueryOrder { field_name, direction }
    }

    /// Compiles this sort-order entry into its wire node.
    pub fn to_structured_query_order(&self) -> (r: Order)
        ensures
            r@ == compiled_order(*self),
    {
        Order {
            field: Some(FieldReference { field_path: self.field_name.clone() }),
            direction: match self.direction {
                FirestoreQueryDirection::Ascending => DIRECTION_ASCENDING,
                FirestoreQueryDirection::Descending => DIRECTION_DESCENDING,
            },
        }
    }
}

} // verus!
