//! Plain-data mirror of the protocol's structured-query wire message.
//!
//! These types reproduce, field for field, the shape of the target
//! document-database's structured-query schema. Enumerations that the
//! protocol encodes as numeric codes (comparison operators, unary operators,
//! the composite combinator, sort directions) are held here as `i32` wire
//! codes; the named constants below fix each code. The document field-value
//! type is opaque to this crate and appears as the type parameter `Val`.
//!
//! Every type has a mathematical view (`@`): strings become `Seq<char>`,
//! vectors become `Seq` of element views, and the recursive filter node
//! becomes [`FilterView`]. Contracts elsewhere in the crate are stated over
//! these views.

use vstd::prelude::*;

verus! {

/// Wire code for a comparison: less-than.
pub const FIELD_OP_LESS_THAN: i32 = 1;

/// Wire code for a comparison: less-than-or-equal.
pub const FIELD_OP_LESS_THAN_OR_EQUAL: i32 = 2;

/// Wire code for a comparison: greater-than.
pub const FIELD_OP_GREATER_THAN: i32 = 3;

/// Wire code for a comparison: greater-than-or-equal.
pub const FIELD_OP_GREATER_THAN_OR_EQUAL: i32 = 4;

/// Wire code for a comparison: equal.
pub const FIELD_OP_EQUAL: i32 = 5;

/// Wire code for a comparison: not-equal.
pub const FIELD_OP_NOT_EQUAL: i32 = 6;

/// Wire code for a comparison: array-contains.
pub const FIELD_OP_ARRAY_CONTAINS: i32 = 7;

/// Wire code for a comparison: in-set.
pub const FIELD_OP_IN: i32 = 8;

/// Wire code for a comparison: array-contains-any.
pub const FIELD_OP_ARRAY_CONTAINS_ANY: i32 = 9;

/// Wire code for a comparison: not-in-set.
pub const FIELD_OP_NOT_IN: i32 = 10;

/// Wire code for the unary test: is NaN.
pub const UNARY_OP_IS_NAN: i32 = 2;

/// Wire code for the unary test: is null.
pub const UNARY_OP_IS_NULL: i32 = 3;

/// Wire code for the unary test: is not NaN.
pub const UNARY_OP_IS_NOT_NAN: i32 = 4;

/// Wire code for the unary test: is not null.
pub const UNARY_OP_IS_NOT_NULL: i32 = 5;

/// Wire code for the only supported composite combinator: logical AND.
pub const COMPOSITE_OP_AND: i32 = 1;

/// Wire code for ascending sort order.
pub const DIRECTION_ASCENDING: i32 = 1;

/// Wire code for descending sort order.
pub const DIRECTION_DESCENDING: i32 = 2;

/// A reference to a document field by its dot-addressable path.
#[derive(Debug, PartialEq, Clone)]
pub struct FieldReference {
    pub field_path: String,
}

impl View for FieldReference {
    type V = Seq<char>;

    open spec fn view(&self) -> Seq<char> {
        self.field_path@
    }
}

/// One collection named by the query's `from` clause, with the flag that
/// widens the scan to every descendant collection of the same identifier.
#[derive(Debug, PartialEq, Clone)]
pub struct CollectionSelector {
    pub collection_id: String,
    pub all_descendants: bool,
}

/// Mathematical view of a [`CollectionSelector`].
pub struct CollectionSelectorView {
    pub collection_id: Seq<char>,
    pub all_descendants: bool,
}

impl View for CollectionSelector {
    type V = CollectionSelectorView;

    open spec fn view(&self) -> CollectionSelectorView {
        CollectionSelectorView {
            collection_id: self.collection_id@,
            all_descendants: self.all_descendants,
        }
    }
}

/// A leaf filter comparing one document field to a value.
#[derive(Debug, PartialEq, Clone)]
pub struct FieldFilter<Val> {
    pub field: Option<FieldReference>,
    pub op: i32,
    pub value: Option<Val>,
}

/// Mathematical view of a [`FieldFilter`].
pub struct FieldFilterView<Val> {
    pub field: Option<Seq<char>>,
    pub op: i32,
    pub value: Option<Val>,
}

impl<Val> View for FieldFilter<Val> {
    type V = FieldFilterView<Val>;

    open spec fn view(&self) -> FieldFilterView<Val> {
        FieldFilterView {
            field: match self.field {
                Some(f) => Some(f@),
                None => None,
            },
            op: self.op,
            value: self.value,
        }
    }
}

/// The operand of a unary filter: the protocol allows only a field
/// reference here.
#[derive(Debug, PartialEq, Clone)]
pub enum UnaryOperandType {
    Field(FieldReference),
}

/// A leaf filter testing one field's null or NaN state, with no comparison
/// value.
#[derive(Debug, PartialEq, Clone)]
pub struct UnaryFilter {
    pub op: i32,
    pub operand_type: Option<UnaryOperandType>,
}

/// Mathematical view of a [`UnaryFilter`].
pub struct UnaryFilterView {
    pub op: i32,
    pub operand: Option<Seq<char>>,
}

impl View for UnaryFilter {
    type V = UnaryFilterView;

    open spec fn view(&self) -> UnaryFilterView {
        UnaryFilterView {
            op: self.op,
            operand: match self.operand_type {
                Some(UnaryOperandType::Field(f)) => Some(f@),
                None => None,
            },
        }
    }
}

/// A combination of nested filters under one combinator code.
#[derive(Debug, PartialEq)]
pub struct CompositeFilter<Val> {
    pub op: i32,
    pub filters: Vec<Filter<Val>>,
}

/// The tagged union of the protocol's filter shapes.
#[derive(Debug, PartialEq)]
pub enum FilterType<Val> {
    CompositeFilter(CompositeFilter<Val>),
    FieldFilter(FieldFilter<Val>),
    UnaryFilter(UnaryFilter),
}

/// A filter wire node. `filter_type: None` is the structurally empty
/// filter: valid on the wire, but carrying no predicate.
#[derive(Debug, PartialEq)]
pub struct Filter<Val> {
    pub filter_type: Option<FilterType<Val>>,
}

/// Mathematical view of a [`CompositeFilter`].
pub struct CompositeFilterView<Val> {
    pub op: i32,
    pub filters: Seq<FilterView<Val>>,
}

/// Mathematical view of a [`FilterType`].
pub enum FilterTypeView<Val> {
    CompositeFilter(CompositeFilterView<Val>),
    FieldFilter(FieldFilterView<Val>),
    UnaryFilter(UnaryFilterView),
}

/// Mathematical view of a [`Filter`] wire node.
pub struct FilterView<Val> {
    pub filter_type: Option<FilterTypeView<Val>>,
}

impl<Val> FilterView<Val> {
    /// A filter node carries a predicate exactly when its discriminant is
    /// set.
    pub open spec fn is_empty(self) -> bool {
        self.filter_type is None
    }
}

/// The views of a list of filter wire nodes, element by element.
pub open spec fn filter_views<Val>(ws: Seq<Filter<Val>>) -> Seq<FilterView<Val>>
    decreases ws,
{
    Seq::new(
        ws.len(),
        |i: int|
            if 0 <= i < ws.len() {
                filter_node_view(ws[i])
            } else {
                FilterView { filter_type: None }
            },
    )
}

/// Taking views commutes with appending one node to a list of filters.
pub proof fn lemma_filter_views_push<Val>(ws: Seq<Filter<Val>>, w: Filter<Val>)
    ensures
        filter_views(ws.push(w)) == filter_views(ws).push(filter_node_view(w)),
{
    assert(filter_views(ws.push(w)) =~= filter_views(ws).push(filter_node_view(w)));
}

/// The view of a filter wire node, taken recursively through composite
/// children.
pub open spec fn filter_node_view<Val>(w: Filter<Val>) -> FilterView<Val>
    decreases w,
{
    FilterView {
        filter_type: match w.filter_type {
            None => None,
            Some(FilterType::FieldFilter(ff)) => Some(FilterTypeView::FieldFilter(ff@)),
            Some(FilterType::UnaryFilter(uf)) => Some(FilterTypeView::UnaryFilter(uf@)),
            Some(FilterType::CompositeFilter(cf)) => Some(
                FilterTypeView::CompositeFilter(
                    CompositeFilterView {
                        op: cf.op,
                        filters: filter_views(
                            w.filter_type->Some_0->CompositeFilter_0.filters@,
                        ),
                    },
                ),
            ),
        },
    }
}

impl<Val> View for Filter<Val> {
    type V = FilterView<Val>;

    open spec fn view(&self) -> FilterView<Val> {
        filter_node_view(*self)
    }
}

/// One entry of the query's sort order: a field and a direction code.
#[derive(Debug, PartialEq, Clone)]
pub struct Order {
    pub field: Option<FieldReference>,
    pub direction: i32,
}

/// Mathematical view of an [`Order`].
pub struct OrderView {
    pub field: Option<Seq<char>>,
    pub direction: i32,
}

impl View for Order {
    type V = OrderView;

    open spec fn view(&self) -> OrderView {
        OrderView {
            field: match self.field {
                Some(f) => Some(f@),
                None => None,
            },
            direction: self.direction,
        }
    }
}

/// The fields a query would return instead of whole documents. The
/// compiler in this crate never emits one; the type completes the message
/// shape.
#[derive(Debug, PartialEq, Clone)]
pub struct Projection {
    pub fields: Vec<FieldReference>,
}

/// Mathematical view of a [`Projection`].
pub struct ProjectionView {
    pub fields: Seq<Seq<char>>,
}

impl View for Projection {
    type V = ProjectionView;

    open spec fn view(&self) -> ProjectionView {
        ProjectionView { fields: Seq::new(self.fields@.len(), |i: int| self.fields@[i]@) }
    }
}

/// A position in the result stream for cursor pagination. The compiler in
/// this crate never emits one; the type completes the message shape.
#[derive(Debug, PartialEq, Clone)]
pub struct Cursor<Val> {
    pub values: Vec<Val>,
    pub before: bool,
}

/// Mathematical view of a [`Cursor`].
pub struct CursorView<Val> {
    pub values: Seq<Val>,
    pub before: bool,
}

impl<Val> View for Cursor<Val> {
    type V = CursorView<Val>;

    open spec fn view(&self) -> CursorView<Val> {
        CursorView { values: self.values@, before: self.before }
    }
}

/// The complete structured-query wire message.
#[derive(Debug, PartialEq)]
pub struct StructuredQuery<Val> {
    pub select: Option<Projection>,
    pub from: Vec<CollectionSelector>,
    pub where_clause: Option<Filter<Val>>,
    pub order_by: Vec<Order>,
    pub start_at: Option<Cursor<Val>>,
    pub end_at: Option<Cursor<Val>>,
    pub offset: i32,
    pub limit: Option<i32>,
}

/// Mathematical view of a [`StructuredQuery`].
pub struct StructuredQueryView<Val> {
    pub select: Option<ProjectionView>,
    pub from: Seq<CollectionSelectorView>,
    pub where_clause: Option<FilterView<Val>>,
    pub order_by: Seq<OrderView>,
    pub start_at: Option<CursorView<Val>>,
    pub end_at: Option<CursorView<Val>>,
    pub offset: i32,
    pub limit: Option<i32>,
}

impl<Val> View for StructuredQuery<Val> {
    type V = StructuredQueryView<Val>;

    open spec fn view(&self) -> StructuredQueryView<Val> {
        StructuredQueryView {
            select: match self.select {
                Some(p) => Some(p@),
                None => None,
            },
            from: Seq::new(self.from@.len(), |i: int| self.from@[i]@),
            where_clause: match self.where_clause {
                Some(f) => Some(f@),
                None => None,
            },
            order_by: Seq::new(self.order_by@.len(), |i: int| self.order_by@[i]@),
            start_at: match self.start_at {
                Some(c) => Some(c@),
                None => None,
            },
            end_at: match self.end_at {
                Some(c) => Some(c@),
                None => None,
            },
            offset: self.offset,
            limit: self.limit,
        }
    }
}

} // verus!
