use firestore_query::query::{
    FirestoreQueryCollection, FirestoreQueryDirection, FirestoreQueryFilter,
    FirestoreQueryFilterCompare, FirestoreQueryFilterComposite, FirestoreQueryFilterUnary,
    FirestoreQueryOrder, FirestoreQueryParams, FirestoreValue,
};
use firestore_query::wire::{Filter, FilterType, StructuredQuery, UnaryOperandType};

type Params = FirestoreQueryParams<i64>;

fn val(n: i64) -> FirestoreValue<i64> {
    FirestoreValue { value: n }
}

fn compile_single_compare(c: FirestoreQueryFilterCompare<i64>) -> StructuredQuery<i64> {
    Params::new(FirestoreQueryCollection::Single("c".to_string()))
        .with_filter(FirestoreQueryFilter::Compare(Some(c)))
        .to_structured_query()
}

fn compare_op_of(q: &StructuredQuery<i64>) -> i32 {
    match q.where_clause.as_ref().unwrap().filter_type.as_ref().unwrap() {
        FilterType::FieldFilter(ff) => ff.op,
        other => panic!("expected a field filter, got {:?}", other),
    }
}

fn compile_single_unary(u: FirestoreQueryFilterUnary) -> StructuredQuery<i64> {
    Params::new(FirestoreQueryCollection::Single("c".to_string()))
        .with_filter(FirestoreQueryFilter::Unary(u))
        .to_structured_query()
}

fn unary_op_of(q: &StructuredQuery<i64>) -> i32 {
    match q.where_clause.as_ref().unwrap().filter_type.as_ref().unwrap() {
        FilterType::UnaryFilter(uf) => uf.op,
        other => panic!("expected a unary filter, got {:?}", other),
    }
}

#[test]
fn totality_full_query_compiles() {
    let q = Params::new(FirestoreQueryCollection::Group(vec![
        "a".to_string(),
        "b".to_string(),
    ]))
    .with_parent("projects/p/databases/d/documents".to_string())
    .with_limit(10)
    .with_offset(2)
    .with_order_by(vec![FirestoreQueryOrder::new(
        "age".to_string(),
        FirestoreQueryDirection::Ascending,
    )])
    .with_filter(FirestoreQueryFilter::Compare(Some(
        FirestoreQueryFilterCompare::Equal("age".to_string(), val(30)),
    )))
    .with_all_descendants(true)
    .to_structured_query();
    assert!(q.select.is_none());
    assert!(q.start_at.is_none());
    assert!(q.end_at.is_none());
    assert_eq!(q.from.len(), 2);
    assert_eq!(q.order_by.len(), 1);
    assert!(q.where_clause.is_some());
    assert_eq!(q.offset, 2);
    assert_eq!(q.limit, Some(10));
}

#[test]
fn operator_code_less_than() {
    let q = compile_single_compare(FirestoreQueryFilterCompare::LessThan("f".to_string(), val(1)));
    assert_eq!(compare_op_of(&q), 1);
}

#[test]
fn operator_code_less_than_or_equal() {
    let q = compile_single_compare(FirestoreQueryFilterCompare::LessThanOrEqual(
        "f".to_string(),
        val(1),
    ));
    assert_eq!(compare_op_of(&q), 2);
}

#[test]
fn operator_code_greater_than() {
    let q =
        compile_single_compare(FirestoreQueryFilterCompare::GreaterThan("f".to_string(), val(1)));
    assert_eq!(compare_op_of(&q), 3);
}

#[test]
fn operator_code_greater_than_or_equal() {
    let q = compile_single_compare(FirestoreQueryFilterCompare::GreaterThanOrEqual(
        "f".to_string(),
        val(1),
    ));
    assert_eq!(compare_op_of(&q), 4);
}

#[test]
fn operator_code_equal() {
    let q = compile_single_compare(FirestoreQueryFilterCompare::Equal("f".to_string(), val(1)));
    assert_eq!(compare_op_of(&q), 5);
}

#[test]
fn operator_code_not_equal() {
    let q = compile_single_compare(FirestoreQueryFilterCompare::NotEqual("f".to_string(), val(1)));
    assert_eq!(compare_op_of(&q), 6);
}

#[test]
fn operator_code_array_contains() {
    let q = compile_single_compare(FirestoreQueryFilterCompare::ArrayContains(
        "f".to_string(),
        val(1),
    ));
    assert_eq!(compare_op_of(&q), 7);
}

#[test]
fn operator_code_in() {
    let q = compile_single_compare(FirestoreQueryFilterCompare::In("f".to_string(), val(1)));
    assert_eq!(compare_op_of(&q), 8);
}

#[test]
fn operator_code_array_contains_any() {
    let q = compile_single_compare(FirestoreQueryFilterCompare::ArrayContainsAny(
        "f".to_string(),
        val(1),
    ));
    assert_eq!(compare_op_of(&q), 9);
}

#[test]
fn operator_code_not_in() {
    let q = compile_single_compare(FirestoreQueryFilterCompare::NotIn("f".to_string(), val(1)));
    assert_eq!(compare_op_of(&q), 10);
}

#[test]
fn operator_code_is_nan() {
    let q = compile_single_unary(FirestoreQueryFilterUnary::IsNan("f".to_string()));
    assert_eq!(unary_op_of(&q), 2);
}

#[test]
fn operator_code_is_null() {
    let q = compile_single_unary(FirestoreQueryFilterUnary::IsNull("f".to_string()));
    assert_eq!(unary_op_of(&q), 3);
}

#[test]
fn operator_code_is_not_nan() {
    let q = compile_single_unary(FirestoreQueryFilterUnary::IsNotNan("f".to_string()));
    assert_eq!(unary_op_of(&q), 4);
}

#[test]
fn operator_code_is_not_null() {
    let q = compile_single_unary(FirestoreQueryFilterUnary::IsNotNull("f".to_string()));
    assert_eq!(unary_op_of(&q), 5);
}

#[test]
fn compare_filter_carries_field_and_value() {
    let q = compile_single_compare(FirestoreQueryFilterCompare::Equal("age".to_string(), val(30)));
    match q.where_clause.unwrap().filter_type.unwrap() {
        FilterType::FieldFilter(ff) => {
            assert_eq!(ff.field.unwrap().field_path, "age");
            assert_eq!(ff.value.unwrap(), 30);
        }
        other => panic!("expected a field filter, got {:?}", other),
    }
}

#[test]
fn unary_filter_carries_field_operand() {
    let q = compile_single_unary(FirestoreQueryFilterUnary::IsNull("tag".to_string()));
    match q.where_clause.unwrap().filter_type.unwrap() {
        FilterType::UnaryFilter(uf) => {
            let UnaryOperandType::Field(f) = uf.operand_type.unwrap();
            assert_eq!(f.field_path, "tag");
        }
        other => panic!("expected a unary filter, got {:?}", other),
    }
}

#[test]
fn absent_comparison_compiles_to_empty_filter() {
    let w: Filter<i64> = FirestoreQueryFilter::Compare(None).to_structured_query_filter();
    assert!(w.filter_type.is_none());
}

#[test]
fn composite_of_only_absent_comparisons_is_empty() {
    let f: FirestoreQueryFilter<i64> =
        FirestoreQueryFilter::Composite(FirestoreQueryFilterComposite {
            for_all_filters: vec![
                FirestoreQueryFilter::Compare(None),
                FirestoreQueryFilter::Compare(None),
            ],
        });
    let w = f.to_structured_query_filter();
    assert!(w.filter_type.is_none());
}

#[test]
fn composite_with_no_children_is_empty() {
    let f: FirestoreQueryFilter<i64> =
        FirestoreQueryFilter::Composite(FirestoreQueryFilterComposite {
            for_all_filters: vec![],
        });
    let w = f.to_structured_query_filter();
    assert!(w.filter_type.is_none());
}

#[test]
fn composite_keeps_only_the_real_predicate() {
    let f = FirestoreQueryFilter::Composite(FirestoreQueryFilterComposite {
        for_all_filters: vec![
            FirestoreQueryFilter::Compare(None),
            FirestoreQueryFilter::Compare(Some(FirestoreQueryFilterCompare::Equal(
                "f".to_string(),
                val(9),
            ))),
            FirestoreQueryFilter::Compare(None),
        ],
    });
    let w = f.to_structured_query_filter();
    match w.filter_type.unwrap() {
        FilterType::CompositeFilter(cf) => {
            assert_eq!(cf.op, 1);
            assert_eq!(cf.filters.len(), 1);
            match cf.filters[0].filter_type.as_ref().unwrap() {
                FilterType::FieldFilter(ff) => assert_eq!(ff.op, 5),
                other => panic!("expected the kept field filter, got {:?}", other),
            }
        }
        other => panic!("expected a composite filter, got {:?}", other),
    }
}

#[test]
fn nested_composite_is_not_flattened() {
    let inner = FirestoreQueryFilter::Composite(FirestoreQueryFilterComposite {
        for_all_filters: vec![FirestoreQueryFilter::Compare(Some(
            FirestoreQueryFilterCompare::Equal("f".to_string(), val(1)),
        ))],
    });
    let outer = FirestoreQueryFilter::Composite(FirestoreQueryFilterComposite {
        for_all_filters: vec![inner],
    });
    let w = outer.to_structured_query_filter();
    match w.filter_type.unwrap() {
        FilterType::CompositeFilter(cf) => {
            assert_eq!(cf.filters.len(), 1);
            match cf.filters[0].filter_type.as_ref().unwrap() {
                FilterType::CompositeFilter(icf) => {
                    assert_eq!(icf.filters.len(), 1);
                    match icf.filters[0].filter_type.as_ref().unwrap() {
                        FilterType::FieldFilter(ff) => assert_eq!(ff.op, 5),
                        other => panic!("expected the leaf comparison, got {:?}", other),
                    }
                }
                other => panic!("expected the inner composite, got {:?}", other),
            }
        }
        other => panic!("expected the outer composite, got {:?}", other),
    }
}

#[test]
fn order_preserved_with_directions() {
    let q = Params::new(FirestoreQueryCollection::Single("c".to_string()))
        .with_order_by(vec![
            FirestoreQueryOrder::new("a".to_string(), FirestoreQueryDirection::Ascending),
            FirestoreQueryOrder::new("b".to_string(), FirestoreQueryDirection::Descending),
        ])
        .to_structured_query();
    assert_eq!(q.order_by.len(), 2);
    assert_eq!(q.order_by[0].field.as_ref().unwrap().field_path, "a");
    assert_eq!(q.order_by[0].direction, 1);
    assert_eq!(q.order_by[1].field.as_ref().unwrap().field_path, "b");
    assert_eq!(q.order_by[1].direction, 2);
}

#[test]
fn absent_order_compiles_to_empty_list() {
    let q = Params::new(FirestoreQueryCollection::Single("c".to_string())).to_structured_query();
    assert!(q.order_by.is_empty());
}

#[test]
fn default_offset_is_zero_and_limit_stays_absent() {
    let q = Params::new(FirestoreQueryCollection::Single("c".to_string())).to_structured_query();
    assert_eq!(q.offset, 0);
    assert_eq!(q.limit, None);
}

#[test]
fn set_offset_and_limit_pass_through() {
    let q = Params::new(FirestoreQueryCollection::Single("c".to_string()))
        .with_offset(7)
        .with_limit(40)
        .to_structured_query();
    assert_eq!(q.offset, 7);
    assert_eq!(q.limit, Some(40));
}

#[test]
fn group_selector_expands_in_order_with_flag() {
    let q = Params::new(FirestoreQueryCollection::Group(vec![
        "x".to_string(),
        "y".to_string(),
    ]))
    .with_all_descendants(true)
    .to_structured_query();
    assert_eq!(q.from.len(), 2);
    assert_eq!(q.from[0].collection_id, "x");
    assert!(q.from[0].all_descendants);
    assert_eq!(q.from[1].collection_id, "y");
    assert!(q.from[1].all_descendants);
}

#[test]
fn single_selector_yields_one_pair_without_flag() {
    let q = Params::new(FirestoreQueryCollection::Single("c".to_string())).to_structured_query();
    assert_eq!(q.from.len(), 1);
    assert_eq!(q.from[0].collection_id, "c");
    assert!(!q.from[0].all_descendants);
}

#[test]
fn duplicate_group_identifiers_are_kept() {
    let q = Params::new(FirestoreQueryCollection::Group(vec![
        "x".to_string(),
        "x".to_string(),
    ]))
    .to_structured_query();
    assert_eq!(q.from.len(), 2);
    assert_eq!(q.from[0].collection_id, "x");
    assert_eq!(q.from[1].collection_id, "x");
}

#[test]
fn single_selector_displays_as_identifier() {
    let c = FirestoreQueryCollection::Single("orders".to_string());
    assert_eq!(c.to_string(), "orders");
}

#[test]
fn group_selector_displays_comma_joined() {
    let c = FirestoreQueryCollection::Group(vec!["a".to_string(), "b".to_string()]);
    assert_eq!(c.to_string(), "a,b");
}

#[test]
fn selector_from_borrowed_identifier() {
    let c = FirestoreQueryCollection::single("users");
    assert_eq!(c, FirestoreQueryCollection::Single("users".to_string()));
}

#[test]
fn builder_starts_with_everything_unset() {
    let p = Params::new(FirestoreQueryCollection::Single("c".to_string()));
    assert_eq!(p.parent, None);
    assert_eq!(p.limit, None);
    assert_eq!(p.offset, None);
    assert_eq!(p.order_by, None);
    assert!(p.filter.is_none());
    assert_eq!(p.all_descendants, None);
}

#[test]
fn group_of_three_displays_with_two_commas() {
    let c = FirestoreQueryCollection::Group(vec![
        "a".to_string(),
        "b".to_string(),
        "c".to_string(),
    ]);
    assert_eq!(c.to_string(), "a,b,c");
}

#[test]
fn explicit_zero_limit_is_not_conflated_with_absent() {
    let q = Params::new(FirestoreQueryCollection::Single("c".to_string()))
        .with_limit(0)
        .to_structured_query();
    assert_eq!(q.limit, Some(0));
}
