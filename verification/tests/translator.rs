use crud_toy::repository::condition::{Condition, ConditionNode, ConditionValue, Operate};
use crud_toy::repository::mongo::{
    MongoDBConditionHandler, MongodbError, QueryDoc, QueryValue,
};

fn doc(entries: Vec<(&str, QueryValue)>) -> QueryDoc {
    QueryDoc { entries: entries.into_iter().map(|(k, v)| (k.to_string(), v)).collect() }
}

fn op_doc(op: &str, value: QueryValue) -> QueryValue {
    QueryValue::Document(doc(vec![(op, value)]))
}

#[test]
fn empty_condition_is_empty_document() {
    let d = MongoDBConditionHandler::transfer_condition(&Condition::Empty);
    assert_eq!(d, doc(vec![]));
}

#[test]
fn all_empty_complex_equals_empty_condition() {
    let c = Condition::Complex {
        and: Box::new(vec![]),
        or: Box::new(vec![]),
        nor: Box::new(vec![]),
    };
    let d = MongoDBConditionHandler::transfer_condition(&c);
    assert_eq!(d, MongoDBConditionHandler::transfer_condition(&Condition::Empty));
    assert_eq!(d.entries.len(), 0);
}

#[test]
fn operator_tokens() {
    let cases = vec![
        (Operate::Eq, "$eq"),
        (Operate::Ne, "$ne"),
        (Operate::Lt, "$lt"),
        (Operate::Le, "$lte"),
        (Operate::Gt, "$gt"),
        (Operate::Ge, "$gte"),
        (Operate::In, "$in"),
    ];
    for (op, token) in cases {
        let c = Condition::single("age".to_string(), op, ConditionValue::Int32Value(30));
        let d = MongoDBConditionHandler::transfer_condition(&c);
        assert_eq!(d, doc(vec![("age", op_doc(token, QueryValue::Int32(30)))]));
    }
}

#[test]
fn contains_wraps_string_in_match_anywhere_pattern() {
    let c = Condition::single(
        "name".to_string(),
        Operate::Contains,
        ConditionValue::StringValue("ana".to_string()),
    );
    let d = MongoDBConditionHandler::transfer_condition(&c);
    assert_eq!(
        d,
        doc(vec![("name", op_doc("$regex", QueryValue::Text(".*ana.*".to_string())))])
    );
}

#[test]
fn plain_string_is_not_wrapped() {
    let c = Condition::single(
        "name".to_string(),
        Operate::Eq,
        ConditionValue::StringValue("ana".to_string()),
    );
    let d = MongoDBConditionHandler::transfer_condition(&c);
    assert_eq!(d, doc(vec![("name", op_doc("$eq", QueryValue::Text("ana".to_string())))]));
}

#[test]
fn list_values_become_arrays() {
    let c = Condition::single(
        "tag".to_string(),
        Operate::In,
        ConditionValue::StringVecValue(vec!["a".to_string(), "b".to_string()]),
    );
    let d = MongoDBConditionHandler::transfer_condition(&c);
    assert_eq!(
        d,
        doc(vec![(
            "tag",
            op_doc(
                "$in",
                QueryValue::Array(vec![
                    QueryValue::Text("a".to_string()),
                    QueryValue::Text("b".to_string()),
                ]),
            ),
        )])
    );

    let c = Condition::single(
        "n".to_string(),
        Operate::In,
        ConditionValue::Int32VecValue(vec![1, 2, 3]),
    );
    let d = MongoDBConditionHandler::transfer_condition(&c);
    assert_eq!(
        d,
        doc(vec![(
            "n",
            op_doc(
                "$in",
                QueryValue::Array(vec![
                    QueryValue::Int32(1),
                    QueryValue::Int32(2),
                    QueryValue::Int32(3),
                ]),
            ),
        )])
    );

    let c = Condition::single(
        "n".to_string(),
        Operate::In,
        ConditionValue::Int64VecValue(vec![10, 20]),
    );
    let d = MongoDBConditionHandler::transfer_condition(&c);
    assert_eq!(
        d,
        doc(vec![(
            "n",
            op_doc(
                "$in",
                QueryValue::Array(vec![QueryValue::Int64(10), QueryValue::Int64(20)]),
            ),
        )])
    );
}

#[test]
fn scalar_values_map_structurally() {
    let c = Condition::single("ok".to_string(), Operate::Eq, ConditionValue::BooleanValue(true));
    let d = MongoDBConditionHandler::transfer_condition(&c);
    assert_eq!(d, doc(vec![("ok", op_doc("$eq", QueryValue::Boolean(true)))]));

    let c = Condition::single("big".to_string(), Operate::Ge, ConditionValue::Int64Value(1 << 40));
    let d = MongoDBConditionHandler::transfer_condition(&c);
    assert_eq!(d, doc(vec![("big", op_doc("$gte", QueryValue::Int64(1 << 40)))]));

    let c = Condition::single(
        "at".to_string(),
        Operate::Lt,
        ConditionValue::DateTimeValue(1_600_000_000),
    );
    let d = MongoDBConditionHandler::transfer_condition(&c);
    assert_eq!(d, doc(vec![("at", op_doc("$lt", QueryValue::DateTime(1_600_000_000)))]));
}

#[test]
fn complex_groups_keep_their_order_and_omit_empty_groups() {
    let leaf = |field: &str, n: i32| {
        Condition::single(field.to_string(), Operate::Eq, ConditionValue::Int32Value(n))
    };
    let c = Condition::Complex {
        and: Box::new(vec![leaf("a", 1), leaf("b", 2)]),
        or: Box::new(vec![]),
        nor: Box::new(vec![leaf("c", 3)]),
    };
    let d = MongoDBConditionHandler::transfer_condition(&c);
    assert_eq!(
        d,
        doc(vec![
            (
                "$and",
                QueryValue::Array(vec![
                    QueryValue::Document(doc(vec![("a", op_doc("$eq", QueryValue::Int32(1)))])),
                    QueryValue::Document(doc(vec![("b", op_doc("$eq", QueryValue::Int32(2)))])),
                ]),
            ),
            (
                "$nor",
                QueryValue::Array(vec![QueryValue::Document(doc(vec![(
                    "c",
                    op_doc("$eq", QueryValue::Int32(3)),
                )]))]),
            ),
        ])
    );
}

#[test]
fn nested_complex_conditions_translate_recursively() {
    let inner = Condition::Complex {
        and: Box::new(vec![]),
        or: Box::new(vec![
            Condition::single("x".to_string(), Operate::Eq, ConditionValue::Int32Value(1)),
        ]),
        nor: Box::new(vec![]),
    };
    let c = Condition::Complex {
        and: Box::new(vec![inner]),
        or: Box::new(vec![]),
        nor: Box::new(vec![]),
    };
    let d = MongoDBConditionHandler::transfer_condition(&c);
    assert_eq!(
        d,
        doc(vec![(
            "$and",
            QueryValue::Array(vec![QueryValue::Document(doc(vec![(
                "$or",
                QueryValue::Array(vec![QueryValue::Document(doc(vec![(
                    "x",
                    op_doc("$eq", QueryValue::Int32(1)),
                )]))]),
            )]))]),
        )])
    );
}

#[test]
fn builders_produce_flat_groups() {
    let c = Condition::and(vec![
        ("a".to_string(), Operate::Eq, ConditionValue::Int32Value(1)),
        ("b".to_string(), Operate::Gt, ConditionValue::Int32Value(2)),
    ]);
    let d = MongoDBConditionHandler::transfer_condition(&c);
    assert_eq!(
        d,
        doc(vec![(
            "$and",
            QueryValue::Array(vec![
                QueryValue::Document(doc(vec![("a", op_doc("$eq", QueryValue::Int32(1)))])),
                QueryValue::Document(doc(vec![("b", op_doc("$gt", QueryValue::Int32(2)))])),
            ]),
        )])
    );

    let c = Condition::or(vec![("a".to_string(), Operate::Eq, ConditionValue::Int32Value(1))]);
    match &c {
        Condition::Complex { and, or, nor } => {
            assert_eq!(and.len(), 0);
            assert_eq!(or.len(), 1);
            assert_eq!(nor.len(), 0);
        }
        _ => panic!("or builder must produce a complex condition"),
    }

    let c = Condition::nor(vec![("a".to_string(), Operate::Eq, ConditionValue::Int32Value(1))]);
    match &c {
        Condition::Complex { and, or, nor } => {
            assert_eq!(and.len(), 0);
            assert_eq!(or.len(), 0);
            assert_eq!(nor.len(), 1);
        }
        _ => panic!("nor builder must produce a complex condition"),
    }
}

#[test]
fn single_builder_wraps_one_leaf() {
    let c = Condition::single(
        "f".to_string(),
        Operate::Ne,
        ConditionValue::StringValue("v".to_string()),
    );
    match &c {
        Condition::Single(ConditionNode { field, operate, value }) => {
            assert_eq!(field, "f");
            assert!(matches!(operate, Operate::Ne));
            assert!(matches!(value, ConditionValue::StringValue(s) if s == "v"));
        }
        _ => panic!("single builder must produce a leaf"),
    }
}

#[test]
fn translation_is_pure() {
    let c = Condition::Complex {
        and: Box::new(vec![Condition::single(
            "a".to_string(),
            Operate::Contains,
            ConditionValue::StringValue("x".to_string()),
        )]),
        or: Box::new(vec![Condition::Empty]),
        nor: Box::new(vec![]),
    };
    let first = MongoDBConditionHandler::transfer_condition(&c);
    let second = MongoDBConditionHandler::transfer_condition(&c);
    assert_eq!(first, second);
}

#[test]
fn cloned_conditions_translate_identically() {
    let c = Condition::Complex {
        and: Box::new(vec![Condition::single(
            "a".to_string(),
            Operate::In,
            ConditionValue::StringVecValue(vec!["x".to_string()]),
        )]),
        or: Box::new(vec![Condition::Empty]),
        nor: Box::new(vec![]),
    };
    let copy = c.clone();
    assert_eq!(
        MongoDBConditionHandler::transfer_condition(&copy),
        MongoDBConditionHandler::transfer_condition(&c)
    );
}

#[test]
fn pagination_computes_skip_and_limit() {
    let (find, count) = MongoDBConditionHandler::transfer_page_options(
        &crud_toy::repository::condition::PageOption { page: 2, size: 10 },
    )
    .unwrap();
    assert_eq!(find.skip, 10);
    assert_eq!(find.limit, 10);
    assert_eq!(count.skip, 10);
    assert_eq!(count.limit, 10);

    let (find, count) = MongoDBConditionHandler::transfer_page_options(
        &crud_toy::repository::condition::PageOption { page: 1, size: 5 },
    )
    .unwrap();
    assert_eq!(find.skip, 0);
    assert_eq!(find.limit, 5);
    assert_eq!(count.skip, 0);
    assert_eq!(count.limit, 5);
}

#[test]
fn pagination_rejects_page_zero() {
    let r = MongoDBConditionHandler::transfer_page_options(
        &crud_toy::repository::condition::PageOption { page: 0, size: 10 },
    );
    assert_eq!(r, Err(MongodbError::InvalidArgumentError));
}
