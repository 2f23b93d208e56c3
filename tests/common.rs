use solrust::querybuilder::common::{CommonQueryBuilder, SolrCommonQueryBuilder};
use solrust::querybuilder::facet::{FieldFacetBuilder, FieldFacetSortOrder, RangeFacetBuilder};
use solrust::querybuilder::q::{Operator, QueryOperand};
use solrust::querybuilder::sort::SortOrderBuilder;

#[test]
fn test_with_no_params() {
    let builder = CommonQueryBuilder::new();
    assert!(builder.build().is_empty());
}

#[test]
fn test_w() {
    let sort = SortOrderBuilder::new().desc("score").asc("age");
    let builder = CommonQueryBuilder::new().sort(&sort);
    assert_eq!(
        builder.build(),
        vec![("sort".to_string(), "score desc,age asc".to_string())],
    );
}

#[test]
fn test_with_start() {
    let builder = CommonQueryBuilder::new().start(10);
    assert_eq!(builder.build(), vec![("start".to_string(), 10.to_string())],);
}

#[test]
fn test_with_rows() {
    let builder = CommonQueryBuilder::new().rows(50);
    assert_eq!(builder.build(), vec![("rows".to_string(), 50.to_string())]);
}

#[test]
fn test_with_fq() {
    let op = QueryOperand::from("name:alice");
    let builder = CommonQueryBuilder::new().fq(&op);
    assert_eq!(
        builder.build(),
        vec![("fq".to_string(), "name:alice".to_string())],
    );
}

#[test]
fn test_with_multiple_fq() {
    let builder = CommonQueryBuilder::new()
        .fq(&QueryOperand::from("name:alice"))
        .fq(&QueryOperand::from("age:24"));
    assert_eq!(
        builder.build(),
        vec![
            (String::from("fq"), String::from("name:alice")),
            (String::from("fq"), String::from("age:24"))
        ],
    );
}

#[test]
fn test_with_fl() {
    let builder = CommonQueryBuilder::new().fl(String::from("id,name"));
    assert_eq!(
        builder.build(),
        vec![(String::from("fl"), String::from("id,name")),],
    );
}

#[test]
fn test_q_op() {
    let builder = CommonQueryBuilder::new().op(Operator::AND);
    assert_eq!(
        builder.build(),
        vec![(String::from("q.op"), String::from("AND")),],
    )
}

#[test]
fn test_facet() {
    let facet = FieldFacetBuilder::new("gender").sort(FieldFacetSortOrder::Count);
    let builder = CommonQueryBuilder::new().facet(&facet);
    let mut expected = vec![
        (String::from("facet"), String::from("true")),
        (String::from("facet.field"), String::from("gender")),
        (String::from("f.gender.facet.sort"), String::from("count")),
    ];
    let mut actual = builder.build();
    expected.sort();
    actual.sort();
    assert_eq!(actual, expected);
}

#[test]
fn test_multiple_field_facet() {
    let facet1 = FieldFacetBuilder::new("gender").sort(FieldFacetSortOrder::Count);
    let facet2 = FieldFacetBuilder::new("prefecture").min_count(1);
    let builder = CommonQueryBuilder::new().facet(&facet1).facet(&facet2);
    let mut expected = vec![
        (String::from("facet"), String::from("true")),
        (String::from("facet.field"), String::from("gender")),
        (String::from("f.gender.facet.sort"), String::from("count")),
        (String::from("facet.field"), String::from("prefecture")),
        (String::from("f.prefecture.facet.mincount"), String::from("1")),
    ];
    let mut actual = builder.build();
    expected.sort();
    actual.sort();
    assert_eq!(actual, expected);
}

#[test]
fn test_debug() {
    let builder = CommonQueryBuilder::new().wt("json");
    assert_eq!(
        builder.build(),
        vec![("wt".to_string(), "json".to_string())]
    )
}

fn sorted(mut v: Vec<(String, String)>) -> Vec<(String, String)> {
    v.sort();
    v
}

#[test]
fn debug_twice_gives_two_pairs() {
    let once = sorted(CommonQueryBuilder::new().debug().build());
    let twice = sorted(CommonQueryBuilder::new().debug().debug().build());
    let expected = vec![
        ("debug".to_string(), "all".to_string()),
        ("debug.explain.structured".to_string(), "true".to_string()),
    ];
    assert_eq!(once, expected);
    assert_eq!(twice, expected);
}

#[test]
fn fq_three_times_in_call_order() {
    let built = CommonQueryBuilder::new()
        .fq(&QueryOperand::from("a"))
        .rows(5)
        .fq(&QueryOperand::from("b"))
        .fq(&QueryOperand::from("a"))
        .build();
    let fqs: Vec<String> = built
        .iter()
        .filter(|(k, _)| k == "fq")
        .map(|(_, v)| v.clone())
        .collect();
    assert_eq!(fqs, vec!["a".to_string(), "b".to_string(), "a".to_string()]);
    assert_eq!(built.len(), 4);
}

#[test]
fn fq_of_expression_renders_it() {
    let e = QueryOperand::from("a:1") * (QueryOperand::from("b:2") + QueryOperand::from("c:3"));
    let built = CommonQueryBuilder::new().fq(&e).build();
    assert_eq!(built, vec![("fq".to_string(), "a:1 AND (b:2 OR c:3)".to_string())]);
}

#[test]
fn single_parameters_last_write_wins() {
    let built = sorted(
        CommonQueryBuilder::new()
            .rows(1)
            .rows(2)
            .start(0)
            .op(Operator::AND)
            .op(Operator::OR)
            .wt("xml")
            .wt("json")
            .build(),
    );
    assert_eq!(
        built,
        vec![
            ("q.op".to_string(), "OR".to_string()),
            ("rows".to_string(), "2".to_string()),
            ("start".to_string(), "0".to_string()),
            ("wt".to_string(), "json".to_string()),
        ]
    );
}

#[test]
fn largest_rows_value() {
    let built = CommonQueryBuilder::new().rows(4294967295).build();
    assert_eq!(built, vec![("rows".to_string(), "4294967295".to_string())]);
}

#[test]
fn range_facet_keys_overwrite_but_field_facets_accumulate() {
    let r1 = RangeFacetBuilder::new("price", "0".to_string(), "10".to_string(), "5".to_string());
    let r2 = RangeFacetBuilder::new("size", "1".to_string(), "2".to_string(), "1".to_string());
    let f1 = FieldFacetBuilder::new("a");
    let f2 = FieldFacetBuilder::new("b");
    let built = CommonQueryBuilder::new()
        .facet(&f1)
        .facet(&r1)
        .facet(&f2)
        .facet(&r2)
        .build();
    let ranges: Vec<&String> = built.iter().filter(|(k, _)| k == "facet.range").map(|(_, v)| v).collect();
    assert_eq!(ranges, vec!["size"]);
    let fields: Vec<&String> = built.iter().filter(|(k, _)| k == "facet.field").map(|(_, v)| v).collect();
    assert_eq!(fields, vec!["a", "b"]);
    assert_eq!(built.len(), 1 + 1 + 3 + 3 + 2);
}

#[test]
fn sanitize_escapes() {
    let b = CommonQueryBuilder::new();
    assert_eq!(b.sanitize("C++ (x)"), "C\\+\\+ \\(x\\)");
    assert_eq!(b.sanitize("plain"), "plain");
}
