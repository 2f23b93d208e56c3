use solrust::querybuilder::common::SolrCommonQueryBuilder;
use solrust::querybuilder::facet::{FieldFacetBuilder, RangeFacetBuilder};
use solrust::querybuilder::q::{Operator, QueryOperand, StandardQueryOperand};
use solrust::querybuilder::sort::SortOrderBuilder;
use solrust::querybuilder::standard::{SolrStandardQueryBuilder, StandardQueryBuilder};

#[test]
fn test_with_q() {
    let q = QueryOperand::from("text_ja:hoge");
    let builder = StandardQueryBuilder::new().q(&q);
    assert_eq!(
        vec![("q".to_string(), "text_ja:hoge".to_string())],
        builder.build()
    );
}

#[test]
fn standard_test_sample_query() {
    let q = QueryOperand::from(StandardQueryOperand::new("text_ja", "高橋?"));
    let sort = SortOrderBuilder::new().desc("score").desc("difficulty");
    let facet1 = FieldFacetBuilder::new("category");
    let facet2 = RangeFacetBuilder::new(
        "difficulty",
        0.to_string(),
        2000.to_string(),
        400.to_string(),
    );
    let builder = StandardQueryBuilder::new()
        .q(&q)
        .op(Operator::AND)
        .sow(true)
        .df("text_ja")
        .sort(&sort)
        .facet(&facet1)
        .facet(&facet2);

    let mut expected = vec![
        ("q".to_string(), r#"text_ja:高橋\?"#.to_string()),
        ("df".to_string(), "text_ja".to_string()),
        ("q.op".to_string(), "AND".to_string()),
        ("sow".to_string(), "true".to_string()),
        ("sort".to_string(), "score desc,difficulty desc".to_string()),
        ("facet".to_string(), "true".to_string()),
        ("facet.field".to_string(), "category".to_string()),
        ("facet.range".to_string(), "difficulty".to_string()),
        ("f.difficulty.facet.range.start".to_string(), "0".to_string()),
        ("f.difficulty.facet.range.end".to_string(), "2000".to_string()),
        ("f.difficulty.facet.range.gap".to_string(), "400".to_string()),
    ];
    expected.sort();
    let mut actual = builder.build();
    actual.sort();
    assert_eq!(actual, expected);
}

#[test]
fn standard_q_is_taken_verbatim() {
    let q = QueryOperand::from("a:(b OR c)");
    let built = StandardQueryBuilder::new().q(&q).sow(false).build();
    let mut built = built;
    built.sort();
    assert_eq!(
        built,
        vec![
            ("q".to_string(), "a:(b OR c)".to_string()),
            ("sow".to_string(), "false".to_string()),
        ]
    );
}
