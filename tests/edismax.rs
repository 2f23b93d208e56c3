use solrust::querybuilder::common::SolrCommonQueryBuilder;
use solrust::querybuilder::dismax::SolrDisMaxQueryBuilder;
use solrust::querybuilder::edismax::{EDisMaxQueryBuilder, SolrEDisMaxQueryBuilder};
use solrust::querybuilder::q::{Operator, QueryOperand, SolrQueryExpression};
use solrust::querybuilder::sort::SortOrderBuilder;

#[test]
fn edismax_test_q() {
    let q = QueryOperand::from("プログラミング Rust");
    let builder = EDisMaxQueryBuilder::new().q(q.to_string());
    let mut expected = vec![
        ("defType".to_string(), "edismax".to_string()),
        ("q".to_string(), "プログラミング Rust".to_string()),
    ];
    let mut actual = builder.build();
    expected.sort();
    actual.sort();
    assert_eq!(actual, expected);
}

#[test]
fn edismax_test_sample_query() {
    let q = QueryOperand::from("*:*");
    let sort = SortOrderBuilder::new().desc("score").asc("start_at");
    let builder = EDisMaxQueryBuilder::new()
        .q("すぬけ 耳".to_string())
        .qf("text_ja text_en")
        .op(Operator::AND)
        .wt("json")
        .sow(true)
        .boost("boost")
        .debug()
        .q_alt(&q)
        .sort(&sort)
        .fl("problem_title".to_string());
    let mut expected = vec![
        ("defType".to_string(), "edismax".to_string()),
        ("q".to_string(), "すぬけ 耳".to_string()),
        ("qf".to_string(), "text_ja text_en".to_string()),
        ("sow".to_string(), "true".to_string()),
        ("boost".to_string(), "boost".to_string()),
        ("q.op".to_string(), "AND".to_string()),
        ("wt".to_string(), "json".to_string()),
        ("debug".to_string(), "all".to_string()),
        ("debug.explain.structured".to_string(), "true".to_string()),
        ("q.alt".to_string(), "*:*".to_string()),
        ("sort".to_string(), "score desc,start_at asc".to_string()),
        ("fl".to_string(), "problem_title".to_string()),
    ];
    let mut actual = builder.build();
    expected.sort();
    actual.sort();
    assert_eq!(actual, expected);
}

#[test]
fn edismax_own_parameters() {
    let mut actual = EDisMaxQueryBuilder::new()
        .lowercase_operators(false)
        .pf2("a")
        .ps2(1)
        .pf3("b")
        .ps3(2)
        .stopwords(true)
        .uf("title -secret")
        .build();
    actual.sort();
    let mut expected = vec![
        ("defType".to_string(), "edismax".to_string()),
        ("lowercaseOperators".to_string(), "false".to_string()),
        ("pf2".to_string(), "a".to_string()),
        ("pf3".to_string(), "b".to_string()),
        ("ps2".to_string(), "1".to_string()),
        ("ps3".to_string(), "2".to_string()),
        ("stopwords".to_string(), "true".to_string()),
        ("uf".to_string(), "title -secret".to_string()),
    ];
    expected.sort();
    assert_eq!(actual, expected);
}
