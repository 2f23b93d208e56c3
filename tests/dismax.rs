use solrust::querybuilder::common::SolrCommonQueryBuilder;
use solrust::querybuilder::dismax::{DisMaxQueryBuilder, SolrDisMaxQueryBuilder};
use solrust::querybuilder::q::{Operator, QueryOperand, SolrQueryExpression};
use solrust::querybuilder::sort::SortOrderBuilder;

#[test]
fn dismax_test_q() {
    let q = QueryOperand::from("プログラミング Rust");
    let builder = DisMaxQueryBuilder::new().q(q.to_string());
    let mut expected = vec![
        ("defType".to_string(), "dismax".to_string()),
        ("q".to_string(), "プログラミング Rust".to_string()),
    ];
    let mut actual = builder.build();
    expected.sort();
    actual.sort();
    assert_eq!(actual, expected);
}

#[test]
fn test_sanitized_q() {
    let q = QueryOperand::from("Programming C++");
    let builder = DisMaxQueryBuilder::new().q(q.to_string());
    let mut expected = vec![
        ("defType".to_string(), "dismax".to_string()),
        ("q".to_string(), "Programming C\\+\\+".to_string()),
    ];
    let mut actual = builder.build();
    expected.sort();
    actual.sort();
    assert_eq!(actual, expected);
}

#[test]
fn test_qf() {
    let q = QueryOperand::from("プログラミング Rust");
    let builder = DisMaxQueryBuilder::new().q(q.to_string()).qf("title text");
    let mut expected = vec![
        ("defType".to_string(), "dismax".to_string()),
        ("q".to_string(), "プログラミング Rust".to_string()),
        ("qf".to_string(), "title text".to_string()),
    ];
    let mut actual = builder.build();
    expected.sort();
    actual.sort();
    assert_eq!(actual, expected);
}

#[test]
fn dismax_test_sample_query() {
    let q = QueryOperand::from("*:*");
    let sort = SortOrderBuilder::new().desc("score").asc("start_at");
    let builder = DisMaxQueryBuilder::new()
        .q("すぬけ 耳".to_string())
        .qf("text_ja")
        .op(Operator::AND)
        .wt("json")
        .debug()
        .q_alt(&q)
        .sort(&sort)
        .fl("problem_title".to_string());
    let mut expected = vec![
        ("defType".to_string(), "dismax".to_string()),
        ("q".to_string(), "すぬけ 耳".to_string()),
        ("qf".to_string(), "text_ja".to_string()),
        ("q.op".to_string(), "AND".to_string()),
        ("wt".to_string(), "json".to_string()),
        ("debug".to_string(), "all".to_string()),
        ("debug.explain.structured".to_string(), "true".to_string()),
        ("q.alt".to_string(), "*:*".to_string()),
        ("sort".to_string(), "score desc,start_at asc".to_string()),
        ("fl".to_string(), "problem_title".to_string()),
    ];
    let mut actual = builder.build();
    expected.sort();
    actual.sort();
    assert_eq!(actual, expected);
}

#[test]
fn dismax_boosts_accumulate() {
    let mut actual = DisMaxQueryBuilder::new()
        .bq(&QueryOperand::from("cat:a^2"))
        .bf("recip(x)")
        .bq(&QueryOperand::from("cat:b"))
        .bf("log(y)")
        .qs(3)
        .ps(0)
        .pf("title")
        .mm("2<-1")
        .tie("0.1")
        .build();
    actual.sort();
    let mut expected = vec![
        ("bf".to_string(), "log(y)".to_string()),
        ("bf".to_string(), "recip(x)".to_string()),
        ("bq".to_string(), "cat:a^2".to_string()),
        ("bq".to_string(), "cat:b".to_string()),
        ("defType".to_string(), "dismax".to_string()),
        ("mm".to_string(), "2<-1".to_string()),
        ("pf".to_string(), "title".to_string()),
        ("ps".to_string(), "0".to_string()),
        ("qs".to_string(), "3".to_string()),
        ("tie".to_string(), "0.1".to_string()),
    ];
    expected.sort();
    assert_eq!(actual, expected);
}

#[test]
fn dismax_boost_queries_keep_call_order() {
    let built = DisMaxQueryBuilder::new()
        .bq(&QueryOperand::from("z"))
        .bq(&QueryOperand::from("a"))
        .build();
    let bqs: Vec<&String> = built.iter().filter(|(k, _)| k == "bq").map(|(_, v)| v).collect();
    assert_eq!(bqs, vec!["z", "a"]);
}
