use solrust::querybuilder::q::{
    boost_clause, constant_clause, Aggregation, FuzzyQueryOperand, PhraseQueryOperand,
    ProximityQueryOperand, QueryExpression, QueryOperand, RangeQueryOperand, SolrQueryExpression,
    SolrQueryOperandModel, StandardQueryOperand,
};

#[test]
fn test_query_operand_representation() {
    let q = StandardQueryOperand::new("name", "alice");
    assert_eq!(String::from("name:alice"), q.to_string());
}

#[test]
fn test_special_characters_should_escaped() {
    let q = StandardQueryOperand::new("text", r#"+ - && || ! ( ) { } [ ] ^ " ~ * ? : / AND OR"#);
    assert_eq!(
        String::from(r#"text:\+ \- \&& \|| \! \( \) \{ \} \[ \] \^ \" \~ \* \? \: \/ \AND \OR"#),
        q.to_string()
    );
}

#[test]
fn test_fuzzy_query_operand() {
    let q = FuzzyQueryOperand::new("name", "alice", 1);
    assert_eq!(String::from("name:alice~1"), q.to_string());
}

#[test]
fn test_proximity_query_operand() {
    let q = ProximityQueryOperand::new("name", "alice wonder", 2);
    assert_eq!(String::from(r#"name:"alice wonder"~2"#), q.to_string());
}

#[test]
fn test_phrase_query_operand() {
    let q = PhraseQueryOperand::new("name", "alice");
    assert_eq!(String::from(r#"name:"alice""#), q.to_string());
}

#[test]
fn test_range_query_with_default_parameter() {
    let q = RangeQueryOperand::new("age");
    assert_eq!(String::from("age:[* TO *}"), q.to_string())
}

#[test]
fn test_range_query_with_gt_parameter() {
    let q = RangeQueryOperand::new("age").gt(10.to_string());
    assert_eq!(String::from("age:{10 TO *}"), q.to_string())
}

#[test]
fn test_range_query_with_ge_parameter() {
    let q = RangeQueryOperand::new("age").ge(10.to_string());
    assert_eq!(String::from("age:[10 TO *}"), q.to_string())
}

#[test]
fn test_range_query_with_lt_parameter() {
    let q = RangeQueryOperand::new("age").lt(20.to_string());
    assert_eq!(String::from("age:[* TO 20}"), q.to_string())
}

#[test]
fn test_range_query_with_le_parameter() {
    let q = RangeQueryOperand::new("age").le(20.to_string());
    assert_eq!(String::from("age:[* TO 20]"), q.to_string())
}

#[test]
fn test_range_query() {
    let q = RangeQueryOperand::new("age").ge(10.to_string()).lt(20.to_string());
    assert_eq!(String::from("age:[10 TO 20}"), q.to_string())
}

#[test]
fn test_add_operands() {
    let op1 = QueryOperand::from("name:alice");
    let op2 = QueryOperand::from("age:24");
    let q = op1 + op2;
    assert_eq!(String::from("name:alice OR age:24"), q.to_string())
}

#[test]
fn test_mul_operands() {
    let op1 = QueryOperand::from("name:alice");
    let op2 = QueryOperand::from("age:24");
    let q = op1 * op2;
    assert_eq!(String::from("name:alice AND age:24"), q.to_string())
}

#[test]
fn test_add_operand_to_expression() {
    let op1 = QueryOperand::from("name:alice");
    let op2 = QueryOperand::from("name:bob");
    let op3 = QueryOperand::from("age:24");
    let q = (op1 * op2) + op3;
    assert_eq!(String::from("(name:alice AND name:bob) OR age:24"), q.to_string())
}

#[test]
fn test_add_expression_to_operand() {
    let op1 = QueryOperand::from("name:alice");
    let op2 = QueryOperand::from("name:bob");
    let op3 = QueryOperand::from("age:24");
    let q = op1 * (op2 + op3);
    assert_eq!(String::from("name:alice AND (name:bob OR age:24)"), q.to_string())
}

#[test]
fn test_add_expression_to_expression() {
    let op1 = QueryOperand::from("name:alice");
    let op2 = QueryOperand::from("age:24");
    let op3 = QueryOperand::from("name:bob");
    let op4 = QueryOperand::from("age:32");
    let q = (op1 * op2) + (op3 * op4);
    assert_eq!(
        String::from("(name:alice AND age:24) OR (name:bob AND age:32)"),
        q.to_string()
    )
}

#[test]
fn test_mul_expression_to_expression() {
    let op1 = QueryOperand::from("name:alice");
    let op2 = QueryOperand::from("name:bob");
    let op3 = QueryOperand::from("age:24");
    let op4 = QueryOperand::from("age:32");
    let q = (op1 + op2) * (op3 + op4);
    assert_eq!(
        String::from("(name:alice OR name:bob) AND (age:24 OR age:32)"),
        q.to_string()
    )
}

#[test]
fn test_extend_expression_with_add() {
    let op1 = QueryOperand::from("name:alice");
    let op2 = QueryOperand::from("name:bob");
    let op3 = QueryOperand::from("name:charles");
    let q = op1 + op2 + op3;
    assert_eq!(String::from("name:alice OR name:bob OR name:charles"), q.to_string())
}

#[test]
fn test_extend_expression_with_mul() {
    let op1 = QueryOperand::from("name:alice");
    let op2 = QueryOperand::from("name:bob");
    let op3 = QueryOperand::from("name:charles");
    let q = op1 * op2 * op3;
    assert_eq!(String::from("name:alice AND name:bob AND name:charles"), q.to_string())
}

#[test]
fn escape_each_reserved_token_alone() {
    let tokens = [
        "+", "-", "&&", "||", "!", "(", ")", "{", "}", "[", "]", "^", "\"", "~", "*", "?", ":",
        "/", "AND", "OR",
    ];
    for t in tokens {
        let q = StandardQueryOperand::new("f", &format!("x{}y", t));
        assert_eq!(q.to_string(), format!("f:x\\{}y", t));
    }
}

#[test]
fn escape_leaves_plain_text_and_lone_ampersand() {
    let q = StandardQueryOperand::new("title", "a & b | c and or");
    assert_eq!(q.to_string(), "title:a & b | c and or");
    let q = StandardQueryOperand::new("title", "&&&");
    assert_eq!(q.to_string(), "title:\\&&&");
}

#[test]
fn escape_applies_to_field_too() {
    let q = StandardQueryOperand::new("a:b", "c");
    assert_eq!(q.to_string(), "a\\:b:c");
    let q = StandardQueryOperand::new("", "");
    assert_eq!(q.to_string(), ":");
}

#[test]
fn range_with_gt_and_le() {
    let q = RangeQueryOperand::new("age").gt(10.to_string()).le(20.to_string());
    assert_eq!(q.to_string(), "age:{10 TO 20]");
}

#[test]
fn range_last_bound_call_wins() {
    let q = RangeQueryOperand::new("age").gt(1.to_string()).ge(5.to_string());
    assert_eq!(q.to_string(), "age:[5 TO *}");
}

#[test]
fn range_escapes_field_and_bounds() {
    let q = RangeQueryOperand::new("a-b").ge("-5".to_string()).lt("NOW/DAY".to_string());
    assert_eq!(q.to_string(), "a\\-b:[\\-5 TO NOW\\/DAY}");
}

#[test]
fn fuzzy_with_large_distance() {
    let q = FuzzyQueryOperand::new("name", "alice", 4294967295);
    assert_eq!(q.to_string(), "name:alice~4294967295");
    let q = ProximityQueryOperand::new("name", "a b", 0);
    assert_eq!(q.to_string(), "name:\"a b\"~0");
}

#[test]
fn weighted_clauses() {
    assert_eq!(boost_clause("name", "alice", "10"), "name:alice^10");
    assert_eq!(constant_clause("name", "alice", "0"), "name:alice^=0");
    assert_eq!(boost_clause("a", "b?", "1.5"), "a:b\\?^1.5");
}

#[test]
fn operand_converts_from_models() {
    let q = QueryOperand::from(StandardQueryOperand::new("text_ja", "高橋?"));
    assert_eq!(q.to_string(), "text_ja:高橋\\?");
    let q = QueryOperand::from(RangeQueryOperand::new("age").ge("3".to_string()));
    assert_eq!(q.0, "age:[3 TO *}");
    let q = QueryOperand::from(PhraseQueryOperand::new("t", "x y"));
    assert_eq!(q.0, "t:\"x y\"");
    let q = QueryOperand::from(FuzzyQueryOperand::new("t", "x", 2));
    assert_eq!(q.0, "t:x~2");
    let q = QueryOperand::from(ProximityQueryOperand::new("t", "x y", 3));
    assert_eq!(q.0, "t:\"x y\"~3");
}

#[test]
fn chain_grouped_right_is_flat() {
    let a = QueryOperand::from("a");
    let b = QueryOperand::from("b");
    let c = QueryOperand::from("c");
    assert_eq!((a + (b + c)).to_string(), "a OR b OR c");
    let a = QueryOperand::from("a");
    let b = QueryOperand::from("b");
    let c = QueryOperand::from("c");
    assert_eq!((a * (b * c)).to_string(), "a AND b AND c");
}

#[test]
fn mixed_expressions_keep_groups() {
    let left = QueryOperand::from("a") + QueryOperand::from("b");
    let right = QueryOperand::from("c") * QueryOperand::from("d");
    assert_eq!((left + right).to_string(), "(a OR b) OR (c AND d)");
    let left = QueryOperand::from("a") + QueryOperand::from("b");
    let right = QueryOperand::from("c") + QueryOperand::from("d");
    assert_eq!((left + right).to_string(), "a OR b OR c OR d");
    let left = QueryOperand::from("a") + QueryOperand::from("b");
    assert_eq!((left * QueryOperand::from("c")).to_string(), "(a OR b) AND c");
}

#[test]
fn sum_and_prod_of_operands() {
    let ops = vec![QueryOperand::from("a"), QueryOperand::from("b"), QueryOperand::from("c")];
    assert_eq!(QueryExpression::sum(ops).to_string(), "a OR b OR c");
    let ops = vec![QueryOperand::from("a"), QueryOperand::from("b")];
    assert_eq!(QueryExpression::prod(ops).to_string(), "a AND b");
    let ops: Vec<QueryOperand> = Vec::new();
    assert_eq!(QueryExpression::sum(ops).to_string(), "");
}

#[test]
fn sum_and_prod_of_expressions() {
    let e1 = QueryOperand::from("a") * QueryOperand::from("b");
    let e2 = QueryOperand::from("c") * QueryOperand::from("d");
    assert_eq!(QueryExpression::sum(vec![e1, e2]).to_string(), "(a AND b) OR (c AND d)");
    let e1 = QueryOperand::from("a") + QueryOperand::from("b");
    assert_eq!(QueryExpression::prod(vec![e1]).to_string(), "(a OR b)");
}
