use solrust::querybuilder::sort::SortOrderBuilder;

#[test]
fn test_build_sort_order() {
    let sort = SortOrderBuilder::new().desc("score").asc("name").build();
    assert_eq!(String::from("score desc,name asc"), sort);
}

#[test]
fn sort_keeps_order_and_duplicates() {
    assert_eq!(SortOrderBuilder::new().desc("score").asc("age").build(), "score desc,age asc");
    assert_eq!(SortOrderBuilder::new().build(), "");
    assert_eq!(SortOrderBuilder::new().asc("a").asc("a").build(), "a asc,a asc");
}
