use solrust::types::response::{pair_counts, FacetValue};

#[test]
fn pairs_labels_with_counts() {
    let values = vec![
        FacetValue::Text("a".to_string()),
        FacetValue::Count(3),
        FacetValue::Text("b".to_string()),
        FacetValue::Count(0),
    ];
    assert_eq!(pair_counts(&values), vec![("a".to_string(), 3), ("b".to_string(), 0)]);
}

#[test]
fn odd_trailing_element_is_dropped() {
    let values = vec![
        FacetValue::Text("a".to_string()),
        FacetValue::Count(1),
        FacetValue::Text("b".to_string()),
    ];
    assert_eq!(pair_counts(&values), vec![("a".to_string(), 1)]);
    assert!(pair_counts(&Vec::new()).is_empty());
}

#[test]
fn unreadable_elements_give_defaults() {
    let values = vec![
        FacetValue::Count(7),
        FacetValue::Text("x".to_string()),
        FacetValue::Other,
        FacetValue::Other,
        FacetValue::Text("big".to_string()),
        FacetValue::Count(4294967296 + 5),
    ];
    assert_eq!(
        pair_counts(&values),
        vec![("".to_string(), 0), ("".to_string(), 0), ("big".to_string(), 5)]
    );
}
