use counter_worker::infra::persistent::counter_document::gql::MutationRoot;
use counter_worker::infra::persistent::counter_document::{current_count, modified_count, COUNT_KEY};

#[test]
fn fresh_document_reports_zero() {
    assert_eq!(current_count(None), 0);
}

#[test]
fn stored_count_is_reported() {
    assert_eq!(current_count(Some(7)), 7);
    assert_eq!(current_count(Some(-3)), -3);
    assert_eq!(current_count(Some(i32::MIN)), i32::MIN);
}

#[test]
fn modification_adds_value() {
    assert_eq!(modified_count(3, 4), 7);
    assert_eq!(modified_count(3, -10), -7);
    assert_eq!(modified_count(i32::MAX - 1, 1), i32::MAX);
    assert_eq!(modified_count(0, i32::MIN), i32::MIN);
}

#[test]
fn count_key_is_count() {
    assert_eq!(COUNT_KEY, "count");
}

#[test]
fn add_and_minus_amounts() {
    let root = MutationRoot;
    assert_eq!(root.add_counter(5), 5);
    assert_eq!(root.add_counter(-5), -5);
    assert_eq!(root.minus_counter(5), -5);
    assert_eq!(root.minus_counter(-5), 5);
    assert_eq!(root.minus_counter(i32::MAX), -i32::MAX);
}

#[test]
fn minus_undoes_add_on_a_document() {
    let root = MutationRoot;
    let start = current_count(Some(10));
    let added = modified_count(start, root.add_counter(25));
    assert_eq!(added, 35);
    let back = modified_count(added, root.minus_counter(25));
    assert_eq!(back, 10);
}

#[test]
fn add_undoes_minus_on_a_document() {
    let root = MutationRoot;
    let start = current_count(None);
    let lowered = modified_count(start, root.minus_counter(8));
    assert_eq!(lowered, -8);
    assert_eq!(modified_count(lowered, root.add_counter(8)), 0);
}
