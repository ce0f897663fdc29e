use counter_worker::domains::counter::Counter;
use counter_worker::infra::persistent::counter_adapter::gql::GetCounter;
use counter_worker::infra::persistent::counter_adapter::{
    counter_from_graph_reply, counter_from_payload, mutation_outcome, RepositoryError, COUNTER_BINDING,
};
use counter_worker::infra::persistent::counter_document::restful::Payload;
use counter_worker::integration::{body_kind_for, response_body_kind, BodyKind, GRAPHQL_ROUTE};
use counter_worker::server::gql::MutationRoot;

#[test]
fn counter_from_count_reply() {
    let c: Counter = counter_from_payload(String::from("visits"), Payload { data: 12 });
    assert_eq!(c.name, "visits");
    assert_eq!(c.count, 12);
}

#[test]
fn acknowledged_mutation_succeeds() {
    assert!(mutation_outcome(Payload { data: true }).is_ok());
}

#[test]
fn declined_mutation_is_unable_to_mutate() {
    let r = mutation_outcome(Payload { data: false });
    assert!(matches!(r, Err(RepositoryError::UnableToMutate)));
    assert_eq!(r.unwrap_err().message(), "unable to mutate");
}

#[test]
fn graph_reply_with_data() {
    let c = counter_from_graph_reply(String::from("a"), None, Some(41)).unwrap();
    assert_eq!(c.name, "a");
    assert_eq!(c.count, 41);
}

#[test]
fn graph_reply_count_is_truncated() {
    let c = counter_from_graph_reply(String::from("a"), None, Some(4294967297)).unwrap();
    assert_eq!(c.count, 1);
    let d = counter_from_graph_reply(String::from("a"), None, Some(-1)).unwrap();
    assert_eq!(d.count, -1);
    let e = counter_from_graph_reply(String::from("a"), None, Some(2147483648)).unwrap();
    assert_eq!(e.count, i32::MIN);
}

#[test]
fn graph_reply_errors_win_over_data() {
    let r = counter_from_graph_reply(String::from("a"), Some(String::from("[{\"message\":\"boom\"}]")), Some(3));
    match r {
        Err(RepositoryError::GraphErrors(m)) => assert_eq!(m, "[{\"message\":\"boom\"}]"),
        _ => panic!("expected the reply's errors"),
    }
}

#[test]
fn graph_reply_without_data_is_missing_data() {
    let r = counter_from_graph_reply(String::from("a"), None, None);
    assert!(matches!(r, Err(RepositoryError::MissingData)));
    assert_eq!(r.unwrap_err().message(), "missing data");
}

#[test]
fn graph_errors_message_is_their_text() {
    assert_eq!(RepositoryError::GraphErrors(String::from("e1")).message(), "e1");
}

#[test]
fn get_counter_query_text() {
    assert_eq!(GetCounter::operation_name(), "GetCounter");
    assert_eq!(GetCounter::query(), "query GetCounter {\n  counter {\n    count\n  }\n}\n");
}

#[test]
fn binding_and_route_names() {
    assert_eq!(COUNTER_BINDING, "COUNTER");
    assert_eq!(GRAPHQL_ROUTE, "/graphql");
}

#[test]
fn mutate_count_reply_reports_success() {
    let root = MutationRoot;
    let ok: Result<(), RepositoryError> = Ok(());
    let err: Result<(), RepositoryError> = Err(RepositoryError::UnableToMutate);
    assert!(root.mutate_count(&ok));
    assert!(!root.mutate_count(&err));
}

#[test]
fn json_bodies_are_carried_as_json() {
    assert_eq!(response_body_kind(b"{\"data\":{\"counter\":{\"count\":3}}}"), BodyKind::Json);
    assert_eq!(response_body_kind(b" 42 "), BodyKind::Json);
    assert_eq!(response_body_kind(b"null"), BodyKind::Json);
}

#[test]
fn other_bodies_are_carried_raw() {
    assert_eq!(response_body_kind(b"<html></html>"), BodyKind::Raw);
    assert_eq!(response_body_kind(b""), BodyKind::Raw);
    assert_eq!(response_body_kind(b"[1, 2] trailing"), BodyKind::Raw);
}

#[test]
fn body_kind_follows_parse_outcome() {
    assert_eq!(body_kind_for(true), BodyKind::Json);
    assert_eq!(body_kind_for(false), BodyKind::Raw);
}
