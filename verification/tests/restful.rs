use counter_worker::infra::persistent::counter_document::restful::{Commands, Payload, QueryError};
use counter_worker::text::{i32_to_decimal, replace_all_text};

#[test]
fn handler_paths_of_each_command() {
    assert_eq!(Commands::GetCount.handler_path(), "/count");
    assert_eq!(Commands::GetName.handler_path(), "/name");
    assert_eq!(Commands::MutateCount(None).handler_path(), "/count/mutate/:value");
    assert_eq!(Commands::MutateCount(Some(3)).handler_path(), "/count/mutate/:value");
}

#[test]
fn query_strings_of_commands_without_value() {
    assert_eq!(Commands::GetCount.query_string(), Ok(String::from("/count")));
    assert_eq!(Commands::GetName.query_string(), Ok(String::from("/name")));
}

#[test]
fn query_string_of_mutation_carries_value() {
    assert_eq!(Commands::MutateCount(Some(5)).query_string(), Ok(String::from("/count/mutate/5")));
    assert_eq!(Commands::MutateCount(Some(0)).query_string(), Ok(String::from("/count/mutate/0")));
    assert_eq!(Commands::MutateCount(Some(-42)).query_string(), Ok(String::from("/count/mutate/-42")));
    assert_eq!(
        Commands::MutateCount(Some(i32::MAX)).query_string(),
        Ok(String::from("/count/mutate/2147483647"))
    );
    assert_eq!(
        Commands::MutateCount(Some(i32::MIN)).query_string(),
        Ok(String::from("/count/mutate/-2147483648"))
    );
}

#[test]
fn query_string_of_mutation_without_value_is_missing_value() {
    assert_eq!(Commands::MutateCount(None).query_string(), Err(QueryError::MissingValue));
}

#[test]
fn mutate_path_value_reads_back() {
    for v in [-1000, -7, -1, 0, 1, 9, 10, 99, 100, 123456, i32::MAX, i32::MIN] {
        let path = Commands::MutateCount(Some(v)).query_string().unwrap();
        let rest = path.strip_prefix("/count/mutate/").unwrap();
        assert_eq!(rest.parse::<i32>().unwrap(), v);
    }
}

#[test]
fn distinct_amounts_give_distinct_paths() {
    let a = Commands::MutateCount(Some(12)).query_string().unwrap();
    let b = Commands::MutateCount(Some(-12)).query_string().unwrap();
    let c = Commands::MutateCount(Some(120)).query_string().unwrap();
    assert_ne!(a, b);
    assert_ne!(a, c);
    assert_ne!(b, c);
}

#[test]
fn query_error_message_text() {
    assert_eq!(QueryError::MissingValue.message(), "missing input value");
}

#[test]
fn payload_holds_data() {
    let p = Payload { data: 17 };
    assert_eq!(p.data, 17);
}

#[test]
fn decimal_matches_display() {
    for v in [i32::MIN, i32::MIN + 1, -100, -10, -9, -1, 0, 1, 9, 10, 11, 100, 65535, i32::MAX - 1, i32::MAX] {
        assert_eq!(i32_to_decimal(v), v.to_string());
    }
}

#[test]
fn replace_all_occurrences() {
    assert_eq!(replace_all_text("a:valueb:value", ":value", "X"), "aXbX");
    assert_eq!(replace_all_text("no placeholder", ":value", "X"), "no placeholder");
    assert_eq!(replace_all_text("", ":value", "X"), "");
    assert_eq!(replace_all_text(":value", ":value", ""), "");
}

#[test]
fn replace_scans_left_to_right_without_overlap() {
    assert_eq!(replace_all_text("aaa", "aa", "b"), "aaa".replace("aa", "b"));
    assert_eq!(replace_all_text("aaaa", "aa", "b"), "bb");
    assert_eq!(replace_all_text("éa:valueé", ":value", "ü"), "éaüé");
    assert_eq!(replace_all_text("::value", ":value", "1"), "::value".replace(":value", "1"));
}
