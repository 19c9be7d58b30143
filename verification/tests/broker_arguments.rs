use graphql_orm_ai::broker_arguments::{
    insert_broker_argument, parse_index, split_path, valid_broker_selection_path,
    valid_graphql_name, BrokerArgumentValue,
};
use graphql_orm_ai::error::AiError;

fn to_json(value: &BrokerArgumentValue) -> serde_json::Value {
    match value {
        BrokerArgumentValue::Null => serde_json::Value::Null,
        BrokerArgumentValue::Scalar(text) => serde_json::from_str(text).unwrap(),
        BrokerArgumentValue::Object(members) => {
            let mut map = serde_json::Map::new();
            for (key, child) in members {
                map.insert(key.clone(), to_json(child));
            }
            serde_json::Value::Object(map)
        }
        BrokerArgumentValue::Array(items) => serde_json::Value::Array(items.iter().map(to_json).collect()),
    }
}

fn scalar(text: &str) -> BrokerArgumentValue {
    BrokerArgumentValue::Scalar(text.to_owned())
}

#[test]
fn fixed_broker_argument_paths_build_closed_nested_inputs() {
    let mut value = BrokerArgumentValue::Object(Vec::new());
    let mut seen = Vec::new();
    insert_broker_argument(&mut value, "filter.and.0.status.eq", scalar("\"open\""), &mut seen)
        .expect("nested filter should be representable");
    insert_broker_argument(&mut value, "filter.and.1.priority.gte", scalar("2"), &mut seen)
        .expect("second bounded list item should be representable");
    let expected: serde_json::Value = serde_json::from_str(
        "{\"filter\":{\"and\":[{\"status\":{\"eq\":\"open\"}},{\"priority\":{\"gte\":2}}]}}",
    )
    .unwrap();
    assert_eq!(to_json(&value), expected);

    assert!(matches!(
        insert_broker_argument(&mut value, "filter.and.0.status.eq", scalar("\"closed\""), &mut seen),
        Err(AiError::InvalidInput(_))
    ));
    assert!(matches!(
        insert_broker_argument(&mut value, "filter.and.64.status.eq", scalar("\"closed\""), &mut seen),
        Err(AiError::InvalidInput(_))
    ));
    assert!(matches!(
        insert_broker_argument(
            &mut value,
            "filter.raw",
            BrokerArgumentValue::Object(vec![("sql".to_owned(), scalar("\"never\""))]),
            &mut seen,
        ),
        Err(AiError::InvalidInput(_))
    ));
}

#[test]
fn a_filled_leaf_is_never_overwritten_and_a_refused_leaf_changes_nothing() {
    let mut value = BrokerArgumentValue::Object(Vec::new());
    let mut seen = Vec::new();
    insert_broker_argument(&mut value, "limit", scalar("3"), &mut seen).unwrap();
    let before = to_json(&value);
    // A different spelling of the same slot is a new path but the slot is taken.
    assert!(insert_broker_argument(&mut value, "limit.0", scalar("1"), &mut seen).is_err());
    assert_eq!(to_json(&value), before);
    assert!(insert_broker_argument(&mut value, "list.+2", scalar("1"), &mut seen).is_ok());
    let list = &to_json(&value)["list"];
    assert_eq!(list, &serde_json::from_str::<serde_json::Value>("[null,null,1]").unwrap());
    assert!(insert_broker_argument(&mut value, "list.02", scalar("5"), &mut seen).is_err());
    assert!(insert_broker_argument(&mut value, "list.1", scalar("5"), &mut seen).is_ok());
    assert!(insert_broker_argument(&mut value, "0.bad", scalar("5"), &mut seen).is_err());
    assert!(insert_broker_argument(&mut value, "", scalar("5"), &mut seen).is_err());
    assert!(insert_broker_argument(&mut value, "a..b", scalar("5"), &mut seen).is_err());
    assert!(insert_broker_argument(&mut value, &"a".repeat(257), scalar("5"), &mut seen).is_err());
    assert!(insert_broker_argument(&mut value, "a.b.c.d.e.f.g.h.i.j.k.l.m", scalar("5"), &mut seen).is_err());
}

#[test]
fn names_paths_and_indexes_follow_their_grammar() {
    assert!(valid_graphql_name("_id"));
    assert!(valid_graphql_name("Status2"));
    assert!(!valid_graphql_name("2status"));
    assert!(!valid_graphql_name(""));
    assert!(!valid_graphql_name("stätus"));
    assert!(valid_broker_selection_path("job.owner.name"));
    assert!(!valid_broker_selection_path("job..name"));
    assert!(!valid_broker_selection_path("job.0"));
    assert!(!valid_broker_selection_path("a.b.c.d.e.f.g.h.i.j.k.l.m"));
    assert!(valid_broker_selection_path("a.b.c.d.e.f.g.h.i.j.k.l"));
    assert_eq!(split_path("a..b"), vec!["a".to_owned(), String::new(), "b".to_owned()]);
    assert_eq!(split_path(""), vec![String::new()]);
    assert_eq!(parse_index("+7"), Some(7));
    assert_eq!(parse_index("007"), Some(7));
    assert_eq!(parse_index("+"), None);
    assert_eq!(parse_index("-1"), None);
    assert_eq!(parse_index("99999999999999999999999"), None);
    assert_eq!(parse_index("18446744073709551615"), Some(usize::MAX));
}
