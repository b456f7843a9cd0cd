use delta_txn::mapping::{
    map_action, map_actions, map_commit_operation, map_data_change, map_engine_info,
    map_metadata, map_optional_string_map, map_string_map, map_user_metadata, Action,
    ActionError, ActionFault, WireAction, WireActionKind, WireAdd, WireCommitInfo, WireProtocol, WireRemove,
    WireTableMetadata, DATA_CHANGE_TRUE,
};

fn pairs(items: &[(&str, &str)]) -> Vec<(String, String)> {
    items.iter().map(|(k, v)| (k.to_string(), v.to_string())).collect()
}

fn add(path: &str, data_change: i32) -> WireAction {
    WireAction {
        action: Some(WireActionKind::Add(WireAdd {
            path: path.to_string(),
            size: 1024,
            modification_time: 1_700_000_000_000,
            partition_values: pairs(&[("date", "2024-01-01")]),
            data_change,
            tags: vec![],
        })),
    }
}

fn remove(path: &str, data_change: i32) -> WireAction {
    WireAction {
        action: Some(WireActionKind::Remove(WireRemove {
            path: path.to_string(),
            deletion_timestamp: Some(42),
            data_change,
        })),
    }
}

#[test]
fn data_change_tri_state() {
    assert!(map_data_change(DATA_CHANGE_TRUE));
    assert!(!map_data_change(0));
    assert!(!map_data_change(2));
    assert!(!map_data_change(-7));
}

#[test]
fn string_map_values_become_present() {
    let r = map_string_map(pairs(&[("a", "1"), ("b", "2")]));
    assert_eq!(
        r,
        vec![("a".to_string(), Some("1".to_string())), ("b".to_string(), Some("2".to_string()))]
    );
    assert!(map_string_map(vec![]).is_empty());
}

#[test]
fn optional_string_map_empty_is_none() {
    assert!(map_optional_string_map(vec![]).is_none());
    let r = map_optional_string_map(pairs(&[("k", "v")])).unwrap();
    assert_eq!(r, vec![("k".to_string(), Some("v".to_string()))]);
}

#[test]
fn engine_info_combinations() {
    assert_eq!(map_engine_info(String::new(), String::new()), None);
    assert_eq!(map_engine_info("spark".to_string(), String::new()), Some("spark".to_string()));
    assert_eq!(map_engine_info(String::new(), "3.5".to_string()), Some("3.5".to_string()));
    assert_eq!(
        map_engine_info("spark".to_string(), "3.5".to_string()),
        Some("spark/3.5".to_string())
    );
}

#[test]
fn commit_operation_names() {
    assert_eq!(map_commit_operation(0), None);
    assert_eq!(map_commit_operation(1).as_deref(), Some("WRITE"));
    assert_eq!(map_commit_operation(2).as_deref(), Some("MERGE"));
    assert_eq!(map_commit_operation(3).as_deref(), Some("UPDATE"));
    assert_eq!(map_commit_operation(4).as_deref(), Some("DELETE"));
    assert_eq!(map_commit_operation(5).as_deref(), Some("OPTIMIZE"));
    assert_eq!(map_commit_operation(6).as_deref(), Some("VACUUM"));
    assert_eq!(map_commit_operation(7).as_deref(), Some("RESTORE"));
    assert_eq!(map_commit_operation(8).as_deref(), Some("CONVERT"));
    assert_eq!(map_commit_operation(99), None);
}

#[test]
fn user_metadata_is_json_text() {
    assert_eq!(map_user_metadata(vec![]), None);
    let r = map_user_metadata(pairs(&[("owner", "etl")]));
    assert_eq!(r.as_deref(), Some("{\"owner\":\"etl\"}"));
    let r = map_user_metadata(pairs(&[("b", "2"), ("a", "1")]));
    assert_eq!(r.as_deref(), Some("{\"a\":\"1\",\"b\":\"2\"}"));
}

#[test]
fn add_translates_field_for_field() {
    match map_action(add("part-0.parquet", DATA_CHANGE_TRUE)) {
        Ok(Action::Add(a)) => {
            assert_eq!(a.path, "part-0.parquet");
            assert_eq!(a.size, 1024);
            assert_eq!(a.modification_time, 1_700_000_000_000);
            assert_eq!(
                a.partition_values,
                vec![("date".to_string(), Some("2024-01-01".to_string()))]
            );
            assert!(a.data_change);
            assert!(a.tags.is_none());
        }
        _ => panic!("expected an add action"),
    }
    match map_action(add("part-1.parquet", 0)) {
        Ok(Action::Add(a)) => assert!(!a.data_change),
        _ => panic!("expected an add action"),
    }
}

#[test]
fn remove_translates_field_for_field() {
    match map_action(remove("part-0.parquet", DATA_CHANGE_TRUE)) {
        Ok(Action::Remove(r)) => {
            assert_eq!(r.path, "part-0.parquet");
            assert_eq!(r.deletion_timestamp, Some(42));
            assert!(r.data_change);
        }
        _ => panic!("expected a remove action"),
    }
    match map_action(remove("part-0.parquet", 2)) {
        Ok(Action::Remove(r)) => assert!(!r.data_change),
        _ => panic!("expected a remove action"),
    }
}

#[test]
fn add_without_path_is_refused() {
    assert!(matches!(map_action(add("", DATA_CHANGE_TRUE)), Err(ActionFault::MissingAddPath)));
    assert!(matches!(
        map_action(remove("", DATA_CHANGE_TRUE)),
        Err(ActionFault::MissingRemovePath)
    ));
    assert!(matches!(map_action(WireAction { action: None }), Err(ActionFault::MissingAction)));
}

#[test]
fn metadata_empty_fields_become_absent() {
    let m = map_metadata(WireTableMetadata {
        id: "id-1".to_string(),
        name: String::new(),
        description: "events".to_string(),
        schema_string: "{}".to_string(),
        partition_columns: vec!["date".to_string()],
        configuration: vec![],
        created_time: 0,
    });
    assert_eq!(m.id, "id-1");
    assert_eq!(m.name, None);
    assert_eq!(m.description.as_deref(), Some("events"));
    assert_eq!(m.created_time, None);
    assert_eq!(m.partition_columns, vec!["date".to_string()]);
}

#[test]
fn commit_info_translates() {
    let r = map_action(WireAction {
        action: Some(WireActionKind::CommitInfo(WireCommitInfo {
            operation: 1,
            operation_parameters: pairs(&[("mode", "Append")]),
            user_metadata: pairs(&[("job", "nightly")]),
            engine_name: "svc".to_string(),
            engine_version: "1.0".to_string(),
            timestamp: 5,
        })),
    });
    match r {
        Ok(Action::CommitInfo(c)) => {
            assert_eq!(c.timestamp, Some(5));
            assert_eq!(c.operation.as_deref(), Some("WRITE"));
            assert_eq!(c.operation_parameters, Some(pairs(&[("mode", "Append")])));
            assert_eq!(c.engine_info.as_deref(), Some("svc/1.0"));
            assert_eq!(c.user_metadata.as_deref(), Some("{\"job\":\"nightly\"}"));
        }
        _ => panic!("expected commit info"),
    }
}

#[test]
fn batch_keeps_order_and_stops_at_first_invalid() {
    let ok = map_actions(vec![
        add("a", DATA_CHANGE_TRUE),
        remove("b", 0),
        WireAction {
            action: Some(WireActionKind::Protocol(WireProtocol {
                min_reader_version: 1,
                min_writer_version: 2,
            })),
        },
    ])
    .unwrap();
    assert_eq!(ok.len(), 3);
    assert!(matches!(&ok[0], Action::Add(a) if a.path == "a"));
    assert!(matches!(&ok[1], Action::Remove(r) if r.path == "b"));
    assert!(matches!(&ok[2], Action::Protocol(p) if p.min_reader_version == 1 && p.min_writer_version == 2));
    let bad = map_actions(vec![add("a", 1), add("", 1), WireAction { action: None }]);
    assert_eq!(bad.err(), Some(ActionError { index: 1, fault: ActionFault::MissingAddPath }));
    let bad = map_actions(vec![remove("r", 1), WireAction { action: None }, add("", 1)]);
    assert_eq!(bad.err(), Some(ActionError { index: 1, fault: ActionFault::MissingAction }));
    assert!(map_actions(vec![]).unwrap().is_empty());
}
