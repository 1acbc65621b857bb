use change_stream::{
    build_event, cleanup, compute_diff, create_triggers_for_table, drop_trigger_statement,
    get_user_tables, image_expression, image_from_text, is_capture_trigger_name,
    is_user_table_name, is_valid_identifier, log_table_statement, parse_image, same_text,
    has_prefix, trigger_name_of, Action, ChangeEvent, Emitter, Field, InstrumentationError,
    LogEntry, Payload,
};

fn strings(v: &[&str]) -> Vec<String> {
    v.iter().map(|s| s.to_string()).collect()
}

fn entry(id: i64, action: &str, new_data: Option<&str>, old_data: Option<&str>) -> LogEntry {
    LogEntry {
        id,
        table_name: "items".to_string(),
        action: action.to_string(),
        row_id: Some(7),
        new_data: new_data.map(|s| s.to_string()),
        old_data: old_data.map(|s| s.to_string()),
        timestamp: "2024-01-01 00:00:00".to_string(),
    }
}

fn pairs(fields: &[Field]) -> Vec<(String, String)> {
    fields.iter().map(|f| (f.name.clone(), f.value.clone())).collect()
}

fn expect_images(ev: &ChangeEvent) -> (Option<Vec<(String, String)>>, Option<Vec<(String, String)>>) {
    match &ev.payload {
        Payload::Images { new_image, old_image } => (
            new_image.as_ref().map(|v| pairs(v)),
            old_image.as_ref().map(|v| pairs(v)),
        ),
        Payload::Changes { .. } => panic!("expected images"),
    }
}

#[test]
fn identifiers_follow_the_grammar() {
    assert!(is_valid_identifier("users"));
    assert!(is_valid_identifier("_t9"));
    assert!(is_valid_identifier("Order_Items"));
    assert!(!is_valid_identifier(""));
    assert!(!is_valid_identifier("9lives"));
    assert!(!is_valid_identifier("bad name"));
    assert!(!is_valid_identifier("t; DROP TABLE x"));
    assert!(!is_valid_identifier("a\"b"));
    assert!(!is_valid_identifier("caf\u{e9}"));
}

#[test]
fn text_comparisons() {
    assert!(same_text("abc", "abc"));
    assert!(!same_text("abc", "abd"));
    assert!(!same_text("abc", "ab"));
    assert!(has_prefix("sqlite_master", "sqlite_"));
    assert!(!has_prefix("sqlit", "sqlite_"));
    assert!(has_prefix("x", ""));
}

#[test]
fn log_table_ddl_is_guarded() {
    assert_eq!(
        log_table_statement(),
        "CREATE TABLE IF NOT EXISTS change_stream_log (id INTEGER PRIMARY KEY AUTOINCREMENT, table_name TEXT NOT NULL, action TEXT NOT NULL, rowid INTEGER, new_data TEXT, old_data TEXT, ts DATETIME DEFAULT CURRENT_TIMESTAMP);"
    );
}

#[test]
fn image_expression_lists_every_column() {
    let cols = strings(&["a", "b"]);
    assert_eq!(image_expression("NEW", &cols), "json_object('a', NEW.\"a\", 'b', NEW.\"b\")");
    assert_eq!(image_expression("OLD", &strings(&["id"])), "json_object('id', OLD.\"id\")");
    assert_eq!(image_expression("NEW", &Vec::new()), "json_object()");
}

#[test]
fn triggers_for_a_table() {
    let set = create_triggers_for_table("items", &strings(&["a", "b"])).unwrap();
    assert_eq!(
        set.on_insert,
        "CREATE TRIGGER IF NOT EXISTS \"change_stream_items_insert\" AFTER insert ON \"items\" FOR EACH ROW BEGIN INSERT INTO change_stream_log(table_name, action, rowid, new_data) VALUES ('items', 'insert', NEW.rowid, json_object('a', NEW.\"a\", 'b', NEW.\"b\")); END;"
    );
    assert_eq!(
        set.on_update,
        "CREATE TRIGGER IF NOT EXISTS \"change_stream_items_update\" AFTER update ON \"items\" FOR EACH ROW BEGIN INSERT INTO change_stream_log(table_name, action, rowid, new_data, old_data) VALUES ('items', 'update', NEW.rowid, json_object('a', NEW.\"a\", 'b', NEW.\"b\"), json_object('a', OLD.\"a\", 'b', OLD.\"b\")); END;"
    );
    assert_eq!(
        set.on_delete,
        "CREATE TRIGGER IF NOT EXISTS \"change_stream_items_delete\" AFTER delete ON \"items\" FOR EACH ROW BEGIN INSERT INTO change_stream_log(table_name, action, rowid, old_data) VALUES ('items', 'delete', OLD.rowid, json_object('a', OLD.\"a\", 'b', OLD.\"b\")); END;"
    );
}

#[test]
fn unsafe_names_are_refused() {
    assert_eq!(
        create_triggers_for_table("x; DROP TABLE y", &strings(&["a"])).err(),
        Some(InstrumentationError::BadTableName)
    );
    assert_eq!(
        create_triggers_for_table("items", &strings(&["a", "b'c"])).err(),
        Some(InstrumentationError::BadColumnName)
    );
    assert_eq!(
        create_triggers_for_table("bad table", &strings(&["b'c"])).err(),
        Some(InstrumentationError::BadTableName)
    );
}

#[test]
fn installing_twice_gives_the_same_guarded_statements() {
    let cols = strings(&["a", "b"]);
    let first = create_triggers_for_table("items", &cols).unwrap();
    let second = create_triggers_for_table("items", &cols).unwrap();
    assert_eq!(first.on_insert, second.on_insert);
    assert_eq!(first.on_update, second.on_update);
    assert_eq!(first.on_delete, second.on_delete);
    for s in [&first.on_insert, &first.on_update, &first.on_delete] {
        assert!(s.starts_with("CREATE TRIGGER IF NOT EXISTS "));
    }
    let names = [
        trigger_name_of("items", Action::Insert),
        trigger_name_of("items", Action::Update),
        trigger_name_of("items", Action::Delete),
        trigger_name_of("items_insert", Action::Update),
    ];
    for i in 0..names.len() {
        for j in 0..names.len() {
            assert_eq!(i == j, names[i] == names[j]);
        }
    }
}

#[test]
fn user_tables_skip_engine_and_log_tables() {
    let names = strings(&["users", "sqlite_sequence", "change_stream_log", "orders", "sqlite_stat1"]);
    assert_eq!(get_user_tables(&names), strings(&["users", "orders"]));
    assert!(is_user_table_name("change_stream_logs"));
    assert!(!is_user_table_name("change_stream_log"));
    assert!(get_user_tables(&Vec::new()).is_empty());
}

#[test]
fn cleanup_drops_log_and_capture_triggers_only() {
    let names = strings(&["change_stream_items_insert", "audit_trigger", "change_stream_items_delete"]);
    assert_eq!(
        cleanup(&names),
        strings(&[
            "DROP TABLE IF EXISTS change_stream_log;",
            "DROP TRIGGER IF EXISTS \"change_stream_items_insert\";",
            "DROP TRIGGER IF EXISTS \"change_stream_items_delete\";",
        ])
    );
    assert_eq!(cleanup(&Vec::new()), strings(&["DROP TABLE IF EXISTS change_stream_log;"]));
    assert!(!is_capture_trigger_name("change_stream_x\"; --"));
    assert_eq!(drop_trigger_statement("t"), "DROP TRIGGER IF EXISTS \"t\";");
}

#[test]
fn cleanup_after_install_removes_every_installed_trigger() {
    let mut catalog = strings(&["keep_me"]);
    for table in ["users", "orders"] {
        for action in [Action::Insert, Action::Update, Action::Delete] {
            catalog.push(trigger_name_of(table, action));
        }
    }
    let stmts = cleanup(&catalog);
    assert_eq!(stmts.len(), 7);
    assert_eq!(stmts[0], "DROP TABLE IF EXISTS change_stream_log;");
    for name in &catalog[1..] {
        assert!(stmts.contains(&format!("DROP TRIGGER IF EXISTS \"{}\";", name)));
    }
    assert!(!stmts.iter().any(|s| s.contains("keep_me")));
}

#[test]
fn parse_image_reads_json_objects() {
    let img = parse_image("{\"b\": \"x\", \"a\": 1}").unwrap();
    assert_eq!(pairs(&img), vec![("a".to_string(), "1".to_string()), ("b".to_string(), "\"x\"".to_string())]);
    assert!(parse_image("[1, 2]").is_none());
    assert!(parse_image("not json").is_none());
    assert!(image_from_text("{oops").is_empty());
}

#[test]
fn diff_reports_changed_fields_only() {
    let d = compute_diff("{\"a\":1,\"b\":\"y\"}", "{\"a\":1,\"b\":\"x\"}");
    assert_eq!(d.len(), 1);
    assert_eq!(d[0].name, "b");
    assert_eq!(d[0].old, Some("\"x\"".to_string()));
    assert_eq!(d[0].new, "\"y\"");
}

#[test]
fn diff_treats_missing_old_field_as_absent() {
    let d = compute_diff("{\"a\":1,\"c\":null}", "{\"a\":2}");
    assert_eq!(d.len(), 2);
    assert_eq!((d[0].name.as_str(), d[0].old.clone(), d[0].new.as_str()), ("a", Some("2".to_string()), "1"));
    assert_eq!((d[1].name.as_str(), d[1].old.clone(), d[1].new.as_str()), ("c", None, "null"));
}

#[test]
fn diff_of_malformed_image_is_empty() {
    assert!(compute_diff("garbage", "{\"a\":1}").is_empty());
    assert!(compute_diff("{\"a\":1}", "42").is_empty());
    assert!(compute_diff("{\"a\":1}", "{\"a\":1}").is_empty());
}

#[test]
fn insert_event_carries_new_image() {
    let ev = build_event(&entry(1, "insert", Some("{\"a\":1,\"b\":\"x\"}"), None));
    assert_eq!(ev.id, 1);
    assert_eq!(ev.table, "items");
    assert_eq!(ev.action, "insert");
    assert_eq!(ev.row_id, Some(7));
    assert_eq!(ev.timestamp, "2024-01-01 00:00:00");
    let (new_image, old_image) = expect_images(&ev);
    assert_eq!(new_image, Some(vec![("a".to_string(), "1".to_string()), ("b".to_string(), "\"x\"".to_string())]));
    assert_eq!(old_image, None);
}

#[test]
fn update_event_carries_changed_fields() {
    let ev = build_event(&entry(2, "update", Some("{\"a\":1,\"b\":\"y\"}"), Some("{\"a\":1,\"b\":\"x\"}")));
    assert_eq!(ev.action, "update");
    match &ev.payload {
        Payload::Changes { changed_fields } => {
            assert_eq!(changed_fields.len(), 1);
            assert_eq!(changed_fields[0].name, "b");
            assert_eq!(changed_fields[0].old, Some("\"x\"".to_string()));
            assert_eq!(changed_fields[0].new, "\"y\"");
        }
        Payload::Images { .. } => panic!("expected changes"),
    }
}

#[test]
fn delete_event_carries_old_image() {
    let ev = build_event(&entry(3, "delete", None, Some("{\"a\":1,\"b\":\"y\"}")));
    assert_eq!(ev.action, "delete");
    let (new_image, old_image) = expect_images(&ev);
    assert_eq!(new_image, None);
    assert_eq!(old_image, Some(vec![("a".to_string(), "1".to_string()), ("b".to_string(), "\"y\"".to_string())]));
}

#[test]
fn update_missing_an_image_carries_images() {
    let ev = build_event(&entry(4, "update", Some("{\"a\":1}"), None));
    let (new_image, old_image) = expect_images(&ev);
    assert_eq!(new_image, Some(vec![("a".to_string(), "1".to_string())]));
    assert_eq!(old_image, None);
}

#[test]
fn malformed_images_still_give_events() {
    let ev = build_event(&entry(5, "update", Some("{broken"), Some("{\"a\":1}")));
    match &ev.payload {
        Payload::Changes { changed_fields } => assert!(changed_fields.is_empty()),
        Payload::Images { .. } => panic!("expected changes"),
    }
    let ev = build_event(&entry(6, "insert", Some("not json"), None));
    let (new_image, old_image) = expect_images(&ev);
    assert_eq!(new_image, Some(vec![]));
    assert_eq!(old_image, None);
}

#[test]
fn emitter_cursor_advances_across_cycles() {
    let mut em = Emitter::new();
    assert_eq!(em.last_id, 0);
    let first = vec![
        entry(1, "insert", Some("{\"a\":1}"), None),
        entry(2, "update", Some("{\"a\":2}"), Some("{\"a\":1}")),
        entry(3, "delete", None, Some("{\"a\":2}")),
    ];
    let evs = em.poll_changes(&first);
    assert_eq!(evs.iter().map(|e| e.id).collect::<Vec<_>>(), vec![1, 2, 3]);
    assert_eq!(em.last_id, 3);

    let none = em.poll_changes(&Vec::new());
    assert!(none.is_empty());
    assert_eq!(em.last_id, 3);

    let second = vec![
        entry(2, "insert", Some("{}"), None),
        entry(4, "insert", Some("{}"), None),
        entry(4, "insert", Some("{}"), None),
        entry(6, "insert", Some("{}"), None),
        entry(5, "insert", Some("{}"), None),
    ];
    let evs = em.poll_changes(&second);
    assert_eq!(evs.iter().map(|e| e.id).collect::<Vec<_>>(), vec![4, 6]);
    assert_eq!(em.last_id, 6);
}

#[test]
fn action_words() {
    assert_eq!(Action::Insert.word(), "insert");
    assert_eq!(Action::Update.word(), "update");
    assert_eq!(Action::Delete.word(), "delete");
}
