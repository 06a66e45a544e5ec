use oxide_agent::tool_permissions::GlobalToolPermissions;

#[test]
fn stored_permissions_are_read_back() {
    let p = GlobalToolPermissions::from_json_text("{\"allowed_tools\":[\"read_file\",\"read_file\",\"ls\"]}");
    assert!(p.is_allowed("read_file"));
    assert!(p.is_allowed("ls"));
    assert_eq!(p.list_allowed().len(), 2);
}

#[test]
fn unreadable_permissions_allow_nothing() {
    for text in ["", "  \n", "not json", "{\"allowed_tools\":[1]}", "{\"allowed_tools\":null}", "{}"] {
        let p = GlobalToolPermissions::from_json_text(text);
        assert!(p.list_allowed().is_empty(), "{text}");
    }
    assert!(GlobalToolPermissions::load(None).list_allowed().is_empty());
}

#[test]
fn saved_permissions_load_again() {
    let mut p = GlobalToolPermissions::new();
    p.add_allowed("write_file");
    p.add_allowed("run_shell_command");
    let text = p.save();
    let value: serde_json::Value = serde_json::from_str(&text).unwrap();
    assert_eq!(value["allowed_tools"].as_array().unwrap().len(), 2);
    let q = GlobalToolPermissions::load(Some(&text));
    assert!(q.is_allowed("write_file"));
    assert!(q.is_allowed("run_shell_command"));
    assert!(!q.is_allowed("read_file"));
}

#[test]
fn allowing_is_a_set_operation() {
    let mut p = GlobalToolPermissions::default();
    p.add_allowed("a");
    p.add_allowed("a");
    assert_eq!(p.list_allowed(), vec!["a".to_string()]);
    assert!(p.remove_allowed("a"));
    assert!(!p.remove_allowed("a"));
    assert!(!p.is_allowed("a"));
}

#[test]
fn saved_names_with_escapes_load_again() {
    let mut p = GlobalToolPermissions::new();
    p.add_allowed("quote\"slash/back\\slash");
    p.add_allowed("tilde~0 ünïcode");
    let q = GlobalToolPermissions::load(Some(&p.save()));
    assert!(q.is_allowed("quote\"slash/back\\slash"));
    assert!(q.is_allowed("tilde~0 ünïcode"));
    assert_eq!(q.list_allowed().len(), 2);
}

#[test]
fn refused_permissions_text_allows_nothing() {
    let twice = "{\"allowed_tools\":[\"a\"],\"allowed_tools\":[\"b\"]}";
    assert!(GlobalToolPermissions::load_accepted(Some(twice), false).list_allowed().is_empty());
    let good = "{\"allowed_tools\":[\"a\"]}";
    assert!(GlobalToolPermissions::load_accepted(Some(good), true).is_allowed("a"));
    assert!(GlobalToolPermissions::load_accepted(Some("  "), false).list_allowed().is_empty());
    assert!(GlobalToolPermissions::load_accepted(None, true).list_allowed().is_empty());
}

#[test]
fn permissions_in_array_form_are_read() {
    let p = GlobalToolPermissions::from_json_text("[[\"read_file\",\"ls\"]]");
    assert!(p.is_allowed("read_file"));
    assert!(p.is_allowed("ls"));
    for text in ["[]", "[[\"a\"],[\"b\"]]", "[[1]]", "[\"a\"]"] {
        assert!(GlobalToolPermissions::from_json_text(text).list_allowed().is_empty(), "{text}");
    }
}
