use config_reader::{create_default_config, print_config};

#[test]
fn defaults_render_with_masked_empty_password() {
    let mut out = String::new();
    print_config(&create_default_config(), &mut out);
    let expected_head = "[server]\n  host = 127.0.0.1\n  port = 8080\n  workers = 4\n\
[database]\n  host = localhost\n  port = 5432\n  username = postgres\n  password = (empty)\n  \
database = myapp\n  max_connections = 10\n[logging]\n  level = info\n  file = app.log\n[features]\n";
    assert!(out.starts_with(expected_head), "got {:?}", out);
    let mut flags: Vec<&str> = out[expected_head.len()..].lines().collect();
    flags.sort();
    assert_eq!(flags, vec!["  cache = true", "  debug_mode = false", "  metrics = true"]);
}

#[test]
fn render_hides_password_and_shows_unset() {
    let mut c = create_default_config();
    c.database.password = "hunter2".to_string();
    c.server.workers = None;
    c.database.max_connections = Some(0);
    c.logging.file = None;
    c.server.port = 65535;
    let mut out = String::from("> ");
    print_config(&c, &mut out);
    assert!(out.starts_with("> [server]\n"));
    assert!(!out.contains("hunter2"));
    assert!(out.contains("  password = ********\n"));
    assert!(out.contains("  workers = (unset)\n"));
    assert!(out.contains("  max_connections = 0\n"));
    assert!(out.contains("  file = (unset)\n"));
    assert!(out.contains("  port = 65535\n"));
}
