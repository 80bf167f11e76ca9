use postgres_manager::browser::{ConfigError, SnapshotBrowser};
use postgres_manager::events::{Action, Key};
use postgres_manager::models::{
    FocusField, InputMode, ListedObject, PopupState, PostgresConfig, S3Config,
};

fn full_config() -> S3Config {
    S3Config {
        error_message: None,
        bucket: "backups".to_string(),
        region: "us-west-2".to_string(),
        prefix: "postgres".to_string(),
        endpoint_url: "http://minio.local:9000".to_string(),
        access_key_id: "AKIDEXAMPLE".to_string(),
        secret_access_key: "testsecret12345".to_string(),
        path_style: true,
    }
}

fn browser() -> SnapshotBrowser {
    SnapshotBrowser::new(full_config(), PostgresConfig::default())
}

fn entry(key: &str, size: i64, lm: i64) -> ListedObject {
    ListedObject { key: Some(key.to_string()), size: Some(size), last_modified: Some(lm) }
}

#[test]
fn focus_cycle_returns_to_start() {
    let mut b = browser();
    assert_eq!(b.focus, FocusField::SnapshotList);
    for _ in 0..14 {
        b.advance_focus();
    }
    assert_eq!(b.focus, FocusField::SnapshotList);
    b.focus = FocusField::PgPort;
    for _ in 0..14 {
        b.advance_focus();
    }
    assert_eq!(b.focus, FocusField::PgPort);
}

#[test]
fn edit_round_trip_string_field() {
    let mut b = browser();
    b.focus = FocusField::Bucket;
    b.begin_edit();
    assert_eq!(b.input_mode, InputMode::Editing);
    assert_eq!(b.input_buffer, "backups");
    b.input_buffer = "other-bucket".to_string();
    let reload = b.commit_edit();
    assert!(reload);
    assert_eq!(b.config.bucket, "other-bucket");
    b.begin_edit();
    assert_eq!(b.input_buffer, "other-bucket");
}

#[test]
fn edit_round_trip_port_field() {
    let mut b = browser();
    b.focus = FocusField::PgPort;
    b.input_buffer = "8080".to_string();
    let reload = b.commit_edit();
    assert!(!reload);
    assert_eq!(b.pg_config.port, Some(8080));
    b.input_mode = InputMode::Normal;
    b.begin_edit();
    assert_eq!(b.input_buffer, "8080");
}

#[test]
fn edit_round_trip_flag_field() {
    let mut b = browser();
    b.focus = FocusField::PgSsl;
    b.input_buffer = "TRUE".to_string();
    b.commit_edit();
    assert!(b.pg_config.use_ssl);
    b.input_mode = InputMode::Normal;
    b.begin_edit();
    assert_eq!(b.input_buffer, "true");
}

#[test]
fn invalid_port_is_rejected_without_mutation() {
    let mut b = browser();
    b.pg_config.port = Some(5432);
    b.focus = FocusField::PgPort;
    b.input_buffer = "12x".to_string();
    b.commit_edit();
    assert_eq!(b.pg_config.port, Some(5432));
    match &b.popup_state {
        PopupState::Error(m) => assert_eq!(m, "Invalid port number"),
        other => panic!("expected an error popup, got {:?}", other),
    }
}

#[test]
fn empty_port_clears_the_field() {
    let mut b = browser();
    b.pg_config.port = Some(5432);
    b.focus = FocusField::PgPort;
    b.input_buffer = String::new();
    b.commit_edit();
    assert_eq!(b.pg_config.port, None);
    assert!(matches!(b.popup_state, PopupState::Hidden));
}

#[test]
fn store_field_commit_invalidates_client() {
    let mut b = browser();
    assert!(b.init_s3_client().is_ok());
    assert!(b.s3_client.is_some());
    b.focus = FocusField::Region;
    b.begin_edit();
    b.input_buffer = "eu-central-1".to_string();
    b.commit_edit();
    assert!(b.s3_client.is_none());
}

#[test]
fn db_field_commit_keeps_client() {
    let mut b = browser();
    assert!(b.init_s3_client().is_ok());
    b.focus = FocusField::PgHost;
    b.begin_edit();
    b.input_buffer = "db.example.com".to_string();
    b.commit_edit();
    assert!(b.s3_client.is_some());
}

#[test]
fn empty_bucket_fails_validation_and_preserves_state() {
    let mut b = browser();
    b.apply_listing(vec![entry("a", 1, 10), entry("b", 2, 20)]);
    assert_eq!(b.snapshots.len(), 2);
    let selection_before = b.selected_idx;
    b.config.bucket = String::new();
    b.s3_client = None;
    let r = b.init_s3_client();
    assert_eq!(r, Err(ConfigError::BucketMissing));
    assert_eq!(b.config.error_message.as_deref(), Some("Bucket name is required"));
    assert!(b.s3_client.is_none());
    assert_eq!(b.snapshots.len(), 2);
    assert_eq!(b.selected_idx, selection_before);
}

#[test]
fn each_missing_store_field_is_named() {
    let mut b = browser();
    b.config.region = String::new();
    assert_eq!(b.verify_s3_settings(), Err(ConfigError::RegionMissing));
    b.config = full_config();
    b.config.endpoint_url = String::new();
    assert_eq!(b.verify_s3_settings(), Err(ConfigError::EndpointMissing));
    b.config = full_config();
    b.config.access_key_id = String::new();
    assert_eq!(b.verify_s3_settings(), Err(ConfigError::AccessKeyMissing));
    b.config = full_config();
    b.config.secret_access_key = String::new();
    assert_eq!(b.verify_s3_settings(), Err(ConfigError::SecretKeyMissing));
    b.config = full_config();
    assert_eq!(b.verify_s3_settings(), Ok(()));
}

#[test]
fn listing_drops_incomplete_entries_and_sorts_newest_first() {
    let mut b = browser();
    let incomplete = ListedObject {
        key: Some("no-timestamp".to_string()),
        size: Some(5),
        last_modified: None,
    };
    b.apply_listing(vec![entry("older", 10, 1000), incomplete, entry("newer", 20, 2000)]);
    assert_eq!(b.snapshots.len(), 2);
    assert_eq!(b.snapshots[0].key, "newer");
    assert_eq!(b.snapshots[1].key, "older");
    assert_eq!(b.selected_idx, Some(0));
}

#[test]
fn listing_clamps_prior_selection() {
    let mut b = browser();
    b.apply_listing(vec![entry("a", 1, 30), entry("b", 1, 20), entry("c", 1, 10)]);
    b.selected_idx = Some(2);
    b.apply_listing(vec![entry("a", 1, 30)]);
    assert_eq!(b.selected_idx, Some(0));
    b.apply_listing(Vec::new());
    assert_eq!(b.selected_idx, None);
}

#[test]
fn selection_clamps_at_both_ends() {
    let mut b = browser();
    b.apply_listing(vec![entry("only", 1, 10)]);
    assert_eq!(b.selected_idx, Some(0));
    b.previous();
    assert_eq!(b.selected_idx, Some(0));
    b.next();
    assert_eq!(b.selected_idx, Some(0));
    b.apply_listing(vec![entry("a", 1, 30), entry("b", 1, 20)]);
    b.next();
    assert_eq!(b.selected_idx, Some(1));
    b.next();
    assert_eq!(b.selected_idx, Some(1));
    b.previous();
    assert_eq!(b.selected_idx, Some(0));
}

#[test]
fn listing_failure_surfaces_error_and_keeps_list() {
    let mut b = browser();
    b.apply_listing(vec![entry("kept", 1, 10)]);
    b.listing_failed("access denied".to_string());
    match &b.popup_state {
        PopupState::Error(m) => assert_eq!(m, "Failed to list objects: access denied"),
        other => panic!("expected an error popup, got {:?}", other),
    }
    assert_eq!(
        b.config.error_message.as_deref(),
        Some("Failed to list objects: access denied")
    );
    assert_eq!(b.snapshots.len(), 1);
    assert_eq!(b.selected_idx, Some(0));
}

#[test]
fn pg_test_reports_connection_string() {
    let mut b = browser();
    b.pg_config = PostgresConfig {
        host: Some("db.example.com".to_string()),
        port: Some(5432),
        username: Some("admin".to_string()),
        password: Some("hunter2".to_string()),
        use_ssl: true,
        db_name: Some("prod".to_string()),
    };
    assert!(b.test_pg_connection().is_ok());
    match &b.popup_state {
        PopupState::TestPgResult(m) => assert_eq!(
            m,
            "Connection string: host=db.example.com port=5432 user=admin password=hunter2 sslmode=require dbname=prod"
        ),
        other => panic!("expected a test result popup, got {:?}", other),
    }
}

#[test]
fn pg_test_requires_host_port_and_username() {
    let mut b = browser();
    assert_eq!(b.test_pg_connection(), Err(ConfigError::PgHostMissing));
    match &b.popup_state {
        PopupState::Error(m) => assert_eq!(m, "PostgreSQL host is required"),
        other => panic!("expected an error popup, got {:?}", other),
    }
    b.pg_config.host = Some("h".to_string());
    assert_eq!(b.test_pg_connection(), Err(ConfigError::PgPortMissing));
    b.pg_config.port = Some(5432);
    assert_eq!(b.test_pg_connection(), Err(ConfigError::PgUsernameMissing));
}

#[test]
fn bucket_listing_report_joins_names() {
    let mut b = browser();
    b.apply_bucket_listing(vec!["alpha".to_string(), "beta".to_string()]);
    match &b.popup_state {
        PopupState::TestS3Result(m) => assert_eq!(
            m,
            "Successfully connected to S3!\nAvailable buckets: alpha, beta"
        ),
        other => panic!("expected a test result popup, got {:?}", other),
    }
    b.apply_bucket_listing(Vec::new());
    match &b.popup_state {
        PopupState::TestS3Result(m) => assert_eq!(
            m,
            "Successfully connected to S3!\nAvailable buckets: None"
        ),
        other => panic!("expected a test result popup, got {:?}", other),
    }
}

#[test]
fn popup_suppresses_base_dispatch() {
    let mut b = browser();
    b.apply_listing(vec![entry("snap", 1, 10)]);
    b.popup_state = PopupState::Error("boom".to_string());
    let focus_before = b.focus;
    assert_eq!(b.handle_key(Key::Char('b')), Action::Stay);
    assert_eq!(b.focus, focus_before);
    assert_eq!(b.handle_key(Key::Tab), Action::Stay);
    assert_eq!(b.focus, focus_before);
    assert_eq!(b.handle_key(Key::Esc), Action::Stay);
    assert!(matches!(b.popup_state, PopupState::Hidden));
}

#[test]
fn enter_on_selection_opens_confirmation() {
    let mut b = browser();
    b.apply_listing(vec![entry("snap", 1, 10)]);
    assert_eq!(b.handle_key(Key::Enter), Action::Stay);
    match &b.popup_state {
        PopupState::ConfirmRestore(s) => assert_eq!(s.key, "snap"),
        other => panic!("expected the restore confirmation, got {:?}", other),
    }
    assert_eq!(b.handle_key(Key::Char('y')), Action::BeginDownload);
    assert!(matches!(b.popup_state, PopupState::ConfirmRestore(_)));
}

#[test]
fn quit_key_is_global_outside_editing() {
    let mut b = browser();
    assert_eq!(b.handle_key(Key::Char('q')), Action::Quit);
    b.popup_state = PopupState::Error("x".to_string());
    assert_eq!(b.handle_key(Key::Char('q')), Action::Quit);
    b.popup_state = PopupState::Hidden;
    b.focus = FocusField::Bucket;
    b.handle_key(Key::Char('e'));
    assert_eq!(b.input_mode, InputMode::Editing);
    assert_eq!(b.handle_key(Key::Char('q')), Action::Stay);
    assert!(b.input_buffer.ends_with('q'));
}

#[test]
fn editing_keys_drive_the_buffer() {
    let mut b = browser();
    b.focus = FocusField::Prefix;
    b.handle_key(Key::Char('e'));
    assert_eq!(b.input_buffer, "postgres");
    b.handle_key(Key::Backspace);
    assert_eq!(b.input_buffer, "postgre");
    b.handle_key(Key::Char('s'));
    b.handle_key(Key::Char('q'));
    assert_eq!(b.input_buffer, "postgresq");
    b.handle_key(Key::Esc);
    assert_eq!(b.input_mode, InputMode::Normal);
    assert_eq!(b.input_buffer, "");
    assert_eq!(b.config.prefix, "postgres");
}

#[test]
fn commit_via_enter_requests_reload_for_store_fields() {
    let mut b = browser();
    b.focus = FocusField::Bucket;
    b.handle_key(Key::Char('e'));
    b.handle_key(Key::Char('2'));
    assert_eq!(b.handle_key(Key::Enter), Action::ReloadSnapshots);
    assert_eq!(b.config.bucket, "backups2");
    assert!(b.s3_client.is_none());
    b.focus = FocusField::PgHost;
    b.handle_key(Key::Char('e'));
    b.handle_key(Key::Char('h'));
    assert_eq!(b.handle_key(Key::Enter), Action::Stay);
}

#[test]
fn test_key_picks_the_focused_domain() {
    let mut b = browser();
    b.focus = FocusField::Bucket;
    assert_eq!(b.handle_key(Key::Char('t')), Action::TestStore);
    b.focus = FocusField::PgHost;
    assert_eq!(b.handle_key(Key::Char('t')), Action::TestDatabase);
    b.focus = FocusField::SnapshotList;
    assert_eq!(b.handle_key(Key::Char('t')), Action::Stay);
}

#[test]
fn shortcut_keys_move_focus() {
    let mut b = browser();
    assert_eq!(b.handle_key(Key::Char('b')), Action::Stay);
    assert_eq!(b.focus, FocusField::Bucket);
    b.handle_key(Key::Char('R'));
    assert_eq!(b.focus, FocusField::Region);
    b.handle_key(Key::Char('s'));
    assert_eq!(b.focus, FocusField::SecretAccessKey);
    b.handle_key(Key::Char('n'));
    assert_eq!(b.focus, FocusField::PgDbName);
}
