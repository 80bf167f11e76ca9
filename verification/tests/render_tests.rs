use postgres_manager::browser::SnapshotBrowser;
use postgres_manager::models::{
    BackupMetadata, FocusField, ListedObject, PopupState, PostgresConfig, S3Config,
    TransferProgress,
};
use postgres_manager::render::{format_mb, render, snapshot_line};

fn base_browser() -> SnapshotBrowser {
    let config = S3Config {
        error_message: None,
        bucket: "backups".to_string(),
        region: "us-west-2".to_string(),
        prefix: "pg".to_string(),
        endpoint_url: "http://minio.local".to_string(),
        access_key_id: "ABCD1234EFGH".to_string(),
        secret_access_key: "WXYZ9876STUV".to_string(),
        path_style: true,
    };
    SnapshotBrowser::new(config, PostgresConfig::default())
}

#[test]
fn sizes_render_as_mebibytes_with_two_decimals() {
    assert_eq!(format_mb(0), "0.00");
    assert_eq!(format_mb(-5), "0.00");
    assert_eq!(format_mb(1048576), "1.00");
    assert_eq!(format_mb(1572864), "1.50");
    assert_eq!(format_mb(10485760), "10.00");
    assert_eq!(format_mb(1153433), "1.09");
    assert_eq!(format_mb(1153434), "1.10");
}

#[test]
fn snapshot_rows_match_the_calendar_crate() {
    let meta = BackupMetadata {
        key: "backup-1.sql".to_string(),
        size: 1048576,
        last_modified: 1_700_000_000,
    };
    let expected_date = chrono::DateTime::<chrono::Utc>::from_timestamp(1_700_000_000, 0)
        .unwrap()
        .format("%Y-%m-%d %H:%M:%S")
        .to_string();
    let line = snapshot_line(&meta);
    assert_eq!(line, format!("backup-1.sql - 1.00 MB - {}", expected_date));
    assert_eq!(expected_date, "2023-11-14 22:13:20");
}

#[test]
fn secret_fields_render_masked() {
    let mut b = base_browser();
    b.pg_config.password = Some("hunter2".to_string());
    let f = render(&b);
    assert_eq!(f.s3_lines[4], "Access Key ID: ABCD.....EFGH");
    assert_eq!(f.s3_lines[5], "Secret Access Key: WXYZ.....STUV");
    assert_eq!(f.pg_lines[3], "Password: *******");
}

#[test]
fn frame_reflects_configuration_and_mode() {
    let mut b = base_browser();
    let f = render(&b);
    assert_eq!(f.title, "PostgreSQL S3 Backup Manager");
    assert_eq!(f.s3_lines[0], "Bucket: backups");
    assert_eq!(f.s3_lines[3], "Endpoint URL: http://minio.local");
    assert_eq!(f.s3_lines[6], "Path Style: true");
    assert_eq!(f.pg_lines[0], "Host: ");
    assert_eq!(f.pg_lines[4], "SSL: false");
    assert!(f.edit_line.is_none());
    assert!(f.popup.is_none());
    assert_eq!(f.snapshot_lines.len(), 0);
    assert_eq!(f.selected_idx, None);
    b.focus = FocusField::Bucket;
    b.begin_edit();
    let f = render(&b);
    assert_eq!(f.edit_line.as_deref(), Some("backups"));
    assert_eq!(f.help, "Press Esc to cancel, Enter to save");
}

#[test]
fn frame_lists_snapshots_newest_first() {
    let mut b = base_browser();
    b.apply_listing(vec![
        ListedObject {
            key: Some("old.sql".to_string()),
            size: Some(1048576),
            last_modified: Some(1_600_000_000),
        },
        ListedObject {
            key: Some("new.sql".to_string()),
            size: Some(2097152),
            last_modified: Some(1_700_000_000),
        },
    ]);
    let f = render(&b);
    assert_eq!(f.snapshot_lines.len(), 2);
    assert!(f.snapshot_lines[0].starts_with("new.sql - 2.00 MB - "));
    assert!(f.snapshot_lines[1].starts_with("old.sql - 1.00 MB - "));
    assert_eq!(f.selected_idx, Some(0));
}

#[test]
fn download_overlay_shows_progress_and_rate() {
    let mut b = base_browser();
    let snap = BackupMetadata {
        key: "backup-1.sql".to_string(),
        size: 100,
        last_modified: 1_700_000_000,
    };
    b.popup_state = PopupState::Downloading(
        snap,
        TransferProgress { downloaded: 30, total: 100, rate_bps: 2097152 },
    );
    let f = render(&b);
    let pv = f.popup.expect("overlay expected");
    assert_eq!(pv.title, "Downloading");
    assert_eq!(pv.lines[0], "Downloading: backup-1.sql");
    assert_eq!(pv.lines[1], "Progress: 30.0% (2.00 MB/s)");
    assert_eq!(pv.lines[3], "Press Esc to cancel");
}

#[test]
fn cancel_overlay_keeps_captured_values() {
    let mut b = base_browser();
    let snap = BackupMetadata {
        key: "backup-1.sql".to_string(),
        size: 100,
        last_modified: 1_700_000_000,
    };
    b.popup_state = PopupState::ConfirmCancel(
        snap,
        TransferProgress { downloaded: 333, total: 1000, rate_bps: 1048576 },
    );
    let f = render(&b);
    let pv = f.popup.expect("overlay expected");
    assert_eq!(pv.title, "Confirm Cancel");
    assert_eq!(pv.lines[0], "Cancel download of: backup-1.sql");
    assert_eq!(pv.lines[1], "Progress: 33.3% (1.00 MB/s)");
    assert_eq!(
        pv.lines[3],
        "Press 'y' to confirm cancel, 'n' to continue downloading"
    );
}

#[test]
fn every_overlay_renders() {
    let mut b = base_browser();
    let snap = BackupMetadata { key: "k".to_string(), size: 1, last_modified: 0 };
    b.popup_state = PopupState::ConfirmRestore(snap.clone());
    let pv = render(&b).popup.expect("overlay expected");
    assert_eq!(pv.title, "Confirm Restore");
    assert_eq!(pv.lines[0], "Are you sure you want to restore this backup 'k'?");
    b.popup_state = PopupState::Error("broken".to_string());
    let pv = render(&b).popup.expect("overlay expected");
    assert_eq!(pv.title, "Error");
    assert_eq!(pv.lines[0], "broken");
    b.popup_state = PopupState::Success("done".to_string());
    let pv = render(&b).popup.expect("overlay expected");
    assert_eq!(pv.title, "Success");
    assert_eq!(pv.lines, vec!["done".to_string()]);
    b.popup_state = PopupState::TestS3Result("ok".to_string());
    let pv = render(&b).popup.expect("overlay expected");
    assert_eq!(pv.lines[0], "S3 Connection Test");
    assert_eq!(pv.lines[2], "ok");
    b.popup_state = PopupState::TestPgResult("ok".to_string());
    let pv = render(&b).popup.expect("overlay expected");
    assert_eq!(pv.lines[0], "PostgreSQL Connection Test");
    b.popup_state = PopupState::Hidden;
    assert!(render(&b).popup.is_none());
}

#[test]
fn error_message_appears_on_the_frame() {
    let mut b = base_browser();
    b.set_error(Some("Bucket name is required".to_string()));
    let f = render(&b);
    assert_eq!(f.error_line.as_deref(), Some("Bucket name is required"));
}
