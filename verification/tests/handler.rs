use delta_reconcile::handler::handle;
use delta_reconcile::notify::DeletionNotification;
use delta_reconcile::table_log::TableLog;

#[test]
fn two_records_one_under_the_root() {
    let notifications = vec![
        DeletionNotification {
            bucket: Some(String::from("example-bucket")),
            key: Some(String::from("tables/test/part-abc.parquet")),
            event_time_millis: 5,
        },
        DeletionNotification {
            bucket: Some(String::from("example-bucket")),
            key: Some(String::from("tables/other/part-xyz.parquet")),
            event_time_millis: 5,
        },
    ];
    let mut log = TableLog::new();
    let summary = handle("s3://example-bucket/tables/test", &mut log, &notifications).unwrap();
    assert_eq!(2, summary.received);
    assert_eq!(1, summary.matched);
    assert_eq!(0, summary.skipped);
    assert_eq!(1, summary.committed);
    assert_eq!(Some(1), summary.version);
    assert_eq!(1, log.current_version());
    assert!(log.is_removed("tables/test/part-abc.parquet"));
    assert!(!log.is_removed("tables/other/part-xyz.parquet"));
}

#[test]
fn empty_batch_leaves_everything_untouched() {
    let notifications: Vec<DeletionNotification> = Vec::new();
    let mut log = TableLog::new();
    let summary = handle("s3://example-bucket/tables/test", &mut log, &notifications).unwrap();
    assert_eq!(0, summary.received);
    assert_eq!(0, summary.matched);
    assert_eq!(0, summary.skipped);
    assert_eq!(0, summary.committed);
    assert_eq!(None, summary.version);
    assert_eq!(0, log.current_version(), "No version increment for an empty batch");
}

#[test]
fn batch_with_no_matches_writes_nothing() {
    let notifications = vec![DeletionNotification {
        bucket: Some(String::from("example-bucket")),
        key: Some(String::from("tables/other/part-xyz.parquet")),
        event_time_millis: 5,
    }];
    let mut log = TableLog::new();
    let summary = handle("s3://example-bucket/tables/test", &mut log, &notifications).unwrap();
    assert_eq!(1, summary.received);
    assert_eq!(0, summary.matched);
    assert_eq!(0, summary.committed);
    assert_eq!(None, summary.version);
    assert_eq!(0, log.current_version());
}

#[test]
fn redelivered_batch_is_idempotent_for_readers() {
    let notifications = vec![DeletionNotification {
        bucket: Some(String::from("example-bucket")),
        key: Some(String::from("tables/test/part-abc.parquet")),
        event_time_millis: 5,
    }];
    let mut log = TableLog::new();
    let first = handle("s3://example-bucket/tables/test", &mut log, &notifications).unwrap();
    let seen_once = log.is_removed("tables/test/part-abc.parquet");
    let second = handle("s3://example-bucket/tables/test", &mut log, &notifications).unwrap();
    let seen_twice = log.is_removed("tables/test/part-abc.parquet");
    assert_eq!(Some(1), first.version);
    assert_eq!(Some(2), second.version, "The redelivery takes a fresh version");
    assert_eq!(seen_once, seen_twice);
    assert!(seen_twice);
}
