use attachment_store::attachment::Attachment;
use attachment_store::cascade::CascadeDelete;
use attachment_store::decimal::format_decimal;
use attachment_store::delete::{DeleteAction, RowDelete};
use attachment_store::retry::{Retry, RetryPolicy, ROW_DELETE_BACKOFF_MS, ROW_DELETE_RETRIES};
use attachment_store::size::display_size;

fn sample(id: &str, cipher: &str) -> Attachment {
    Attachment::new(id.to_string(), cipher.to_string(), "f.txt".to_string(), 2048)
}

#[test]
fn new_leaves_key_empty() {
    let a = Attachment::new("a1".to_string(), "c1".to_string(), "f.txt".to_string(), 7);
    assert_eq!(a.id, "a1");
    assert_eq!(a.cipher_uuid, "c1");
    assert_eq!(a.file_name, "f.txt");
    assert_eq!(a.file_size, 7);
    assert!(a.key.is_none());
}

#[test]
fn file_path_joins_root_cipher_and_id() {
    let a = sample("a1", "c1");
    assert_eq!(a.get_file_path("/data/attachments"), "/data/attachments/c1/a1");
    assert_eq!(a.get_file_path("/data/attachments"), a.get_file_path("/data/attachments"));
}

#[test]
fn display_size_examples() {
    assert_eq!(display_size(0), "0 Bytes");
    assert_eq!(display_size(1024), "1 KB");
    assert_eq!(display_size(1536), "1.5 KB");
    assert_eq!(display_size(2048), "2 KB");
}

#[test]
fn display_size_edges() {
    assert_eq!(display_size(1), "1 Bytes");
    assert_eq!(display_size(1023), "1023 Bytes");
    assert_eq!(display_size(1100), "1.1 KB");
    assert_eq!(display_size(1024 * 1024), "1 MB");
    assert_eq!(display_size(1024 * 1024 * 1024), "1 GB");
    assert_eq!(display_size(i32::MAX), "2 GB");
    assert_eq!(display_size(-5), "-5 Bytes");
}

#[test]
fn display_size_unit_never_shrinks() {
    let units = ["Bytes", "KB", "MB", "GB"];
    let unit_of = |s: String| units.iter().position(|u| s.ends_with(&format!(" {}", u))).unwrap();
    let mut last = 0;
    for n in [0, 5, 1023, 1024, 5000, 1048575, 1048576, 99999999, 1073741824, i32::MAX] {
        let u = unit_of(display_size(n));
        assert!(u >= last);
        last = u;
    }
}

#[test]
fn format_decimal_values() {
    assert_eq!(format_decimal(0), "0");
    assert_eq!(format_decimal(2048), "2048");
    assert_eq!(format_decimal(-5), "-5");
    assert_eq!(format_decimal(i64::MIN), i64::MIN.to_string());
    assert_eq!(format_decimal(i64::MAX), i64::MAX.to_string());
}

#[test]
fn to_json_projection() {
    let a = sample("a1", "c1");
    let j = a.to_json("https://vault.example");
    assert_eq!(j.id, "a1");
    assert_eq!(j.url, "https://vault.example/attachments/c1/a1");
    assert_eq!(j.file_name, "f.txt");
    assert_eq!(j.size, "2048");
    assert_eq!(j.size_name, "2 KB");
    assert!(j.key.is_none());
    assert_eq!(j.object, "attachment");
}

#[test]
fn to_json_keeps_key() {
    let mut a = sample("a2", "c9");
    a.key = Some("k-material".to_string());
    let j = a.to_json("http://h");
    assert_eq!(j.key.as_deref(), Some("k-material"));
    assert_eq!(j.url, "http://h/attachments/c9/a2");
}

#[test]
fn row_delete_policy_defaults() {
    let p = RetryPolicy::row_delete();
    assert_eq!(p.max_retries, 10);
    assert_eq!(p.backoff_ms, 500);
    assert_eq!(ROW_DELETE_RETRIES, 10);
    assert_eq!(ROW_DELETE_BACKOFF_MS, 500);
}

#[test]
fn delete_of_absent_row_succeeds() {
    let mut d = sample("a1", "c1").delete("/data/attachments");
    assert_eq!(d.id(), "a1");
    match d.on_row_result::<String>(Ok(0)) {
        DeleteAction::RemoveFile(p) => assert_eq!(p, "/data/attachments/c1/a1"),
        _ => panic!("a zero-row delete must succeed"),
    }
    assert!(!d.is_pending());
}

#[test]
fn delete_exhausts_retries_then_fails() {
    let mut d = sample("a1", "c1").delete("/data/attachments");
    let mut attempts = 0;
    let mut file_touched = false;
    let mut failure = None;
    while d.is_pending() {
        attempts += 1;
        match d.on_row_result::<String>(Err(format!("busy {}", attempts))) {
            DeleteAction::RetryAfter(ms) => assert_eq!(ms, 500),
            DeleteAction::RemoveFile(_) => file_touched = true,
            DeleteAction::Failed(e) => failure = Some(e),
        }
    }
    assert_eq!(attempts, 11);
    assert!(!file_touched);
    assert_eq!(failure.as_deref(), Some("busy 11"));
}

#[test]
fn delete_succeeds_after_transient_failures() {
    let mut d = sample("a3", "c2").delete("/r");
    assert!(matches!(d.on_row_result::<String>(Err("locked".to_string())), DeleteAction::RetryAfter(500)));
    assert!(matches!(d.on_row_result::<String>(Err("locked".to_string())), DeleteAction::RetryAfter(500)));
    match d.on_row_result::<String>(Ok(1)) {
        DeleteAction::RemoveFile(p) => assert_eq!(p, "/r/c2/a3"),
        _ => panic!("the third attempt succeeded"),
    }
}

#[test]
fn retry_helper_with_own_policy() {
    let mut r = Retry::new(RetryPolicy { max_retries: 2, backoff_ms: 7 });
    assert_eq!(r.retries_left(), 2);
    assert_eq!(r.on_failure(), Some(7));
    assert_eq!(r.on_failure(), Some(7));
    assert_eq!(r.on_failure(), None);
    assert_eq!(r.retries_left(), 0);
}

#[test]
fn row_delete_with_no_retries() {
    let mut d = RowDelete::new("x".to_string(), "/p/x".to_string(), RetryPolicy { max_retries: 0, backoff_ms: 1 });
    assert!(matches!(d.on_row_result::<u8>(Err(3)), DeleteAction::Failed(3)));
    assert!(!d.is_pending());
}

#[test]
fn cascade_hands_out_every_attachment_in_order() {
    let found = vec![sample("a1", "c1"), sample("a2", "c1"), sample("a3", "c1")];
    let mut c: CascadeDelete = Attachment::delete_all_by_cipher(found);
    let mut ids = Vec::new();
    let mut paths = Vec::new();
    while let Some(mut d) = c.next_delete("/data/attachments") {
        ids.push(d.id().to_string());
        match d.on_row_result::<String>(Ok(1)) {
            DeleteAction::RemoveFile(p) => paths.push(p),
            _ => panic!("no failure was induced"),
        }
    }
    assert!(c.is_finished());
    assert_eq!(ids, vec!["a1", "a2", "a3"]);
    assert_eq!(paths, vec!["/data/attachments/c1/a1", "/data/attachments/c1/a2", "/data/attachments/c1/a3"]);
    assert!(c.next_delete("/data/attachments").is_none());
}

#[test]
fn cascade_of_no_attachments_is_finished() {
    let mut c = Attachment::delete_all_by_cipher(Vec::new());
    assert!(c.is_finished());
    assert!(c.next_delete("/r").is_none());
}
