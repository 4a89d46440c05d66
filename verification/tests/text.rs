use metrics_service::text::{strip_prefix, with_suffix};

#[test]
fn prefix_is_stripped_where_it_is_there() {
    assert_eq!(strip_prefix("tokio_threads", "tokio_"), Some("threads".to_string()));
    assert_eq!(strip_prefix("tokio_", "tokio_"), Some(String::new()));
    assert_eq!(strip_prefix("anything", ""), Some("anything".to_string()));
    assert_eq!(strip_prefix("", ""), Some(String::new()));
}

#[test]
fn nothing_is_stripped_where_the_prefix_is_not_there() {
    assert_eq!(strip_prefix("tokio", "tokio_"), None);
    assert_eq!(strip_prefix("", "tokio_"), None);
    assert_eq!(strip_prefix("Tokio_threads", "tokio_"), None);
    assert_eq!(strip_prefix("xtokio_threads", "tokio_"), None);
    assert_eq!(strip_prefix("toki_o_threads", "tokio_"), None);
}

#[test]
fn prefix_is_stripped_by_characters() {
    assert_eq!(strip_prefix("\u{e9}\u{e8}\u{ea}", "\u{e9}"), Some("\u{e8}\u{ea}".to_string()));
    assert_eq!(strip_prefix("mpsc_\u{4e2d}\u{6587}", "mpsc_"), Some("\u{4e2d}\u{6587}".to_string()));
    assert_eq!(strip_prefix("e\u{301}", "\u{e9}"), None);
}

#[test]
fn suffix_is_appended() {
    assert_eq!(with_suffix("sync", "_count"), "sync_count");
    assert_eq!(with_suffix("", "_median"), "_median");
    assert_eq!(with_suffix("key", ""), "key");
    assert_eq!(with_suffix("\u{e9}", "_lower_median"), "\u{e9}_lower_median");
}
