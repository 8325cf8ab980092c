use multi_logging::util::level::Level;
use multi_logging::util::record::Record;

#[test]
fn record_keeps_every_part() {
    let r = Record::new(
        "app::db",
        Some("app::db::pool"),
        Some("src/db/pool.rs"),
        "connected",
        "main",
        Some(17),
        1_000_000_123,
        Level::Debug,
        99,
        "ThreadId(3)",
        String::new(),
        String::new(),
    );
    assert_eq!(r.target(), "app::db");
    assert_eq!(r.source_module(), Some("app::db::pool"));
    assert_eq!(r.file(), Some("src/db/pool.rs"));
    assert_eq!(r.log_detail(), "connected");
    assert_eq!(r.logger_name(), "main");
    assert_eq!(r.line(), Some(17));
    assert_eq!(r.time_stamp_nano(), 1_000_000_123);
    assert_eq!(r.level(), Level::Debug);
    assert_eq!(r.process_id(), 99);
    assert_eq!(r.thread_id(), "ThreadId(3)");
}

#[test]
fn record_without_module_keeps_file_and_message_apart() {
    let r = Record::new("t", None, Some("f.rs"), "msg", "l", None, 0, Level::Info, 1, "x", String::new(), String::new());
    assert_eq!(r.target(), "t");
    assert_eq!(r.source_module(), None);
    assert_eq!(r.file(), Some("f.rs"));
    assert_eq!(r.log_detail(), "msg");
    assert_eq!(r.line(), None);
}

#[test]
fn empty_module_and_file_count_as_missing() {
    let r = Record::new("t", Some(""), Some(""), "m", "l", None, 0, Level::Info, 1, "x", String::new(), String::new());
    assert_eq!(r.source_module(), None);
    assert_eq!(r.file(), None);
    assert_eq!(r.log_detail(), "m");
}

#[test]
fn record_parts_may_hold_any_characters() {
    let r = Record::new("目标", Some("模块"), Some("文件.rs"), "消息 ✓", "日志", Some(1), 5, Level::Warn, 2, "线程", String::new(), String::new());
    assert_eq!(r.target(), "目标");
    assert_eq!(r.source_module(), Some("模块"));
    assert_eq!(r.file(), Some("文件.rs"));
    assert_eq!(r.log_detail(), "消息 ✓");
}

#[test]
fn a_cloned_record_is_the_same() {
    let r = Record::new("t", Some("m"), Some("f"), "msg", "l", Some(3), 7, Level::Error, 1, "x", String::new(), String::new());
    let c = r.clone();
    assert_eq!(c.target(), "t");
    assert_eq!(c.source_module(), Some("m"));
    assert_eq!(c.file(), Some("f"));
    assert_eq!(c.log_detail(), "msg");
    assert_eq!(c.line(), Some(3));
    assert_eq!(c.level(), Level::Error);
}

#[test]
fn record_reuses_the_buffers_it_is_given() {
    let mut data = String::with_capacity(1024);
    data.push_str("old text");
    let name = "old name".to_string();
    let r = Record::new("t", Some("m"), None, "msg", "l", None, 0, Level::Info, 1, "x", data, name);
    assert_eq!(r.target(), "t");
    assert_eq!(r.source_module(), Some("m"));
    assert_eq!(r.log_detail(), "msg");
    assert_eq!(r.logger_name(), "l");
}
