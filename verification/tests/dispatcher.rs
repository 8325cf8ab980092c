use multi_logging::sink::null_sink::NullSink;
use multi_logging::sink::Sink;
use multi_logging::util::dispatcher::{
    acquire_string, get_logger, get_sink, register_logger, register_sink, release_string,
    remove_logger, remove_sink, Dispatcher,
};
use multi_logging::util::pool::{ObjectPool, DEFAULT_POOL_SIZE};
use multi_logging::util::registry::Registry;
use multi_logging::util::DEFAULT_NULL_NAME;

#[test]
fn registry_register_get_remove() {
    let mut r: Registry<u32> = Registry::new();
    assert_eq!(r.get("a"), None);
    assert_eq!(r.register("a", 1), Ok(()));
    assert_eq!(r.register("b", 2), Ok(()));
    assert_eq!(r.get("a"), Some(&1));
    assert_eq!(r.get("b"), Some(&2));
    // A taken name keeps its item; the new one is handed back.
    assert_eq!(r.register("a", 3), Err(3));
    assert_eq!(r.get("a"), Some(&1));
    assert_eq!(r.remove("a"), Some(1));
    assert_eq!(r.get("a"), None);
    assert_eq!(r.get("b"), Some(&2));
    assert_eq!(r.remove("a"), None);
    assert_eq!(r.register("a", 4), Ok(()));
    assert_eq!(r.get("a"), Some(&4));
}

#[test]
fn registered_sink_is_found_by_name() {
    let mut d: Dispatcher<u8, NullSink> = Dispatcher::new();
    assert!(get_sink(&d, "file").is_none());
    assert!(register_sink(&mut d, "file", NullSink::new("file")).is_ok());
    assert_eq!(get_sink(&d, "file").unwrap().name(), "file");
    let back = register_sink(&mut d, "file", NullSink::new("other")).err().unwrap();
    assert_eq!(back.name(), "other");
    assert_eq!(get_sink(&d, "file").unwrap().name(), "file");
    assert_eq!(remove_sink(&mut d, "file").unwrap().name(), "file");
    assert!(get_sink(&d, "file").is_none());
    assert!(remove_sink(&mut d, "file").is_none());
}

#[test]
fn a_sink_with_the_null_name_is_refused() {
    let mut d: Dispatcher<u8, NullSink> = Dispatcher::new();
    let s = NullSink::builder().build();
    assert_eq!(s.name(), DEFAULT_NULL_NAME);
    let back = register_sink(&mut d, DEFAULT_NULL_NAME, s).err().unwrap();
    assert_eq!(back.name(), DEFAULT_NULL_NAME);
    assert!(get_sink(&d, DEFAULT_NULL_NAME).is_none());
}

#[test]
fn registered_logger_is_found_by_name() {
    let mut d: Dispatcher<String, NullSink> = Dispatcher::new();
    assert_eq!(register_logger(&mut d, "global", "first".to_string()), Ok(()));
    assert_eq!(get_logger(&d, "global"), Some(&"first".to_string()));
    assert_eq!(register_logger(&mut d, "global", "second".to_string()), Err("second".to_string()));
    assert_eq!(get_logger(&d, "global"), Some(&"first".to_string()));
    // Loggers and sinks have separate names.
    assert!(register_sink(&mut d, "global", NullSink::new("global")).is_ok());
    assert_eq!(remove_logger(&mut d, "global"), Some("first".to_string()));
    assert_eq!(get_logger(&d, "global"), None);
    assert!(get_sink(&d, "global").is_some());
}

#[test]
fn acquired_strings_are_empty() {
    let mut d: Dispatcher<u8, u8> = Dispatcher::new();
    let mut s = acquire_string(&mut d);
    assert_eq!(s, "");
    s.push_str("used text");
    release_string(&mut d, s);
    let s2 = acquire_string(&mut d);
    assert_eq!(s2, "");
}

#[test]
fn pool_hands_back_cleared_buffers() {
    let mut p = ObjectPool::new();
    let mut a = p.acquire_string();
    assert!(a.is_empty());
    a.push_str("some log line");
    let cap = a.capacity();
    p.release_string(a);
    let b = p.acquire_string();
    assert!(b.is_empty());
    // The buffer came back from the pool, with its allocation.
    assert_eq!(b.capacity(), cap);
    let c = p.acquire_string();
    assert!(c.is_empty());
    assert!(c.capacity() >= 512);
}

#[test]
fn pool_drops_buffers_beyond_its_capacity() {
    let mut p = ObjectPool::new();
    for _ in 0..DEFAULT_POOL_SIZE + 10 {
        p.release_string(String::with_capacity(1));
    }
    let mut n = 0;
    loop {
        let s = p.acquire_string();
        if s.capacity() >= 512 {
            break;
        }
        n += 1;
    }
    assert_eq!(n, DEFAULT_POOL_SIZE);
}
