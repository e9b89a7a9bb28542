use std::sync::atomic::AtomicUsize;
use std::sync::atomic::Ordering;
use std::sync::Arc;
use std::sync::Mutex;
use std::sync::OnceLock;
use string_param::callback::ChangeCallback;
use string_param::param::StringParam;

fn counted(calls: &Arc<AtomicUsize>) -> StringParam {
    let seen = calls.clone();
    StringParam::new("Label", String::from("init")).with_callback(Arc::new(
        move |_value: String| {
            seen.fetch_add(1, Ordering::SeqCst);
        },
    ))
}

#[test]
fn listener_is_told_once_for_a_repeated_write() {
    let calls = Arc::new(AtomicUsize::new(0));
    let mut param = counted(&calls);
    assert!(param.set_plain_value(String::from("next")));
    assert_eq!(calls.load(Ordering::SeqCst), 1);
    assert!(!param.set_plain_value(String::from("next")));
    assert_eq!(calls.load(Ordering::SeqCst), 1);
}

#[test]
fn listener_is_not_told_of_a_write_of_the_default() {
    let calls = Arc::new(AtomicUsize::new(0));
    let mut param = counted(&calls);
    assert!(!param.set_plain_value(String::from("init")));
    assert_eq!(calls.load(Ordering::SeqCst), 0);
}

#[test]
fn listener_is_told_of_every_change() {
    let calls = Arc::new(AtomicUsize::new(0));
    let mut param = counted(&calls);
    assert!(param.set_value(String::from("a")));
    assert!(param.set_value(String::from("b")));
    assert!(param.set_value(String::from("a")));
    assert_eq!(calls.load(Ordering::SeqCst), 3);
}

#[test]
fn listener_is_not_told_of_reads() {
    let calls = Arc::new(AtomicUsize::new(0));
    let param = counted(&calls);
    param.value();
    param.modulated_plain_value();
    param.unmodulated_plain_value();
    param.default_plain_value();
    param.normalized_value_to_string(true);
    param.previous_step(String::from("x"), false);
    param.next_step(String::from("x"), false);
    assert_eq!(calls.load(Ordering::SeqCst), 0);
}

#[test]
fn listener_gets_the_new_value() {
    let told = Arc::new(Mutex::new(Vec::new()));
    let sink = told.clone();
    let mut param = StringParam::new("Label", String::from("init")).with_callback(Arc::new(
        move |value: String| {
            sink.lock().unwrap().push(value);
        },
    ));
    param.set_plain_value(String::from("one"));
    param.set_plain_value(String::from("one"));
    param.set_plain_value(String::from("two"));
    assert_eq!(*told.lock().unwrap(), vec![String::from("one"), String::from("two")]);
}

#[test]
fn later_listener_replaces_earlier_listener() {
    let first = Arc::new(AtomicUsize::new(0));
    let second = Arc::new(AtomicUsize::new(0));
    let seen = second.clone();
    let mut param = counted(&first).with_callback(Arc::new(move |_value: String| {
        seen.fetch_add(1, Ordering::SeqCst);
    }));
    param.set_plain_value(String::from("next"));
    assert_eq!(first.load(Ordering::SeqCst), 0);
    assert_eq!(second.load(Ordering::SeqCst), 1);
}

#[test]
fn quiet_write_stores_and_tells_nobody() {
    let calls = Arc::new(AtomicUsize::new(0));
    let mut param = counted(&calls);
    assert!(param.write_if_changed(String::from("next")));
    assert_eq!(param.value(), "next");
    assert!(!param.write_if_changed(String::from("next")));
    assert_eq!(calls.load(Ordering::SeqCst), 0);
}

#[test]
fn listener_is_named_after_a_change_only() {
    let calls = Arc::new(AtomicUsize::new(0));
    let param = counted(&calls);
    assert!(param.listener_to_tell(false).is_none());
    let told = param.listener_to_tell(true);
    assert!(told.is_some());
    told.unwrap().value_changed(String::from("now"));
    assert_eq!(calls.load(Ordering::SeqCst), 1);
}

#[test]
fn no_listener_is_named_where_none_is_set() {
    let param = StringParam::new("Label", String::from("init"));
    assert!(param.listener_to_tell(true).is_none());
    assert!(param.listener_to_tell(false).is_none());
}

#[test]
fn parameter_behind_a_lock_tells_the_listener_after_the_lock_is_free() {
    let shared: Arc<OnceLock<Mutex<StringParam>>> = Arc::new(OnceLock::new());
    let inner = shared.clone();
    let read_back = Arc::new(Mutex::new(Vec::new()));
    let sink = read_back.clone();
    let param = StringParam::new("Label", String::from("init")).with_callback(Arc::new(
        move |value: String| {
            let current = inner.get().unwrap().lock().unwrap().value();
            sink.lock().unwrap().push((value, current));
        },
    ));
    assert!(shared.set(Mutex::new(param)).is_ok());
    let lock = shared.get().unwrap();
    for text in ["next", "next", "last"] {
        let mut guard = lock.lock().unwrap();
        let changed = guard.write_if_changed(String::from(text));
        let told = guard.listener_to_tell(changed).cloned();
        drop(guard);
        if let Some(listener) = told {
            let fresh = lock.lock().unwrap().value();
            listener.value_changed(fresh);
        }
    }
    assert_eq!(
        *read_back.lock().unwrap(),
        vec![
            (String::from("next"), String::from("next")),
            (String::from("last"), String::from("last")),
        ]
    );
}

#[test]
fn writers_one_after_another_leave_the_last_value() {
    let calls = Arc::new(AtomicUsize::new(0));
    let mut param = counted(&calls);
    let written: Vec<String> = (0..16).map(|i| format!("value-{i}")).collect();
    for value in &written {
        assert!(param.set_plain_value(value.clone()));
    }
    let last = param.value();
    assert!(written.contains(&last));
    assert_eq!(last, "value-15");
    assert_eq!(calls.load(Ordering::SeqCst), 16);
}

#[test]
fn formatter_replaces_the_plain_text() {
    let param = StringParam::new("Label", String::from("init"))
        .with_value_to_string(Arc::new(|value: String| value.to_uppercase()));
    assert_eq!(param.normalized_value_to_string(false), "INIT");
    assert_eq!(param.normalized_value_to_string(true), "INIT");
    assert_eq!(param.display_string(String::from("other"), false), "OTHER");
}

#[test]
fn unit_follows_the_formatted_text() {
    let mut param = StringParam::new("Label", String::from("init"))
        .with_unit("!")
        .with_value_to_string(Arc::new(|value: String| format!("<{value}>")));
    assert_eq!(param.normalized_value_to_string(true), "<init>!");
    assert_eq!(param.normalized_value_to_string(false), "<init>");
    param.set_plain_value(String::from("next"));
    assert_eq!(param.normalized_value_to_string(true), "<next>!");
}

#[test]
fn formatter_does_not_change_what_readers_get() {
    let param = StringParam::new("Label", String::from("init"))
        .with_value_to_string(Arc::new(|value: String| value.to_uppercase()));
    assert_eq!(param.value(), "init");
    assert_eq!(param.to_string(), "init");
    assert_eq!(param.to_debug_string(), "Label: init");
}

#[test]
fn later_formatter_replaces_earlier_formatter() {
    let param = StringParam::new("Label", String::from("init"))
        .with_value_to_string(Arc::new(|value: String| value.to_uppercase()))
        .with_value_to_string(Arc::new(|value: String| format!("[{value}]")));
    assert_eq!(param.normalized_value_to_string(false), "[init]");
}
