use serde_json::Value;
use whatmedoin::event::{active_window_json, activity_event, event_body, ActivityEvent, WindowSnapshot};

fn window(name: &str, path: &str) -> WindowSnapshot {
    WindowSnapshot {
        id: 42,
        os: "linux".to_string(),
        title: "notes.md - Cursor".to_string(),
        url: String::new(),
        process_path: path.to_string(),
        process_name: name.to_string(),
        exec_name: "cursor".to_string(),
    }
}

fn serde_body(platform: &str, title: &str, url: &str) -> String {
    let mut m = serde_json::Map::new();
    m.insert("platform".to_string(), Value::String(platform.to_string()));
    m.insert("title".to_string(), Value::String(title.to_string()));
    m.insert("url".to_string(), Value::String(url.to_string()));
    serde_json::to_string(&Value::Object(m)).unwrap()
}

#[test]
fn event_reports_program_name_and_path() {
    let e = activity_event(&window("Cursor", "/usr/bin/cursor"));
    assert_eq!(e.platform, "desktop");
    assert_eq!(e.title, "Cursor");
    assert_eq!(e.url, "/usr/bin/cursor");
}

#[test]
fn body_exact() {
    let e = activity_event(&window("Cursor", "/usr/bin/cursor"));
    assert_eq!(
        event_body(&e),
        "{\"platform\":\"desktop\",\"title\":\"Cursor\",\"url\":\"/usr/bin/cursor\"}"
    );
}

#[test]
fn body_escapes_like_serde_json() {
    let cases = [
        ("a\"b", "C:\\Program Files\\x.exe"),
        ("tab\there", "line\nbreak\r"),
        ("bell\u{7}and\u{1f}", "\u{8}\u{c}"),
        ("ünïcødé ✓", "/snap/\u{7f}/x"),
        ("", ""),
    ];
    for (title, url) in cases {
        let e = ActivityEvent {
            platform: "desktop".to_string(),
            title: title.to_string(),
            url: url.to_string(),
        };
        assert_eq!(event_body(&e), serde_body("desktop", title, url));
    }
}

#[test]
fn control_characters_use_lowercase_hex() {
    let e = ActivityEvent { platform: "desktop".to_string(), title: "\u{1b}".to_string(), url: "".to_string() };
    assert_eq!(event_body(&e), "{\"platform\":\"desktop\",\"title\":\"\\u001b\",\"url\":\"\"}");
}

#[test]
fn body_parses_back() {
    let e = activity_event(&window("we\"ird\\name", "/p\na/th"));
    let v: Value = serde_json::from_str(&event_body(&e)).unwrap();
    assert_eq!(v["platform"], "desktop");
    assert_eq!(v["title"], "we\"ird\\name");
    assert_eq!(v["url"], "/p\na/th");
}

#[test]
fn window_json_like_serde_json() {
    let w = window("Cursor\"", "/usr/bin/cursor");
    let mut info = serde_json::Map::new();
    info.insert("path".to_string(), Value::String(w.process_path.clone()));
    info.insert("name".to_string(), Value::String(w.process_name.clone()));
    info.insert("exec_name".to_string(), Value::String(w.exec_name.clone()));
    let mut m = serde_json::Map::new();
    m.insert("title".to_string(), Value::String(w.title.clone()));
    m.insert("url".to_string(), Value::String(w.url.clone()));
    m.insert("id".to_string(), Value::from(w.id));
    m.insert("os".to_string(), Value::String(w.os.clone()));
    m.insert("info".to_string(), Value::Object(info));
    assert_eq!(active_window_json(Some(&w)), serde_json::to_string(&Value::Object(m)).unwrap());
}

#[test]
fn window_json_exact() {
    let w = window("Cursor", "/usr/bin/cursor");
    assert_eq!(
        active_window_json(Some(&w)),
        "{\"id\":42,\"info\":{\"exec_name\":\"cursor\",\"name\":\"Cursor\",\"path\":\"/usr/bin/cursor\"},\"os\":\"linux\",\"title\":\"notes.md - Cursor\",\"url\":\"\"}"
    );
}

#[test]
fn window_error_json() {
    assert_eq!(
        active_window_json(None),
        "{\"error\":\"Error occurred while getting the active window\"}"
    );
}

#[test]
fn large_window_id() {
    let mut w = window("x", "y");
    w.id = u32::MAX;
    let v: Value = serde_json::from_str(&active_window_json(Some(&w))).unwrap();
    assert_eq!(v["id"], u32::MAX);
}
