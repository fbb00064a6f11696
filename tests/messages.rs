use funck::{Metadata, Request, Response};

#[test]
fn bytes_appended_in_order() {
    let r = Response::new()
        .with_bytes(vec![1u8, 2])
        .with_bytes(vec![3u8, 0xff, 0]);
    assert_eq!(r.body(), &[1u8, 2, 3, 0xff, 0][..]);
}

#[test]
fn empty_bytes_leave_body_alone() {
    let r = Response::new().with_bytes(vec![7u8]).with_bytes(Vec::new());
    assert_eq!(r.body(), &[7u8][..]);
}

#[test]
fn text_appended_as_utf8_at_end() {
    let r = Response::new()
        .with_bytes(vec![0x78u8])
        .with_text(String::from("h\u{e9}llo \u{1f600}"));
    let mut expected = vec![0x78u8];
    expected.extend_from_slice("h\u{e9}llo \u{1f600}".as_bytes());
    assert_eq!(r.body(), expected.as_slice());
    assert_eq!(r.body().len(), 1 + 1 + 2 + 4 + 4);
}

#[test]
fn text_hello() {
    let r = Response::new().with_text(String::from("Hello from FFI"));
    assert_eq!(r.body(), b"Hello from FFI");
    assert!(r.metadata().entries().is_empty());
}

#[test]
fn write_bytes_streams_into_body() {
    let mut r = Response::new().with_text(String::from("ab"));
    r.write_bytes(&[0x63u8, 0x64]);
    r.write_bytes(&[]);
    r.write_bytes(b"e");
    assert_eq!(r.body(), b"abcde");
}

#[test]
fn fresh_response_is_empty() {
    let r = Response::new();
    assert!(r.body().is_empty());
    assert!(r.metadata().entries().is_empty());
    assert_eq!(r.get_meta("anything"), None);
    let d = Response::default();
    assert!(d.body().is_empty());
    assert!(d.metadata().entries().is_empty());
}

#[test]
fn meta_set_then_found() {
    let r = Response::new().with_meta("content-type", "text/plain");
    assert_eq!(r.get_meta("content-type").map(|s| s.as_str()), Some("text/plain"));
    assert_eq!(r.get_meta("Content-Type"), None);
    assert!(r.body().is_empty());
}

#[test]
fn meta_last_write_wins() {
    let r = Response::new()
        .with_meta("k", "first")
        .with_meta("other", "x")
        .with_meta("k", "second");
    assert_eq!(r.get_meta("k").map(|s| s.as_str()), Some("second"));
    assert_eq!(r.get_meta("other").map(|s| s.as_str()), Some("x"));
    let entries = r.metadata().entries();
    assert_eq!(entries.len(), 2);
    assert_eq!(entries.iter().filter(|e| e.0 == "k").count(), 1);
}

#[test]
fn meta_empty_key_and_value() {
    let r = Response::new().with_meta("", "");
    assert_eq!(r.get_meta("").map(|s| s.as_str()), Some(""));
    assert_eq!(r.metadata().get("").map(|s| s.as_str()), Some(""));
}

#[test]
fn metadata_insert_and_get() {
    let mut m = Metadata::new();
    assert_eq!(m.get("a"), None);
    m.insert("a", "1");
    m.insert("b", "2");
    m.insert("a", "3");
    assert_eq!(m.get("a").map(|s| s.as_str()), Some("3"));
    assert_eq!(m.get("b").map(|s| s.as_str()), Some("2"));
    assert_eq!(m.get("c"), None);
    assert_eq!(m.entries().len(), 2);
}

#[test]
fn request_holds_what_it_was_built_with() {
    let mut m = Metadata::new();
    m.insert("host", "example.org");
    let req = Request::new(vec![9u8, 8, 7], m);
    assert_eq!(req.body(), &[9u8, 8, 7][..]);
    assert_eq!(
        req.metadata().get("host").map(|s| s.as_str()),
        Some("example.org")
    );
    assert_eq!(req.metadata().entries().len(), 1);
}

#[test]
fn request_empty() {
    let req = Request::new(Vec::new(), Metadata::new());
    assert!(req.body().is_empty());
    assert!(req.metadata().entries().is_empty());
}
