use single_file_server::config::{get_args, Args};
use single_file_server::handler::{response, simple_file_send, Reply};

fn args(object: &str, filename: &str, error_msg: Option<&str>) -> Args {
    get_args(
        object.to_string(),
        filename.to_string(),
        None,
        error_msg.map(|m| m.to_string()),
    )
}

fn header<'a>(reply: &'a Reply, name: &str) -> Option<&'a str> {
    reply
        .headers
        .iter()
        .find(|(n, _)| n == name)
        .map(|(_, v)| v.as_str())
}

#[test]
fn readable_object_served_as_attachment() {
    let a = args("data.bin", "out.bin", None);
    let r = response(&a, "GET", "/anything", Some(vec![0x00, 0x01, 0x02]));
    assert_eq!(r.status, 200);
    assert_eq!(header(&r, "Content-Type"), Some("application/octet-stream"));
    assert_eq!(
        header(&r, "Content-Disposition"),
        Some("attachment; filename=\"out.bin\"")
    );
    assert_eq!(r.body, vec![0x00, 0x01, 0x02]);
    assert_eq!(r.headers.len(), 2);
}

#[test]
fn missing_object_gives_default_message() {
    let a = args("missing.bin", "out.bin", None);
    let r = response(&a, "POST", "/whatever", None);
    assert_eq!(r.status, 404);
    assert_eq!(header(&r, "Content-Type"), Some("text/plain"));
    assert_eq!(header(&r, "Content-Disposition"), None);
    assert_eq!(r.body, b"NOT FOUND".to_vec());
}

#[test]
fn configured_message_is_sent_as_utf8() {
    let a = args("missing.bin", "out.bin", Some("fichier absent: é"));
    let r = simple_file_send(&a, None);
    assert_eq!(r.status, 404);
    assert_eq!(r.body, "fichier absent: é".as_bytes().to_vec());
}

#[test]
fn every_method_and_path_gets_the_same_reply() {
    let a = args("data.bin", "report.pdf", None);
    let contents = vec![7u8, 8, 9, 255];
    let base = simple_file_send(&a, Some(contents.clone()));
    for (method, path) in [
        ("GET", "/"),
        ("GET", "/index.html"),
        ("GET", "/index.htm"),
        ("POST", "/upload"),
        ("DELETE", "/a/b/c?x=1"),
        ("HEAD", ""),
    ] {
        let r = response(&a, method, path, Some(contents.clone()));
        assert_eq!(r.status, base.status);
        assert_eq!(r.headers, base.headers);
        assert_eq!(r.body, base.body);
    }
    let missing = response(&a, "PUT", "/index.html", None);
    assert_eq!(missing.status, 404);
}

#[test]
fn repeated_request_gives_identical_reply() {
    let a = args("data.bin", "out.bin", None);
    let first = response(&a, "GET", "/x", Some(vec![1, 2, 3]));
    let second = response(&a, "GET", "/x", Some(vec![1, 2, 3]));
    assert_eq!(first.status, second.status);
    assert_eq!(first.headers, second.headers);
    assert_eq!(first.body, second.body);
    let gone = response(&a, "GET", "/x", None);
    let gone_again = response(&a, "GET", "/x", None);
    assert_eq!(gone.body, gone_again.body);
    assert_eq!(gone.headers, gone_again.headers);
}

#[test]
fn empty_file_is_served_with_empty_body() {
    let a = args("empty.bin", "empty.txt", None);
    let r = response(&a, "GET", "/", Some(Vec::new()));
    assert_eq!(r.status, 200);
    assert!(r.body.is_empty());
}

#[test]
fn quote_in_filename_is_not_escaped() {
    let a = args("data.bin", "a\"b.bin", None);
    let r = response(&a, "GET", "/", Some(vec![0]));
    assert_eq!(
        header(&r, "Content-Disposition"),
        Some("attachment; filename=\"a\"b.bin\"")
    );
}

#[test]
fn empty_error_message_gives_empty_body() {
    let a = args("missing.bin", "out.bin", Some(""));
    let r = response(&a, "GET", "/", None);
    assert_eq!(r.status, 404);
    assert!(r.body.is_empty());
}
