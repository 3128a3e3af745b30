use justviewer::normalizer::{content_url, first_value_of, identity_from_parts, normalize};

fn pair(key: &str, value: &str) -> (String, String) {
    (key.to_string(), value.to_string())
}

#[test]
fn file_url_yields_decoded_path() {
    assert_eq!(normalize("file:///a/b c.txt"), Some("/a/b c.txt".to_string()));
}

#[test]
fn file_url_with_escapes_is_decoded() {
    assert_eq!(normalize("file:///a/b%20c.txt"), Some("/a/b c.txt".to_string()));
    assert_eq!(normalize("file:///tmp/%C3%A9t%C3%A9.md"), Some("/tmp/été.md".to_string()));
}

#[test]
fn file_url_on_local_host_is_accepted() {
    assert_eq!(normalize("file://localhost/etc/hosts"), Some("/etc/hosts".to_string()));
}

#[test]
fn file_url_on_foreign_host_has_no_identity() {
    assert_eq!(normalize("file://example.com/etc/hosts"), None);
}

#[test]
fn custom_scheme_yields_path_parameter() {
    assert_eq!(
        normalize("justviewer://open?path=%2Ftmp%2Fx.txt"),
        Some("/tmp/x.txt".to_string())
    );
}

#[test]
fn custom_scheme_takes_first_path_parameter() {
    assert_eq!(
        normalize("justviewer://open?mode=ro&path=%2Fa&path=%2Fb"),
        Some("/a".to_string())
    );
}

#[test]
fn custom_scheme_decodes_plus_as_space() {
    assert_eq!(normalize("justviewer://open?path=/my+notes.txt"), Some("/my notes.txt".to_string()));
}

#[test]
fn custom_scheme_without_path_has_no_identity() {
    assert_eq!(normalize("justviewer://open"), None);
    assert_eq!(normalize("justviewer://open?file=%2Ftmp%2Fx.txt"), None);
}

#[test]
fn custom_scheme_is_matched_whatever_its_case() {
    assert_eq!(normalize("JUSTVIEWER://open?path=%2Fx"), Some("/x".to_string()));
}

#[test]
fn other_scheme_has_no_identity() {
    assert_eq!(normalize("https://example.com"), None);
    assert_eq!(normalize("https://example.com/?path=%2Ftmp%2Fx.txt"), None);
}

#[test]
fn text_that_is_no_url_has_no_identity() {
    assert_eq!(normalize("/a/b c.txt"), None);
    assert_eq!(normalize(""), None);
}

#[test]
fn parts_of_a_file_url_give_the_path() {
    let pairs = vec![pair("path", "/other")];
    assert_eq!(
        identity_from_parts("file", Some("/a/b".to_string()), &pairs),
        Some("/a/b".to_string())
    );
    assert_eq!(identity_from_parts("file", None, &pairs), None);
}

#[test]
fn parts_of_a_custom_url_give_the_parameter() {
    let pairs = vec![pair("x", "1"), pair("path", "/p"), pair("path", "/q")];
    assert_eq!(
        identity_from_parts("justviewer", Some("/ignored".to_string()), &pairs),
        Some("/p".to_string())
    );
    assert_eq!(identity_from_parts("justviewer", None, &Vec::new()), None);
}

#[test]
fn parts_of_another_scheme_give_nothing() {
    let pairs = vec![pair("path", "/p")];
    assert_eq!(identity_from_parts("https", Some("/a".to_string()), &pairs), None);
    assert_eq!(identity_from_parts("File", Some("/a".to_string()), &pairs), None);
}

#[test]
fn first_value_is_the_earliest_match() {
    let pairs = vec![pair("a", "1"), pair("b", "2"), pair("a", "3")];
    assert_eq!(first_value_of(&pairs, "a"), Some("1".to_string()));
    assert_eq!(first_value_of(&pairs, "b"), Some("2".to_string()));
    assert_eq!(first_value_of(&pairs, "c"), None);
    assert_eq!(first_value_of(&Vec::new(), "a"), None);
}

#[test]
fn content_url_percent_encodes_the_identity() {
    assert_eq!(content_url("/a/b c.txt"), "?file=%2Fa%2Fb%20c.txt");
    assert_eq!(content_url("plain-Name_1.~"), "?file=plain-Name_1.~");
    assert_eq!(content_url(""), "?file=");
}

#[test]
fn content_url_encodes_each_byte_of_a_wide_character() {
    assert_eq!(content_url("é"), "?file=%C3%A9");
    assert_eq!(content_url("👾"), "?file=%F0%9F%91%BE");
}

#[test]
fn content_url_is_read_back_by_the_decoder() {
    let identity = "/tmp/a&b=c?d#e f.txt";
    let url = content_url(identity);
    let encoded = url.strip_prefix("?file=").unwrap();
    assert_eq!(urlencoding::decode(encoded).unwrap(), identity);
}
