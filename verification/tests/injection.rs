use watchboi::http::{
    addr_string, bytes_contains, digits_string, error_page, find_insert_index, inject_html,
    is_html_content_type, proxy_uri, reload_script, script_head, script_tail, Addr,
};

fn script() -> Vec<u8> {
    b"<script>reload</script>".to_vec()
}

#[test]
fn script_goes_before_the_body_close() {
    let body = b"<html><body>hi</body></html>";
    let out = inject_html(body, &script());
    assert_eq!(
        out,
        b"<html><body>hi<script>reload</script></body></html>".to_vec()
    );
}

#[test]
fn body_close_inside_comment_is_ignored() {
    // The only real closing tag is the first one; the one in the comment
    // does not count.
    let body = b"<body>hi</body><!-- </body> -->";
    let out = inject_html(body, &script());
    assert_eq!(
        out,
        b"<body>hi<script>reload</script></body><!-- </body> -->".to_vec()
    );
}

#[test]
fn without_body_close_the_script_is_appended() {
    let body = b"plain text, no tags";
    let out = inject_html(body, &script());
    assert_eq!(out, b"plain text, no tags<script>reload</script>".to_vec());
}

#[test]
fn last_body_close_outside_comments_wins() {
    let body = b"</body><!-- </body> --></body>x";
    assert_eq!(find_insert_index(body), 23);
}

#[test]
fn comment_toggle_reopens_after_close() {
    // after the comment closes, the following </body> counts again
    let body = b"<!-- </body> -->abc</body>";
    assert_eq!(find_insert_index(body), 19);
}

#[test]
fn injection_is_idempotent() {
    let bodies: [&[u8]; 3] = [
        b"<html><body>hi</body></html>",
        b"<body>hi</body><!-- </body> -->",
        b"no body tag at all",
    ];
    for body in bodies {
        let once = inject_html(body, &script());
        let twice = inject_html(&once, &script());
        assert_eq!(twice, once);
    }
}

#[test]
fn contains_finds_subslices() {
    assert!(bytes_contains(b"abcdef", b"cde"));
    assert!(bytes_contains(b"abcdef", b""));
    assert!(!bytes_contains(b"abcdef", b"cdf"));
    assert!(!bytes_contains(b"ab", b"abc"));
}

#[test]
fn content_type_check_matches_html_only() {
    assert!(is_html_content_type(b"text/html"));
    assert!(is_html_content_type(b"text/html; charset=utf-8"));
    assert!(!is_html_content_type(b"application/json"));
    assert!(!is_html_content_type(b"text/htm"));
}

#[test]
fn reload_script_carries_the_control_port() {
    let s = reload_script(8031);
    let expected = format!("{}{}{}", script_head(), 8031, script_tail());
    assert_eq!(s, expected);
    assert!(s.starts_with("<script>"));
    assert!(s.ends_with("</script>"));
    assert!(s.contains("ws://127.0.0.1:8031/"));
}

#[test]
fn decimal_digits_render() {
    assert_eq!(digits_string(0), "0");
    assert_eq!(digits_string(7), "7");
    assert_eq!(digits_string(8030), "8030");
    assert_eq!(digits_string(65535), "65535");
}

#[test]
fn addresses_render_as_dotted_quads() {
    let a = Addr { a: 127, b: 0, c: 0, d: 1, port: 9000 };
    assert_eq!(addr_string(a), "127.0.0.1:9000");
}

#[test]
fn proxy_uris_keep_path_and_query() {
    let a = Addr { a: 127, b: 0, c: 0, d: 1, port: 9000 };
    assert_eq!(proxy_uri(a, "/x?y=1"), "http://127.0.0.1:9000/x?y=1");
}

#[test]
fn error_page_embeds_message_and_script() {
    let page = error_page("connection refused", "<script>r</script>");
    assert!(page.contains("<pre>connection refused</pre>"));
    assert!(page.contains("<script>r</script>"));
    assert!(page.starts_with("<html>"));
    assert!(page.ends_with("</html>"));
}
