use cli_supervisor::{connection_url, extract_ready_signal, ready_signal_from, scan_line};

#[test]
fn banner_line_gives_port() {
    assert_eq!(
        extract_ready_signal("CodeNomad Server is ready at http://127.0.0.1:4821"),
        Some(4821)
    );
}

#[test]
fn banner_inside_longer_line() {
    assert_eq!(
        extract_ready_signal("[info] CodeNomad Server is ready at http://localhost:9000/ now"),
        Some(9000)
    );
}

#[test]
fn banner_port_too_large_is_ignored() {
    assert_eq!(extract_ready_signal("CodeNomad Server is ready at http://127.0.0.1:70000"), None);
}

#[test]
fn banner_without_host_is_ignored() {
    assert_eq!(extract_ready_signal("CodeNomad Server is ready at http://:4821"), None);
}

#[test]
fn listening_line_with_trailing_port() {
    assert_eq!(extract_ready_signal("HTTP server listening on :5050"), Some(5050));
}

#[test]
fn listening_phrase_is_case_insensitive() {
    assert_eq!(extract_ready_signal("Http Server Listening at 0.0.0.0:8080"), Some(8080));
}

#[test]
fn listening_line_uses_last_port_token() {
    assert_eq!(
        extract_ready_signal("http server listening at 10:30 on 127.0.0.1:3456"),
        Some(3456)
    );
}

#[test]
fn trailing_port_of_one_digit_is_ignored() {
    assert_eq!(extract_ready_signal("http server listening on :5"), None);
}

#[test]
fn json_listening_line_gives_port() {
    assert_eq!(
        extract_ready_signal("{\"msg\":\"http server listening\",\"port\":6000}"),
        Some(6000)
    );
}

#[test]
fn json_port_above_sixteen_bits_is_ignored() {
    assert_eq!(extract_ready_signal("{\"msg\":\"http server listening\",\"port\":70000}"), None);
    assert_eq!(
        extract_ready_signal("{\"msg\":\"http server listening\",\"port\":65535}"),
        Some(65535)
    );
    assert_eq!(ready_signal_from("listening", "http server listening", Some(65536)), None);
}

#[test]
fn json_without_listening_phrase_is_ignored() {
    assert_eq!(extract_ready_signal("{\"msg\":\"started\",\"port\":6000}"), None);
}

#[test]
fn unrelated_line_gives_nothing() {
    assert_eq!(extract_ready_signal("compiling 42 modules"), None);
    assert_eq!(extract_ready_signal(""), None);
}

#[test]
fn given_results_decide_the_port() {
    assert_eq!(ready_signal_from("listening", "http server listening", Some(7001)), Some(7001));
    assert_eq!(ready_signal_from("listening", "nothing here", Some(7001)), None);
    assert_eq!(ready_signal_from("x :4000", "http server listening", Some(7001)), Some(4000));
}

#[test]
fn scan_skips_lines_once_ready() {
    let line = "CodeNomad Server is ready at http://127.0.0.1:4821";
    assert_eq!(scan_line(true, line), None);
    assert_eq!(scan_line(false, line), Some(4821));
    assert_eq!(scan_line(false, ""), None);
}

#[test]
fn url_of_port() {
    assert_eq!(connection_url(4821), "http://127.0.0.1:4821");
    assert_eq!(connection_url(0), "http://127.0.0.1:0");
    assert_eq!(connection_url(65535), "http://127.0.0.1:65535");
}
