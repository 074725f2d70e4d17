use dsh_desktop::launch::{
    check_chrome_origin, chrome_navigation, content_navigation, dsh_command_line, dsh_shell_args,
    dsh_web_args, is_dsh_response, is_local_url, node_launch_args, probe_request, resolve_port,
    start_command, taskkill_args, url_for, working_dir, Navigation, DEFAULT_PORT,
};
use dsh_desktop::text::{lines, trim};

#[test]
fn web_launch_disables_external_browser() {
    assert_eq!(dsh_web_args(3080).join(" "), "web --no-open --port 3080");
}

#[test]
fn command_lines() {
    assert_eq!(dsh_command_line(3081), "dsh web --no-open --port 3081");
    assert_eq!(dsh_shell_args(0), vec!["/C".to_string(), "dsh web --no-open --port 0".to_string()]);
    assert_eq!(
        node_launch_args("C:/x/lib/bin.js".to_string(), 65535),
        vec!["C:/x/lib/bin.js", "web", "--no-open", "--port", "65535"]
    );
    assert_eq!(taskkill_args(4242), vec!["/PID", "4242", "/T", "/F"]);
    assert_eq!(start_command("https://a.b/c"), "start \"\" \"https://a.b/c\"");
    assert_eq!(working_dir(None), ".");
    assert_eq!(working_dir(Some("D:/work".to_string())), "D:/work");
}

#[test]
fn port_resolution() {
    assert_eq!(resolve_port(None), DEFAULT_PORT);
    assert_eq!(resolve_port(Some(" 3081\n")), 3081);
    assert_eq!(resolve_port(Some("+80")), 80);
    assert_eq!(resolve_port(Some("0003080")), 3080);
    assert_eq!(resolve_port(Some("65535")), 65535);
    assert_eq!(resolve_port(Some("65536")), 3080);
    assert_eq!(resolve_port(Some("-1")), 3080);
    assert_eq!(resolve_port(Some("+")), 3080);
    assert_eq!(resolve_port(Some("")), 3080);
    assert_eq!(resolve_port(Some("80a")), 3080);
    assert_eq!(resolve_port(Some("99999999999999999999")), 3080);
}

#[test]
fn urls_and_probe() {
    assert_eq!(url_for(3080), "http://127.0.0.1:3080/");
    assert_eq!(
        probe_request(7),
        "GET / HTTP/1.1\r\nHost: 127.0.0.1:7\r\nConnection: close\r\n\r\n"
    );
    assert!(is_dsh_response(b"HTTP/1.1 200 OK\r\n\r\n<title>DeepSeek Harness</title>"));
    assert!(is_dsh_response(b"\xff\xfe<title>DeepSeek Harness</title>\xc3"));
    assert!(!is_dsh_response(b"HTTP/1.1 200 OK\r\n\r\n<h1>DeepSeek Harness</h1>"));
    assert!(!is_dsh_response(b"<title>Other</title> DeepSeek Harness"));
    assert!(!is_dsh_response(b"<title>DeepSeek Harnes</title>"));
    assert!(!is_dsh_response(b""));
}

#[test]
fn local_hosts() {
    assert!(is_local_url(Some("127.0.0.1")));
    assert!(is_local_url(Some("localhost")));
    assert!(is_local_url(Some("tauri.localhost")));
    assert!(!is_local_url(Some("127.0.0.2")));
    assert!(!is_local_url(Some("example.com")));
    assert!(!is_local_url(None));
}

#[test]
fn navigation_policies() {
    assert!(matches!(content_navigation("tauri", None), Navigation::Allow));
    assert!(matches!(content_navigation("http", Some("localhost")), Navigation::Allow));
    assert!(matches!(content_navigation("https", Some("github.com")), Navigation::OpenExternally));
    assert!(matches!(content_navigation("http", Some("github.com")), Navigation::OpenExternally));
    assert!(matches!(content_navigation("mailto", None), Navigation::Block));
    assert!(matches!(chrome_navigation("https", Some("github.com")), Navigation::Block));
    assert!(matches!(chrome_navigation("http", Some("tauri.localhost")), Navigation::Allow));
}

#[test]
fn chrome_origin_check() {
    assert!(check_chrome_origin("chrome", "tauri", None).is_ok());
    assert!(check_chrome_origin("chrome", "http", Some("127.0.0.1")).is_ok());
    assert_eq!(
        check_chrome_origin("content", "tauri", None).unwrap_err(),
        "该操作只允许来自本地顶栏"
    );
    assert!(check_chrome_origin("chrome", "https", Some("evil.example")).is_err());
}

#[test]
fn text_lines_and_trim() {
    assert_eq!(lines("a\r\nb\n\nc"), vec!["a", "b", "", "c"]);
    assert_eq!(lines("a\n"), vec!["a"]);
    assert_eq!(lines("x\r"), vec!["x\r"]);
    assert!(lines("").is_empty());
    assert_eq!(trim("\u{3000} a b \t"), "a b");
}
