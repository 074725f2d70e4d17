//! Finding, starting and reaching the local dsh web service, and deciding
//! what the two web views may load.

use vstd::prelude::*;
use vstd::string::*;
use vstd::utf8::encode_utf8;

use crate::text::{
    bytes_contain, contains_bytes, decimal, decimal_string, join_strings, join_with,
    parse_u16, parse_u16_text, same_text, trim, trim_ws,
};

verus! {

/// The port that dsh web serves on unless `DSH_WEB_PORT` says otherwise.
pub const DEFAULT_PORT: u16 = 3080;

/// Seconds to wait for a started dsh to answer.
pub const START_TIMEOUT_SECS: u64 = 120;

/// Milliseconds between two looks at a started dsh, or at a foreign listener.
pub const START_POLL_MS: u64 = 300;

/// Seconds given to a foreign listener on the port to turn out to be dsh.
pub const FOREIGN_WAIT_SECS: u64 = 10;

/// Seconds spent finding out whether anything listens on the port.
pub const PORT_CHECK_SECS: u64 = 1;

/// Milliseconds between two connection attempts while checking the port.
pub const PORT_RETRY_MS: u64 = 200;

/// Milliseconds that writing the probe or reading its answer may take.
pub const PROBE_IO_TIMEOUT_MS: u64 = 1500;

/// The `<title>` element of dsh's front page, which tells dsh apart from
/// another program on the same port.
pub const DSH_MARKER: &'static str = "<title>DeepSeek Harness</title>";

/// The port chosen by the value of `DSH_WEB_PORT`.
pub open spec fn port_choice(raw: Option<Seq<char>>) -> u16 {
    match raw {
        Some(v) => match parse_u16(trim_ws(v)) {
            Some(p) => p,
            None => DEFAULT_PORT,
        },
        None => DEFAULT_PORT,
    }
}

/// The port to use, given the value of `DSH_WEB_PORT` (`None` when it is not
/// set or not Unicode): the value, trimmed, when it reads as a port number,
/// else the default port.
pub fn resolve_port(raw: Option<&str>) -> (r: u16)
    ensures
        r == port_choice(match raw {
            Some(v) => Some(v@),
            None => None,
        }),
        r == (match raw {
            Some(v) => match parse_u16(trim_ws(v@)) {
                Some(p) => p,
                None => 3080,
            },
            None => 3080,
        }),
{
    match raw {
        Some(v) => match parse_u16_text(trim(v)) {
            Some(p) => p,
            None => DEFAULT_PORT,
        },
        None => DEFAULT_PORT,
    }
}

/// The address of the dsh web UI on `port`.
pub open spec fn dsh_url(port: u16) -> Seq<char> {
    "http://127.0.0.1:"@ + decimal(port as nat) + "/"@
}

/// `http://127.0.0.1:{port}/`.
pub fn url_for(port: u16) -> (r: String)
    ensures
        r@ == dsh_url(port),
        r@ == "http://127.0.0.1:"@ + decimal(port as nat) + "/"@,
{
    let mut s = String::from_str("http://127.0.0.1:");
    s.append(decimal_string(port as u64).as_str());
    s.append("/");
    s
}

/// Whether a host name is this machine or the app's own bundled origin.
pub open spec fn is_local_host(host: Option<Seq<char>>) -> bool {
    match host {
        Some(h) => h == "127.0.0.1"@ || h == "localhost"@ || h == "tauri.localhost"@,
        None => false,
    }
}

/// The view of an optional string slice.
pub open spec fn opt_view(o: Option<&str>) -> Option<Seq<char>> {
    match o {
        Some(s) => Some(s@),
        None => None,
    }
}

/// Whether `host` is `127.0.0.1`, `localhost` or `tauri.localhost`.
pub fn is_local_url(host: Option<&str>) -> (r: bool)
    ensures
        r == is_local_host(opt_view(host)),
        r == (host matches Some(h) && (h@ == "127.0.0.1"@ || h@ == "localhost"@ || h@
            == "tauri.localhost"@)),
{
    match host {
        Some(h) => same_text(h, "127.0.0.1") || same_text(h, "localhost") || same_text(
            h,
            "tauri.localhost",
        ),
        None => false,
    }
}

/// The arguments of `dsh web` for `port`; `--no-open` keeps dsh from opening
/// a browser of its own.
pub open spec fn web_args(port: u16) -> Seq<Seq<char>> {
    seq!["web"@, "--no-open"@, "--port"@, decimal(port as nat)]
}

/// `["web", "--no-open", "--port", port]`.
pub fn dsh_web_args(port: u16) -> (r: Vec<String>)
    ensures
        r.deep_view() == web_args(port),
        r.deep_view() == seq!["web"@, "--no-open"@, "--port"@, decimal(port as nat)],
{
    let mut v: Vec<String> = Vec::new();
    v.push(String::from_str("web"));
    v.push(String::from_str("--no-open"));
    v.push(String::from_str("--port"));
    v.push(decimal_string(port as u64));
    assert(v.deep_view() =~= web_args(port));
    v
}

/// The command line that starts dsh through `PATH`.
pub open spec fn dsh_line(port: u16) -> Seq<char> {
    "dsh "@ + join_with(web_args(port), " "@)
}

/// `dsh web --no-open --port {port}`.
pub fn dsh_command_line(port: u16) -> (r: String)
    ensures
        r@ == dsh_line(port),
        r@ == "dsh "@ + join_with(seq!["web"@, "--no-open"@, "--port"@, decimal(port as nat)], " "@),
{
    let args = dsh_web_args(port);
    String::from_str("dsh ").concat(join_strings(&args, " ").as_str())
}

/// The arguments of `cmd` that run dsh: `/C` and the dsh command line.
pub fn dsh_shell_args(port: u16) -> (r: Vec<String>)
    ensures
        r.deep_view() == seq!["/C"@, dsh_line(port)],
{
    let mut v: Vec<String> = Vec::new();
    v.push(String::from_str("/C"));
    v.push(dsh_command_line(port));
    assert(v.deep_view() =~= seq!["/C"@, dsh_line(port)]);
    v
}

/// The arguments of `node` that run dsh's `bin.js` (`script`) directly.
pub fn node_launch_args(script: String, port: u16) -> (r: Vec<String>)
    ensures
        r.deep_view() == seq![script@] + web_args(port),
{
    let mut v: Vec<String> = Vec::new();
    v.push(script);
    let mut rest = dsh_web_args(port);
    v.append(&mut rest);
    assert(v.deep_view() =~= seq![script@] + web_args(port));
    v
}

/// The directory dsh runs in: `DSH_HOME` when set, else the current directory.
pub fn working_dir(home: Option<String>) -> (r: String)
    ensures
        r@ == (match home {
            Some(h) => h@,
            None => "."@,
        }),
{
    match home {
        Some(h) => h,
        None => String::from_str("."),
    }
}

/// The HTTP request that fetches dsh's front page on `port`.
pub open spec fn probe_text(port: u16) -> Seq<char> {
    "GET / HTTP/1.1\r\nHost: 127.0.0.1:"@ + decimal(port as nat) + "\r\nConnection: close\r\n\r\n"@
}

/// `GET / HTTP/1.1` to `127.0.0.1:{port}`, asking the server to close afterwards.
pub fn probe_request(port: u16) -> (r: String)
    ensures
        r@ == probe_text(port),
        r@ == "GET / HTTP/1.1\r\nHost: 127.0.0.1:"@ + decimal(port as nat)
            + "\r\nConnection: close\r\n\r\n"@,
{
    let mut s = String::from_str("GET / HTTP/1.1\r\nHost: 127.0.0.1:");
    s.append(decimal_string(port as u64).as_str());
    s.append("\r\nConnection: close\r\n\r\n");
    s
}

/// Whether a response is dsh's front page: it holds the element
/// `<title>DeepSeek Harness</title>`. The
/// marker is ASCII, and an ASCII byte in a UTF-8 byte string is always a
/// character of its own, so looking for the marker's bytes finds the same as
/// looking for the marker in the text read lossily from the response.
pub fn is_dsh_response(response: &[u8]) -> (r: bool)
    ensures
        r == bytes_contain(response@, encode_utf8(DSH_MARKER@)),
{
    contains_bytes(response, DSH_MARKER.as_bytes())
}

/// The arguments of `taskkill` that end process `pid` and its whole tree,
/// forcibly.
pub fn taskkill_args(pid: u32) -> (r: Vec<String>)
    ensures
        r.deep_view() == seq!["/PID"@, decimal(pid as nat), "/T"@, "/F"@],
{
    let mut v: Vec<String> = Vec::new();
    v.push(String::from_str("/PID"));
    v.push(decimal_string(pid as u64));
    v.push(String::from_str("/T"));
    v.push(String::from_str("/F"));
    assert(v.deep_view() =~= seq!["/PID"@, decimal(pid as nat), "/T"@, "/F"@]);
    v
}

/// The `cmd /C` line that opens `url` in the default browser on Windows.
pub fn start_command(url: &str) -> (r: String)
    ensures
        r@ == "start \"\" \""@ + url@ + "\""@,
{
    let mut s = String::from_str("start \"\" \"");
    s.append(url);
    s.append("\"");
    s
}

/// Where a navigation of a web view may go.
#[derive(Debug)]
pub enum Navigation {
    /// Load the page in the view.
    Allow,
    /// Keep the view where it is and hand the address to the system browser.
    OpenExternally,
    /// Keep the view where it is.
    Block,
}

/// Whether an address is the app's own bundled page or a local one.
pub open spec fn is_trusted_origin(scheme: Seq<char>, host: Option<Seq<char>>) -> bool {
    scheme == "tauri"@ || is_local_host(host)
}

/// Whether an address with this scheme and host is bundled or local.
pub fn trusted_origin(scheme: &str, host: Option<&str>) -> (r: bool)
    ensures
        r == is_trusted_origin(scheme@, opt_view(host)),
{
    same_text(scheme, "tauri") || is_local_url(host)
}

/// What the content view does with a navigation: bundled and local pages
/// load, other web addresses go to the system browser, anything else stays put.
pub open spec fn content_navigation_of(scheme: Seq<char>, host: Option<Seq<char>>) -> Navigation {
    if is_trusted_origin(scheme, host) {
        Navigation::Allow
    } else if scheme == "http"@ || scheme == "https"@ {
        Navigation::OpenExternally
    } else {
        Navigation::Block
    }
}

/// The content view's navigation policy: nothing but bundled and local pages
/// loads in the view.
pub fn content_navigation(scheme: &str, host: Option<&str>) -> (r: Navigation)
    ensures
        r == content_navigation_of(scheme@, opt_view(host)),
        !is_trusted_origin(scheme@, opt_view(host)) ==> !(r is Allow),
        (scheme@ == "tauri"@ || (host matches Some(h) && (h@ == "127.0.0.1"@ || h@ == "localhost"@
            || h@ == "tauri.localhost"@))) ==> r is Allow,
        !(scheme@ == "tauri"@ || (host matches Some(h) && (h@ == "127.0.0.1"@ || h@ == "localhost"@
            || h@ == "tauri.localhost"@))) ==> (if scheme@ == "http"@ || scheme@ == "https"@ {
            r is OpenExternally
        } else {
            r is Block
        }),
{
    if trusted_origin(scheme, host) {
        Navigation::Allow
    } else if same_text(scheme, "http") || same_text(scheme, "https") {
        Navigation::OpenExternally
    } else {
        Navigation::Block
    }
}

/// The chrome view's navigation policy: only bundled and local pages load.
pub fn chrome_navigation(scheme: &str, host: Option<&str>) -> (r: Navigation)
    ensures
        r == (if is_trusted_origin(scheme@, opt_view(host)) {
            Navigation::Allow
        } else {
            Navigation::Block
        }),
        r is Allow <==> (scheme@ == "tauri"@ || (host matches Some(h) && (h@ == "127.0.0.1"@ || h@
            == "localhost"@ || h@ == "tauri.localhost"@))),
        !(r is OpenExternally),
{
    if trusted_origin(scheme, host) {
        Navigation::Allow
    } else {
        Navigation::Block
    }
}

/// The label of the trusted chrome view.
pub const CHROME_WEBVIEW_LABEL: &'static str = "chrome";

/// The label of the content view.
pub const CONTENT_WEBVIEW_LABEL: &'static str = "content";

/// Whether a command may run for the web view labelled `label` whose page
/// has this scheme and host: only the chrome view on a bundled or local page.
pub fn check_chrome_origin(label: &str, scheme: &str, host: Option<&str>) -> (r: Result<(), String>)
    ensures
        r is Ok <==> (label@ == CHROME_WEBVIEW_LABEL@ && is_trusted_origin(scheme@, opt_view(host))),
        r is Ok <==> (label@ == "chrome"@ && (scheme@ == "tauri"@ || (host matches Some(h) && (h@
            == "127.0.0.1"@ || h@ == "localhost"@ || h@ == "tauri.localhost"@)))),
        r matches Err(m) ==> m@ == "该操作只允许来自本地顶栏"@,
{
    let bundled = trusted_origin(scheme, host);
    if same_text(label, CHROME_WEBVIEW_LABEL) && bundled {
        Ok(())
    } else {
        Err(String::from_str("该操作只允许来自本地顶栏"))
    }
}

} // verus!
