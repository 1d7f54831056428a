//! The dev HTTP server model: addresses, serving modes, the reload-script
//! injection into HTML bodies, the reload client script, readiness polling
//! of the proxy target, and the WebSocket session set.
//!
//! The actual sockets live outside the library; everything that decides
//! *what* to send or *when* to act is here.

use vstd::prelude::*;
use vstd::string::*;

verus! {

// ===== Addresses ===========================================================

/// An IPv4 socket address as plain values.
#[derive(Debug, Clone, Copy, PartialEq, Eq, Structural)]
pub struct Addr {
    pub a: u8,
    pub b: u8,
    pub c: u8,
    pub d: u8,
    pub port: u16,
}

/// The default bind address of the main server: 127.0.0.1:8030.
pub fn default_addr() -> (r: Addr)
    ensures
        r == (Addr { a: 127, b: 0, c: 0, d: 0, port: 8030 }),
{
    Addr { a: 127, b: 0, c: 0, d: 0, port: 8030 }
}

/// The control endpoint bound beside a main address: the next port.
pub fn control_addr(main: Addr) -> (r: Addr)
    requires
        main.port < 0xffff,
    ensures
        r == (Addr { port: (main.port + 1) as u16, ..main }),
{
    Addr { a: main.a, b: main.b, c: main.c, d: main.d, port: main.port + 1 }
}

// ===== What this server does ===============================================

/// What the main server does with requests.
#[derive(Debug, Clone)]
pub enum Mode {
    /// Forward requests verbatim to the target and pass its responses back,
    /// possibly with the reload script injected.
    RevProxy { target: Addr },
    /// Serve static files from the given root.
    FileServer { root: String },
}

/// Notable moments in the life of the dev server, for the runtime's
/// callback.
#[non_exhaustive]
#[derive(Debug, Clone, Copy, PartialEq, Eq, Structural)]
pub enum Event {
    /// The main HTTP server is listening.
    MainServerStarted,
    /// The control endpoint is listening.
    ControlServerStarted,
    /// A reload was delivered to all active sessions.
    Reload,
}

// ===== Decimal digits ======================================================

/// The decimal digit characters of a non-negative number.
pub open spec fn spec_digits(n: int) -> Seq<char>
    decreases n,
{
    if n < 10 {
        seq![spec_digit_char(n)]
    } else {
        spec_digits(n / 10) + seq![spec_digit_char(n % 10)]
    }
}

/// The character for one decimal digit.
pub open spec fn spec_digit_char(d: int) -> char {
    if d == 0 {
        '0'
    } else if d == 1 {
        '1'
    } else if d == 2 {
        '2'
    } else if d == 3 {
        '3'
    } else if d == 4 {
        '4'
    } else if d == 5 {
        '5'
    } else if d == 6 {
        '6'
    } else if d == 7 {
        '7'
    } else if d == 8 {
        '8'
    } else {
        '9'
    }
}

/// One digit as a string slice.
fn digit_str(d: u64) -> (r: &'static str)
    requires
        d < 10,
    ensures
        r@ == seq![spec_digit_char(d as int)],
{
    proof {
        reveal_strlit("0");
        reveal_strlit("1");
        reveal_strlit("2");
        reveal_strlit("3");
        reveal_strlit("4");
        reveal_strlit("5");
        reveal_strlit("6");
        reveal_strlit("7");
        reveal_strlit("8");
        reveal_strlit("9");
    }
    let r = match d {
        0 => "0",
        1 => "1",
        2 => "2",
        3 => "3",
        4 => "4",
        5 => "5",
        6 => "6",
        7 => "7",
        8 => "8",
        _ => "9",
    };
    proof {
        assert(r@ =~= seq![spec_digit_char(d as int)]);
    }
    r
}

/// Appends the decimal digits of `n` to `out`.
pub fn push_digits(n: u64, out: &mut String)
    ensures
        final(out)@ == old(out)@ + spec_digits(n as int),
    decreases n,
{
    if n < 10 {
        out.append(digit_str(n));
    } else {
        proof {
            assert(n / 10 < n && n / 10 >= 1) by (nonlinear_arith)
                requires
                    n >= 10,
            ;
        }
        push_digits(n / 10, out);
        out.append(digit_str(n % 10));
        proof {
            assert(old(out)@ + spec_digits(n as int) =~= old(out)@ + spec_digits(n as int / 10)
                + seq![spec_digit_char(n as int % 10)]);
        }
    }
}

/// The decimal representation of a number.
pub fn digits_string(n: u64) -> (r: String)
    ensures
        r@ == spec_digits(n as int),
{
    let mut out = String::new();
    push_digits(n, &mut out);
    proof {
        assert(out@ =~= spec_digits(n as int));
    }
    out
}

/// The textual form of an address: `a.b.c.d:port`.
pub open spec fn spec_addr_chars(addr: Addr) -> Seq<char> {
    spec_digits(addr.a as int) + seq!['.'] + spec_digits(addr.b as int) + seq!['.'] + spec_digits(
        addr.c as int,
    ) + seq!['.'] + spec_digits(addr.d as int) + seq![':'] + spec_digits(addr.port as int)
}

/// Formats an address as `a.b.c.d:port`.
pub fn addr_string(addr: Addr) -> (r: String)
    ensures
        r@ == spec_addr_chars(addr),
{
    proof {
        reveal_strlit(".");
        reveal_strlit(":");
        assert("."@ =~= seq!['.']);
        assert(":"@ =~= seq![':']);
    }
    let mut out = String::new();
    push_digits(addr.a as u64, &mut out);
    out.append(".");
    push_digits(addr.b as u64, &mut out);
    out.append(".");
    push_digits(addr.c as u64, &mut out);
    out.append(".");
    push_digits(addr.d as u64, &mut out);
    out.append(":");
    push_digits(addr.port as u64, &mut out);
    proof {
        assert(out@ =~= spec_addr_chars(addr));
    }
    out
}

/// The URI a proxied request is rewritten to: the scheme and authority are
/// replaced by the target's, the path and query are kept.
pub fn proxy_uri(target: Addr, path_and_query: &str) -> (r: String)
    ensures
        r@ == "http://"@ + spec_addr_chars(target) + path_and_query@,
{
    let mut out = String::from_str("http://");
    let addr = addr_string(target);
    out.append(addr.as_str());
    out.append(path_and_query);
    proof {
        assert(out@ =~= "http://"@ + spec_addr_chars(target) + path_and_query@);
    }
    out
}

// ===== Reload client script ================================================

/// Opening part of the injected script, up to the control port.
pub fn script_head() -> (r: &'static str)
    ensures
        r@ == spec_script_head(),
{
    "<script>\n(() => {\n  const connect = () => {\n    const ws = new WebSocket(\"ws://127.0.0.1:"
}

/// Closing part of the injected script, after the control port.
pub fn script_tail() -> (r: &'static str)
    ensures
        r@ == spec_script_tail(),
{
    "/\");\n    ws.onclose = () => setTimeout(() => {\n      const retry = new WebSocket(ws.url);\n      retry.onopen = () => location.reload();\n      retry.onclose = () => connect();\n    }, 200);\n  };\n  connect();\n})();\n</script>"
}

/// The opening part of the script, as characters.
pub open spec fn spec_script_head() -> Seq<char> {
    "<script>\n(() => {\n  const connect = () => {\n    const ws = new WebSocket(\"ws://127.0.0.1:"@
}

/// The closing part of the script, as characters.
pub open spec fn spec_script_tail() -> Seq<char> {
    "/\");\n    ws.onclose = () => setTimeout(() => {\n      const retry = new WebSocket(ws.url);\n      retry.onopen = () => location.reload();\n      retry.onclose = () => connect();\n    }, 200);\n  };\n  connect();\n})();\n</script>"@
}

/// The full reload client script for a control endpoint on `port`.
pub open spec fn spec_reload_script(port: u16) -> Seq<char> {
    spec_script_head() + spec_digits(port as int) + spec_script_tail()
}

/// Builds the reload client script, with the control port spliced in.
pub fn reload_script(port: u16) -> (r: String)
    ensures
        r@ == spec_reload_script(port),
{
    let mut out = String::from_str(script_head());
    push_digits(port as u64, &mut out);
    out.append(script_tail());
    proof {
        assert(out@ =~= spec_reload_script(port));
    }
    out
}

// ===== Byte matching =======================================================

/// `pat` occurs in `b` starting at index `i`.
pub open spec fn match_at(b: Seq<u8>, pat: Seq<u8>, i: int) -> bool {
    0 <= i && i + pat.len() <= b.len() && b.subrange(i, i + pat.len()) == pat
}

/// `pat` occurs somewhere in `b`.
pub open spec fn contains_seq(b: Seq<u8>, pat: Seq<u8>) -> bool {
    exists|i: int| match_at(b, pat, i)
}

/// Whether `pat` occurs in `b` at index `i`.
pub fn bytes_match_at(b: &[u8], pat: &[u8], i: usize) -> (r: bool)
    ensures
        r == match_at(b@, pat@, i as int),
{
    let n = b.len();
    let m = pat.len();
    if !(m <= n && i <= n - m) {
        proof {
            assert(!match_at(b@, pat@, i as int));
        }
        return false;
    }
    let mut k: usize = 0;
    while k < m
        invariant
            k <= m,
            m == pat@.len(),
            n == b@.len(),
            m <= n,
            i <= n - m,
            forall|j: int| 0 <= j < k ==> b@[i + j] == pat@[j],
        decreases m - k,
    {
        if b[i + k] != pat[k] {
            proof {
                if match_at(b@, pat@, i as int) {
                    assert(b@.subrange(i as int, i as int + m)[k as int] == pat@[k as int]);
                }
            }
            return false;
        }
        k = k + 1;
    }
    proof {
        assert(b@.subrange(i as int, i as int + m) =~= pat@);
    }
    true
}

/// Whether `pat` occurs anywhere in `b`.
pub fn bytes_contains(b: &[u8], pat: &[u8]) -> (r: bool)
    ensures
        r == contains_seq(b@, pat@),
{
    let n = b.len();
    let m = pat.len();
    if m > n {
        proof {
            assert(forall|i: int| !match_at(b@, pat@, i));
        }
        return false;
    }
    if m == 0 {
        proof {
            assert(b@.subrange(0, 0) =~= pat@);
            assert(match_at(b@, pat@, 0));
        }
        return true;
    }
    let mut i: usize = 0;
    while i <= n - m
        invariant
            0 < m <= n,
            n == b@.len(),
            m == pat@.len(),
            i <= n - m + 1,
            forall|j: int| 0 <= j < i ==> !match_at(b@, pat@, j),
        decreases n - m + 1 - i,
    {
        if bytes_match_at(b, pat, i) {
            return true;
        }
        i = i + 1;
    }
    proof {
        assert forall|j: int| !match_at(b@, pat@, j) by {
            if j > n - m {
                assert(!match_at(b@, pat@, j));
            }
        }
    }
    false
}

// ===== Injection ===========================================================

/// The bytes of `</body>`.
pub open spec fn body_close_pat() -> Seq<u8> {
    seq![60u8, 47u8, 98u8, 111u8, 100u8, 121u8, 62u8]
}

/// The bytes of `<!--`.
pub open spec fn comment_open_pat() -> Seq<u8> {
    seq![60u8, 33u8, 45u8, 45u8]
}

/// The bytes of `-->`.
pub open spec fn comment_close_pat() -> Seq<u8> {
    seq![45u8, 45u8, 62u8]
}

/// The bytes of `</body>` as a value.
pub fn body_close_bytes() -> (r: Vec<u8>)
    ensures
        r@ == body_close_pat(),
{
    let mut v: Vec<u8> = Vec::new();
    v.push(60);
    v.push(47);
    v.push(98);
    v.push(111);
    v.push(100);
    v.push(121);
    v.push(62);
    proof {
        assert(v@ =~= body_close_pat());
    }
    v
}

/// The bytes of `<!--` as a value.
fn comment_open_bytes() -> (r: Vec<u8>)
    ensures
        r@ == comment_open_pat(),
{
    let mut v: Vec<u8> = Vec::new();
    v.push(60);
    v.push(33);
    v.push(45);
    v.push(45);
    proof {
        assert(v@ =~= comment_open_pat());
    }
    v
}

/// The bytes of `-->` as a value.
fn comment_close_bytes() -> (r: Vec<u8>)
    ensures
        r@ == comment_close_pat(),
{
    let mut v: Vec<u8> = Vec::new();
    v.push(45);
    v.push(45);
    v.push(62);
    proof {
        assert(v@ =~= comment_close_pat());
    }
    v
}

/// Whether the scan is inside an HTML comment just before reading index
/// `i`: a single toggle between `<!--` and `-->`, not nested.
pub open spec fn in_comment_at(b: Seq<u8>, i: int) -> bool
    decreases i,
{
    if i <= 0 {
        false
    } else {
        let prev = in_comment_at(b, i - 1);
        if !prev && match_at(b, comment_open_pat(), i - 1) {
            true
        } else if prev && match_at(b, comment_close_pat(), i - 1) {
            false
        } else {
            prev
        }
    }
}

/// The last occurrence of `</body>` outside comments strictly before `n`.
pub open spec fn last_body_close_before(b: Seq<u8>, n: int) -> Option<int>
    decreases n,
{
    if n <= 0 {
        None
    } else if !in_comment_at(b, n - 1) && match_at(b, body_close_pat(), n - 1) {
        Some(n - 1)
    } else {
        last_body_close_before(b, n - 1)
    }
}

/// Where the reload script goes: immediately before the last `</body>`
/// outside comments, or at the very end when there is none.
pub open spec fn insert_index(b: Seq<u8>) -> int {
    match last_body_close_before(b, b.len() as int) {
        Some(i) => i,
        None => b.len() as int,
    }
}

/// The insertion point always lies within the body.
pub proof fn lemma_insert_index_in_range(b: Seq<u8>)
    ensures
        0 <= insert_index(b) <= b.len(),
{
    lemma_last_body_close_in_range(b, b.len() as int);
}

/// A found occurrence lies inside the scanned prefix.
proof fn lemma_last_body_close_in_range(b: Seq<u8>, n: int)
    requires
        n <= b.len(),
    ensures
        last_body_close_before(b, n) matches Some(i) ==> 0 <= i < n,
    decreases n,
{
    if n > 0 {
        lemma_last_body_close_in_range(b, n - 1);
    }
}

/// Finds the insertion index for the reload script in an HTML body.
pub fn find_insert_index(input: &[u8]) -> (r: usize)
    ensures
        r as int == insert_index(input@),
{
    let body_pat = body_close_bytes();
    let open_pat = comment_open_bytes();
    let close_pat = comment_close_bytes();
    let n = input.len();
    let mut found: Option<usize> = None;
    let mut in_comment = false;
    let mut i: usize = 0;
    while i < n
        invariant
            i <= n,
            n == input@.len(),
            body_pat@ == body_close_pat(),
            open_pat@ == comment_open_pat(),
            close_pat@ == comment_close_pat(),
            in_comment == in_comment_at(input@, i as int),
            match found {
                Some(j) => last_body_close_before(input@, i as int) == Some(j as int),
                None => last_body_close_before(input@, i as int) is None,
            },
        decreases n - i,
    {
        if !in_comment && bytes_match_at(input, body_pat.as_slice(), i) {
            found = Some(i);
        } else if !in_comment && bytes_match_at(input, open_pat.as_slice(), i) {
            in_comment = true;
        } else if in_comment && bytes_match_at(input, close_pat.as_slice(), i) {
            in_comment = false;
        }
        i = i + 1;
    }
    match found {
        Some(j) => j,
        None => n,
    }
}

/// `b` with `s` spliced in at the insertion point.
pub open spec fn spec_inject_at(b: Seq<u8>, s: Seq<u8>) -> Seq<u8> {
    b.take(insert_index(b)) + s + b.skip(insert_index(b))
}

/// The injection rule: a body that already carries the script is left
/// alone; otherwise the script goes immediately before the last `</body>`
/// outside comments, or at the end when there is none.
pub open spec fn spec_inject(b: Seq<u8>, s: Seq<u8>) -> Seq<u8> {
    if contains_seq(b, s) {
        b
    } else {
        spec_inject_at(b, s)
    }
}

/// Injects the reload script `script` into the HTML body `input`.
pub fn inject_html(input: &[u8], script: &[u8]) -> (r: Vec<u8>)
    ensures
        r@ == spec_inject(input@, script@),
{
    let n = input.len();
    if bytes_contains(input, script) {
        let mut out: Vec<u8> = Vec::new();
        let mut i: usize = 0;
        while i < n
            invariant
                i <= n,
                n == input@.len(),
                out@ == input@.take(i as int),
            decreases n - i,
        {
            out.push(input[i]);
            proof {
                assert(out@ =~= input@.take(i + 1));
            }
            i = i + 1;
        }
        proof {
            assert(out@ =~= input@);
        }
        return out;
    }
    proof {
        lemma_insert_index_in_range(input@);
    }
    let idx = find_insert_index(input);
    let m = script.len();
    let mut out: Vec<u8> = Vec::new();
    let mut i: usize = 0;
    while i < idx
        invariant
            i <= idx <= n,
            n == input@.len(),
            out@ == input@.take(i as int),
        decreases idx - i,
    {
        out.push(input[i]);
        proof {
            assert(out@ =~= input@.take(i + 1));
        }
        i = i + 1;
    }
    let mut k: usize = 0;
    while k < m
        invariant
            k <= m,
            m == script@.len(),
            idx <= n,
            n == input@.len(),
            out@ == input@.take(idx as int) + script@.take(k as int),
        decreases m - k,
    {
        out.push(script[k]);
        proof {
            assert(out@ =~= input@.take(idx as int) + script@.take(k + 1));
        }
        k = k + 1;
    }
    let mut j: usize = idx;
    while j < n
        invariant
            idx <= j <= n,
            n == input@.len(),
            m == script@.len(),
            out@ == input@.take(idx as int) + script@ + input@.subrange(idx as int, j as int),
        decreases n - j,
    {
        out.push(input[j]);
        proof {
            assert(out@ =~= input@.take(idx as int) + script@ + input@.subrange(
                idx as int,
                j + 1,
            ));
        }
        j = j + 1;
    }
    proof {
        assert(script@.take(m as int) =~= script@);
        assert(out@ =~= spec_inject_at(input@, script@));
    }
    out
}

/// Injection never needs doing twice: injecting into a body that has been
/// injected into changes nothing, so repeated injection does not duplicate
/// the script.
pub proof fn lemma_inject_idempotent(b: Seq<u8>, s: Seq<u8>)
    ensures
        spec_inject(spec_inject(b, s), s) == spec_inject(b, s),
{
    if contains_seq(b, s) {
    } else {
        let r = spec_inject_at(b, s);
        lemma_insert_index_in_range(b);
        let i = insert_index(b);
        assert(r.subrange(i, i + s.len()) =~= s);
        assert(match_at(r, s, i));
        assert(contains_seq(r, s));
    }
}

// ===== Response rewriting ==================================================

/// The bytes of `text/html`.
pub open spec fn html_content_type_pat() -> Seq<u8> {
    seq![116u8, 101u8, 120u8, 116u8, 47u8, 104u8, 116u8, 109u8, 108u8]
}

/// Whether a `content-type` header value begins with `text/html`, which
/// decides whether the body is rewritten.
pub fn is_html_content_type(ct: &[u8]) -> (r: bool)
    ensures
        r == match_at(ct@, html_content_type_pat(), 0),
{
    let mut pat: Vec<u8> = Vec::new();
    pat.push(116);
    pat.push(101);
    pat.push(120);
    pat.push(116);
    pat.push(47);
    pat.push(104);
    pat.push(116);
    pat.push(109);
    pat.push(108);
    proof {
        assert(pat@ =~= html_content_type_pat());
    }
    bytes_match_at(ct, pat.as_slice(), 0)
}

/// The synthesized HTML page reported when the proxy target cannot be
/// reached. It embeds the reload script so the page recovers on its own
/// once the target is back.
pub fn error_page(msg: &str, script: &str) -> (r: String)
    ensures
        r@ == "<html>\n  <head><title>Proxy target unreachable</title></head>\n  <body>\n    <h1>Failed to connect to the proxy target</h1>\n    <pre>"@
            + msg@ + "</pre>\n    "@ + script@ + "\n  </body>\n</html>"@,
{
    let mut out = String::from_str(
        "<html>\n  <head><title>Proxy target unreachable</title></head>\n  <body>\n    <h1>Failed to connect to the proxy target</h1>\n    <pre>",
    );
    out.append(msg);
    out.append("</pre>\n    ");
    out.append(script);
    out.append("\n  </body>\n</html>");
    proof {
        assert(out@ =~= "<html>\n  <head><title>Proxy target unreachable</title></head>\n  <body>\n    <h1>Failed to connect to the proxy target</h1>\n    <pre>"@
            + msg@ + "</pre>\n    "@ + script@ + "\n  </body>\n</html>"@);
    }
    out
}

// ===== Proxy readiness and the session set =================================

/// How long a connect probe waits before it counts as failed, in
/// milliseconds.
pub const READY_POLL_PERIOD_MS: u64 = 20;

/// How long reload delivery waits for the proxy target in all, in
/// milliseconds.
pub const READY_WAIT_TIMEOUT_MS: u64 = 30000;

/// What the reload worker does after one connect probe.
#[derive(Debug, Clone, Copy, PartialEq, Eq, Structural)]
pub enum ReadyDecision {
    /// The target accepted a connection: deliver the reload.
    Fire,
    /// Not reachable yet and within the deadline: probe again after the
    /// poll period.
    Wait,
    /// The deadline passed: warn and skip this reload.
    GiveUp,
}

/// Decides what to do after a connect probe to the proxy target:
/// fire on success, keep polling until the deadline, then give up.
pub fn readiness_step(connected: bool, elapsed_ms: u64) -> (r: ReadyDecision)
    ensures
        connected ==> r == ReadyDecision::Fire,
        !connected && elapsed_ms < READY_WAIT_TIMEOUT_MS ==> r == ReadyDecision::Wait,
        !connected && elapsed_ms >= READY_WAIT_TIMEOUT_MS ==> r == ReadyDecision::GiveUp,
{
    if connected {
        ReadyDecision::Fire
    } else if elapsed_ms < READY_WAIT_TIMEOUT_MS {
        ReadyDecision::Wait
    } else {
        ReadyDecision::GiveUp
    }
}

/// The set of open WebSocket reload sessions, by identifier. Dropping a
/// session's connection is the reload signal, so delivering a reload means
/// clearing the set.
#[derive(Debug)]
pub struct Sessions {
    pub ids: Vec<u64>,
}

impl Sessions {
    /// No sessions yet.
    pub fn new() -> (r: Sessions)
        ensures
            r.ids@ == Seq::<u64>::empty(),
    {
        Sessions { ids: Vec::new() }
    }

    /// A newly accepted session joins the set.
    pub fn accept(&mut self, id: u64)
        ensures
            final(self).ids@ == old(self).ids@.push(id),
    {
        self.ids.push(id);
    }

    /// Applies a readiness decision to the session set: only `Fire` delivers
    /// the reload (dropping every session); `Wait` and `GiveUp` leave all
    /// sessions open. Returns whether the reload was delivered.
    pub fn apply_reload(&mut self, decision: ReadyDecision) -> (fired: bool)
        ensures
            fired == (decision == ReadyDecision::Fire),
            fired ==> final(self).ids@ == Seq::<u64>::empty(),
            !fired ==> final(self).ids@ == old(self).ids@,
    {
        match decision {
            ReadyDecision::Fire => {
                self.ids.clear();
                true
            },
            _ => false,
        }
    }
}

} // verus!
