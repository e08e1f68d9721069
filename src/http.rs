//! Request routing and response framing for the toy web server. The server
//! itself (sockets, files, sleeping) stays with the runtime; this module
//! decides what to answer and spells the answer out.
use vstd::prelude::*;
use vstd::string::{StringExecFns, StringSliceAdditionalSpecFns};

verus! {

/// The request line that asks for the home page.
pub const HOME_REQUEST: &'static str = "GET / HTTP/1.1\r\n";

/// The request line that asks for the home page after a delay.
pub const SLOW_REQUEST: &'static str = "GET /sleep HTTP/1.1\r\n";

/// Seconds the slow route waits before answering.
pub const SLOW_DELAY_SECS: u64 = 5;

/// Where a request is sent.
#[derive(Debug, Clone, Copy, PartialEq, Eq, Structural)]
pub enum Route {
    /// The home page.
    Home,
    /// The home page, served after a delay.
    SlowHome,
    /// Anything else.
    NotFound,
}

/// Whether `bytes` starts with `prefix`.
pub open spec fn has_prefix(bytes: Seq<u8>, prefix: Seq<u8>) -> bool {
    prefix.len() <= bytes.len() && bytes.subrange(0, prefix.len() as int) == prefix
}

/// The route a request with these leading bytes takes.
pub open spec fn route_of(request: Seq<u8>) -> Route {
    if has_prefix(request, HOME_REQUEST.spec_bytes()) {
        Route::Home
    } else if has_prefix(request, SLOW_REQUEST.spec_bytes()) {
        Route::SlowHome
    } else {
        Route::NotFound
    }
}

/// Whether `bytes` starts with the bytes of `prefix`.
pub fn starts_with(bytes: &[u8], prefix: &str) -> (r: bool)
    ensures
        r == has_prefix(bytes@, prefix.spec_bytes()),
{
    let p = prefix.as_bytes();
    if p.len() > bytes.len() {
        return false;
    }
    let mut i: usize = 0;
    while i < p.len()
        invariant
            p@ == prefix.spec_bytes(),
            p.len() <= bytes.len(),
            i <= p.len(),
            bytes@.subrange(0, i as int) == p@.subrange(0, i as int),
        decreases p.len() - i,
    {
        if bytes[i] != p[i] {
            assert(bytes@.subrange(0, p@.len() as int)[i as int] != p@[i as int]);
            return false;
        }
        assert(bytes@.subrange(0, i + 1) =~= bytes@.subrange(0, i as int).push(bytes@[i as int]));
        assert(p@.subrange(0, i + 1) =~= p@.subrange(0, i as int).push(p@[i as int]));
        i = i + 1;
    }
    assert(p@.subrange(0, i as int) =~= p@);
    true
}

/// Routes a request by its first bytes.
pub fn route(request: &[u8]) -> (r: Route)
    ensures
        r == route_of(request@),
{
    if starts_with(request, HOME_REQUEST) {
        Route::Home
    } else if starts_with(request, SLOW_REQUEST) {
        Route::SlowHome
    } else {
        Route::NotFound
    }
}

impl Route {
    /// The status line of the answer.
    pub fn status_line(&self) -> (r: &'static str)
        ensures
            r@ == (if *self == Route::NotFound { "HTTP/1.1 404 NOT FOUND"@ } else { "HTTP/1.1 200 OK"@ }),
    {
        match self {
            Route::NotFound => "HTTP/1.1 404 NOT FOUND",
            _ => "HTTP/1.1 200 OK",
        }
    }

    /// The page that is sent back.
    pub fn file_name(&self) -> (r: &'static str)
        ensures
            r@ == (if *self == Route::NotFound { "./front-end/not-found.html"@ } else { "./front-end/hello.html"@ }),
    {
        match self {
            Route::NotFound => "./front-end/not-found.html",
            _ => "./front-end/hello.html",
        }
    }

    /// Seconds to wait before answering.
    pub fn delay_secs(&self) -> (r: u64)
        ensures
            r == (if *self == Route::SlowHome { SLOW_DELAY_SECS } else { 0 }),
    {
        match self {
            Route::SlowHome => SLOW_DELAY_SECS,
            _ => 0,
        }
    }
}

/// The character of a decimal digit.
pub open spec fn digit_char(d: nat) -> char {
    if d == 0 { '0' } else if d == 1 { '1' } else if d == 2 { '2' } else if d == 3 { '3' }
    else if d == 4 { '4' } else if d == 5 { '5' } else if d == 6 { '6' } else if d == 7 { '7' }
    else if d == 8 { '8' } else { '9' }
}

/// The decimal notation of `n`, without leading zeros.
pub open spec fn decimal(n: nat) -> Seq<char>
    decreases n,
{
    if n < 10 {
        seq![digit_char(n)]
    } else {
        decimal(n / 10).push(digit_char(n % 10))
    }
}

fn digit_str(d: usize) -> (r: &'static str)
    requires
        d < 10,
    ensures
        r@ == seq![digit_char(d as nat)],
{
    proof {
        reveal_strlit("0"); reveal_strlit("1"); reveal_strlit("2"); reveal_strlit("3");
        reveal_strlit("4"); reveal_strlit("5"); reveal_strlit("6"); reveal_strlit("7");
        reveal_strlit("8"); reveal_strlit("9");
    }
    match d {
        0 => "0",
        1 => "1",
        2 => "2",
        3 => "3",
        4 => "4",
        5 => "5",
        6 => "6",
        7 => "7",
        8 => "8",
        _ => "9",
    }
}

/// The decimal notation of `n`.
pub fn decimal_string(n: usize) -> (r: String)
    ensures
        r@ == decimal(n as nat),
    decreases n,
{
    if n < 10 {
        String::from_str(digit_str(n))
    } else {
        let mut s = decimal_string(n / 10);
        s.append(digit_str(n % 10));
        s
    }
}

/// The full answer: status line, a `Content-Length` header giving the byte
/// length of `contents`, a blank line, then `contents`.
pub fn response(status_line: &str, contents: &str) -> (r: String)
    ensures
        r@ == status_line@ + "\r\nContent-Length: "@ + decimal(contents.len() as nat) + "\r\n\r\n"@
            + contents@,
{
    let mut r = String::from_str(status_line);
    r.append("\r\nContent-Length: ");
    let len = decimal_string(contents.len());
    r.append(len.as_str());
    r.append("\r\n\r\n");
    r.append(contents);
    r
}

} // verus!
