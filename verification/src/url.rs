//! Base-URL values, bound addresses, and their textual forms.

use vstd::prelude::*;
use vstd::string::StringExecFns;

verus! {

/// The decimal digit character for a digit value `d < 10`.
pub open spec fn dec_digit_char(d: nat) -> char {
    if d == 0 {
        '0'
    } else if d == 1 {
        '1'
    } else if d == 2 {
        '2'
    } else if d == 3 {
        '3'
    } else if d == 4 {
        '4'
    } else if d == 5 {
        '5'
    } else if d == 6 {
        '6'
    } else if d == 7 {
        '7'
    } else if d == 8 {
        '8'
    } else {
        '9'
    }
}

/// The decimal representation of `n`, most significant digit first,
/// without leading zeroes (`0` is rendered as `"0"`).
pub open spec fn dec_str(n: nat) -> Seq<char>
    decreases n,
{
    if n < 10 {
        seq![dec_digit_char(n)]
    } else {
        dec_str(n / 10) + seq![dec_digit_char(n % 10)]
    }
}

/// The one-character string for a digit value.
fn digit_str(d: u16) -> (r: &'static str)
    requires
        d < 10,
    ensures
        r@ == seq![dec_digit_char(d as nat)],
{
    proof {
        reveal_strlit("0");
        reveal_strlit("1");
        reveal_strlit("2");
        reveal_strlit("3");
        reveal_strlit("4");
        reveal_strlit("5");
        reveal_strlit("6");
        reveal_strlit("7");
        reveal_strlit("8");
        reveal_strlit("9");
    }
    let r: &'static str = match d {
        0 => "0",
        1 => "1",
        2 => "2",
        3 => "3",
        4 => "4",
        5 => "5",
        6 => "6",
        7 => "7",
        8 => "8",
        _ => "9",
    };
    proof {
        assert(r@ =~= seq![dec_digit_char(d as nat)]);
    }
    r
}

/// Append the decimal form of `n` to `out`.
fn push_dec(n: u16, out: &mut String)
    ensures
        final(out)@ == old(out)@ + dec_str(n as nat),
    decreases n,
{
    if n >= 10 {
        push_dec(n / 10, out);
        out.append(digit_str(n % 10));
        proof {
            assert(out@ =~= old(out)@ + dec_str(n as nat));
        }
    } else {
        out.append(digit_str(n));
    }
}

/// The host and port a listener is bound to, as plain values.
///
/// `host` is the textual form of the IP address, bracketed for IPv6 the way
/// a socket address is printed, so that `http://<host>:<port>` is a valid URL.
#[derive(Debug)]
pub struct BoundAddr {
    /// Textual form of the host (IP address).
    pub host: String,
    /// The port, as assigned by the operating system.
    pub port: u16,
}

/// An absolute URL, held as its canonical text.
#[derive(Debug)]
pub struct BaseUrl {
    text: String,
}

impl View for BaseUrl {
    type V = Seq<char>;

    closed spec fn view(&self) -> Seq<char> {
        self.text@
    }
}

/// The URL synthesized from a bound address: `http://<host>:<port>`.
pub open spec fn synthesized_url(host: Seq<char>, port: u16) -> Seq<char> {
    "http://"@ + host + ":"@ + dec_str(port as nat)
}

impl BaseUrl {
    /// Wrap a URL given as text.
    pub fn new(text: String) -> (r: BaseUrl)
        ensures
            r@ == text@,
    {
        BaseUrl { text }
    }

    /// The URL's text.
    pub fn as_str(&self) -> (r: &str)
        ensures
            r@ == self@,
    {
        self.text.as_str()
    }

    /// A copy of this URL.
    pub fn duplicate(&self) -> (r: BaseUrl)
        ensures
            r@ == self@,
    {
        BaseUrl { text: self.text.clone() }
    }
}

impl BoundAddr {
    /// Render the URL the server is reachable at when nothing better is
    /// known: `http://<host>:<port>`.
    pub fn to_http_url(&self) -> (r: BaseUrl)
        ensures
            r@ == synthesized_url(self.host@, self.port),
    {
        let mut text = String::new();
        text.append("http://");
        text.append(self.host.as_str());
        text.append(":");
        push_dec(self.port, &mut text);
        proof {
            assert(text@ =~= synthesized_url(self.host@, self.port));
        }
        BaseUrl { text }
    }
}

/// The outcome of parsing `s` as a URI with the `http` crate: the canonical
/// text of the parsed URI, or the text of the parse diagnostic.
pub uninterp spec fn uri_parse(s: Seq<char>) -> Result<Seq<char>, Seq<char>>;

/// Relies on `http::Uri`'s `FromStr` and `Display` impls: whether a string
/// parses as a URI, the canonical text of the parsed URI, and the text of
/// the parse diagnostic are all functions of the input string alone.
#[verifier::external_body]
pub(crate) fn parse_uri(s: &str) -> (r: Result<String, String>)
    ensures
        r is Ok <==> uri_parse(s@) is Ok,
        r matches Ok(t) ==> uri_parse(s@) matches Ok(u) && t@ == u,
        r matches Err(e) ==> uri_parse(s@) matches Err(u) && e@ == u,
{
    match s.parse::<http::Uri>() {
        Ok(uri) => Ok(uri.to_string()),
        Err(err) => Err(err.to_string()),
    }
}

} // verus!
