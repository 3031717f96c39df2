//! The page that the viewer's browser loads, and the response that
//! carries it.

use vstd::prelude::*;
use vstd::string::StringExecFns;

verus! {

/// The one character that stands for a digit.
pub open spec fn digit_text(d: nat) -> Seq<char> {
    if d == 0 {
        "0"@
    } else if d == 1 {
        "1"@
    } else if d == 2 {
        "2"@
    } else if d == 3 {
        "3"@
    } else if d == 4 {
        "4"@
    } else if d == 5 {
        "5"@
    } else if d == 6 {
        "6"@
    } else if d == 7 {
        "7"@
    } else if d == 8 {
        "8"@
    } else {
        "9"@
    }
}

/// A number in decimal, without sign or leading zeros.
pub open spec fn decimal(n: nat) -> Seq<char>
    decreases n,
{
    if n < 10 {
        digit_text(n)
    } else {
        decimal(n / 10) + digit_text(n % 10)
    }
}

fn digit(d: u64) -> (r: &'static str)
    requires
        d < 10,
    ensures
        r@ == digit_text(d as nat),
{
    if d == 0 {
        "0"
    } else if d == 1 {
        "1"
    } else if d == 2 {
        "2"
    } else if d == 3 {
        "3"
    } else if d == 4 {
        "4"
    } else if d == 5 {
        "5"
    } else if d == 6 {
        "6"
    } else if d == 7 {
        "7"
    } else if d == 8 {
        "8"
    } else {
        "9"
    }
}

/// Writes a number in decimal.
pub fn format_decimal(n: u64) -> (r: String)
    ensures
        r@ == decimal(n as nat),
    decreases n,
{
    if n < 10 {
        digit(n).to_owned()
    } else {
        let mut text = format_decimal(n / 10);
        text.append(digit(n % 10));
        text
    }
}

/// The page with the relay's port put in front of it, where the page's
/// script looks for it.
pub open spec fn page_with_port(ws_port: u16, html: Seq<char>) -> Seq<char> {
    "<script>window.ws_port = "@ + decimal(ws_port as nat) + ";</script>\n"@ + html
}

/// The response that carries `content`: a status line, the length of the
/// content in bytes, an empty line, the content.
pub open spec fn response_for(content: Seq<char>) -> Seq<char> {
    "HTTP/1.1 200 OK\r\nContent-Length: "@ + decimal(vstd::utf8::encode_utf8(content).len())
        + "\r\n\r\n"@ + content
}

/// Serves one page to whoever asks.
#[derive(Debug, PartialEq, Eq)]
pub struct WebServer {
    html: Option<String>,
}

impl WebServer {
    /// A server that has no page yet.
    pub fn new() -> (r: Self)
        ensures
            r.page() is None,
    {
        Self { html: None }
    }

    /// The page that the server hands out, once it has one.
    pub closed spec fn page(&self) -> Option<Seq<char>> {
        match self.html {
            Some(html) => Some(html@),
            None => None,
        }
    }

    /// Gives the server its page: `html` with the relay's port in front.
    pub fn bind(&mut self, ws_port: u16, html: &str)
        ensures
            final(self).page() == Some(page_with_port(ws_port, html@)),
    {
        let mut page = "<script>window.ws_port = ".to_owned();
        let port = format_decimal(ws_port as u64);
        page.append(port.as_str());
        page.append(";</script>\n");
        page.append(html);
        self.html = Some(page);
    }

    /// The response to any request: the page, once the server has one.
    pub fn respond(&self) -> (r: Option<String>)
        ensures
            match r {
                Some(response) => self.page() is Some && response@ == response_for(
                    self.page()->0,
                ),
                None => self.page() is None,
            },
    {
        match &self.html {
            Some(html) => Some(handle_connection(html.as_str())),
            None => None,
        }
    }
}

/// Writes the response that carries `content`.
pub fn handle_connection(content: &str) -> (r: String)
    ensures
        r@ == response_for(content@),
{
    let mut response = "HTTP/1.1 200 OK\r\nContent-Length: ".to_owned();
    let length = format_decimal(content.as_bytes().len() as u64);
    response.append(length.as_str());
    response.append("\r\n\r\n");
    response.append(content);
    response
}

} // verus!
