//! Building and checking the LNURL verification URL.
//!
//! The URL text is assembled by verified code, character for
//! character; only the final well-formedness check goes through the
//! `url` crate.

use vstd::prelude::*;
use vstd::string::StringExecFns;

use crate::errors::CoreError;

verus! {

/// The character for one decimal digit.
pub open spec fn digit_char(d: int) -> char {
    if d == 0 {
        '0'
    } else if d == 1 {
        '1'
    } else if d == 2 {
        '2'
    } else if d == 3 {
        '3'
    } else if d == 4 {
        '4'
    } else if d == 5 {
        '5'
    } else if d == 6 {
        '6'
    } else if d == 7 {
        '7'
    } else if d == 8 {
        '8'
    } else {
        '9'
    }
}

/// The decimal rendering of a number, most significant digit first.
pub open spec fn spec_decimal(n: int) -> Seq<char>
    decreases n,
{
    if n < 10 {
        seq![digit_char(n)]
    } else {
        spec_decimal(n / 10) + seq![digit_char(n % 10)]
    }
}

/// One decimal digit as text.
fn digit_str(d: u64) -> (r: &'static str)
    requires
        d <= 9,
    ensures
        r@ == seq![digit_char(d as int)],
{
    let r: &'static str = match d {
        0 => "0",
        1 => "1",
        2 => "2",
        3 => "3",
        4 => "4",
        5 => "5",
        6 => "6",
        7 => "7",
        8 => "8",
        _ => "9",
    };
    proof {
        reveal_strlit("0");
        reveal_strlit("1");
        reveal_strlit("2");
        reveal_strlit("3");
        reveal_strlit("4");
        reveal_strlit("5");
        reveal_strlit("6");
        reveal_strlit("7");
        reveal_strlit("8");
        reveal_strlit("9");
        assert(r@ =~= seq![digit_char(d as int)]);
    }
    r
}

/// Render a number in decimal.
pub fn u64_to_string(n: u64) -> (r: String)
    ensures
        r@ == spec_decimal(n as int),
    decreases n,
{
    if n < 10 {
        let d = digit_str(n);
        d.to_owned()
    } else {
        let mut s = u64_to_string(n / 10);
        s.append(digit_str(n % 10));
        s
    }
}

/// The text of the URL a payer verifies an invoice under:
/// `http://<domain>:<port>/lnurlp/<username>/verify/<op_id>`.
pub open spec fn spec_verify_url(
    domain: Seq<char>,
    port: int,
    username: Seq<char>,
    op_id: Seq<char>,
) -> Seq<char> {
    "http://"@ + domain + ":"@ + spec_decimal(port) + "/lnurlp/"@ + username + "/verify/"@ + op_id
}

/// Assemble the verification URL's text.
pub fn verify_url_string(domain: &String, port: u16, username: &String, op_id: &String) -> (r:
    String)
    ensures
        r@ == spec_verify_url(domain@, port as int, username@, op_id@),
{
    proof {
        reveal_strlit("http://");
        reveal_strlit(":");
        reveal_strlit("/lnurlp/");
        reveal_strlit("/verify/");
    }
    let mut s = "http://".to_owned();
    s.append(domain.as_str());
    s.append(":");
    let port_s = u64_to_string(port as u64);
    s.append(port_s.as_str());
    s.append("/lnurlp/");
    s.append(username.as_str());
    s.append("/verify/");
    s.append(op_id.as_str());
    s
}

#[verifier::external_type_specification]
#[verifier::external_body]
pub struct ExUrl(url::Url);

/// Whether a string parses as an absolute URL; what `url::Url::parse`
/// accepts depends on the string alone.
pub uninterp spec fn url_parse_ok(s: Seq<char>) -> bool;

/// Relies on `url::Url::parse`: it returns `Ok` exactly when the
/// string parses as an absolute URL, a function of the string alone.
#[verifier::external_body]
fn parse_url(s: &String) -> (r: Option<url::Url>)
    ensures
        (r is Some) == url_parse_ok(s@),
{
    match url::Url::parse(s.as_str()) {
        Ok(u) => Some(u),
        Err(_) => None,
    }
}

/// Build the URL a payer verifies an invoice under.
///
/// Succeeds exactly when the assembled text parses as an absolute URL;
/// otherwise `InvalidUrl`.
pub fn create_verify_url(domain: &String, port: u16, username: &String, op_id: &String) -> (r:
    Result<url::Url, CoreError>)
    ensures
        r is Ok <==> url_parse_ok(spec_verify_url(domain@, port as int, username@, op_id@)),
        r matches Err(e) ==> e == CoreError::InvalidUrl,
{
    let text = verify_url_string(domain, port, username, op_id);
    match parse_url(&text) {
        Some(u) => Ok(u),
        None => Err(CoreError::InvalidUrl),
    }
}

} // verus!
