//! The token prompt: the prompt and status lines written around the
//! standard-input read, and the trimming and validation of each line that
//! comes back.

use vstd::prelude::*;
use vstd::string::StrSliceExecFns;
use vstd::string::StringExecFns;

verus! {

/// A line as the prompt accepts it: one trailing line feed dropped, then
/// one trailing carriage return.
pub open spec fn trimmed_line(s: Seq<char>) -> Seq<char> {
    let s1 = if s.len() > 0 && s[s.len() - 1] == '\n' {
        s.subrange(0, s.len() - 1)
    } else {
        s
    };
    if s1.len() > 0 && s1[s1.len() - 1] == '\r' {
        s1.subrange(0, s1.len() - 1)
    } else {
        s1
    }
}

/// Strips one trailing line feed, then one trailing carriage return, from a
/// line read off standard input.
pub fn trim_input_line(line: &str) -> (r: String)
    ensures
        r@ == trimmed_line(line@),
{
    let n: usize = line.unicode_len();
    let s1: &str = if n > 0 && line.get_char(n - 1) == '\n' {
        line.substring_char(0, n - 1)
    } else {
        line
    };
    let m: usize = s1.unicode_len();
    let s2: &str = if m > 0 && s1.get_char(m - 1) == '\r' {
        s1.substring_char(0, m - 1)
    } else {
        s1
    };
    String::from_str(s2)
}

/// One round of the prompt loop: trims the line and hands the token back,
/// or asks for another line when nothing but line terminators came in.
pub fn accept_input_line(line: &str) -> (r: Option<String>)
    ensures
        r is Some <==> trimmed_line(line@).len() > 0,
        r matches Some(t) ==> t@ == trimmed_line(line@),
{
    let t = trim_input_line(line);
    if t.as_str().is_empty() {
        None
    } else {
        Some(t)
    }
}

/// The registry base URL for the active build: the staging deployment for
/// debug builds, the production site otherwise.
pub fn registry_url(staging: bool) -> (r: String)
    ensures
        staging ==> r@ == "https://movey-app-staging.herokuapp.com"@,
        !staging ==> r@ == "https://movey.net"@,
{
    if staging {
        String::from_str("https://movey-app-staging.herokuapp.com")
    } else {
        String::from_str("https://movey.net")
    }
}

/// The informational line printed before the first read, pointing at the
/// registry's token-settings page.
pub fn prompt_line(url: &str) -> (r: String)
    ensures
        r@ == "Please paste the API Token found on "@ + url@ + "/settings/tokens below"@,
{
    let mut s = String::from_str("Please paste the API Token found on ");
    s.append(url);
    s.append("/settings/tokens below");
    s
}

/// The line asking for another try after an empty token.
pub fn retry_line() -> (r: String)
    ensures
        r@ == "Invalid API Token. Try again!"@,
{
    String::from_str("Invalid API Token. Try again!")
}

/// The confirmation line printed once the token has been persisted.
pub fn success_line() -> (r: String)
    ensures
        r@ == "Token for Movey saved."@,
{
    String::from_str("Token for Movey saved.")
}

} // verus!
