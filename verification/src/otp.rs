//! The loopback listener that takes a one-time password from the
//! companion app: it answers `GET /ffxivlauncher/<otp>` once.

use vstd::prelude::*;
use crate::error::Error;
use crate::numbers::{append_decimal, decimal};
use crate::search::{split, split_chars};
use crate::text::{append_str, chars_of, opt_text, same_chars, string_of};

verus! {

/// The port the listener is bound to, on the loopback address.
pub const OTP_PORT: u16 = 4646;

/// What the listener answers with.
pub const OTP_REPLY: &'static str = "OTP received. You can close this window.";

/// The part of a request target before the query.
pub open spec fn target_path(target: Seq<char>) -> Seq<char> {
    split(target, '?')[0]
}

/// The one-time password that a request line carries: the line must be a
/// `GET` of the path `/ffxivlauncher/<otp>`, the password being one
/// segment that is not empty.
pub open spec fn otp_in(line: Seq<char>) -> Option<Seq<char>> {
    let words = split(line, ' ');
    if words.len() < 2 || words[0] != "GET"@ {
        None
    } else {
        let segments = split(target_path(words[1]), '/');
        if segments.len() == 3 && segments[0].len() == 0 && segments[1] == "ffxivlauncher"@
            && segments[2].len() > 0 {
            Some(segments[2])
        } else {
            None
        }
    }
}

/// The one-time password that the first line of a request carries.
pub fn otp_from_request_line(line: &str) -> (r: Option<String>)
    ensures
        opt_text(r) == otp_in(line@),
{
    let v = chars_of(line);
    let words = split_chars(v.as_slice(), ' ');
    let get = chars_of("GET");
    if words.len() < 2 || !same_chars(words[0].as_slice(), get.as_slice()) {
        return None;
    }
    let parts = split_chars(words[1].as_slice(), '?');
    let segments = split_chars(parts[0].as_slice(), '/');
    let name = chars_of("ffxivlauncher");
    if segments.len() == 3 && segments[0].len() == 0 && same_chars(
        segments[1].as_slice(),
        name.as_slice(),
    ) && segments[2].len() > 0 {
        Some(string_of(segments[2].as_slice()))
    } else {
        None
    }
}

/// The answer to a request: `200 OK` with the reply as its body.
pub fn otp_response() -> (r: String)
    ensures
        r@ == "HTTP/1.1 200 OK\r\nContent-Type: text/plain; charset=utf-8\r\nContent-Length: "@
            + decimal(OTP_REPLY@.len()) + "\r\nConnection: close\r\n\r\n"@ + OTP_REPLY@,
{
    let body = chars_of(OTP_REPLY);
    let mut out = chars_of(
        "HTTP/1.1 200 OK\r\nContent-Type: text/plain; charset=utf-8\r\nContent-Length: ",
    );
    append_decimal(&mut out, body.len() as u64, 0);
    append_str(&mut out, "\r\nConnection: close\r\n\r\n");
    append_str(&mut out, OTP_REPLY);
    string_of(out.as_slice())
}

/// The answer to a request for anything else.
pub fn not_found_response() -> (r: String)
    ensures
        r@ == "HTTP/1.1 404 Not Found\r\nContent-Length: 0\r\nConnection: close\r\n\r\n"@,
{
    String::from_str("HTTP/1.1 404 Not Found\r\nContent-Length: 0\r\nConnection: close\r\n\r\n")
}

/// Whether the listener runs.
#[derive(Debug, Clone, Copy, PartialEq, Eq, Structural)]
pub struct OtpListenerState {
    pub running: bool,
}

impl OtpListenerState {
    /// A listener that does not run.
    pub fn new() -> (s: Self)
        ensures
            !s.running,
    {
        OtpListenerState { running: false }
    }

    pub fn is_running(&self) -> (r: bool)
        ensures
            r == self.running,
    {
        self.running
    }

    /// Starts the listener. A listener that runs already is not started a
    /// second time.
    pub fn start(&mut self) -> (r: Result<(), Error>)
        ensures
            final(self).running,
            old(self).running ==> (r matches Err(Error::Other(m)) && m@
                == "OTP listener already running"@),
            !old(self).running ==> r is Ok,
    {
        if self.running {
            return Err(Error::Other(String::from_str("OTP listener already running")));
        }
        self.running = true;
        Ok(())
    }

    /// Stops the listener; nothing to do where it does not run.
    pub fn stop(&mut self)
        ensures
            !final(self).running,
    {
        self.running = false;
    }

    /// Takes the first line of a request: the one-time password it carries,
    /// if any, and whether to answer with the reply. The first password
    /// ends the listener; a listener that does not run takes none.
    pub fn on_request(&mut self, line: &str) -> (r: Option<String>)
        ensures
            opt_text(r) == if old(self).running {
                otp_in(line@)
            } else {
                None
            },
            final(self).running == (old(self).running && otp_in(line@) is None),
    {
        if !self.running {
            return None;
        }
        let otp = otp_from_request_line(line);
        if otp.is_some() {
            self.running = false;
        }
        otp
    }
}

} // verus!
