//! The login exchange with the account server: the addresses and form it
//! uses, and what its answers mean.

use vstd::prelude::*;
use crate::config::Region;
use crate::digest::{hex_encode, hex_text, sha1_digest, sha1_of};
use crate::entities::OauthLoginResult;
use crate::error::{Error, OauthError};
use crate::numbers::{
    decimal,
    decimal_chars,
    parse_i32,
    parse_signed,
    parse_u64_up_to,
    parse_unsigned,
};
use crate::search::{contains, contains_str, split, split_chars};
use crate::text::{
    append_chars,
    append_str,
    chars_of,
    concat2,
    concat3,
    lowercase_of,
    opt_text,
    string_of,
    to_lowercase,
};

verus! {

pub const OAUTH_LOGIN_URL: &'static str =
    "https://ffxiv-login.square-enix.com/oauth/ffxivarr/login/top";

pub const OAUTH_SEND_URL: &'static str =
    "https://ffxiv-login.square-enix.com/oauth/ffxivarr/login/login.send";

/// Pattern of the hidden form field that carries the token of the landing
/// page.
pub const STORED_PATTERN: &'static str =
    "<\\s*input .* name=\"_STORED_\" value=\"(?<stored>[^\"]*)\"";

/// Pattern of the script line that reports a login that succeeded.
pub const SUCCESS_PATTERN: &'static str =
    "window\\.external\\.user\\(\"login=auth,ok,(?<launchParams>[^\"]*)\"\\);";

/// Pattern of the script line that reports a login that was refused.
pub const FAILURE_PATTERN: &'static str =
    "window\\.external\\.user\\(\"login=auth,ng,err,(?<errorMessage>[^\"]*)\"\\);";

/// What the group `group` captured in the leftmost match of the regular
/// expression `pattern` in `text`.
pub uninterp spec fn regex_capture(pattern: Seq<char>, group: Seq<char>, text: Seq<char>) -> Option<
    Seq<char>,
>;

/// `regex::Regex::new`, `Regex::captures` and `Captures::name`: the text
/// that the named group captured in the leftmost match of `pattern` in
/// `text`; nothing where the pattern is not a valid expression, does not
/// match, or matches without that group.
#[verifier::external_body]
fn capture(pattern: &str, group: &str, text: &str) -> (r: Option<String>)
    ensures
        opt_text(r) == regex_capture(pattern@, group@, text@),
{
    let re = regex::Regex::new(pattern).ok()?;
    Some(re.captures(text)?.name(group)?.as_str().to_string())
}

/// The query that both login requests refer to.
pub open spec fn login_query(region: Region, is_free_trial: bool) -> Seq<char> {
    "?lng=en&rgn="@ + decimal(region.id() as nat) + "&isft="@ + (if is_free_trial {
        "1"@
    } else {
        "0"@
    }) + "&cssmode=1&isnew=1&launchver=3"@
}

/// Address of the landing page; also the referer of the login request.
pub fn oauth_top_url(region: Region, is_free_trial: bool) -> (url: String)
    ensures
        url@ == OAUTH_LOGIN_URL@ + login_query(region, is_free_trial),
{
    let mut out = chars_of(OAUTH_LOGIN_URL);
    append_str(&mut out, "?lng=en&rgn=");
    let id = decimal_chars(region.as_id() as u64);
    append_chars(&mut out, id.as_slice());
    append_str(&mut out, "&isft=");
    if is_free_trial {
        append_str(&mut out, "1");
    } else {
        append_str(&mut out, "0");
    }
    append_str(&mut out, "&cssmode=1&isnew=1&launchver=3");
    assert(out@ =~= OAUTH_LOGIN_URL@ + login_query(region, is_free_trial));
    string_of(out.as_slice())
}

/// The token of a landing page, given the page and what the token pattern
/// captured in it. A page that asks the launcher to restart carries none.
pub fn stored_token_from(body: &str, captured: Option<String>) -> (r: Result<String, Error>)
    ensures
        contains(body@, "window.external.user(\"restartup\");"@) ==> (r matches Err(
            Error::InvalidServerResponse(m),
        ) && m@ == "server requested restart"@),
        !contains(body@, "window.external.user(\"restartup\");"@) ==> match captured {
            Some(token) => r == Ok::<String, Error>(token),
            None => r matches Err(Error::InvalidServerResponse(m)) && m@
                == "could not find _STORED_ token"@,
        },
{
    let b = chars_of(body);
    if contains_str(b.as_slice(), "window.external.user(\"restartup\");") {
        return Err(Error::InvalidServerResponse(String::from_str("server requested restart")));
    }
    match captured {
        Some(token) => Ok(token),
        None => Err(
            Error::InvalidServerResponse(String::from_str("could not find _STORED_ token")),
        ),
    }
}

/// The token of a landing page.
pub fn extract_stored_token(body: &str) -> (r: Result<String, Error>)
    ensures
        contains(body@, "window.external.user(\"restartup\");"@) ==> (r matches Err(
            Error::InvalidServerResponse(m),
        ) && m@ == "server requested restart"@),
        !contains(body@, "window.external.user(\"restartup\");"@) ==> match regex_capture(
            STORED_PATTERN@,
            "stored"@,
            body@,
        ) {
            Some(token) => r matches Ok(t) && t@ == token,
            None => r matches Err(Error::InvalidServerResponse(m)) && m@
                == "could not find _STORED_ token"@,
        },
{
    let captured = capture(STORED_PATTERN, "stored", body);
    stored_token_from(body, captured)
}

/// Kinds of refusal that a message of the server is sorted into.
pub enum RefusalKind {
    InvalidCredentials,
    InvalidOtp,
    AccountLocked,
    MaintenanceMode,
    RateLimited,
    Unknown,
}

/// The kind of a refusal, by what its message holds in lower case. The
/// first test that applies decides.
pub open spec fn refusal_kind(message: Seq<char>) -> RefusalKind {
    let lower = lowercase_of(message);
    if contains(lower, "id or password"@) || contains(lower, "incorrect"@) {
        RefusalKind::InvalidCredentials
    } else if contains(lower, "one-time"@) || contains(lower, "otp"@) {
        RefusalKind::InvalidOtp
    } else if contains(lower, "locked"@) || contains(lower, "suspended"@) {
        RefusalKind::AccountLocked
    } else if contains(lower, "maintenance"@) {
        RefusalKind::MaintenanceMode
    } else if contains(lower, "rate"@) || contains(lower, "too many"@) {
        RefusalKind::RateLimited
    } else {
        RefusalKind::Unknown
    }
}

impl OauthError {
    /// Whether this error is of kind `kind` for the message `message`.
    pub open spec fn is_kind(self, kind: RefusalKind, message: Seq<char>) -> bool {
        match kind {
            RefusalKind::InvalidCredentials => self is InvalidCredentials,
            RefusalKind::InvalidOtp => self is InvalidOtp,
            RefusalKind::AccountLocked => self is AccountLocked,
            RefusalKind::MaintenanceMode => self is MaintenanceMode,
            RefusalKind::RateLimited => self is RateLimited,
            RefusalKind::Unknown => self matches OauthError::Unknown(m) && m@ == message,
        }
    }
}

/// Sorts a refusal by its message.
pub fn parse_oauth_error(message: &str) -> (e: OauthError)
    ensures
        e.is_kind(refusal_kind(message@), message@),
{
    let lowered = to_lowercase(message);
    let lower = chars_of(lowered.as_str());
    let l = lower.as_slice();
    if contains_str(l, "id or password") || contains_str(l, "incorrect") {
        OauthError::InvalidCredentials
    } else if contains_str(l, "one-time") || contains_str(l, "otp") {
        OauthError::InvalidOtp
    } else if contains_str(l, "locked") || contains_str(l, "suspended") {
        OauthError::AccountLocked
    } else if contains_str(l, "maintenance") {
        OauthError::MaintenanceMode
    } else if contains_str(l, "rate") || contains_str(l, "too many") {
        OauthError::RateLimited
    } else {
        OauthError::Unknown(String::from_str(message))
    }
}

/// What the parameters of a successful login denote.
pub enum LoginParams {
    /// Fewer than 14 parameters; their number.
    TooFew(nat),
    BadRegion,
    BadMaxExpansion,
    Good { session_id: Seq<char>, region: i32, terms_accepted: bool, playable: bool, max_expansion: u32 },
}

/// Reads the comma-separated parameters of a successful login: the session
/// id is parameter 1, the terms flag 3, the region 5, the playable flag 9
/// and the highest expansion 13, counted from 0. A flag is set unless it
/// is `0`.
pub open spec fn login_params(params: Seq<char>) -> LoginParams {
    let p = split(params, ',');
    if p.len() < 14 {
        LoginParams::TooFew(p.len())
    } else if parse_signed(p[5], i32::MIN as int, i32::MAX as int) is None {
        LoginParams::BadRegion
    } else if parse_unsigned(p[13], u32::MAX as nat) is None {
        LoginParams::BadMaxExpansion
    } else {
        LoginParams::Good {
            session_id: p[1],
            region: parse_signed(p[5], i32::MIN as int, i32::MAX as int).unwrap() as i32,
            terms_accepted: p[3] != "0"@,
            playable: p[9] != "0"@,
            max_expansion: parse_unsigned(p[13], u32::MAX as nat).unwrap() as u32,
        }
    }
}

/// Whether `r` is what the answer to a login means, given what the success
/// pattern and the failure pattern captured in it. The success pattern is
/// looked at first.
pub open spec fn is_login_outcome(
    r: Result<OauthLoginResult, Error>,
    success: Option<Seq<char>>,
    failure: Option<Seq<char>>,
) -> bool {
    match success {
        Some(params) => match login_params(params) {
            LoginParams::TooFew(n) => r matches Err(Error::InvalidServerResponse(m)) && m@
                == "unexpected launch params count: "@ + decimal(n),
            LoginParams::BadRegion => r matches Err(Error::InvalidServerResponse(m)) && m@
                == "invalid region"@,
            LoginParams::BadMaxExpansion => r matches Err(Error::InvalidServerResponse(m)) && m@
                == "invalid max expansion"@,
            LoginParams::Good { session_id, region, terms_accepted, playable, max_expansion } =>
                r matches Ok(v) && v.session_id@ == session_id && v.region == region
                    && v.terms_accepted == terms_accepted && v.playable == playable
                    && v.max_expansion == max_expansion,
        },
        None => match failure {
            Some(message) => r matches Err(Error::OauthLogin(e)) && e.is_kind(
                refusal_kind(message),
                message,
            ),
            None => r matches Err(Error::InvalidServerResponse(m)) && m@
                == "unexpected login response format"@,
        },
    }
}

/// What the answer to a login means, given what the two patterns captured.
pub fn login_result_from(success: Option<String>, failure: Option<String>) -> (r: Result<
    OauthLoginResult,
    Error,
>)
    ensures
        is_login_outcome(r, opt_text(success), opt_text(failure)),
{
    match success {
        Some(params) => {
            let v = chars_of(params.as_str());
            let p = split_chars(v.as_slice(), ',');
            if p.len() < 14 {
                let n = decimal_chars(p.len() as u64);
                let number = string_of(n.as_slice());
                return Err(
                    Error::InvalidServerResponse(
                        concat2("unexpected launch params count: ", number.as_str()),
                    ),
                );
            }
            let region = match parse_i32(p[5].as_slice()) {
                Some(n) => n,
                None => {
                    return Err(Error::InvalidServerResponse(String::from_str("invalid region")));
                },
            };
            let zero = chars_of("0");
            let terms_accepted = !crate::text::same_chars(p[3].as_slice(), zero.as_slice());
            let playable = !crate::text::same_chars(p[9].as_slice(), zero.as_slice());
            let max_expansion = match parse_u64_up_to(p[13].as_slice(), 0xffff_ffff) {
                Some(n) => n as u32,
                None => {
                    return Err(
                        Error::InvalidServerResponse(String::from_str("invalid max expansion")),
                    );
                },
            };
            Ok(
                OauthLoginResult {
                    session_id: string_of(p[1].as_slice()),
                    region,
                    terms_accepted,
                    playable,
                    max_expansion,
                },
            )
        },
        None => match failure {
            Some(message) => Err(Error::OauthLogin(parse_oauth_error(message.as_str()))),
            None => Err(
                Error::InvalidServerResponse(String::from_str("unexpected login response format")),
            ),
        },
    }
}

/// What the answer to a login means.
pub fn parse_login_response(body: &str) -> (r: Result<OauthLoginResult, Error>)
    ensures
        is_login_outcome(
            r,
            regex_capture(SUCCESS_PATTERN@, "launchParams"@, body@),
            regex_capture(FAILURE_PATTERN@, "errorMessage"@, body@),
        ),
{
    let success = capture(SUCCESS_PATTERN, "launchParams", body);
    let failure = capture(FAILURE_PATTERN, "errorMessage", body);
    login_result_from(success, failure)
}

/// The last check of a login: the account must be playable and the terms
/// accepted; playability is looked at first.
pub fn accept_login(result: OauthLoginResult) -> (r: Result<OauthLoginResult, Error>)
    ensures
        !result.playable ==> r matches Err(Error::AccountNotPlayable),
        result.playable && !result.terms_accepted ==> r matches Err(Error::TermsNotAccepted),
        result.playable && result.terms_accepted ==> r == Ok::<OauthLoginResult, Error>(result),
{
    if !result.playable {
        return Err(Error::AccountNotPlayable);
    }
    if !result.terms_accepted {
        return Err(Error::TermsNotAccepted);
    }
    Ok(result)
}

} // verus!

verus! {

/// The tag of the operating system the launcher runs on.
pub const OS_TAG: &'static str = "linux";

/// The five bytes of a machine identifier: the first four bytes of the
/// digest, led by the byte that brings the sum of all five to 0 modulo 256.
pub open spec fn machine_id_bytes(digest: Seq<u8>) -> Seq<u8> {
    let sum = (digest[0] + digest[1] + digest[2] + digest[3]) % 256;
    seq![((256 - sum) % 256) as u8, digest[0], digest[1], digest[2], digest[3]]
}

/// The bytes that identify a machine: host name, user name and system tag
/// in a row.
pub open spec fn machine_text(hostname: Seq<char>, username: Seq<char>, os_tag: Seq<char>) -> Seq<
    u8,
> {
    vstd::utf8::encode_utf8(hostname) + vstd::utf8::encode_utf8(username) + vstd::utf8::encode_utf8(
        os_tag,
    )
}

/// The ten-digit identifier of a machine.
pub fn computer_id_for(hostname: &str, username: &str, os_tag: &str) -> (id: String)
    ensures
        id@ == hex_text(machine_id_bytes(sha1_of(machine_text(hostname@, username@, os_tag@)))),
        id@.len() == 10,
{
    let mut input: Vec<u8> = Vec::new();
    input.extend_from_slice(hostname.as_bytes());
    input.extend_from_slice(username.as_bytes());
    input.extend_from_slice(os_tag.as_bytes());
    assert(input@ =~= machine_text(hostname@, username@, os_tag@));
    let digest = sha1_digest(input.as_slice());
    let sum: u8 = digest[0].wrapping_add(digest[1]).wrapping_add(digest[2]).wrapping_add(
        digest[3],
    );
    let checksum: u8 = 0u8.wrapping_sub(sum);
    let mut bytes: Vec<u8> = Vec::new();
    bytes.push(checksum);
    bytes.push(digest[0]);
    bytes.push(digest[1]);
    bytes.push(digest[2]);
    bytes.push(digest[3]);
    assert(bytes@ =~= machine_id_bytes(digest@));
    hex_encode(bytes.as_slice())
}

/// The text that names the launcher to the account server.
pub open spec fn user_agent_text(machine_id: Seq<char>) -> Seq<char> {
    "SQEXAuthor/2.0.0(Windows 6.2; ja-jp; "@ + machine_id + ")"@
}

/// The user agent for a machine identifier.
pub fn user_agent_for(machine_id: &str) -> (ua: String)
    ensures
        ua@ == user_agent_text(machine_id@),
{
    concat3("SQEXAuthor/2.0.0(Windows 6.2; ja-jp; ", machine_id, ")")
}

/// `hostname::get`: the name of this host, where the system gives one.
#[verifier::external_body]
fn host_name() -> Option<String> {
    Some(hostname::get().ok()?.to_string_lossy().into_owned())
}

/// `whoami::username`: the name of the user the process runs as.
#[verifier::external_body]
fn user_name() -> String {
    whoami::username()
}

/// The identifier of this machine. The host name reads `unknown` where the
/// system gives none.
pub fn make_computer_id() -> (id: String)
    ensures
        id@.len() == 10,
        exists|hostname: Seq<char>, username: Seq<char>|
            id@ == hex_text(
                machine_id_bytes(sha1_of(#[trigger] machine_text(hostname, username, OS_TAG@))),
            ),
{
    let hostname = match host_name() {
        Some(h) => h,
        None => String::from_str("unknown"),
    };
    let username = user_name();
    let id = computer_id_for(hostname.as_str(), username.as_str(), OS_TAG);
    assert(id@ == hex_text(machine_id_bytes(sha1_of(machine_text(hostname@, username@, OS_TAG@)))));
    id
}

/// The user agent of this machine.
pub fn generate_user_agent() -> (ua: String)
    ensures
        exists|id: Seq<char>| id.len() == 10 && ua@ == #[trigger] user_agent_text(id),
{
    let id = make_computer_id();
    let ua = user_agent_for(id.as_str());
    assert(id@.len() == 10 && ua@ == user_agent_text(id@));
    ua
}

/// One field of the login form.
#[derive(Debug, Clone)]
pub struct FormField {
    pub name: String,
    pub value: String,
}

/// The form of the login request: the token of the landing page, the
/// account name, the password, and the one-time password or nothing.
pub fn login_form(credentials: &crate::account::Credentials, stored_token: &str) -> (form: Vec<
    FormField,
>)
    ensures
        form.len() == 4,
        form[0].name@ == "_STORED_"@ && form[0].value@ == stored_token@,
        form[1].name@ == "sqexid"@ && form[1].value@ == credentials.username@,
        form[2].name@ == "password"@ && form[2].value@ == credentials.password@,
        form[3].name@ == "otppw"@ && form[3].value@ == (match credentials.otp {
            Some(otp) => otp@,
            None => Seq::empty(),
        }),
{
    let mut form: Vec<FormField> = Vec::new();
    form.push(
        FormField { name: String::from_str("_STORED_"), value: String::from_str(stored_token) },
    );
    form.push(
        FormField { name: String::from_str("sqexid"), value: credentials.username.clone() },
    );
    form.push(
        FormField { name: String::from_str("password"), value: credentials.password.clone() },
    );
    let otp = match &credentials.otp {
        Some(otp) => otp.clone(),
        None => String::new(),
    };
    form.push(FormField { name: String::from_str("otppw"), value: otp });
    form
}

/// The kind of a failed login as the front end names it, by what the
/// message holds in lower case. The first test that applies decides.
pub open spec fn error_class(error: Seq<char>) -> Seq<char> {
    let lower = lowercase_of(error);
    if contains(lower, "credential"@) || contains(lower, "password"@) || contains(
        lower,
        "id or password"@,
    ) {
        "invalid_credentials"@
    } else if contains(lower, "otp"@) || contains(lower, "one-time"@) {
        "invalid_otp"@
    } else if contains(lower, "locked"@) || contains(lower, "suspended"@) {
        "account_locked"@
    } else if contains(lower, "maintenance"@) {
        "maintenance"@
    } else if contains(lower, "rate"@) || contains(lower, "too many"@) {
        "rate_limited"@
    } else if contains(lower, "playable"@) || contains(lower, "subscription"@) || contains(
        lower,
        "service"@,
    ) {
        "no_subscription"@
    } else if contains(lower, "terms"@) {
        "terms_not_accepted"@
    } else {
        "unknown"@
    }
}

/// Names the kind of a failed login for the front end.
pub fn classify_error(error: &str) -> (class: &'static str)
    ensures
        class@ == error_class(error@),
{
    let lowered = to_lowercase(error);
    let lower = chars_of(lowered.as_str());
    let l = lower.as_slice();
    if contains_str(l, "credential") || contains_str(l, "password") || contains_str(
        l,
        "id or password",
    ) {
        "invalid_credentials"
    } else if contains_str(l, "otp") || contains_str(l, "one-time") {
        "invalid_otp"
    } else if contains_str(l, "locked") || contains_str(l, "suspended") {
        "account_locked"
    } else if contains_str(l, "maintenance") {
        "maintenance"
    } else if contains_str(l, "rate") || contains_str(l, "too many") {
        "rate_limited"
    } else if contains_str(l, "playable") || contains_str(l, "subscription") || contains_str(
        l,
        "service",
    ) {
        "no_subscription"
    } else if contains_str(l, "terms") {
        "terms_not_accepted"
    } else {
        "unknown"
    }
}

} // verus!
