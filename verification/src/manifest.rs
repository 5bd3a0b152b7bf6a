//! Where the manifest of a game version is found, and what each answer of
//! the manifest server means.
//!
//! A manifest is looked up in a cache first. A copy younger than a day is
//! used as it is; otherwise the server is asked, at most three times.

use vstd::prelude::*;
use crate::error::Error;
use crate::numbers::{append_decimal, decimal};
use crate::patch::{backoff, is_server_error, is_success, retry_delay};
use crate::text::{append_str, chars_of, concat2, concat3, join_path, joined, string_of};

verus! {

/// Where the manifests are published.
pub const MANIFEST_BASE_URL: &'static str = "https://goatcorp.github.io/integrity";

/// How long a cached manifest is used: one day, in seconds.
pub const MANIFEST_CACHE_SECS: u64 = 86400;

/// How long one request for a manifest may take, in seconds.
pub const MANIFEST_TIMEOUT_SECS: u64 = 30;

/// The name of the file that holds the manifest of `game_version`.
pub open spec fn manifest_file(game_version: Seq<char>) -> Seq<char> {
    game_version + ".json"@
}

/// The address of the manifest of `game_version`.
pub fn manifest_url(game_version: &str) -> (url: String)
    ensures
        url@ == MANIFEST_BASE_URL@ + "/"@ + manifest_file(game_version@),
{
    let mut out = chars_of(MANIFEST_BASE_URL);
    append_str(&mut out, "/");
    append_str(&mut out, game_version);
    append_str(&mut out, ".json");
    proof {
        assert(out@ =~= MANIFEST_BASE_URL@ + "/"@ + manifest_file(game_version@));
    }
    string_of(out.as_slice())
}

/// The place of the cached manifest of `game_version`: under `manifests`
/// in the cache directory, or in `/tmp` where the user has none.
pub open spec fn cache_place(cache_dir: Option<Seq<char>>, game_version: Seq<char>) -> Seq<char> {
    match cache_dir {
        Some(dir) => join_path(join_path(dir, "manifests"@), manifest_file(game_version)),
        None => "/tmp/gaveloc_manifest_"@ + manifest_file(game_version),
    }
}

/// The place of the cached manifest of `game_version`.
pub fn cache_path(cache_dir: Option<&str>, game_version: &str) -> (path: String)
    ensures
        path@ == cache_place(
            match cache_dir {
                Some(d) => Some(d@),
                None => None,
            },
            game_version@,
        ),
{
    match cache_dir {
        Some(dir) => {
            let folder = joined(dir, chars_of("manifests").as_slice());
            let name = concat2(game_version, ".json");
            joined(folder.as_str(), chars_of(name.as_str()).as_slice())
        },
        None => concat3("/tmp/gaveloc_manifest_", game_version, ".json"),
    }
}

/// Whether a cached manifest may be used: its age is known and under a
/// day.
pub fn cache_is_fresh(age_secs: Option<u64>) -> (fresh: bool)
    ensures
        fresh == (age_secs matches Some(age) && age < MANIFEST_CACHE_SECS),
{
    match age_secs {
        Some(age) => age < MANIFEST_CACHE_SECS,
        None => false,
    }
}

/// How one request for a manifest ended.
#[derive(Debug, Clone)]
pub enum FetchEvent {
    /// The server answered with this status.
    Status(u16),
    /// The request failed on the way; the text says how.
    Transport(String),
    /// No answer came in time.
    TimedOut,
}

/// What to do after a request for a manifest.
#[derive(Debug)]
pub enum FetchStep {
    /// Read the manifest from the body of the answer.
    Read,
    /// Ask again, after waiting this many seconds.
    Retry { wait_secs: u64 },
    /// Give up with this error.
    Fail(Error),
}

/// Whether `step` is what follows the attempt numbered `attempt` (from 0)
/// for the manifest of `game_version`, which ended in `event`.
///
/// A missing manifest is final at once. A failure of the server or of the
/// transport is tried again after the back-off, a timeout at once, while
/// attempts are left.
pub open spec fn is_fetch_step(
    step: FetchStep,
    game_version: Seq<char>,
    attempt: u32,
    event: FetchEvent,
) -> bool {
    match event {
        FetchEvent::Status(status) => if status == 404 {
            step matches FetchStep::Fail(Error::IntegrityManifestNotFound(v)) && v@ == game_version
        } else if 500 <= status <= 599 && backoff(attempt) is Some {
            step matches FetchStep::Retry { wait_secs } && Some(wait_secs) == backoff(attempt)
        } else if !is_success(status) {
            step matches FetchStep::Fail(Error::Network(m)) && m@ == "manifest request failed: "@
                + decimal(status as nat)
        } else {
            step is Read
        },
        FetchEvent::Transport(text) => if backoff(attempt) is Some {
            step matches FetchStep::Retry { wait_secs } && Some(wait_secs) == backoff(attempt)
        } else {
            step matches FetchStep::Fail(Error::Network(m)) && m@
                == "failed to fetch integrity manifest: "@ + text@
        },
        FetchEvent::TimedOut => if backoff(attempt) is Some {
            step matches FetchStep::Retry { wait_secs } && wait_secs == 0
        } else {
            step matches FetchStep::Fail(Error::Network(m)) && m@ == "manifest fetch timeout"@
        },
    }
}

/// What follows the attempt numbered `attempt` for the manifest of
/// `game_version`.
pub fn fetch_step(game_version: &str, attempt: u32, event: &FetchEvent) -> (step: FetchStep)
    ensures
        is_fetch_step(step, game_version@, attempt, *event),
{
    let again = retry_delay(attempt);
    match event {
        FetchEvent::Status(status) => {
            let status: u16 = *status;
            if status == 404 {
                return FetchStep::Fail(
                    Error::IntegrityManifestNotFound(String::from_str(game_version)),
                );
            }
            if is_server_error(status) {
                if let Some(wait_secs) = again {
                    return FetchStep::Retry { wait_secs };
                }
            }
            if !(200 <= status && status <= 299) {
                let mut msg = chars_of("manifest request failed: ");
                append_decimal(&mut msg, status as u64, 0);
                return FetchStep::Fail(Error::Network(string_of(msg.as_slice())));
            }
            FetchStep::Read
        },
        FetchEvent::Transport(text) => match again {
            Some(wait_secs) => FetchStep::Retry { wait_secs },
            None => FetchStep::Fail(
                Error::Network(concat2("failed to fetch integrity manifest: ", text.as_str())),
            ),
        },
        FetchEvent::TimedOut => match again {
            Some(_) => FetchStep::Retry { wait_secs: 0 },
            None => FetchStep::Fail(Error::Network(String::from_str("manifest fetch timeout"))),
        },
    }
}

/// Every run of requests ends: the third attempt is never followed by
/// another.
pub proof fn lemma_third_attempt_is_last(
    step: FetchStep,
    game_version: Seq<char>,
    attempt: u32,
    event: FetchEvent,
)
    requires
        is_fetch_step(step, game_version, attempt, event),
        attempt >= 2,
    ensures
        !(step is Retry),
{
}

} // verus!
