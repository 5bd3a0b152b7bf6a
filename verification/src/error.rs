//! What can go wrong, and the message each failure carries.

use vstd::prelude::*;
use crate::numbers::{decimal, decimal_chars};
use crate::text::{concat2, string_of};

verus! {

/// Why the login server turned a login down.
#[derive(Debug, Clone)]
pub enum OauthError {
    InvalidCredentials,
    InvalidOtp,
    AccountLocked,
    MaintenanceMode,
    RateLimited,
    Unknown(String),
}

impl OauthError {
    /// The text shown for this refusal.
    pub open spec fn message(self) -> Seq<char> {
        match self {
            OauthError::InvalidCredentials => "invalid username or password"@,
            OauthError::InvalidOtp => "invalid one-time password"@,
            OauthError::AccountLocked => "account is locked"@,
            OauthError::MaintenanceMode => "servers under maintenance"@,
            OauthError::RateLimited => "too many login attempts"@,
            OauthError::Unknown(msg) => msg@,
        }
    }

    pub fn to_string(&self) -> (s: String)
        ensures
            s@ == self.message(),
    {
        match self {
            OauthError::InvalidCredentials => String::from_str("invalid username or password"),
            OauthError::InvalidOtp => String::from_str("invalid one-time password"),
            OauthError::AccountLocked => String::from_str("account is locked"),
            OauthError::MaintenanceMode => String::from_str("servers under maintenance"),
            OauthError::RateLimited => String::from_str("too many login attempts"),
            OauthError::Unknown(msg) => msg.clone(),
        }
    }
}

/// Every failure the launcher core reports. Paths are carried as text.
#[derive(Debug, Clone)]
pub enum Error {
    RunnerNotFound(String),
    WineBinaryNotFound(String),
    InvalidRunnerPath(String),
    HomeDirectoryNotFound,
    Encryption(String),
    PrefixInitialization(String),
    Network(String),
    Authentication(String),
    CredentialStorage(String),
    OauthLogin(OauthError),
    SessionExpired,
    OtpRequired,
    AccountNotPlayable,
    TermsNotAccepted,
    InvalidServerResponse(String),
    Io(String),
    Other(String),
    VersionFileNotFound(String),
    InvalidVersionFormat(String),
    PatchServer(String),
    PatchDownload(String),
    PatchVerificationFailed,
    PatchBlockVerificationFailed { block: usize, expected: String, actual: String },
    ZiPatchParse(String),
    ZiPatchApply(String),
    ZiPatchChecksumMismatch { offset: u64 },
    ZiPatchInvalidMagic,
    ZiPatchUnknownChunk(String),
    IntegrityManifestNotFound(String),
    IntegrityMismatch(String),
    Cancelled,
    NotEnoughDiskSpace { needed: u64, available: u64 },
    GamePathNotConfigured,
    GamePathNotFound(String),
    Ipc(String),
}

impl Error {
    /// The text shown for this failure.
    pub open spec fn message(self) -> Seq<char> {
        match self {
            Error::RunnerNotFound(p) => "runner not found at "@ + p@,
            Error::WineBinaryNotFound(p) => "no wine binary found in "@ + p@,
            Error::InvalidRunnerPath(p) => "invalid runner path: "@ + p@,
            Error::HomeDirectoryNotFound => "failed to detect home directory"@,
            Error::Encryption(m) => "encryption failed: "@ + m@,
            Error::PrefixInitialization(m) => "prefix initialization failed: "@ + m@,
            Error::Network(m) => "network error: "@ + m@,
            Error::Authentication(m) => "authentication failed: "@ + m@,
            Error::CredentialStorage(m) => "credential storage error: "@ + m@,
            Error::OauthLogin(e) => "OAuth login failed: "@ + e.message(),
            Error::SessionExpired => "session expired"@,
            Error::OtpRequired => "OTP required"@,
            Error::AccountNotPlayable => "account not playable (no active subscription)"@,
            Error::TermsNotAccepted => "terms of service not accepted"@,
            Error::InvalidServerResponse(m) => "invalid response from server: "@ + m@,
            Error::Io(m) => "io error: "@ + m@,
            Error::Other(m) => m@,
            Error::VersionFileNotFound(p) => "version file not found: "@ + p@,
            Error::InvalidVersionFormat(m) => "invalid version format: "@ + m@,
            Error::PatchServer(m) => "patch server error: "@ + m@,
            Error::PatchDownload(m) => "patch download failed: "@ + m@,
            Error::PatchVerificationFailed => "patch verification failed: hash mismatch"@,
            Error::PatchBlockVerificationFailed { block, expected, actual } =>
                "patch verification failed: block "@ + decimal(block as nat)
                    + " mismatch (expected "@ + expected@ + ", got "@ + actual@ + ")"@,
            Error::ZiPatchParse(m) => "zipatch parse error: "@ + m@,
            Error::ZiPatchApply(m) => "zipatch apply error: "@ + m@,
            Error::ZiPatchChecksumMismatch { offset } =>
                "zipatch checksum mismatch at offset "@ + decimal(offset as nat),
            Error::ZiPatchInvalidMagic => "zipatch invalid magic header"@,
            Error::ZiPatchUnknownChunk(m) => "zipatch unknown chunk type: "@ + m@,
            Error::IntegrityManifestNotFound(v) =>
                "integrity manifest not found for version "@ + v@,
            Error::IntegrityMismatch(m) => "file integrity mismatch: "@ + m@,
            Error::Cancelled => "operation cancelled"@,
            Error::NotEnoughDiskSpace { needed, available } =>
                "not enough disk space: need "@ + decimal(needed as nat) + " bytes, have "@
                    + decimal(available as nat) + " bytes"@,
            Error::GamePathNotConfigured => "game path not configured"@,
            Error::GamePathNotFound(p) => "game path does not exist: "@ + p@,
            Error::Ipc(m) => "IPC communication error: "@ + m@,
        }
    }

    pub fn to_string(&self) -> (s: String)
        ensures
            s@ == self.message(),
    {
        match self {
            Error::RunnerNotFound(p) => concat2("runner not found at ", p.as_str()),
            Error::WineBinaryNotFound(p) => concat2("no wine binary found in ", p.as_str()),
            Error::InvalidRunnerPath(p) => concat2("invalid runner path: ", p.as_str()),
            Error::HomeDirectoryNotFound => String::from_str("failed to detect home directory"),
            Error::Encryption(m) => concat2("encryption failed: ", m.as_str()),
            Error::PrefixInitialization(m) => concat2(
                "prefix initialization failed: ",
                m.as_str(),
            ),
            Error::Network(m) => concat2("network error: ", m.as_str()),
            Error::Authentication(m) => concat2("authentication failed: ", m.as_str()),
            Error::CredentialStorage(m) => concat2("credential storage error: ", m.as_str()),
            Error::OauthLogin(e) => {
                let inner = e.to_string();
                concat2("OAuth login failed: ", inner.as_str())
            },
            Error::SessionExpired => String::from_str("session expired"),
            Error::OtpRequired => String::from_str("OTP required"),
            Error::AccountNotPlayable => String::from_str(
                "account not playable (no active subscription)",
            ),
            Error::TermsNotAccepted => String::from_str("terms of service not accepted"),
            Error::InvalidServerResponse(m) => concat2(
                "invalid response from server: ",
                m.as_str(),
            ),
            Error::Io(m) => concat2("io error: ", m.as_str()),
            Error::Other(m) => m.clone(),
            Error::VersionFileNotFound(p) => concat2("version file not found: ", p.as_str()),
            Error::InvalidVersionFormat(m) => concat2("invalid version format: ", m.as_str()),
            Error::PatchServer(m) => concat2("patch server error: ", m.as_str()),
            Error::PatchDownload(m) => concat2("patch download failed: ", m.as_str()),
            Error::PatchVerificationFailed => String::from_str(
                "patch verification failed: hash mismatch",
            ),
            Error::PatchBlockVerificationFailed { block, expected, actual } => {
                let digits = decimal_chars(*block as u64);
                let number = string_of(digits.as_slice());
                let mut s = concat2("patch verification failed: block ", number.as_str());
                s.append(" mismatch (expected ");
                s.append(expected.as_str());
                s.append(", got ");
                s.append(actual.as_str());
                s.append(")");
                s
            },
            Error::ZiPatchParse(m) => concat2("zipatch parse error: ", m.as_str()),
            Error::ZiPatchApply(m) => concat2("zipatch apply error: ", m.as_str()),
            Error::ZiPatchChecksumMismatch { offset } => {
                let digits = decimal_chars(*offset);
                let number = string_of(digits.as_slice());
                concat2("zipatch checksum mismatch at offset ", number.as_str())
            },
            Error::ZiPatchInvalidMagic => String::from_str("zipatch invalid magic header"),
            Error::ZiPatchUnknownChunk(m) => concat2("zipatch unknown chunk type: ", m.as_str()),
            Error::IntegrityManifestNotFound(v) => concat2(
                "integrity manifest not found for version ",
                v.as_str(),
            ),
            Error::IntegrityMismatch(m) => concat2("file integrity mismatch: ", m.as_str()),
            Error::Cancelled => String::from_str("operation cancelled"),
            Error::NotEnoughDiskSpace { needed, available } => {
                let n = decimal_chars(*needed);
                let a = decimal_chars(*available);
                let ns = string_of(n.as_slice());
                let avs = string_of(a.as_slice());
                let mut s = concat2("not enough disk space: need ", ns.as_str());
                s.append(" bytes, have ");
                s.append(avs.as_str());
                s.append(" bytes");
                s
            },
            Error::GamePathNotConfigured => String::from_str("game path not configured"),
            Error::GamePathNotFound(p) => concat2("game path does not exist: ", p.as_str()),
            Error::Ipc(m) => concat2("IPC communication error: ", m.as_str()),
        }
    }
}

impl From<String> for Error {
    fn from(s: String) -> (e: Self)
        ensures
            e == Error::Other(s),
    {
        Error::Other(s)
    }
}

impl vstd::std_specs::convert::FromSpecImpl<String> for Error {
    open spec fn obeys_from_spec() -> bool {
        true
    }

    open spec fn from_spec(s: String) -> Self {
        Error::Other(s)
    }
}

impl<'a> vstd::std_specs::convert::FromSpecImpl<&'a str> for Error {
    open spec fn obeys_from_spec() -> bool {
        false
    }

    open spec fn from_spec(s: &'a str) -> Self {
        arbitrary()
    }
}

impl<'a> From<&'a str> for Error {
    fn from(s: &'a str) -> (e: Self)
        ensures
            e matches Error::Other(m) && m@ == s@,
    {
        Error::Other(String::from_str(s))
    }
}

} // verus!
