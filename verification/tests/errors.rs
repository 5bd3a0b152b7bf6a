use gaveloc::error::{Error, OauthError};

#[test]
fn test_error_from_string() {
    let err: Error = String::from("test error").into();
    if let Error::Other(msg) = err {
        assert_eq!(msg, "test error");
    } else {
        panic!("Expected Error::Other");
    }
}

#[test]
fn test_error_from_str() {
    let err: Error = "test error".into();
    if let Error::Other(msg) = err {
        assert_eq!(msg, "test error");
    } else {
        panic!("Expected Error::Other");
    }
}

#[test]
fn test_oauth_error_display() {
    assert_eq!(
        OauthError::InvalidCredentials.to_string(),
        "invalid username or password"
    );
    assert_eq!(
        OauthError::InvalidOtp.to_string(),
        "invalid one-time password"
    );
    assert_eq!(OauthError::AccountLocked.to_string(), "account is locked");
    assert_eq!(
        OauthError::MaintenanceMode.to_string(),
        "servers under maintenance"
    );
    assert_eq!(
        OauthError::RateLimited.to_string(),
        "too many login attempts"
    );
    assert_eq!(
        OauthError::Unknown("custom error".to_string()).to_string(),
        "custom error"
    );
}

#[test]
fn test_error_display_variants() {
    // Test a selection of error variants for Display
    assert_eq!(
        Error::RunnerNotFound("/test/runner".to_string()).to_string(),
        "runner not found at /test/runner"
    );
    assert_eq!(
        Error::WineBinaryNotFound("/test".to_string()).to_string(),
        "no wine binary found in /test"
    );
    assert_eq!(
        Error::HomeDirectoryNotFound.to_string(),
        "failed to detect home directory"
    );
    assert_eq!(Error::SessionExpired.to_string(), "session expired");
    assert_eq!(Error::OtpRequired.to_string(), "OTP required");
    assert_eq!(Error::Cancelled.to_string(), "operation cancelled");
    assert_eq!(
        Error::ZiPatchInvalidMagic.to_string(),
        "zipatch invalid magic header"
    );
    assert_eq!(
        Error::ZiPatchChecksumMismatch { offset: 100 }.to_string(),
        "zipatch checksum mismatch at offset 100"
    );
    assert_eq!(
        Error::PatchBlockVerificationFailed {
            block: 5,
            expected: "abc".to_string(),
            actual: "def".to_string()
        }
        .to_string(),
        "patch verification failed: block 5 mismatch (expected abc, got def)"
    );
    assert_eq!(
        Error::NotEnoughDiskSpace {
            needed: 1000,
            available: 500
        }
        .to_string(),
        "not enough disk space: need 1000 bytes, have 500 bytes"
    );
    assert_eq!(
        Error::OauthLogin(OauthError::InvalidCredentials).to_string(),
        "OAuth login failed: invalid username or password"
    );
}

#[test]
fn test_error_display_every_variant() {
    let s = |t: &str| t.to_string();
    let cases: Vec<(Error, &str)> = vec![
        (Error::InvalidRunnerPath(s("/r")), "invalid runner path: /r"),
        (Error::Encryption(s("k")), "encryption failed: k"),
        (Error::PrefixInitialization(s("p")), "prefix initialization failed: p"),
        (Error::Network(s("n")), "network error: n"),
        (Error::Authentication(s("a")), "authentication failed: a"),
        (Error::CredentialStorage(s("c")), "credential storage error: c"),
        (Error::AccountNotPlayable, "account not playable (no active subscription)"),
        (Error::TermsNotAccepted, "terms of service not accepted"),
        (Error::InvalidServerResponse(s("r")), "invalid response from server: r"),
        (Error::Io(s("gone")), "io error: gone"),
        (Error::Other(s("plain")), "plain"),
        (Error::VersionFileNotFound(s("/g/boot/ffxivboot.ver")), "version file not found: /g/boot/ffxivboot.ver"),
        (Error::InvalidVersionFormat(s("v")), "invalid version format: v"),
        (Error::PatchServer(s("409")), "patch server error: 409"),
        (Error::PatchDownload(s("d")), "patch download failed: d"),
        (Error::PatchVerificationFailed, "patch verification failed: hash mismatch"),
        (Error::ZiPatchParse(s("z")), "zipatch parse error: z"),
        (Error::ZiPatchApply(s("y")), "zipatch apply error: y"),
        (Error::ZiPatchUnknownChunk(s("ABCD")), "zipatch unknown chunk type: ABCD"),
        (Error::IntegrityManifestNotFound(s("2024")), "integrity manifest not found for version 2024"),
        (Error::IntegrityMismatch(s("f")), "file integrity mismatch: f"),
        (Error::GamePathNotConfigured, "game path not configured"),
        (Error::GamePathNotFound(s("/g")), "game path does not exist: /g"),
        (Error::Ipc(s("died")), "IPC communication error: died"),
        (Error::ZiPatchChecksumMismatch { offset: 0 }, "zipatch checksum mismatch at offset 0"),
        (
            Error::ZiPatchChecksumMismatch { offset: u64::MAX },
            "zipatch checksum mismatch at offset 18446744073709551615",
        ),
        (
            Error::OauthLogin(OauthError::Unknown(s("odd"))),
            "OAuth login failed: odd",
        ),
    ];
    for (error, text) in cases {
        assert_eq!(error.to_string(), text);
    }
}
