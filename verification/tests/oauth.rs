use gaveloc::account::Credentials;
use gaveloc::config::Region;
use gaveloc::entities::OauthLoginResult;
use gaveloc::error::{Error, OauthError};
use gaveloc::oauth::{
    accept_login, classify_error, computer_id_for, extract_stored_token, generate_user_agent,
    login_form, login_result_from, make_computer_id, oauth_top_url, parse_login_response,
    parse_oauth_error, stored_token_from, user_agent_for, FAILURE_PATTERN, OAUTH_LOGIN_URL,
    OAUTH_SEND_URL, SUCCESS_PATTERN,
};
use regex::Regex;
use sha1::Digest;

#[test]
fn test_generate_user_agent() {
    let ua = generate_user_agent();
    assert!(ua.starts_with("SQEXAuthor/2.0.0"));
    assert!(ua.contains("Windows 6.2"));
    assert_eq!(ua, format!("SQEXAuthor/2.0.0(Windows 6.2; ja-jp; {})", make_computer_id()));
}

#[test]
fn test_make_computer_id() {
    let id1 = make_computer_id();
    let id2 = make_computer_id();

    // Should be deterministic
    assert_eq!(id1, id2);

    // Should be 10 hex characters (5 bytes)
    assert_eq!(id1.len(), 10);
    assert!(id1.chars().all(|c| c.is_ascii_hexdigit()));
}

#[test]
fn test_computer_id_for_known_machine() {
    // SHA-1 of "hostuserlinux"
    let digest = sha1::Sha1::digest(b"hostuserlinux");
    let sum = digest[0]
        .wrapping_add(digest[1])
        .wrapping_add(digest[2])
        .wrapping_add(digest[3]);
    let expected = hex::encode([sum.wrapping_neg(), digest[0], digest[1], digest[2], digest[3]]);
    let id = computer_id_for("host", "user", "linux");
    assert_eq!(id, expected);
    // the five bytes add up to 0
    let bytes = hex::decode(&id).unwrap();
    assert_eq!(bytes.iter().fold(0u8, |a, b| a.wrapping_add(*b)), 0);
    assert_ne!(computer_id_for("host", "user", "linux"), computer_id_for("host", "user2", "linux"));
    assert_eq!(user_agent_for("0123456789"), "SQEXAuthor/2.0.0(Windows 6.2; ja-jp; 0123456789)");
}

#[test]
fn test_computer_id_fixed_value() {
    // sha1("") = da39a3ee...; 0xda + 0x39 + 0xa3 + 0xee = 0x2a4 -> 0xa4; checksum 0x5c
    assert_eq!(computer_id_for("", "", ""), "5cda39a3ee");
}

#[test]
fn test_parse_oauth_error() {
    assert!(matches!(
        parse_oauth_error("ID or password is incorrect"),
        OauthError::InvalidCredentials
    ));

    assert!(matches!(
        parse_oauth_error("One-time password is invalid"),
        OauthError::InvalidOtp
    ));

    assert!(matches!(
        parse_oauth_error("Account has been locked"),
        OauthError::AccountLocked
    ));

    assert!(matches!(
        parse_oauth_error("Server is under maintenance"),
        OauthError::MaintenanceMode
    ));

    assert!(matches!(
        parse_oauth_error("Too many login attempts"),
        OauthError::RateLimited
    ));

    assert!(matches!(
        parse_oauth_error("Some unknown error"),
        OauthError::Unknown(_)
    ));
}

#[test]
fn test_parse_oauth_error_additional_cases() {
    // Test suspended account
    assert!(matches!(
        parse_oauth_error("Your account has been suspended"),
        OauthError::AccountLocked
    ));

    // Test rate limiting
    assert!(matches!(
        parse_oauth_error("Rate limited due to suspicious activity"),
        OauthError::RateLimited
    ));

    // Test OTP variant
    assert!(matches!(
        parse_oauth_error("OTP verification failed"),
        OauthError::InvalidOtp
    ));
}

#[test]
fn test_parse_oauth_error_first_match_decides_and_unknown_keeps_the_text() {
    // "incorrect" comes before "one-time"
    assert!(matches!(
        parse_oauth_error("The one-time password is INCORRECT"),
        OauthError::InvalidCredentials
    ));
    // "locked" before "maintenance"
    assert!(matches!(
        parse_oauth_error("locked during maintenance"),
        OauthError::AccountLocked
    ));
    match parse_oauth_error("Nothing We Know") {
        OauthError::Unknown(m) => assert_eq!(m, "Nothing We Know"),
        other => panic!("expected Unknown, got {:?}", other),
    }
    assert!(matches!(parse_oauth_error(""), OauthError::Unknown(_)));
}

#[test]
fn test_success_response_regex() {
    let response = r#"window.external.user("login=auth,ok,sid,SESSION123,0,1,0,3,0,0,0,1,0,0,5,0");"#;
    let regex = Regex::new(SUCCESS_PATTERN).unwrap();

    let captures = regex.captures(response).unwrap();
    let params_str = captures.name("launchParams").unwrap().as_str();
    let params: Vec<&str> = params_str.split(',').collect();

    assert!(params.len() >= 14);
    assert_eq!(params[1], "SESSION123");

    let r = parse_login_response(response).unwrap();
    assert_eq!(r.session_id, "SESSION123");
}

#[test]
fn test_error_response_regex() {
    let response = r#"window.external.user("login=auth,ng,err,ID or password is incorrect");"#;
    let regex = Regex::new(FAILURE_PATTERN).unwrap();

    let captures = regex.captures(response).unwrap();
    let error_msg = captures.name("errorMessage").unwrap().as_str();

    assert_eq!(error_msg, "ID or password is incorrect");
    assert!(matches!(
        parse_login_response(response),
        Err(Error::OauthLogin(OauthError::InvalidCredentials))
    ));
}

#[test]
fn test_login_success_parsing() {
    let body = r#"window.external.user("login=auth,ok,sid,SESSION123,0,1,0,3,0,1,0,1,0,0,5,0");"#;
    let r = parse_login_response(body).unwrap();
    assert_eq!(r.session_id, "SESSION123");
    assert!(r.terms_accepted);
    assert!(r.playable);
    // parameters 5 and 13, counted from 0 after "ok,"
    assert_eq!(r.region, 3);
    assert_eq!(r.max_expansion, 0);

    let short = r#"window.external.user("login=auth,ok,sid,SESSION123,0,1,0,3,0,1");"#;
    match parse_login_response(short) {
        Err(Error::InvalidServerResponse(m)) => {
            assert_eq!(m, "unexpected launch params count: 8")
        }
        other => panic!("expected InvalidServerResponse, got {:?}", other),
    }
    let ten = r#"<html>window.external.user("login=auth,ok,a,b,c,d,e,f,g,h,i,j");</html>"#;
    assert!(matches!(parse_login_response(ten), Err(Error::InvalidServerResponse(_))));
}

#[test]
fn test_login_response_in_named_pairs() {
    let body = format!(
        "{}{}",
        "<script>window.external.user(\"login=auth,ok,sid,abcdef0123,terms,1,region,2,",
        "etmadd,0,playable,1,ps3pkg,0,maxex,4,product,1\");</script>"
    );
    let r = parse_login_response(&body).unwrap();
    assert_eq!(r.session_id, "abcdef0123");
    assert_eq!(r.region, 2);
    assert_eq!(r.max_expansion, 4);
    assert!(r.terms_accepted && r.playable);
}

#[test]
fn test_login_result_from_each_outcome() {
    let ok = |s: &str| login_result_from(Some(s.to_string()), None);
    let good = ok("a,SID,c,0,e,-7,g,h,i,0,k,l,m,+12").unwrap();
    assert_eq!(good.session_id, "SID");
    assert_eq!(good.region, -7);
    assert!(!good.terms_accepted);
    assert!(!good.playable);
    assert_eq!(good.max_expansion, 12);
    // a flag is set unless it is exactly "0"
    let flags = ok("a,b,c,00,e,1,g,h,i,,k,l,m,1").unwrap();
    assert!(flags.terms_accepted && flags.playable);

    let msg = |r: Result<OauthLoginResult, Error>| match r {
        Err(Error::InvalidServerResponse(m)) => m,
        other => panic!("expected InvalidServerResponse, got {:?}", other),
    };
    assert_eq!(msg(ok("")), "unexpected launch params count: 1");
    assert_eq!(msg(ok("a,b,c,d,e,f,g,h,i,j,k,l,m")), "unexpected launch params count: 13");
    assert_eq!(msg(ok("a,b,c,d,e,x,g,h,i,j,k,l,m,1")), "invalid region");
    assert_eq!(msg(ok("a,b,c,d,e,2147483648,g,h,i,j,k,l,m,1")), "invalid region");
    assert_eq!(msg(ok("a,b,c,d,e,1,g,h,i,j,k,l,m,-1")), "invalid max expansion");
    assert_eq!(msg(ok("a,b,c,d,e,1,g,h,i,j,k,l,m,4294967296")), "invalid max expansion");
    assert_eq!(ok("a,b,c,d,e,-2147483648,g,h,i,j,k,l,m,4294967295").unwrap().region, i32::MIN);
    assert_eq!(msg(login_result_from(None, None)), "unexpected login response format");
    // success is looked at first
    assert!(login_result_from(
        Some("a,b,c,d,e,1,g,h,i,j,k,l,m,1".to_string()),
        Some("locked".to_string())
    )
    .is_ok());
    assert!(matches!(
        login_result_from(None, Some("Account LOCKED".to_string())),
        Err(Error::OauthLogin(OauthError::AccountLocked))
    ));
    assert_eq!(msg(parse_login_response("<html>nothing here</html>")), "unexpected login response format");
}

#[test]
fn test_accept_login() {
    let result = |playable, terms_accepted| OauthLoginResult {
        session_id: "s".to_string(),
        region: 3,
        terms_accepted,
        playable,
        max_expansion: 5,
    };
    assert!(accept_login(result(true, true)).is_ok());
    assert!(matches!(accept_login(result(false, true)), Err(Error::AccountNotPlayable)));
    assert!(matches!(accept_login(result(true, false)), Err(Error::TermsNotAccepted)));
    assert!(matches!(accept_login(result(false, false)), Err(Error::AccountNotPlayable)));
}

#[test]
fn test_oauth_top_url() {
    assert_eq!(
        oauth_top_url(Region::Europe, false),
        "https://ffxiv-login.square-enix.com/oauth/ffxivarr/login/top?lng=en&rgn=3&isft=0&cssmode=1&isnew=1&launchver=3"
    );
    assert_eq!(
        oauth_top_url(Region::Japan, true),
        format!("{}?lng=en&rgn=1&isft=1&cssmode=1&isnew=1&launchver=3", OAUTH_LOGIN_URL)
    );
    assert_eq!(
        OAUTH_SEND_URL,
        "https://ffxiv-login.square-enix.com/oauth/ffxivarr/login/login.send"
    );
}

#[test]
fn test_stored_token() {
    let page = r#"<form><input type="hidden" name="_STORED_" value="tok-123"></form>"#;
    assert_eq!(extract_stored_token(page).unwrap(), "tok-123");
    let empty = r#"< input type="hidden" name="_STORED_" value="">"#;
    assert_eq!(extract_stored_token(empty).unwrap(), "");
    match extract_stored_token("<html></html>") {
        Err(Error::InvalidServerResponse(m)) => assert_eq!(m, "could not find _STORED_ token"),
        other => panic!("expected InvalidServerResponse, got {:?}", other),
    }
    let restart = format!("{}window.external.user(\"restartup\");", page);
    match extract_stored_token(&restart) {
        Err(Error::InvalidServerResponse(m)) => assert_eq!(m, "server requested restart"),
        other => panic!("expected InvalidServerResponse, got {:?}", other),
    }
    assert_eq!(stored_token_from("body", Some("t".to_string())).unwrap(), "t");
    assert!(stored_token_from("window.external.user(\"restartup\");", Some("t".to_string())).is_err());
}

#[test]
fn test_login_form() {
    let with_otp = Credentials::new("User".to_string(), "secret".to_string()).with_otp("123456".to_string());
    let form = login_form(&with_otp, "token");
    let pairs: Vec<(&str, &str)> = form.iter().map(|f| (f.name.as_str(), f.value.as_str())).collect();
    assert_eq!(
        pairs,
        vec![("_STORED_", "token"), ("sqexid", "User"), ("password", "secret"), ("otppw", "123456")]
    );
    let without = Credentials::new("User".to_string(), "secret".to_string());
    assert_eq!(login_form(&without, "t")[3].value, "");
}

#[test]
fn test_classify_error() {
    assert_eq!(classify_error("OAuth login failed: invalid username or PASSWORD"), "invalid_credentials");
    assert_eq!(classify_error("bad credential"), "invalid_credentials");
    assert_eq!(classify_error("invalid one-time code"), "invalid_otp");
    assert_eq!(classify_error("OTP required"), "invalid_otp");
    assert_eq!(classify_error("account is locked"), "account_locked");
    assert_eq!(classify_error("account suspended"), "account_locked");
    assert_eq!(classify_error("servers under maintenance"), "maintenance");
    assert_eq!(classify_error("too many login attempts"), "rate_limited");
    assert_eq!(classify_error("account not playable (no active subscription)"), "no_subscription");
    assert_eq!(classify_error("terms of service not accepted"), "no_subscription");
    assert_eq!(classify_error("the terms were not accepted"), "terms_not_accepted");
    assert_eq!(classify_error("network error: timeout"), "unknown");
}
