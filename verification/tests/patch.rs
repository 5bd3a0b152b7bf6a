use gaveloc::download::{verify_file_blocks, verify_patch};
use gaveloc::digest::sha1_hex;
use gaveloc::entities::{PatchEntry, Repository};
use gaveloc::error::Error;
use gaveloc::patch::{
    boot_patches_from, boot_version_url, game_version_url, infer_repository, is_server_error,
    parse_game_patch_list, parse_patch_list, retry_delay, session_from_response,
    total_download_size, MAX_RETRIES,
};
use sha1::{Digest, Sha1};

#[test]
fn test_parse_patch_list_empty() {
    let patches = parse_patch_list("", Repository::Boot).unwrap();
    assert!(patches.is_empty());
}

#[test]
fn test_parse_patch_list_single() {
    let line = "2024.07.23.0000.0001\thttp://example.com/patch.zip\t1024";
    let patches = parse_patch_list(line, Repository::Boot).unwrap();

    assert_eq!(patches.len(), 1);
    assert_eq!(patches[0].version_id, "2024.07.23.0000.0001");
    assert_eq!(patches[0].url, "http://example.com/patch.zip");
    assert_eq!(patches[0].length, 1024);
    assert_eq!(patches[0].repository, Repository::Boot);
    assert_eq!(patches[0].hash_type, None);
    assert_eq!(patches[0].hash_block_size, None);
    assert_eq!(patches[0].hashes, None);
}

#[test]
fn test_parse_patch_list_with_hashes() {
    let line =
        "2024.07.23.0000.0001\thttp://example.com/patch.zip\t1024\tsha1\t1048576\tabc123\tdef456";
    let patches = parse_patch_list(line, Repository::Ffxiv).unwrap();

    assert_eq!(patches.len(), 1);
    assert_eq!(patches[0].hash_type, Some("sha1".to_string()));
    assert_eq!(patches[0].hash_block_size, Some(1048576));
    assert_eq!(
        patches[0].hashes,
        Some(vec!["abc123".to_string(), "def456".to_string()])
    );
}

#[test]
fn test_parse_patch_list_multiple() {
    let body = "2024.07.23.0000.0001\thttp://example.com/patch1.zip\t1024
2024.07.24.0000.0000\thttp://example.com/patch2.zip\t2048";
    let patches = parse_patch_list(body, Repository::Ffxiv).unwrap();

    assert_eq!(patches.len(), 2);
    assert_eq!(patches[0].version_id, "2024.07.23.0000.0001");
    assert_eq!(patches[1].version_id, "2024.07.24.0000.0000");
    assert_eq!(patches[1].length, 2048);
}

#[test]
fn test_parse_patch_list_skips_malformed() {
    // Line with less than 3 parts should be skipped
    let body = "malformed\tsingle\n2024.07.23.0000.0001\thttp://example.com/patch.zip\t1024";
    let patches = parse_patch_list(body, Repository::Boot).unwrap();

    assert_eq!(patches.len(), 1);
    assert_eq!(patches[0].version_id, "2024.07.23.0000.0001");
}

#[test]
fn test_parse_patch_list_handles_whitespace() {
    let body = "  \n  \n2024.07.23.0000.0001\thttp://example.com/patch.zip\t1024\n  ";
    let patches = parse_patch_list(body, Repository::Boot).unwrap();

    assert_eq!(patches.len(), 1);
}

#[test]
fn test_parse_patch_list_expansion_repositories() {
    let line = "2024.07.23.0000.0001\thttp://example.com/patch.zip\t1024";

    let patches = parse_patch_list(line, Repository::Ex1).unwrap();
    assert_eq!(patches[0].repository, Repository::Ex1);

    let patches = parse_patch_list(line, Repository::Ex2).unwrap();
    assert_eq!(patches[0].repository, Repository::Ex2);

    let patches = parse_patch_list(line, Repository::Ex3).unwrap();
    assert_eq!(patches[0].repository, Repository::Ex3);
}

#[test]
fn test_parse_patch_list_details() {
    // carriage returns go with the white space around a line
    let body = "v1\tu1\t1\r\nv2\tu2\t2\r\n";
    let patches = parse_patch_list(body, Repository::Boot).unwrap();
    assert_eq!(patches.len(), 2);
    assert_eq!(patches[1].url, "u2");
    assert_eq!(patches[1].length, 2);

    // four fields: no hash information
    let four = parse_patch_list("v\tu\t1\tsha1", Repository::Boot).unwrap();
    assert_eq!(four[0].hash_type, None);
    // five fields: hash type and block size, no hashes
    let five = parse_patch_list("v\tu\t1\tsha1\t50", Repository::Boot).unwrap();
    assert_eq!(five[0].hash_type, Some("sha1".to_string()));
    assert_eq!(five[0].hash_block_size, Some(50));
    assert_eq!(five[0].hashes, None);
    // a block size that is no number is no block size
    let odd = parse_patch_list("v\tu\t1\tsha1\tx\th1", Repository::Boot).unwrap();
    assert_eq!(odd[0].hash_block_size, None);
    assert_eq!(odd[0].hashes, Some(vec!["h1".to_string()]));
    // the largest length
    let big = parse_patch_list("v\tu\t18446744073709551615", Repository::Boot).unwrap();
    assert_eq!(big[0].length, u64::MAX);
}

#[test]
fn test_parse_patch_list_bad_length_fails_the_list() {
    for (body, field) in [
        ("v\tu\tlarge", "large"),
        ("v\tu\t18446744073709551616", "18446744073709551616"),
        ("v1\tu1\t1\nv2\tu2\t-2\nv3\tu3\t3", "-2"),
        ("v\tu\t\tx", ""),
    ] {
        match parse_patch_list(body, Repository::Boot) {
            Err(Error::PatchServer(m)) => assert_eq!(m, format!("Invalid patch size: {}", field)),
            other => panic!("expected PatchServer, got {:?}", other),
        }
    }
}

#[test]
fn test_game_patch_list_infers_repository_from_address() {
    let body = "\
v0\thttp://patch/game/4e9a232b/D1.patch\t10
v1\thttp://patch/game/ex1/6b936f08/D2.patch\t20
v2\thttp://patch/game/ex2/f29a3eb2/D3.patch\t30
v3\thttp://patch/game/ex3/859d0e24/D4.patch\t40
v4\thttp://patch/game/ex4/1bf99b87/D5.patch\t50
v5\thttp://patch/game/ex5/6cfeab11/D6.patch\t60
/ex1/\thttp://patch/game/base/D7.patch\t70";
    let patches = parse_game_patch_list(body).unwrap();
    let repos: Vec<Repository> = patches.iter().map(|p| p.repository).collect();
    assert_eq!(
        repos,
        vec![
            Repository::Ffxiv,
            Repository::Ex1,
            Repository::Ex2,
            Repository::Ex3,
            Repository::Ex4,
            Repository::Ex5,
            Repository::Ffxiv,
        ]
    );
    let chars: Vec<char> = "http://x/ex2/ex1/".chars().collect();
    assert_eq!(infer_repository(&chars), Repository::Ex1);
    let none: Vec<char> = "http://x/ex1".chars().collect();
    assert_eq!(infer_repository(&none), Repository::Ffxiv);
}

#[test]
fn test_urls() {
    assert_eq!(
        boot_version_url("2024.07.23.0000.0001"),
        "http://patch-bootver.ffxiv.com/http/win32/ffxivneo_release_boot/2024.07.23.0000.0001"
    );
    assert_eq!(
        game_version_url("2024.07.23.0000.0001", "SESSION"),
        "https://patch-gamever.ffxiv.com/http/win32/ffxivneo_release_game/2024.07.23.0000.0001/SESSION"
    );
}

#[test]
fn test_boot_answer() {
    assert!(boot_patches_from(204, "ignored\tbody\t1").unwrap().is_empty());
    let one = boot_patches_from(200, "2024.07.24.0000.0000\thttp://example/patch1.patch\t1024").unwrap();
    assert_eq!(one.len(), 1);
    assert_eq!(one[0].version_id, "2024.07.24.0000.0000");
    assert_eq!(one[0].url, "http://example/patch1.patch");
    assert_eq!(one[0].length, 1024);
    assert_eq!(one[0].repository, Repository::Boot);
    assert_eq!(one[0].filename(), Some("patch1.patch"));
    for status in [199u16, 300, 404, 500, 503] {
        match boot_patches_from(status, "") {
            Err(Error::PatchServer(m)) => {
                assert_eq!(m, format!("Boot version check failed with status: {}", status))
            }
            other => panic!("expected PatchServer, got {:?}", other),
        }
    }
    assert!(boot_patches_from(299, "").unwrap().is_empty());
}

#[test]
fn test_session_answer() {
    let body = "v1\thttp://p/ex1/a.patch\t5";
    // the handle of the server, else the session id
    let (uid, patches) = session_from_response("SID", 200, Some("UID"), Some(24), body).unwrap();
    assert_eq!(uid, "UID");
    assert_eq!(patches.len(), 1);
    assert_eq!(patches[0].repository, Repository::Ex1);
    let (uid, _) = session_from_response("SID", 200, None, None, body).unwrap();
    assert_eq!(uid, "SID");
    // a content length of 0 is an empty list, body or not
    for status in [200u16, 204] {
        let (uid, patches) = session_from_response("SID", status, Some("U"), Some(0), body).unwrap();
        assert_eq!(uid, "U");
        assert!(patches.is_empty());
    }
    // a blank body is an empty list
    let (_, patches) = session_from_response("SID", 200, None, Some(3), " \n ").unwrap();
    assert!(patches.is_empty());
    let (_, patches) = session_from_response("SID", 204, None, None, "").unwrap();
    assert!(patches.is_empty());
    // conflict
    match session_from_response("SID", 409, None, Some(0), body) {
        Err(Error::PatchServer(m)) => {
            assert_eq!(m, "Game version conflict - server may be under maintenance")
        }
        other => panic!("expected PatchServer, got {:?}", other),
    }
    match session_from_response("SID", 500, None, Some(0), body) {
        Err(Error::PatchServer(m)) => assert_eq!(m, "Session registration failed with status: 500"),
        other => panic!("expected PatchServer, got {:?}", other),
    }
    assert!(matches!(
        session_from_response("SID", 200, None, None, "v\tu\tx"),
        Err(Error::PatchServer(_))
    ));
}

#[test]
fn test_retry_policy() {
    assert_eq!(MAX_RETRIES, 3);
    assert_eq!(retry_delay(0), Some(1));
    assert_eq!(retry_delay(1), Some(2));
    assert_eq!(retry_delay(2), None);
    assert_eq!(retry_delay(u32::MAX), None);
    assert!(is_server_error(500) && is_server_error(599));
    assert!(!is_server_error(499) && !is_server_error(600) && !is_server_error(204));
}

fn entry(length: u64, block: Option<u64>, hashes: Option<Vec<String>>) -> PatchEntry {
    PatchEntry {
        version_id: "test".to_string(),
        url: "http://example.com".to_string(),
        length,
        hash_type: hashes.as_ref().map(|_| "sha1".to_string()),
        hash_block_size: block,
        hashes,
        repository: Repository::Boot,
    }
}

#[test]
fn test_total_download_size() {
    assert_eq!(total_download_size(&[]), 0);
    assert_eq!(total_download_size(&[entry(5, None, None), entry(7, None, None)]), 12);
    assert_eq!(
        total_download_size(&[entry(u64::MAX, None, None), entry(7, None, None)]),
        u64::MAX
    );
}

fn reference_sha1(data: &[u8]) -> String {
    let mut hasher = Sha1::new();
    hasher.update(data);
    hex::encode(hasher.finalize())
}

#[test]
fn test_verify_patch_size_check() {
    let content = b"test patch content";

    // Correct size should pass
    let patch = entry(content.len() as u64, None, None);
    assert!(verify_patch(&patch, Some(content)));

    // Wrong size should fail
    let patch_wrong_size = entry(content.len() as u64 + 100, None, None);
    assert!(!verify_patch(&patch_wrong_size, Some(content)));
}

#[test]
fn test_verify_patch_with_hashes() {
    let content = b"test patch content";
    let expected_hash = reference_sha1(content);

    // Correct hash should pass
    let patch = entry(content.len() as u64, Some(1048576), Some(vec![expected_hash.clone()]));
    assert!(verify_patch(&patch, Some(content)));

    // Wrong hash should fail
    let patch_wrong_hash = entry(content.len() as u64, Some(1048576), Some(vec!["wronghash".to_string()]));
    assert!(!verify_patch(&patch_wrong_hash, Some(content)));
}

#[test]
fn test_verify_patch_missing_file() {
    let patch = entry(100, None, None);
    assert!(!verify_patch(&patch, None));
    assert!(!verify_patch(&entry(0, None, None), None));
    assert!(verify_patch(&entry(0, None, None), Some(b"")));
}

#[test]
fn test_block_hash_verification_failure() {
    let hashes = vec![reference_sha1(b"aaaa"), reference_sha1(b"bbbb")];
    let patch = entry(8, Some(4), Some(hashes.clone()));
    assert!(verify_patch(&patch, Some(b"aaaabbbb")));
    assert!(!verify_patch(&patch, Some(b"aaaabXbb")));
    assert!(!verify_patch(&patch, Some(b"aXaabbbb")));
    assert!(verify_file_blocks(b"aaaabbbb", &hashes, 4));
    assert!(!verify_file_blocks(b"aaaabXbb", &hashes, 4));
}

#[test]
fn test_any_single_changed_block_fails() {
    let data: Vec<u8> = (0..1000u32).map(|i| (i * 7) as u8).collect();
    let block = 64usize;
    let hashes: Vec<String> = data.chunks(block).map(reference_sha1).collect();
    assert_eq!(hashes.len(), 16);
    assert!(verify_file_blocks(&data, &hashes, block as u64));
    for k in 0..hashes.len() {
        // a changed hash
        let mut wrong = hashes.clone();
        wrong[k] = reference_sha1(b"something else");
        assert!(!verify_file_blocks(&data, &wrong, block as u64));
        // a changed byte in the block
        let mut changed = data.clone();
        changed[k * block] ^= 1;
        assert!(!verify_file_blocks(&changed, &hashes, block as u64));
    }
    // hashes are compared as written
    let mut upper = hashes.clone();
    upper[3] = upper[3].to_uppercase();
    assert!(!verify_file_blocks(&data, &upper, block as u64));
}

#[test]
fn test_bytes_after_the_last_hash_are_not_looked_at() {
    let hashes = vec![reference_sha1(b"aaaa")];
    assert!(verify_file_blocks(b"aaaaZZZZZZ", &hashes, 4));
    // hashes after the last byte are not looked at either
    let more = vec![reference_sha1(b"aaaa"), reference_sha1(b"bb"), "unused".to_string()];
    assert!(verify_file_blocks(b"aaaabb", &more, 4));
    // a block size of 0 compares the digest of nothing
    assert!(!verify_file_blocks(b"aaaa", &hashes, 0));
    assert!(verify_file_blocks(b"aaaa", &vec![reference_sha1(b"")], 0));
    assert!(verify_file_blocks(b"", &hashes, 4));
    // without a block size the hashes are not used
    assert!(verify_patch(&entry(4, None, Some(vec!["nothing".to_string()])), Some(b"aaaa")));
}

#[test]
fn test_sha1_hex() {
    assert_eq!(sha1_hex(b""), "da39a3ee5e6b4b0d3255bfef95601890afd80709");
    assert_eq!(sha1_hex(b"abc"), "a9993e364706816aba3e25717850c26c9cd0d89d");
    assert_eq!(sha1_hex(b"Hello, World!"), "0a0a9f2a6772942557ab5355d76af442f8f65e01");
}
