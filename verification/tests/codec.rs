use base64::prelude::BASE64_STANDARD;
use base64::Engine;
use declarative_download::codec::target_from_members;
use declarative_download::descriptor::{DownloadDescriptor, TargetMembers};
use declarative_download::digits::{digit_runs_fit, MAX_DIGIT_RUN};
use declarative_download::error::DownloadError;
use declarative_download::session::DownloaderClient;

fn descriptor(id: &str, url: &str, total_size: u64, file_path: &str) -> DownloadDescriptor {
    DownloadDescriptor::new(id.to_string(), url.to_string(), total_size, file_path.to_string())
}

fn assert_same(a: &DownloadDescriptor, b: &DownloadDescriptor) {
    assert_eq!(a.id, b.id);
    assert_eq!(a.url, b.url);
    assert_eq!(a.total_size, b.total_size);
    assert_eq!(a.file_path, b.file_path);
}

fn malformed(token: &str) {
    match DownloaderClient::decode_target(token.to_string()) {
        Err(e) => assert_eq!(e, DownloadError::MalformedToken),
        Ok(d) => panic!("decoded {:?}", d),
    }
}

#[test]
fn encode_gives_base64_of_json() {
    let d = descriptor("1", "http://host/a.zip", 1000, "/tmp/x");
    let token = DownloaderClient::encode_target(&d).unwrap();
    assert_eq!(
        token,
        "eyJpZCI6IjEiLCJ1cmwiOiJodHRwOi8vaG9zdC9hLnppcCIsInRvdGFsX3NpemUiOjEwMDAsImZpbGVfcGF0aCI6Ii90bXAveCJ9"
    );
}

#[test]
fn encode_is_stable() {
    let d = descriptor("a", "http://h/x", 42, "/d");
    let first = DownloaderClient::encode_target(&d).unwrap();
    let second = DownloaderClient::encode_target(&d.clone()).unwrap();
    assert_eq!(first, second);
}

#[test]
fn decode_reads_the_four_fields() {
    let d = DownloaderClient::decode_target(
        "eyJpZCI6IjEiLCJ1cmwiOiJodHRwOi8vaG9zdC9hLnppcCIsInRvdGFsX3NpemUiOjEwMDAsImZpbGVfcGF0aCI6Ii90bXAveCJ9"
            .to_string(),
    )
    .unwrap();
    assert_same(&d, &descriptor("1", "http://host/a.zip", 1000, "/tmp/x"));
}

#[test]
fn decode_takes_members_in_any_order() {
    let d = DownloaderClient::decode_target(
        "eyJmaWxlX3BhdGgiOiJwIiwidG90YWxfc2l6ZSI6MTg0NDY3NDQwNzM3MDk1NTE2MTUsInVybCI6InUiLCJpZCI6InFcIlxcw6kifQ=="
            .to_string(),
    )
    .unwrap();
    assert_same(&d, &descriptor("q\"\\\u{e9}", "u", u64::MAX, "p"));
}

#[test]
fn round_trip_plain() {
    let d = descriptor("1", "http://localhost:8080/games/download/odin-1711812665673", 2928778, "D:/Programming/Odin/test");
    let token = DownloaderClient::encode_target(&d).unwrap();
    let back = DownloaderClient::decode_target(token).unwrap();
    assert_same(&back, &d);
}

#[test]
fn round_trip_awkward_texts() {
    let d = descriptor(
        "quote \" backslash \\ newline \n tab \t nul \u{0} bell \u{7}",
        "http://h/\u{e9}\u{4e2d}\u{1f600}?a=b&c={}",
        u64::MAX,
        "C:\\games\\odin",
    );
    let token = DownloaderClient::encode_target(&d).unwrap();
    let back = DownloaderClient::decode_target(token).unwrap();
    assert_same(&back, &d);
}

#[test]
fn round_trip_empty_texts_and_zero() {
    let d = descriptor("", "", 0, "");
    let token = DownloaderClient::encode_target(&d).unwrap();
    let back = DownloaderClient::decode_target(token).unwrap();
    assert_same(&back, &d);
}

#[test]
fn round_trip_large_sizes() {
    for total in [576460752303423499u64, 576460752303423500, 1000000000000000000, 9999999999999999999, u64::MAX - 1] {
        let d = descriptor("big", "u", total, "p");
        let token = DownloaderClient::encode_target(&d).unwrap();
        let back = DownloaderClient::decode_target(token).unwrap();
        assert_same(&back, &d);
    }
}

#[test]
fn token_differs_from_its_json() {
    let d = descriptor("1", "u", 7, "p");
    let token = DownloaderClient::encode_target(&d).unwrap();
    assert!(!token.contains('{'));
    assert!(!token.contains('"'));
}

#[test]
fn decode_rejects_what_is_no_base64() {
    malformed("***");
    malformed("{\"id\":\"1\",\"url\":\"u\",\"total_size\":7,\"file_path\":\"p\"}");
    malformed("eyJpZCI6IjEi=");
}

#[test]
fn decode_rejects_bytes_that_are_no_text() {
    malformed("//4=");
}

#[test]
fn decode_rejects_what_is_no_json() {
    malformed("bm90IGpzb24=");
    malformed("");
}

#[test]
fn decode_rejects_json_that_is_no_object() {
    malformed("WzEsMl0=");
}

#[test]
fn decode_rejects_a_missing_field() {
    malformed("eyJpZCI6IjEiLCJ1cmwiOiJ1IiwiZmlsZV9wYXRoIjoicCJ9");
}

#[test]
fn decode_rejects_a_size_of_the_wrong_kind() {
    malformed("eyJpZCI6IjEiLCJ1cmwiOiJ1IiwidG90YWxfc2l6ZSI6IjciLCJmaWxlX3BhdGgiOiJwIn0=");
    malformed("eyJpZCI6IjEiLCJ1cmwiOiJ1IiwidG90YWxfc2l6ZSI6MS41LCJmaWxlX3BhdGgiOiJwIn0=");
    malformed("eyJpZCI6IjEiLCJ1cmwiOiJ1IiwidG90YWxfc2l6ZSI6LTcsImZpbGVfcGF0aCI6InAifQ==");
    malformed("eyJpZCI6IjEiLCJ1cmwiOiJ1IiwidG90YWxfc2l6ZSI6MTg0NDY3NDQwNzM3MDk1NTE2MTYsImZpbGVfcGF0aCI6InAifQ==");
}

#[test]
fn decode_rejects_an_id_that_is_no_text() {
    malformed("eyJpZCI6NywidXJsIjoidSIsInRvdGFsX3NpemUiOjcsImZpbGVfcGF0aCI6InAifQ==");
}

fn token_of(text: &str) -> String {
    BASE64_STANDARD.encode(text)
}

fn members(
    id: Option<&str>,
    url: Option<&str>,
    total_size: Option<u64>,
    file_path: Option<&str>,
) -> TargetMembers {
    TargetMembers {
        id: id.map(String::from),
        url: url.map(String::from),
        total_size,
        file_path: file_path.map(String::from),
    }
}

#[test]
fn four_members_make_a_descriptor() {
    let d = target_from_members(members(Some("1"), Some("http://host/a.zip"), Some(1000), Some("/tmp/x")))
        .unwrap();
    assert_same(&d, &descriptor("1", "http://host/a.zip", 1000, "/tmp/x"));
    let d = target_from_members(members(Some(""), Some(""), Some(0), Some(""))).unwrap();
    assert_same(&d, &descriptor("", "", 0, ""));
    let d = target_from_members(members(Some("a"), Some("b"), Some(u64::MAX), Some("c"))).unwrap();
    assert_same(&d, &descriptor("a", "b", u64::MAX, "c"));
}

#[test]
fn a_missing_member_makes_no_descriptor() {
    let cases = [
        members(None, Some("u"), Some(7), Some("p")),
        members(Some("1"), None, Some(7), Some("p")),
        members(Some("1"), Some("u"), None, Some("p")),
        members(Some("1"), Some("u"), Some(7), None),
        members(None, None, Some(7), Some("p")),
        members(None, None, None, None),
    ];
    for case in cases {
        match target_from_members(case) {
            Err(e) => assert_eq!(e, DownloadError::MalformedToken),
            Ok(d) => panic!("made {:?}", d),
        }
    }
}

#[test]
fn digit_runs_are_measured() {
    assert!(digit_runs_fit(b""));
    assert!(digit_runs_fit(b"no digits at all"));
    assert!(digit_runs_fit(b"0123456789"));
    let longest = "7".repeat(MAX_DIGIT_RUN);
    assert!(digit_runs_fit(longest.as_bytes()));
    let too_long = "7".repeat(MAX_DIGIT_RUN + 1);
    assert!(!digit_runs_fit(too_long.as_bytes()));
    let broken = format!("{}x{}.{}", longest, longest, longest);
    assert!(digit_runs_fit(broken.as_bytes()));
    let inside = format!("abc{}def", too_long);
    assert!(!digit_runs_fit(inside.as_bytes()));
    let at_the_end = format!("{}/{}", longest, too_long);
    assert!(!digit_runs_fit(at_the_end.as_bytes()));
    let other_bytes = format!("{}\u{e9}{}:/", longest, longest);
    assert!(digit_runs_fit(other_bytes.as_bytes()));
}

#[test]
fn decode_rejects_a_fraction_of_too_many_digits() {
    for digits in [32768usize, 32769, 40000, 70000] {
        let text = format!(
            "{{\"id\":\"1\",\"url\":\"u\",\"total_size\":0.{},\"file_path\":\"p\"}}",
            "0".repeat(digits)
        );
        malformed(&token_of(&text));
        let text = format!("0.{}", "0".repeat(digits));
        malformed(&token_of(&text));
        let text = format!(
            "{{\"id\":\"1\",\"url\":\"u\",\"total_size\":7,\"file_path\":\"p\",\"x\":1234567890123456789012.{}}}",
            "5".repeat(digits)
        );
        malformed(&token_of(&text));
    }
}

#[test]
fn decode_rejects_a_long_run_of_digits_anywhere() {
    let text = format!(
        "{{\"id\":\"{}\",\"url\":\"u\",\"total_size\":7,\"file_path\":\"p\"}}",
        "1".repeat(MAX_DIGIT_RUN + 1)
    );
    malformed(&token_of(&text));
}

#[test]
fn decode_takes_the_longest_run_of_digits() {
    let id = "1".repeat(MAX_DIGIT_RUN);
    let text = format!(
        "{{\"id\":\"{}\",\"url\":\"u\",\"total_size\":7,\"file_path\":\"p\"}}",
        id
    );
    let d = DownloaderClient::decode_target(token_of(&text)).unwrap();
    assert_same(&d, &descriptor(&id, "u", 7, "p"));
}

#[test]
fn decode_rejects_the_size_with_a_long_fraction_that_fits() {
    let text = format!(
        "{{\"id\":\"1\",\"url\":\"u\",\"total_size\":1.{},\"file_path\":\"p\"}}",
        "0".repeat(MAX_DIGIT_RUN)
    );
    malformed(&token_of(&text));
}

#[test]
fn encode_takes_the_longest_run_of_digits() {
    let d = descriptor(&"9".repeat(MAX_DIGIT_RUN), "u", 7, "p");
    let token = DownloaderClient::encode_target(&d).unwrap();
    let back = DownloaderClient::decode_target(token).unwrap();
    assert_same(&back, &d);
}

#[test]
fn encode_rejects_a_longer_run_of_digits() {
    for d in [
        descriptor(&"9".repeat(MAX_DIGIT_RUN + 1), "u", 7, "p"),
        descriptor("1", &format!("http://h/{}", "0".repeat(40000)), 7, "p"),
        descriptor("1", "u", 7, &"5".repeat(100000)),
    ] {
        assert_eq!(
            DownloaderClient::encode_target(&d).unwrap_err(),
            DownloadError::MalformedToken
        );
    }
}
