use catport::endpoint::{announced_host, live_endpoint, share_url, FALLBACK_HOST, LISTEN_ADDRESS};
use catport::identifier::{issue_identifier, shorten, IDENTIFIER_LENGTH};
use catport::page::{bootstrap_page, PAGE_HEAD, PAGE_TAIL};
use catport::text::{replace_all, same_text};

#[test]
fn live_endpoint_of_plain_address() {
    assert_eq!(live_endpoint("http://localhost:3000/share/abc12345"), "ws://localhost:3000/ws/abc12345");
    assert_eq!(live_endpoint("http://192.168.1.7:3000/share/0f3a9c1e"), "ws://192.168.1.7:3000/ws/0f3a9c1e");
}

#[test]
fn live_endpoint_of_secure_address() {
    assert_eq!(live_endpoint("https://example.org/share/abc12345"), "wss://example.org/ws/abc12345");
}

#[test]
fn live_endpoint_leaves_other_text_alone() {
    assert_eq!(live_endpoint(""), "");
    assert_eq!(live_endpoint("ws://host/ws/abc"), "ws://host/ws/abc");
    assert_eq!(live_endpoint("ftp://host/shared/abc"), "ftp://host/shared/abc");
}

#[test]
fn live_endpoint_rewrites_every_occurrence() {
    assert_eq!(live_endpoint("http://h/share/share/x/share/"), "ws://h/ws/share/x/ws/");
    assert_eq!(live_endpoint("http://http://a"), "ws://ws://a");
}

#[test]
fn live_endpoint_of_announced_address() {
    let url = share_url("10.0.0.5", "abc12345");
    assert_eq!(url, "http://10.0.0.5:3000/share/abc12345");
    assert_eq!(live_endpoint(&url), "ws://10.0.0.5:3000/ws/abc12345");
}

#[test]
fn share_url_joins_host_and_identifier() {
    assert_eq!(share_url("localhost", "abc12345"), "http://localhost:3000/share/abc12345");
    assert_eq!(share_url("", ""), "http://:3000/share/");
}

#[test]
fn announced_host_falls_back_to_localhost() {
    assert_eq!(announced_host(Some("192.168.1.7".to_string())), "192.168.1.7");
    assert_eq!(announced_host(None), "localhost");
    assert_eq!(FALLBACK_HOST, "localhost");
    assert_eq!(LISTEN_ADDRESS, "0.0.0.0:3000");
}

#[test]
fn replace_all_matches_from_the_left_without_overlap() {
    assert_eq!(replace_all("aaa", "aa", "b"), "ba");
    assert_eq!(replace_all("aaaa", "aa", "b"), "bb");
    assert_eq!(replace_all("abcabc", "bc", ""), "aa");
    assert_eq!(replace_all("abc", "abcd", "x"), "abc");
    assert_eq!(replace_all("abc", "abc", "xyz"), "xyz");
    assert_eq!(replace_all("", "a", "b"), "");
    assert_eq!(replace_all("a-b-c", "-", "--"), "a--b--c");
}

#[test]
fn replace_all_with_empty_pattern_copies() {
    assert_eq!(replace_all("abc", "", "x"), "abc");
    assert_eq!(replace_all("", "", "x"), "");
}

#[test]
fn replace_all_counts_characters_not_bytes() {
    assert_eq!(replace_all("\u{e9}t\u{e9}", "t", "\u{1f43e}"), "\u{e9}\u{1f43e}\u{e9}");
    assert_eq!(replace_all("a\u{1f43e}b\u{1f43e}", "\u{1f43e}", "-"), "a-b-");
}

#[test]
fn replace_all_agrees_with_std_on_nonempty_patterns() {
    let texts = ["", "a", "http://x/share/y", "aaaaa", "abababa", "/share//share/", "xhttp://http://"];
    let patterns = ["a", "aa", "aba", "/share/", "http://", "zzz"];
    for text in texts {
        for pattern in patterns {
            assert_eq!(replace_all(text, pattern, "<>"), text.replace(pattern, "<>"));
        }
    }
}

#[test]
fn same_text_is_exact() {
    assert!(same_text("", ""));
    assert!(same_text("abc12345", "abc12345"));
    assert!(!same_text("abc12345", "abc1234"));
    assert!(!same_text("abc", "abC"));
    assert!(!same_text("a", ""));
}

#[test]
fn shorten_takes_the_first_eight_characters() {
    assert_eq!(shorten("0f3a9c1e-5b7d-4e2a-9c1f-123456789abc"), "0f3a9c1e");
    assert_eq!(shorten("12345678"), "12345678");
    assert_eq!(shorten("123456789"), "12345678");
    assert_eq!(shorten("1234567"), "1234567");
    assert_eq!(shorten(""), "");
    assert_eq!(IDENTIFIER_LENGTH, 8);
}

#[test]
fn issued_identifiers_are_eight_hex_digits() {
    for _ in 0..50 {
        let identifier = issue_identifier();
        assert_eq!(identifier.len(), 8);
        assert!(identifier.chars().all(|c| c.is_ascii_digit() || ('a'..='f').contains(&c)));
    }
}

#[test]
fn issued_identifiers_differ() {
    let first = issue_identifier();
    let mut differs = false;
    for _ in 0..20 {
        differs = differs || issue_identifier() != first;
    }
    assert!(differs);
}

#[test]
fn bootstrap_page_wraps_the_identifier() {
    let page = bootstrap_page("abc12345");
    assert_eq!(page, format!("{}abc12345{}", PAGE_HEAD, PAGE_TAIL));
    assert!(page.contains("const wsUrl = `${protocol}//${window.location.host}/ws/abc12345`;"));
    assert!(page.contains("<!DOCTYPE html>"));
    assert!(page.contains("data.type === 'file_content' || data.type === 'file_update'"));
    assert!(PAGE_HEAD.ends_with("/ws/"));
    assert!(PAGE_TAIL.starts_with("`;"));
}

#[test]
fn live_endpoint_keeps_authority_and_identifier() {
    assert_eq!(
        live_endpoint("https://example.org:8443/share/abc12345"),
        "wss://example.org:8443/ws/abc12345"
    );
    assert_eq!(live_endpoint("http://[::1]:3000/share/0f3a9c1e"), "ws://[::1]:3000/ws/0f3a9c1e");
    assert_eq!(live_endpoint("http://shares/share/x"), "ws://shares/ws/x");
}

#[test]
fn live_endpoint_takes_an_authority_named_share_for_the_path() {
    assert_eq!(live_endpoint("http://share/share/abc12345"), "ws://ws/share/abc12345");
}
