use bitbrowser_core::names::{exe_name_candidates, is_bitbrowser_process, is_candidate_exe};
use bitbrowser_core::text::{bytes_eq, contains_bytes, join_path, lower_vec, str_eq, to_lower};

#[test]
fn lowercasing_folds_ascii_only() {
    assert_eq!(to_lower(b'A'), b'a');
    assert_eq!(to_lower(b'Z'), b'z');
    assert_eq!(to_lower(b'a'), b'a');
    assert_eq!(to_lower(b'0'), b'0');
    assert_eq!(lower_vec(b"BitBrowser"), b"bitbrowser".to_vec());
}

#[test]
fn substring_search_finds_and_rejects() {
    assert!(contains_bytes(b"hello world", b"o w"));
    assert!(contains_bytes(b"hello", b""));
    assert!(contains_bytes(b"", b""));
    assert!(!contains_bytes(b"", b"x"));
    assert!(!contains_bytes(b"hello", b"world"));
    assert!(contains_bytes(b"aaab", b"aab"));
}

#[test]
fn byte_and_string_equality() {
    assert!(bytes_eq(b"abc", b"abc"));
    assert!(!bytes_eq(b"abc", b"abd"));
    assert!(!bytes_eq(b"abc", b"ab"));
    assert!(str_eq("port", "port"));
    assert!(!str_eq("port", "Port"));
    assert!(str_eq("比特", "比特"));
}

#[test]
fn join_path_inserts_separator() {
    assert_eq!(join_path("C:\\Apps", "BitBrowser.exe"), "C:\\Apps\\BitBrowser.exe");
}

#[test]
fn process_name_matching_is_case_insensitive() {
    assert!(is_bitbrowser_process("BitBrowser.exe"));
    assert!(is_bitbrowser_process("BITBROWSER"));
    assert!(is_bitbrowser_process("some bit browser helper"));
    assert!(is_bitbrowser_process("比特浏览器.exe"));
    assert!(!is_bitbrowser_process("chrome.exe"));
    assert!(!is_bitbrowser_process("otherapp.exe"));
}

#[test]
fn candidate_exe_names_are_recognised() {
    let names = exe_name_candidates();
    assert_eq!(names.len(), 5);
    assert_eq!(names[0], "BitBrowser.exe");
    for n in &names {
        assert!(is_candidate_exe(n));
    }
    assert!(!is_candidate_exe("bitbrowser"));
    assert!(!is_candidate_exe("chrome.exe"));
}
