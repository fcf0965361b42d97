use tfcd::errors::DriverError;
use tfcd::platform::HostOs;
use tfcd::text::{contains_str, join2, str_eq, trim_str};
use tfcd::version::{get_version_info, is_valid_version, split_spaces};

#[test]
fn accepts_dotted_versions() {
    assert!(is_valid_version("131.0.6778.85"));
    assert!(is_valid_version("1.2"));
    assert!(is_valid_version("0.0.0"));
    assert!(is_valid_version("a.b"));
}

#[test]
fn rejects_undotted_or_empty_components() {
    assert!(!is_valid_version(""));
    assert!(!is_valid_version("131"));
    assert!(!is_valid_version("unknown"));
    assert!(!is_valid_version("."));
    assert!(!is_valid_version("1."));
    assert!(!is_valid_version(".1"));
    assert!(!is_valid_version("1..2"));
    assert!(!is_valid_version("131.0..85"));
}

#[test]
fn linux_output_yields_third_token() {
    let r = get_version_info(HostOs::Linux, "Google Chrome 131.0.6778.85 \n");
    assert_eq!(r, Ok("131.0.6778.85".to_string()));
}

#[test]
fn macos_output_yields_third_token() {
    let r = get_version_info(HostOs::Macos, "Google Chrome 131.0.6778.85\n");
    assert_eq!(r, Ok("131.0.6778.85".to_string()));
}

#[test]
fn windows_output_is_whole_trimmed_stdout() {
    let r = get_version_info(HostOs::Windows, "131.0.6778.85\r\n");
    assert_eq!(r, Ok("131.0.6778.85".to_string()));
}

#[test]
fn malformed_output_is_rejected() {
    let r = get_version_info(HostOs::Linux, "Google Chrome unknown");
    assert_eq!(r, Err(DriverError::VersionFormatInvalid));
}

#[test]
fn short_output_is_rejected() {
    let r = get_version_info(HostOs::Linux, "Google Chrome");
    assert_eq!(r, Err(DriverError::VersionFormatInvalid));
    let r = get_version_info(HostOs::Windows, "Google Chrome unknown");
    assert_eq!(r, Err(DriverError::VersionFormatInvalid));
}

#[test]
fn trim_drops_surrounding_whitespace() {
    assert_eq!(trim_str("  131.0.1  \r\n"), "131.0.1");
    assert_eq!(trim_str("\t\n"), "");
    assert_eq!(trim_str("a b"), "a b");
    assert_eq!(trim_str(""), "");
}

#[test]
fn trim_agrees_with_std_on_unicode_whitespace() {
    for input in [
        "\u{A0}131.0.1\u{3000}",
        "\u{2000}\u{200A}x\u{2028}",
        "\u{85}v\u{205F}",
        "\u{0B}\u{0C}1.2",
        "\u{200B}",  // zero-width space is not White_Space and must be kept
        " plain ",
    ] {
        assert_eq!(trim_str(input), input.trim());
    }
}

#[test]
fn split_spaces_matches_std_split() {
    let toks = split_spaces("Google Chrome 131.0.6778.85");
    assert_eq!(toks, vec!["Google", "Chrome", "131.0.6778.85"]);
    let toks = split_spaces("a  b");
    assert_eq!(toks, vec!["a", "", "b"]);
    let toks = split_spaces("");
    assert_eq!(toks, vec![""]);
    for input in ["", " ", "x y z", "  lead", "trail  "] {
        let ours = split_spaces(input);
        let std_split: Vec<&str> = input.split(' ').collect();
        assert_eq!(ours, std_split);
    }
}

#[test]
fn str_eq_compares_contents() {
    assert!(str_eq("abc", "abc"));
    assert!(!str_eq("abc", "abd"));
    assert!(!str_eq("abc", "ab"));
    assert!(str_eq("", ""));
}

#[test]
fn join_concatenates() {
    assert_eq!(join2("--port=", "3000"), "--port=3000");
    assert_eq!(join2("", "x"), "x");
}

#[test]
fn contains_finds_substrings() {
    assert!(contains_str("ChromeDriver was started successfully.", "successfully"));
    assert!(!contains_str("listening on port 3000", "successfully"));
    assert!(contains_str("anything", ""));
    assert!(!contains_str("short", "much longer needle"));
}
