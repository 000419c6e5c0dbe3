use prover_toml::convert::{convert, RawInputs};
use prover_toml::trim::trim_line;

fn some(s: &str) -> Option<String> {
    Some(s.to_string())
}

fn raw_with_secret(secret: &str) -> RawInputs {
    RawInputs {
        commitment_hash: some("0x01"),
        nulifier_hash: some("0x02"),
        root: some("0xAB"),
        nulifier: some("0x03"),
        secret: some(secret),
        proposal_id: some("7"),
        vote_type: some("1"),
        proof_siblings: Some(vec!["0x10".to_string()]),
        proof_path_indices: Some(vec!["0".to_string()]),
    }
}

#[test]
fn trailing_newline_never_reaches_output() {
    let with_newline = convert(&raw_with_secret("abc123\n")).unwrap();
    let without_newline = convert(&raw_with_secret("abc123")).unwrap();
    assert_eq!(with_newline, without_newline);
    assert!(with_newline.contains("secret = \"abc123\"\n"));
}

#[test]
fn carriage_return_trimmed_too() {
    let doc = convert(&raw_with_secret("abc123\r\n")).unwrap();
    assert!(doc.contains("secret = \"abc123\"\n"));
}

#[test]
fn list_lines_trimmed() {
    let mut raw = raw_with_secret("s");
    raw.proof_siblings = Some(vec!["0x10\r\n".to_string(), "0x11\n".to_string()]);
    let doc = convert(&raw).unwrap();
    assert!(doc.contains("    \"0x10\",\n    \"0x11\",\n"));
}

#[test]
fn trim_line_strips_only_line_terminators() {
    assert_eq!(trim_line("abc\n"), "abc");
    assert_eq!(trim_line("abc\r\n"), "abc");
    assert_eq!(trim_line("abc\n\r\n"), "abc");
    assert_eq!(trim_line("abc"), "abc");
    assert_eq!(trim_line(""), "");
    assert_eq!(trim_line("\n"), "");
    assert_eq!(trim_line("\r\n"), "");
    // Inner terminators and trailing spaces are kept as they stand.
    assert_eq!(trim_line("a\nb"), "a\nb");
    assert_eq!(trim_line("abc  \n"), "abc  ");
}
