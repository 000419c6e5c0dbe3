use prover_toml::convert::{convert, RawInputs};
use prover_toml::render::render_document;
use prover_toml::render::WitnessInputs;

fn some(s: &str) -> Option<String> {
    Some(s.to_string())
}

fn sample_raw() -> RawInputs {
    RawInputs {
        commitment_hash: some("0x01\n"),
        nulifier_hash: some("0x02\n"),
        root: some("0xAB\n"),
        nulifier: some("0x03\n"),
        secret: some("0x04\n"),
        proposal_id: some("7\n"),
        vote_type: some("1\n"),
        proof_siblings: Some(vec!["0x10\n".to_string(), "0x11\n".to_string()]),
        proof_path_indices: Some(vec!["0\n".to_string(), "1\n".to_string()]),
    }
}

#[test]
fn end_to_end_document() {
    let doc = convert(&sample_raw()).unwrap();
    let expected = "commitmentHash = \"0x01\"\n\
                    nulifierHash = \"0x02\"\n\
                    root = \"0xAB\"\n\
                    nulifier = \"0x03\"\n\
                    secret = \"0x04\"\n\
                    proposalId = \"7\"\n\
                    voteType = \"1\"\n\
                    proofSiblings = [\n    \"0x10\",\n    \"0x11\",\n]\n\
                    \n\
                    proofPathIndices = [\n    0,\n    1,\n]\n";
    assert_eq!(doc, expected);
}

#[test]
fn field_order_matches_schema() {
    let doc = convert(&sample_raw()).unwrap();
    let keys = [
        "commitmentHash = ",
        "nulifierHash = ",
        "root = ",
        "nulifier = ",
        "secret = ",
        "proposalId = ",
        "voteType = ",
        "proofSiblings = [",
        "proofPathIndices = [",
    ];
    let mut last: usize = 0;
    for key in keys {
        // Each key starts a line, and the lines come in schema order.
        let at = doc[last..].find(key).expect(key) + last;
        assert!(at == 0 || doc.as_bytes()[at - 1] == b'\n');
        last = at + key.len();
    }
}

#[test]
fn rerun_is_byte_identical() {
    let first = convert(&sample_raw()).unwrap();
    let second = convert(&sample_raw()).unwrap();
    assert_eq!(first, second);
}

#[test]
fn siblings_quoted_indices_bare() {
    let mut raw = sample_raw();
    raw.proof_siblings = Some(vec!["plainvalue\n".to_string()]);
    raw.proof_path_indices = Some(vec!["37\n".to_string()]);
    let doc = convert(&raw).unwrap();
    assert!(doc.contains("    \"plainvalue\",\n"));
    assert!(doc.contains("    37,\n"));
    // The indices block holds no quotes at all.
    let indices_block = &doc[doc.find("proofPathIndices").unwrap()..];
    assert!(!indices_block.contains('"'));
}

#[test]
fn empty_lists_give_empty_blocks() {
    let mut raw = sample_raw();
    raw.proof_siblings = Some(vec![]);
    raw.proof_path_indices = Some(vec![]);
    let doc = convert(&raw).unwrap();
    assert!(doc.ends_with("proofSiblings = [\n]\n\nproofPathIndices = [\n]\n"));
}

#[test]
fn empty_scalar_becomes_empty_string() {
    // A zero-line file reads as the empty string and is kept, not rejected.
    let mut raw = sample_raw();
    raw.secret = some("");
    let doc = convert(&raw).unwrap();
    assert!(doc.contains("secret = \"\"\n"));
}

#[test]
fn render_document_direct() {
    let witness = WitnessInputs {
        commitment_hash: "c".to_string(),
        nulifier_hash: "nh".to_string(),
        root: "r".to_string(),
        nulifier: "n".to_string(),
        secret: "s".to_string(),
        proposal_id: "p".to_string(),
        vote_type: "v".to_string(),
        proof_siblings: vec!["a".to_string()],
        proof_path_indices: vec!["9".to_string()],
    };
    let doc = render_document(&witness);
    let expected = "commitmentHash = \"c\"\n\
                    nulifierHash = \"nh\"\n\
                    root = \"r\"\n\
                    nulifier = \"n\"\n\
                    secret = \"s\"\n\
                    proposalId = \"p\"\n\
                    voteType = \"v\"\n\
                    proofSiblings = [\n    \"a\",\n]\n\
                    \n\
                    proofPathIndices = [\n    9,\n]\n";
    assert_eq!(doc, expected);
}
