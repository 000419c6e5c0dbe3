//! Assembling the raw file contents into the finished document.
//!
//! The surrounding binary reads each input file and hands the raw text over:
//! the first line of each scalar file (still with its line ending) and the
//! raw lines of each list file, or nothing where a file could not be read.
//! `convert` trims every value, checks that every input is present, and
//! renders the document; a missing input yields `ConvertError::InputRead`
//! naming the file's path, the first missing one in the fixed read order.

use vstd::prelude::*;

use crate::render::{document, render_document, WitnessInputs, WitnessView};
use crate::trim::{trim_line, trimmed};

verus! {

/// Why a run failed: a required input file could not be read, or the output
/// file could not be written.  Each names the path concerned.
#[derive(Debug)]
pub enum ConvertError {
    InputRead { path: String },
    OutputWrite { path: String },
}

/// The raw contents of the nine input files.  A scalar field holds the first
/// line of its file as read, line ending included; a list field holds every
/// line of its file.  `None` means the file could not be read.
pub struct RawInputs {
    pub commitment_hash: Option<String>,
    pub nulifier_hash: Option<String>,
    pub root: Option<String>,
    pub nulifier: Option<String>,
    pub secret: Option<String>,
    pub proposal_id: Option<String>,
    pub vote_type: Option<String>,
    pub proof_siblings: Option<Vec<String>>,
    pub proof_path_indices: Option<Vec<String>>,
}

/// The mathematical content of `RawInputs`.
pub struct RawView {
    pub commitment_hash: Option<Seq<char>>,
    pub nulifier_hash: Option<Seq<char>>,
    pub root: Option<Seq<char>>,
    pub nulifier: Option<Seq<char>>,
    pub secret: Option<Seq<char>>,
    pub proposal_id: Option<Seq<char>>,
    pub vote_type: Option<Seq<char>>,
    pub proof_siblings: Option<Seq<Seq<char>>>,
    pub proof_path_indices: Option<Seq<Seq<char>>>,
}

impl View for RawInputs {
    type V = RawView;

    open spec fn view(&self) -> RawView {
        RawView {
            commitment_hash: self.commitment_hash.deep_view(),
            nulifier_hash: self.nulifier_hash.deep_view(),
            root: self.root.deep_view(),
            nulifier: self.nulifier.deep_view(),
            secret: self.secret.deep_view(),
            proposal_id: self.proposal_id.deep_view(),
            vote_type: self.vote_type.deep_view(),
            proof_siblings: self.proof_siblings.deep_view(),
            proof_path_indices: self.proof_path_indices.deep_view(),
        }
    }
}

/// The path of the first input that is missing, in the fixed read order:
/// the seven scalar files, then the two list files.  `None` when every input
/// is present.
pub open spec fn first_missing_path(r: RawView) -> Option<Seq<char>> {
    if r.commitment_hash is None {
        Some("data/commitmentHash.txt"@)
    } else if r.nulifier_hash is None {
        Some("data/nulifierHash.txt"@)
    } else if r.root is None {
        Some("data/root.txt"@)
    } else if r.nulifier is None {
        Some("data/nulifier.txt"@)
    } else if r.secret is None {
        Some("data/secret.txt"@)
    } else if r.proposal_id is None {
        Some("data/proposalId.txt"@)
    } else if r.vote_type is None {
        Some("data/voteType.txt"@)
    } else if r.proof_siblings is None {
        Some("data/proofSiblings.txt"@)
    } else if r.proof_path_indices is None {
        Some("data/proofPathIndices.txt"@)
    } else {
        None
    }
}

/// Every line of a list, trimmed of its trailing line terminators.
pub open spec fn trimmed_lines(lines: Seq<Seq<char>>) -> Seq<Seq<char>> {
    lines.map_values(|line: Seq<char>| trimmed(line))
}

/// The witness values that a complete set of raw inputs yields: every scalar
/// and every list line stripped of trailing line terminators.
pub open spec fn assembled(r: RawView) -> WitnessView
    recommends
        first_missing_path(r) is None,
{
    WitnessView {
        commitment_hash: trimmed(r.commitment_hash->0),
        nulifier_hash: trimmed(r.nulifier_hash->0),
        root: trimmed(r.root->0),
        nulifier: trimmed(r.nulifier->0),
        secret: trimmed(r.secret->0),
        proposal_id: trimmed(r.proposal_id->0),
        vote_type: trimmed(r.vote_type->0),
        proof_siblings: trimmed_lines(r.proof_siblings->0),
        proof_path_indices: trimmed_lines(r.proof_path_indices->0),
    }
}

/// Trims every line of a list.
pub fn trim_lines(lines: &Vec<String>) -> (r: Vec<String>)
    ensures
        r.deep_view() == trimmed_lines(lines.deep_view()),
{
    let ghost pre = lines.deep_view();
    let mut out: Vec<String> = Vec::new();
    let mut i: usize = 0;
    while i < lines.len()
        invariant
            i <= lines.len(),
            pre == lines.deep_view(),
            pre.len() == lines.len(),
            out@.len() == i,
            forall|j: int| 0 <= j < i ==> #[trigger] out@[j]@ == trimmed(pre[j]),
        decreases lines.len() - i,
    {
        let t = trim_line(lines[i].as_str());
        out.push(t);
        i = i + 1;
    }
    proof {
        assert forall|j: int| 0 <= j < pre.len() implies out.deep_view()[j] == trimmed_lines(
            pre,
        )[j] by {
            assert(out@[j]@ == trimmed(pre[j]));
        }
        assert(out.deep_view() =~= trimmed_lines(pre));
    }
    out
}

/// Assembles the document from the raw inputs.  Succeeds exactly when every
/// input is present, and then returns the document text for the trimmed
/// values; otherwise fails with `InputRead` naming the first missing file.
pub fn convert(raw: &RawInputs) -> (r: Result<String, ConvertError>)
    ensures
        match r {
            Ok(doc) => first_missing_path(raw@) is None && doc@ == document(assembled(raw@)),
            Err(e) => first_missing_path(raw@) is Some && (e matches ConvertError::InputRead {
                path,
            } && path@ == first_missing_path(raw@)->0),
        },
{
    let commitment_hash = match &raw.commitment_hash {
        Some(s) => trim_line(s.as_str()),
        None => {
            return Err(
                ConvertError::InputRead { path: String::from_str("data/commitmentHash.txt") },
            );
        },
    };
    let nulifier_hash = match &raw.nulifier_hash {
        Some(s) => trim_line(s.as_str()),
        None => {
            return Err(
                ConvertError::InputRead { path: String::from_str("data/nulifierHash.txt") },
            );
        },
    };
    let root = match &raw.root {
        Some(s) => trim_line(s.as_str()),
        None => {
            return Err(ConvertError::InputRead { path: String::from_str("data/root.txt") });
        },
    };
    let nulifier = match &raw.nulifier {
        Some(s) => trim_line(s.as_str()),
        None => {
            return Err(ConvertError::InputRead { path: String::from_str("data/nulifier.txt") });
        },
    };
    let secret = match &raw.secret {
        Some(s) => trim_line(s.as_str()),
        None => {
            return Err(ConvertError::InputRead { path: String::from_str("data/secret.txt") });
        },
    };
    let proposal_id = match &raw.proposal_id {
        Some(s) => trim_line(s.as_str()),
        None => {
            return Err(ConvertError::InputRead { path: String::from_str("data/proposalId.txt") });
        },
    };
    let vote_type = match &raw.vote_type {
        Some(s) => trim_line(s.as_str()),
        None => {
            return Err(ConvertError::InputRead { path: String::from_str("data/voteType.txt") });
        },
    };
    let proof_siblings = match &raw.proof_siblings {
        Some(lines) => trim_lines(lines),
        None => {
            return Err(
                ConvertError::InputRead { path: String::from_str("data/proofSiblings.txt") },
            );
        },
    };
    let proof_path_indices = match &raw.proof_path_indices {
        Some(lines) => trim_lines(lines),
        None => {
            return Err(
                ConvertError::InputRead { path: String::from_str("data/proofPathIndices.txt") },
            );
        },
    };
    let witness = WitnessInputs {
        commitment_hash,
        nulifier_hash,
        root,
        nulifier,
        secret,
        proposal_id,
        vote_type,
        proof_siblings,
        proof_path_indices,
    };
    Ok(render_document(&witness))
}

impl ConvertError {
    /// The diagnostic line for this error: the error kind and the path of
    /// the file concerned.
    pub fn message(&self) -> (m: String)
        ensures
            (self matches ConvertError::InputRead { path } ==> m@ == "InputReadError: "@ + path@),
            (self matches ConvertError::OutputWrite { path } ==> m@ == "OutputWriteError: "@
                + path@),
    {
        match self {
            ConvertError::InputRead { path } => {
                let mut m = String::from_str("InputReadError: ");
                m.append(path.as_str());
                m
            },
            ConvertError::OutputWrite { path } => {
                let mut m = String::from_str("OutputWriteError: ");
                m.append(path.as_str());
                m
            },
        }
    }
}

/// Re-running the converter on unchanged inputs yields the identical result:
/// whether the run succeeds, which path a failure names, and the full
/// document text are functions of the input values alone.  Together with the
/// contract of `convert`, two runs on equal inputs return equal output.
pub proof fn lemma_rerun_identical(a: RawView, b: RawView)
    requires
        a == b,
    ensures
        first_missing_path(a) == first_missing_path(b),
        first_missing_path(a) is None ==> document(assembled(a)) == document(assembled(b)),
{
}

/// Trailing line terminators in the inputs never reach the document: two
/// input sets whose values agree once trimmed, and whose files are readable
/// alike, convert to the same result.
pub proof fn lemma_line_endings_ignored(a: RawView, b: RawView)
    requires
        a.commitment_hash is Some <==> b.commitment_hash is Some,
        a.commitment_hash is Some ==> trimmed(a.commitment_hash->0) == trimmed(
            b.commitment_hash->0,
        ),
        a.nulifier_hash is Some <==> b.nulifier_hash is Some,
        a.nulifier_hash is Some ==> trimmed(a.nulifier_hash->0) == trimmed(b.nulifier_hash->0),
        a.root is Some <==> b.root is Some,
        a.root is Some ==> trimmed(a.root->0) == trimmed(b.root->0),
        a.nulifier is Some <==> b.nulifier is Some,
        a.nulifier is Some ==> trimmed(a.nulifier->0) == trimmed(b.nulifier->0),
        a.secret is Some <==> b.secret is Some,
        a.secret is Some ==> trimmed(a.secret->0) == trimmed(b.secret->0),
        a.proposal_id is Some <==> b.proposal_id is Some,
        a.proposal_id is Some ==> trimmed(a.proposal_id->0) == trimmed(b.proposal_id->0),
        a.vote_type is Some <==> b.vote_type is Some,
        a.vote_type is Some ==> trimmed(a.vote_type->0) == trimmed(b.vote_type->0),
        a.proof_siblings is Some <==> b.proof_siblings is Some,
        a.proof_siblings is Some ==> trimmed_lines(a.proof_siblings->0) == trimmed_lines(
            b.proof_siblings->0,
        ),
        a.proof_path_indices is Some <==> b.proof_path_indices is Some,
        a.proof_path_indices is Some ==> trimmed_lines(a.proof_path_indices->0) == trimmed_lines(
            b.proof_path_indices->0,
        ),
    ensures
        first_missing_path(a) == first_missing_path(b),
        first_missing_path(a) is None ==> document(assembled(a)) == document(assembled(b)),
{
    if first_missing_path(a) is None {
        assert(assembled(a) == assembled(b));
    }
}

} // verus!
