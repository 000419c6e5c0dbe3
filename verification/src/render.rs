//! Rendering the witness values into the `Prover.toml` document text.
//!
//! The document holds the nine fields in one fixed order: seven scalar lines,
//! the quoted `proofSiblings` list block, one blank line, and the unquoted
//! `proofPathIndices` list block.  The spec functions below define the text of
//! each part, and `render_document` produces exactly that text.

use vstd::prelude::*;

verus! {

/// The nine witness fields, each already stripped of line terminators.
pub struct WitnessInputs {
    pub commitment_hash: String,
    pub nulifier_hash: String,
    pub root: String,
    pub nulifier: String,
    pub secret: String,
    pub proposal_id: String,
    pub vote_type: String,
    pub proof_siblings: Vec<String>,
    pub proof_path_indices: Vec<String>,
}

/// The mathematical content of `WitnessInputs`: each scalar as a character
/// sequence, each list as a sequence of character sequences.
pub struct WitnessView {
    pub commitment_hash: Seq<char>,
    pub nulifier_hash: Seq<char>,
    pub root: Seq<char>,
    pub nulifier: Seq<char>,
    pub secret: Seq<char>,
    pub proposal_id: Seq<char>,
    pub vote_type: Seq<char>,
    pub proof_siblings: Seq<Seq<char>>,
    pub proof_path_indices: Seq<Seq<char>>,
}

impl View for WitnessInputs {
    type V = WitnessView;

    open spec fn view(&self) -> WitnessView {
        WitnessView {
            commitment_hash: self.commitment_hash@,
            nulifier_hash: self.nulifier_hash@,
            root: self.root@,
            nulifier: self.nulifier@,
            secret: self.secret@,
            proposal_id: self.proposal_id@,
            vote_type: self.vote_type@,
            proof_siblings: self.proof_siblings.deep_view(),
            proof_path_indices: self.proof_path_indices.deep_view(),
        }
    }
}

/// One scalar entry: `key = "value"` followed by a newline.
pub open spec fn scalar_line(key: Seq<char>, value: Seq<char>) -> Seq<char> {
    key + " = \""@ + value + "\"\n"@
}

/// One list element line with the value in double quotes: `    "value",`.
pub open spec fn quoted_element_line(value: Seq<char>) -> Seq<char> {
    "    \""@ + value + "\",\n"@
}

/// One list element line with the value bare: `    value,`.
pub open spec fn bare_element_line(value: Seq<char>) -> Seq<char> {
    "    "@ + value + ",\n"@
}

/// The element lines of a quoted list, one per element, in order.
pub open spec fn quoted_elements(values: Seq<Seq<char>>) -> Seq<char>
    decreases values.len(),
{
    if values.len() == 0 {
        Seq::empty()
    } else {
        quoted_elements(values.drop_last()) + quoted_element_line(values.last())
    }
}

/// The element lines of a bare list, one per element, in order.
pub open spec fn bare_elements(values: Seq<Seq<char>>) -> Seq<char>
    decreases values.len(),
{
    if values.len() == 0 {
        Seq::empty()
    } else {
        bare_elements(values.drop_last()) + bare_element_line(values.last())
    }
}

/// A whole list block with quoted elements: `key = [`, the element lines,
/// and the closing bracket.
pub open spec fn quoted_list_block(key: Seq<char>, values: Seq<Seq<char>>) -> Seq<char> {
    key + " = [\n"@ + quoted_elements(values) + "]\n"@
}

/// A whole list block with bare elements.
pub open spec fn bare_list_block(key: Seq<char>, values: Seq<Seq<char>>) -> Seq<char> {
    key + " = [\n"@ + bare_elements(values) + "]\n"@
}

/// The complete document: the seven scalar lines, the `proofSiblings` block,
/// a blank separator line, and the `proofPathIndices` block, in the fixed
/// schema order.
pub open spec fn document(w: WitnessView) -> Seq<char> {
    scalar_line("commitmentHash"@, w.commitment_hash) + scalar_line(
        "nulifierHash"@,
        w.nulifier_hash,
    ) + scalar_line("root"@, w.root) + scalar_line("nulifier"@, w.nulifier) + scalar_line(
        "secret"@,
        w.secret,
    ) + scalar_line("proposalId"@, w.proposal_id) + scalar_line("voteType"@, w.vote_type)
        + quoted_list_block("proofSiblings"@, w.proof_siblings) + "\n"@ + bare_list_block(
        "proofPathIndices"@,
        w.proof_path_indices,
    )
}

/// The document's fields stand in the fixed schema order, whatever the
/// values: commitmentHash, nulifierHash, root, nulifier, secret, proposalId,
/// voteType, then the quoted proofSiblings block, a blank line, and the bare
/// proofPathIndices block, with nothing before, between, or after them.
pub proof fn lemma_document_field_order(w: WitnessView)
    ensures
        document(w) == scalar_line("commitmentHash"@, w.commitment_hash) + scalar_line(
            "nulifierHash"@,
            w.nulifier_hash,
        ) + scalar_line("root"@, w.root) + scalar_line("nulifier"@, w.nulifier) + scalar_line(
            "secret"@,
            w.secret,
        ) + scalar_line("proposalId"@, w.proposal_id) + scalar_line("voteType"@, w.vote_type)
            + quoted_list_block("proofSiblings"@, w.proof_siblings) + "\n"@ + bare_list_block(
            "proofPathIndices"@,
            w.proof_path_indices,
        ),
{
}

/// Every element of a quoted list appears in the element lines as its own
/// line `    "value",` at its position: the lines split into the lines of the
/// elements before it, its own quoted line, and the lines of the elements
/// after it.
pub proof fn lemma_quoted_element_appears(values: Seq<Seq<char>>, i: int)
    requires
        0 <= i < values.len(),
    ensures
        quoted_elements(values) == quoted_elements(values.take(i)) + quoted_element_line(
            values[i],
        ) + quoted_elements(values.skip(i + 1)),
    decreases values.len(),
{
    if i == values.len() - 1 {
        assert(values.drop_last() =~= values.take(i));
        assert(values.skip(i + 1) =~= Seq::<Seq<char>>::empty());
        assert(quoted_elements(values) =~= quoted_elements(values.take(i)) + quoted_element_line(
            values[i],
        ) + quoted_elements(values.skip(i + 1)));
    } else {
        lemma_quoted_element_appears(values.drop_last(), i);
        assert(values.drop_last().take(i) =~= values.take(i));
        assert(values.drop_last()[i] == values[i]);
        assert(values.drop_last().skip(i + 1) =~= values.skip(i + 1).drop_last());
        assert(values.skip(i + 1).last() == values.last());
        assert(values.skip(i + 1).len() > 0);
        assert(quoted_elements(values) =~= quoted_elements(values.take(i)) + quoted_element_line(
            values[i],
        ) + quoted_elements(values.skip(i + 1)));
    }
}

/// Every element of a bare list appears in the element lines as its own line
/// `    value,` at its position, with no quotes added around the value.
pub proof fn lemma_bare_element_appears(values: Seq<Seq<char>>, i: int)
    requires
        0 <= i < values.len(),
    ensures
        bare_elements(values) == bare_elements(values.take(i)) + bare_element_line(values[i])
            + bare_elements(values.skip(i + 1)),
    decreases values.len(),
{
    if i == values.len() - 1 {
        assert(values.drop_last() =~= values.take(i));
        assert(values.skip(i + 1) =~= Seq::<Seq<char>>::empty());
        assert(bare_elements(values) =~= bare_elements(values.take(i)) + bare_element_line(
            values[i],
        ) + bare_elements(values.skip(i + 1)));
    } else {
        lemma_bare_element_appears(values.drop_last(), i);
        assert(values.drop_last().take(i) =~= values.take(i));
        assert(values.drop_last()[i] == values[i]);
        assert(values.drop_last().skip(i + 1) =~= values.skip(i + 1).drop_last());
        assert(values.skip(i + 1).last() == values.last());
        assert(values.skip(i + 1).len() > 0);
        assert(bare_elements(values) =~= bare_elements(values.take(i)) + bare_element_line(
            values[i],
        ) + bare_elements(values.skip(i + 1)));
    }
}

/// A list with no elements renders as the opening `key = [` line immediately
/// followed by the closing bracket: no element lines in between.
pub proof fn lemma_empty_list_block(key: Seq<char>)
    ensures
        quoted_list_block(key, Seq::empty()) == key + " = [\n"@ + "]\n"@,
        bare_list_block(key, Seq::empty()) == key + " = [\n"@ + "]\n"@,
{
    assert(quoted_list_block(key, Seq::empty()) =~= key + " = [\n"@ + "]\n"@);
    assert(bare_list_block(key, Seq::empty()) =~= key + " = [\n"@ + "]\n"@);
}

/// Appends `key = "value"` and a newline to `out`.
fn push_scalar_line(out: &mut String, key: &str, value: &str)
    ensures
        final(out)@ == old(out)@ + scalar_line(key@, value@),
{
    out.append(key);
    out.append(" = \"");
    out.append(value);
    out.append("\"\n");
    proof {
        assert(out@ =~= old(out)@ + scalar_line(key@, value@));
    }
}

/// Appends one quoted element line, `    "value",`, to `out`.
fn push_quoted_element_line(out: &mut String, value: &str)
    ensures
        final(out)@ == old(out)@ + quoted_element_line(value@),
{
    out.append("    \"");
    out.append(value);
    out.append("\",\n");
    proof {
        assert(out@ =~= old(out)@ + quoted_element_line(value@));
    }
}

/// Appends one bare element line, `    value,`, to `out`.
fn push_bare_element_line(out: &mut String, value: &str)
    ensures
        final(out)@ == old(out)@ + bare_element_line(value@),
{
    out.append("    ");
    out.append(value);
    out.append(",\n");
    proof {
        assert(out@ =~= old(out)@ + bare_element_line(value@));
    }
}

/// Appends the quoted list block for `key` to `out`.
fn push_quoted_list_block(out: &mut String, key: &str, values: &Vec<String>)
    ensures
        final(out)@ == old(out)@ + quoted_list_block(key@, values.deep_view()),
{
    let ghost vs = values.deep_view();
    out.append(key);
    out.append(" = [\n");
    let ghost opened = out@;
    let mut i: usize = 0;
    proof {
        assert(vs.take(0) =~= Seq::<Seq<char>>::empty());
    }
    while i < values.len()
        invariant
            i <= values.len(),
            vs == values.deep_view(),
            vs.len() == values.len(),
            out@ == opened + quoted_elements(vs.take(i as int)),
        decreases values.len() - i,
    {
        push_quoted_element_line(out, values[i].as_str());
        proof {
            assert(vs.take(i + 1).drop_last() =~= vs.take(i as int));
            assert(out@ =~= opened + quoted_elements(vs.take(i + 1)));
        }
        i = i + 1;
    }
    out.append("]\n");
    proof {
        assert(vs.take(vs.len() as int) =~= vs);
        assert(out@ =~= old(out)@ + quoted_list_block(key@, vs));
    }
}

/// Appends the bare list block for `key` to `out`.
fn push_bare_list_block(out: &mut String, key: &str, values: &Vec<String>)
    ensures
        final(out)@ == old(out)@ + bare_list_block(key@, values.deep_view()),
{
    let ghost vs = values.deep_view();
    out.append(key);
    out.append(" = [\n");
    let ghost opened = out@;
    let mut i: usize = 0;
    proof {
        assert(vs.take(0) =~= Seq::<Seq<char>>::empty());
    }
    while i < values.len()
        invariant
            i <= values.len(),
            vs == values.deep_view(),
            vs.len() == values.len(),
            out@ == opened + bare_elements(vs.take(i as int)),
        decreases values.len() - i,
    {
        push_bare_element_line(out, values[i].as_str());
        proof {
            assert(vs.take(i + 1).drop_last() =~= vs.take(i as int));
            assert(out@ =~= opened + bare_elements(vs.take(i + 1)));
        }
        i = i + 1;
    }
    out.append("]\n");
    proof {
        assert(vs.take(vs.len() as int) =~= vs);
        assert(out@ =~= old(out)@ + bare_list_block(key@, vs));
    }
}

/// Renders the whole document for the given witness values.
pub fn render_document(w: &WitnessInputs) -> (r: String)
    ensures
        r@ == document(w@),
{
    let mut out = String::new();
    push_scalar_line(&mut out, "commitmentHash", w.commitment_hash.as_str());
    push_scalar_line(&mut out, "nulifierHash", w.nulifier_hash.as_str());
    push_scalar_line(&mut out, "root", w.root.as_str());
    push_scalar_line(&mut out, "nulifier", w.nulifier.as_str());
    push_scalar_line(&mut out, "secret", w.secret.as_str());
    push_scalar_line(&mut out, "proposalId", w.proposal_id.as_str());
    push_scalar_line(&mut out, "voteType", w.vote_type.as_str());
    push_quoted_list_block(&mut out, "proofSiblings", &w.proof_siblings);
    out.append("\n");
    push_bare_list_block(&mut out, "proofPathIndices", &w.proof_path_indices);
    proof {
        assert(out@ =~= document(w@));
    }
    out
}

} // verus!
