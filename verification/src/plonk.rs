//! The structural check of a proof: its form and its ranges, step by step,
//! with the first broken rule as the answer. Nothing here is a soundness
//! check: no pairing is computed and no opening is verified.

use vstd::prelude::*;
use vstd::string::*;
use crate::errors::ErrorCode;
use crate::field::{curve_point, field_element, parse_field_element, validate_curve_point};
use crate::json::{document_view, json_object_members, read_object, JsonMember};
use crate::record::{record_of, PlonkProof};
use crate::text::texts;

verus! {

/// The number of characters of a challenge behind its prefix.
pub const CHALLENGE_DIGITS: usize = 64;

/// The evaluations of a proof record: its last six texts.
pub open spec fn evaluations_of(record: Seq<Seq<char>>) -> Seq<Seq<char>> {
    record.subrange(9, 15)
}

/// The commitments of a proof record that are checked as curve points and
/// bound into the challenge: `a`, `b`, `c` and `z`.
pub open spec fn commitments_of(record: Seq<Seq<char>>) -> Seq<Seq<char>> {
    record.subrange(0, 4)
}

/// The failure of the first text that is no field element, if there is one.
pub open spec fn first_field_error(items: Seq<Seq<char>>) -> Option<ErrorCode>
    decreases items.len(),
{
    if items.len() == 0 {
        None
    } else {
        match field_element(items[0]) {
            Err(e) => Some(e),
            Ok(_) => first_field_error(items.drop_first()),
        }
    }
}

/// The failure of the first text that is no curve point, if there is one.
pub open spec fn first_point_error(items: Seq<Seq<char>>) -> Option<ErrorCode>
    decreases items.len(),
{
    if items.len() == 0 {
        None
    } else {
        match curve_point(items[0]) {
            Err(e) => Some(e),
            Ok(_) => first_point_error(items.drop_first()),
        }
    }
}

/// Whether every text is a field element.
pub open spec fn all_field_elements(items: Seq<Seq<char>>) -> bool {
    forall|i: int| 0 <= i < items.len() ==> (#[trigger] field_element(items[i])).is_ok()
}

/// The field elements that the texts spell.
pub open spec fn field_elements(items: Seq<Seq<char>>) -> Seq<u64> {
    Seq::new(items.len(), |i: int| field_element(items[i]).unwrap())
}

/// The texts one behind the other.
pub open spec fn concat_all(items: Seq<Seq<char>>) -> Seq<char>
    decreases items.len(),
{
    if items.len() == 0 {
        Seq::empty()
    } else {
        concat_all(items.drop_last()) + items.last()
    }
}

/// `n` times the character `0`.
pub open spec fn zeros(n: nat) -> Seq<char> {
    Seq::new(n, |i: int| '0')
}

/// The challenge drawn from commitments and public inputs: the first 64
/// characters of all commitments followed by all public inputs, filled up
/// with zeros in front where they are fewer, behind `0x`.
pub open spec fn challenge_of(commitments: Seq<Seq<char>>, inputs: Seq<Seq<char>>) -> Seq<char> {
    let transcript = concat_all(commitments + inputs);
    let head = if transcript.len() <= 64 {
        transcript
    } else {
        transcript.subrange(0, 64)
    };
    "0x"@ + zeros((64 - head.len()) as nat) + head
}

/// Whether the inputs from which the membership claim is read are there:
/// the root and the nullifier among the public inputs, each a field
/// element, and at least one evaluation.
pub open spec fn merkle_ready(inputs: Seq<Seq<char>>, evaluations: nat) -> bool {
    inputs.len() >= 2 && field_element(inputs[0]).is_ok() && field_element(inputs[1]).is_ok()
        && evaluations > 0
}

/// What the structural check answers for the evaluations and commitments
/// of a proof and the public inputs: the challenge, or the first rule broken,
/// in this order: the number of public inputs, the evaluations as field
/// elements, their presence, the public inputs as field elements, the
/// commitments as curve points, the inputs of the membership claim.
pub open spec fn check_outcome(
    evaluations: Seq<Seq<char>>,
    commitments: Seq<Seq<char>>,
    inputs: Seq<Seq<char>>,
) -> Result<Seq<char>, ErrorCode> {
    if inputs.len() < 2 {
        Err(ErrorCode::InvalidPublicInputsCount)
    } else if first_field_error(evaluations).is_some() {
        Err(first_field_error(evaluations).unwrap())
    } else if evaluations.len() == 0 {
        Err(ErrorCode::MissingEvaluations)
    } else if !all_field_elements(inputs) {
        Err(ErrorCode::InvalidPublicInput)
    } else if first_point_error(commitments).is_some() {
        Err(first_point_error(commitments).unwrap())
    } else if !merkle_ready(inputs, evaluations.len()) {
        Err(ErrorCode::MissingMerkleProof)
    } else {
        Ok(challenge_of(commitments, inputs))
    }
}

/// What the structural check answers for a parsed document and the public
/// inputs: a document that is no proof record fails before anything else is
/// looked at.
pub open spec fn structural_outcome(
    document: Option<Seq<(Seq<char>, Option<Seq<char>>)>>,
    inputs: Seq<Seq<char>>,
) -> Result<Seq<char>, ErrorCode> {
    match document {
        None => Err(ErrorCode::ProofParsingFailed),
        Some(members) => match record_of(members) {
            None => Err(ErrorCode::ProofParsingFailed),
            Some(record) => check_outcome(evaluations_of(record), commitments_of(record), inputs),
        },
    }
}

/// The text of an answer that carries a string.
pub open spec fn outcome_view(r: Result<String, ErrorCode>) -> Result<Seq<char>, ErrorCode> {
    match r {
        Ok(s) => Ok(s@),
        Err(e) => Err(e),
    }
}

/// No text fails exactly when every text is a field element.
pub proof fn lemma_no_field_error(items: Seq<Seq<char>>)
    ensures
        first_field_error(items).is_none() <==> all_field_elements(items),
    decreases items.len(),
{
    if items.len() > 0 {
        let rest = items.drop_first();
        lemma_no_field_error(rest);
        if all_field_elements(items) {
            assert(field_element(items[0]).is_ok());
            assert forall|i: int| 0 <= i < rest.len() implies (#[trigger] field_element(
                rest[i],
            )).is_ok() by {
                assert(field_element(items[i + 1]).is_ok());
            }
        }
        if first_field_error(items).is_none() {
            assert forall|i: int| 0 <= i < items.len() implies (#[trigger] field_element(
                items[i],
            )).is_ok() by {
                if i > 0 {
                    assert(field_element(rest[i - 1]).is_ok());
                }
            }
        }
    }
}

/// Reads each text as a field element, front to back, and stops at the
/// first that is none.
pub fn parse_field_elements(items: &Vec<String>) -> (r: Result<Vec<u64>, ErrorCode>)
    ensures
        match r {
            Ok(values) => first_field_error(texts(items@)).is_none() && values@ == field_elements(
                texts(items@),
            ),
            Err(e) => first_field_error(texts(items@)) == Some(e),
        },
{
    let ghost all = texts(items@);
    let mut values: Vec<u64> = Vec::new();
    let mut i: usize = 0;
    assert(all.subrange(0, all.len() as int) =~= all);
    while i < items.len()
        invariant
            i <= items@.len(),
            all == texts(items@),
            first_field_error(all) == first_field_error(all.subrange(i as int, all.len() as int)),
            values@ == field_elements(all).subrange(0, i as int),
        decreases items@.len() - i,
    {
        let ghost rest = all.subrange(i as int, all.len() as int);
        assert(rest[0] == items@[i as int]@);
        assert(rest.drop_first() =~= all.subrange(i + 1, all.len() as int));
        match parse_field_element(items[i].as_str()) {
            Ok(value) => {
                values.push(value);
                assert(values@ =~= field_elements(all).subrange(0, i + 1));
            },
            Err(e) => {
                return Err(e);
            },
        }
        i += 1;
    }
    assert(values@ =~= field_elements(all));
    Ok(values)
}

/// Reads each public input as a field element.
pub fn parse_public_inputs(inputs: &Vec<String>) -> (r: Result<Vec<u64>, ErrorCode>)
    ensures
        match r {
            Ok(values) => all_field_elements(texts(inputs@)) && values@ == field_elements(
                texts(inputs@),
            ),
            Err(e) => e == ErrorCode::InvalidPublicInput && !all_field_elements(texts(inputs@)),
        },
{
    proof {
        lemma_no_field_error(texts(inputs@));
    }
    match parse_field_elements(inputs) {
        Ok(values) => Ok(values),
        Err(_) => Err(ErrorCode::InvalidPublicInput),
    }
}

/// Checks each commitment as a curve point, front to back, and stops at the
/// first that is none.
pub fn validate_commitments(commitments: &Vec<String>) -> (r: Result<(), ErrorCode>)
    ensures
        match r {
            Ok(_) => first_point_error(texts(commitments@)).is_none(),
            Err(e) => first_point_error(texts(commitments@)) == Some(e),
        },
{
    let ghost all = texts(commitments@);
    let mut i: usize = 0;
    assert(all.subrange(0, all.len() as int) =~= all);
    while i < commitments.len()
        invariant
            i <= commitments@.len(),
            all == texts(commitments@),
            first_point_error(all) == first_point_error(all.subrange(i as int, all.len() as int)),
        decreases commitments@.len() - i,
    {
        let ghost rest = all.subrange(i as int, all.len() as int);
        assert(rest[0] == commitments@[i as int]@);
        assert(rest.drop_first() =~= all.subrange(i + 1, all.len() as int));
        match validate_curve_point(commitments[i].as_str()) {
            Ok(_) => {},
            Err(e) => {
                return Err(e);
            },
        }
        i += 1;
    }
    Ok(())
}

/// The named checkpoint before a proof is accepted: the inputs of the
/// membership claim are there. It recomputes no hash.
pub fn check_merkle_consistency(inputs: &Vec<String>, evaluations: usize) -> (r: Result<
    (),
    ErrorCode,
>)
    ensures
        r.is_ok() == merkle_ready(texts(inputs@), evaluations as nat),
        r.is_err() ==> r == Err::<(), ErrorCode>(ErrorCode::MissingMerkleProof),
{
    if inputs.len() < 2 || evaluations == 0 {
        return Err(ErrorCode::MissingMerkleProof);
    }
    if parse_field_element(inputs[0].as_str()).is_err() {
        return Err(ErrorCode::MissingMerkleProof);
    }
    if parse_field_element(inputs[1].as_str()).is_err() {
        return Err(ErrorCode::MissingMerkleProof);
    }
    Ok(())
}

/// Appends each of `items` to `onto`.
fn append_all(onto: &mut String, items: &Vec<String>, Ghost(before): Ghost<Seq<Seq<char>>>)
    requires
        old(onto)@ == concat_all(before),
    ensures
        final(onto)@ == concat_all(before + texts(items@)),
{
    let ghost all = texts(items@);
    let mut i: usize = 0;
    assert(before + all.subrange(0, 0) =~= before);
    while i < items.len()
        invariant
            i <= items@.len(),
            all == texts(items@),
            onto@ == concat_all(before + all.subrange(0, i as int)),
        decreases items@.len() - i,
    {
        let ghost shorter = before + all.subrange(0, i as int);
        let ghost longer = before + all.subrange(0, i + 1);
        assert(longer.drop_last() =~= shorter);
        assert(longer.last() == items@[i as int]@);
        onto.append(items[i].as_str());
        i += 1;
    }
    assert(all.subrange(0, i as int) =~= all);
}

/// The challenge drawn from `commitments` and `inputs`. It depends on
/// nothing else.
pub fn fiat_shamir_challenge(commitments: &Vec<String>, inputs: &Vec<String>) -> (r: String)
    ensures
        r@ == challenge_of(texts(commitments@), texts(inputs@)),
        r@.len() == 66,
{
    let mut transcript = String::new();
    assert(concat_all(Seq::empty()) =~= transcript@);
    append_all(&mut transcript, commitments, Ghost(Seq::empty()));
    assert(Seq::<Seq<char>>::empty() + texts(commitments@) =~= texts(commitments@));
    append_all(&mut transcript, inputs, Ghost(texts(commitments@)));
    let n: usize = transcript.as_str().unicode_len();
    let k: usize = if n <= CHALLENGE_DIGITS {
        n
    } else {
        CHALLENGE_DIGITS
    };
    let head = transcript.as_str().substring_char(0, k);
    let filler = "0000000000000000000000000000000000000000000000000000000000000000";
    proof {
        reveal_strlit("0000000000000000000000000000000000000000000000000000000000000000");
        reveal_strlit("0x");
    }
    let pad = filler.substring_char(0, CHALLENGE_DIGITS - k);
    assert(pad@ =~= zeros((64 - k) as nat));
    assert(head@ =~= if transcript@.len() <= 64 {
        transcript@
    } else {
        transcript@.subrange(0, 64)
    });
    let mut out = String::from_str("0x");
    out.append(pad);
    out.append(head);
    out
}

/// The structural check of the evaluations and commitments of a proof and
/// the public inputs.
pub fn check_fields(evaluations: &Vec<String>, commitments: &Vec<String>, inputs: &Vec<String>) -> (r:
    Result<String, ErrorCode>)
    ensures
        outcome_view(r) == check_outcome(
            texts(evaluations@),
            texts(commitments@),
            texts(inputs@),
        ),
{
    if inputs.len() < 2 {
        return Err(ErrorCode::InvalidPublicInputsCount);
    }
    let values = match parse_field_elements(evaluations) {
        Ok(values) => values,
        Err(e) => {
            return Err(e);
        },
    };
    if values.len() == 0 {
        return Err(ErrorCode::MissingEvaluations);
    }
    match parse_public_inputs(inputs) {
        Ok(_) => {},
        Err(e) => {
            return Err(e);
        },
    }
    match validate_commitments(commitments) {
        Ok(_) => {},
        Err(e) => {
            return Err(e);
        },
    }
    let challenge = fiat_shamir_challenge(commitments, inputs);
    match check_merkle_consistency(inputs, values.len()) {
        Ok(_) => {},
        Err(e) => {
            return Err(e);
        },
    }
    Ok(challenge)
}

impl PlonkProof {
    /// The six evaluations, in the order of the record.
    pub fn evaluations(&self) -> (r: Vec<String>)
        ensures
            texts(r@) == evaluations_of(self@),
    {
        let mut r: Vec<String> = Vec::new();
        r.push(self.a_eval.clone());
        r.push(self.b_eval.clone());
        r.push(self.c_eval.clone());
        r.push(self.s1_eval.clone());
        r.push(self.s2_eval.clone());
        r.push(self.z_omega_eval.clone());
        assert(texts(r@) =~= evaluations_of(self@));
        r
    }

    /// The structural check of this record against public inputs.
    pub fn check(&self, inputs: &Vec<String>) -> (r: Result<String, ErrorCode>)
        ensures
            outcome_view(r) == check_outcome(
                evaluations_of(self@),
                commitments_of(self@),
                texts(inputs@),
            ),
    {
        let evaluations = self.evaluations();
        let commitments = self.commitments();
        check_fields(&evaluations, &commitments, inputs)
    }

    /// The four commitments that are checked as curve points.
    pub fn commitments(&self) -> (r: Vec<String>)
        ensures
            texts(r@) == commitments_of(self@),
    {
        let mut r: Vec<String> = Vec::new();
        r.push(self.a.clone());
        r.push(self.b.clone());
        r.push(self.c.clone());
        r.push(self.z.clone());
        assert(texts(r@) =~= commitments_of(self@));
        r
    }
}

/// The proof record in a parsed document, if it holds one; `None` stands
/// for bytes that are no JSON object.
pub open spec fn document_record(document: Option<Seq<(Seq<char>, Option<Seq<char>>)>>) -> Option<
    Seq<Seq<char>>,
> {
    match document {
        None => None,
        Some(members) => record_of(members),
    }
}

/// Whether `r` is the reading of a document as a proof record.
pub open spec fn is_reading(
    r: Result<PlonkProof, ErrorCode>,
    document: Option<Seq<(Seq<char>, Option<Seq<char>>)>>,
) -> bool {
    match r {
        Ok(record) => document_record(document) == Some(record@),
        Err(e) => e == ErrorCode::ProofParsingFailed && document_record(document).is_none(),
    }
}

/// Reads a parsed document as a proof record; `None` stands for bytes that
/// are no JSON object.
pub fn read_document(document: Option<Vec<JsonMember>>) -> (r: Result<PlonkProof, ErrorCode>)
    ensures
        is_reading(r, document_view(document)),
{
    let members = match document {
        Some(members) => members,
        None => {
            return Err(ErrorCode::ProofParsingFailed);
        },
    };
    match PlonkProof::from_members(&members) {
        Some(record) => Ok(record),
        None => Err(ErrorCode::ProofParsingFailed),
    }
}

/// Reads proof bytes as a proof record: a JSON object with the fifteen
/// texts under their keys and no other member.
pub fn parse_proof(proof_bytes: &Vec<u8>) -> (r: Result<PlonkProof, ErrorCode>)
    ensures
        is_reading(r, json_object_members(proof_bytes@)),
{
    read_document(read_object(proof_bytes))
}

/// The structural check of a parsed document: `None` stands for bytes that
/// are no JSON object.
pub fn check_document(document: Option<Vec<JsonMember>>, inputs: &Vec<String>) -> (r: Result<
    String,
    ErrorCode,
>)
    ensures
        outcome_view(r) == structural_outcome(document_view(document), texts(inputs@)),
        document.is_none() ==> r == Err::<String, ErrorCode>(ErrorCode::ProofParsingFailed),
{
    match read_document(document) {
        Ok(record) => record.check(inputs),
        Err(e) => Err(e),
    }
}

/// The structural check of proof bytes against public inputs. On success
/// it hands out the challenge. Bytes that are no JSON object fail with
/// `ProofParsingFailed` whatever the public inputs are.
pub fn verify_plonk(proof_bytes: &Vec<u8>, inputs: &Vec<String>) -> (r: Result<String, ErrorCode>)
    ensures
        outcome_view(r) == structural_outcome(json_object_members(proof_bytes@), texts(inputs@)),
        json_object_members(proof_bytes@).is_none() ==> r == Err::<String, ErrorCode>(
            ErrorCode::ProofParsingFailed,
        ),
{
    check_document(read_object(proof_bytes), inputs)
}

/// A document that is no proof record fails with `ProofParsingFailed`
/// whatever the public inputs are: too few of them, or none a field element,
/// change nothing of it.
pub proof fn law_structural_ordering(
    document: Option<Seq<(Seq<char>, Option<Seq<char>>)>>,
    inputs: Seq<Seq<char>>,
)
    requires
        document.is_none() || record_of(document.unwrap()).is_none(),
    ensures
        structural_outcome(document, inputs) == Err::<Seq<char>, ErrorCode>(
            ErrorCode::ProofParsingFailed,
        ),
{
}

/// The structural check reports the first rule broken: each failure code
/// says that the rules before its own hold.
pub proof fn law_first_failure(
    evaluations: Seq<Seq<char>>,
    commitments: Seq<Seq<char>>,
    inputs: Seq<Seq<char>>,
)
    ensures
        check_outcome(evaluations, commitments, inputs) == Err::<Seq<char>, ErrorCode>(
            ErrorCode::InvalidPublicInputsCount,
        ) <==> inputs.len() < 2,
        check_outcome(evaluations, commitments, inputs) == Err::<Seq<char>, ErrorCode>(
            ErrorCode::InvalidPublicInput,
        ) ==> inputs.len() >= 2 && all_field_elements(evaluations),
        (check_outcome(evaluations, commitments, inputs) == Err::<Seq<char>, ErrorCode>(
            ErrorCode::InvalidCurvePoint,
        ) || check_outcome(evaluations, commitments, inputs) == Err::<Seq<char>, ErrorCode>(
            ErrorCode::InvalidHexFormat,
        )) ==> inputs.len() >= 2 && all_field_elements(evaluations) && all_field_elements(inputs),
        check_outcome(evaluations, commitments, inputs) is Ok <==> inputs.len() >= 2
            && evaluations.len() > 0 && all_field_elements(evaluations) && all_field_elements(
            inputs,
        ) && first_point_error(commitments).is_none(),
        check_outcome(evaluations, commitments, inputs) != Err::<Seq<char>, ErrorCode>(
            ErrorCode::MissingMerkleProof,
        ),
{
    lemma_no_field_error(evaluations);
    lemma_field_errors(evaluations);
    lemma_point_errors(commitments);
    if all_field_elements(inputs) && inputs.len() >= 2 {
        assert(field_element(inputs[0]).is_ok());
        assert(field_element(inputs[1]).is_ok());
    }
}

/// The first failure among field elements is one of the two that a field
/// element can have.
pub proof fn lemma_field_errors(items: Seq<Seq<char>>)
    ensures
        first_field_error(items) matches Some(e) ==> e == ErrorCode::FieldElementParsingFailed
            || e == ErrorCode::FieldElementOutOfRange,
    decreases items.len(),
{
    if items.len() > 0 {
        lemma_field_errors(items.drop_first());
    }
}

/// The first failure among curve points is one of the two that a curve
/// point can have.
pub proof fn lemma_point_errors(items: Seq<Seq<char>>)
    ensures
        first_point_error(items) matches Some(e) ==> e == ErrorCode::InvalidCurvePoint || e
            == ErrorCode::InvalidHexFormat,
    decreases items.len(),
{
    if items.len() > 0 {
        lemma_point_errors(items.drop_first());
    }
}

} // verus!
