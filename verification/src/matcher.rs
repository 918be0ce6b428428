//! The input matcher: resolves a Presentation Submission's path mappings
//! against a Presentation Definition and a submitted VP Token, producing
//! the matched, decoded claim values with their provenance; and extracts
//! the presenter's DID from the matched inputs.

use vstd::prelude::*;

use crate::decode::{
    spec_decoded_value, ClaimDecodingError, ClaimFormatDesignation, VerifyingClaimsDecoder,
};
use crate::json::{json_doc, json_doc_of, json_text, json_text_of, path_node_checked, spec_path_query};

verus! {

/// One resolved entry: a matched claim value with its provenance.
/// Transient: created and dropped within one validation call.
#[derive(Debug)]
pub struct MatchingInput {
    pub descriptor_id: String,
    pub format: ClaimFormatDesignation,
    pub raw_value: String,
    pub decoded_value: String,
}

/// One entry of a Presentation Submission's descriptor map: where, inside
/// the VP Token, the claim for one Input Descriptor can be found, and in
/// which format.
pub struct DescriptorMap {
    pub id: String,
    pub format: ClaimFormatDesignation,
    pub path: String,
}

/// The holder's declaration of where each requested claim sits in its VP
/// Token. Must reference the definition being validated by id.
pub struct PresentationSubmission {
    pub definition_id: String,
    pub descriptor_map: Vec<DescriptorMap>,
}

/// A JSON-schema-style filter on one constraint field. Only the string
/// forms are supported here: requiring a string, or requiring one exact
/// string.
pub enum FieldFilter {
    AnyString,
    ConstString { value: String },
}

/// One constraint field of an Input Descriptor: a JSON-path into the
/// decoded claim, with an optional filter on the selected value.
pub struct ConstraintField {
    pub path: String,
    pub filter: Option<FieldFilter>,
}

/// One Input Descriptor of a Presentation Definition.
pub struct InputDescriptor {
    pub id: String,
    pub fields: Vec<ConstraintField>,
}

/// The relying party's declarative description of what claims it will
/// accept. Immutable for the lifetime of one verification.
pub struct PresentationDefinition {
    pub id: String,
    pub input_descriptors: Vec<InputDescriptor>,
}

/// Why the matcher rejected a submission.
#[derive(Debug)]
pub enum MatchError {
    /// A mapping's path selected zero or more than one node, or was too
    /// long to be handed to the path parser.
    PathMismatch,
    /// A matched value did not decode under its declared format.
    Decoding { error: ClaimDecodingError },
    /// A mapping referenced an Input Descriptor the definition lacks.
    UnknownDescriptor,
    /// A decoded value did not satisfy a descriptor's constraint field.
    ConstraintMismatch,
}

/// Whether one constraint field holds of a decoded claim value.
pub open spec fn field_ok(field: ConstraintField, decoded: Seq<char>) -> bool {
    match spec_path_query(decoded, field.path@) {
        None => false,
        Some(node) => match field.filter {
            None => true,
            Some(FieldFilter::AnyString) => json_text(node) is Some,
            Some(FieldFilter::ConstString { value }) => json_text(node) == Some(value@),
        },
    }
}

/// The first Input Descriptor with the given id, if any.
pub open spec fn find_descriptor(
    descriptors: Seq<InputDescriptor>,
    id: Seq<char>,
) -> Option<InputDescriptor>
    decreases descriptors.len(),
{
    if descriptors.len() == 0 {
        None
    } else if descriptors[0].id@ == id {
        Some(descriptors[0])
    } else {
        find_descriptor(descriptors.drop_first(), id)
    }
}

/// Whether the descriptor with the given id exists and all its constraint
/// fields hold of the decoded claim value.
pub open spec fn descriptor_accepts(
    descriptors: Seq<InputDescriptor>,
    id: Seq<char>,
    decoded: Seq<char>,
) -> bool {
    match find_descriptor(descriptors, id) {
        None => false,
        Some(d) => forall|k: int| 0 <= k < d.fields@.len() ==> field_ok(#[trigger] d.fields@[k], decoded),
    }
}

/// Whether one descriptor-map entry can be matched against the VP Token:
/// its path selects exactly one node, that node decodes under the entry's
/// format, and the referenced descriptor exists and accepts the decoded
/// value.
pub open spec fn mapping_matchable(
    vp_token: Seq<char>,
    m: DescriptorMap,
    descriptors: Seq<InputDescriptor>,
) -> bool {
    match spec_path_query(vp_token, m.path@) {
        None => false,
        Some(node) => match spec_decoded_value(node, m.format) {
            None => false,
            Some(decoded) => descriptor_accepts(descriptors, m.id@, decoded),
        },
    }
}

/// What the matched entry for one descriptor-map entry must hold.
pub open spec fn input_matches_mapping(
    vp_token: Seq<char>,
    m: DescriptorMap,
    descriptors: Seq<InputDescriptor>,
    out: MatchingInput,
) -> bool {
    &&& out.descriptor_id@ == m.id@
    &&& out.format == m.format
    &&& spec_path_query(vp_token, m.path@) == Some(out.raw_value@)
    &&& spec_decoded_value(out.raw_value@, m.format) == Some(out.decoded_value@)
    &&& descriptor_accepts(descriptors, m.id@, out.decoded_value@)
}

/// The value a matched input is inspected and verified as: a raw value
/// that is a JSON string whose content is itself valid JSON stands for
/// that embedded document; anything else stands for itself.
pub open spec fn effective_value(raw: Seq<char>) -> Seq<char> {
    match json_text(raw) {
        Some(content) => if json_doc(content) is Some {
            content
        } else {
            raw
        },
        None => raw,
    }
}

/// Computes [`effective_value`] of a raw matched value.
pub fn effective_of(raw: &str) -> (r: String)
    ensures
        r@ == effective_value(raw@),
{
    match json_text_of(raw) {
        Some(content) => {
            if json_doc_of(content.as_str()).is_some() {
                content
            } else {
                raw.to_owned()
            }
        },
        None => raw.to_owned(),
    }
}

/// How the holder scan of [`get_holder_id`] can end.
pub enum HolderOutcome {
    /// A presentation-typed input carried this holder.
    Found(Seq<char>),
    /// The `$.holder` query did not select exactly one node.
    PathError,
    /// The selected holder node is not a string.
    DecodeError,
    /// No presentation-typed input was usable; JWT-encoded presentations
    /// are not supported for holder extraction.
    NotFound,
}

/// The holder scan: walks the matched inputs in order; the first
/// `LdpVp`-typed input decides the outcome, and a `JwtVpJson`-typed input
/// stops the scan unsupported.
pub open spec fn spec_holder_search(inputs: Seq<MatchingInput>) -> HolderOutcome
    decreases inputs.len(),
{
    if inputs.len() == 0 {
        HolderOutcome::NotFound
    } else {
        let input = inputs[0];
        match input.format {
            ClaimFormatDesignation::JwtVpJson => HolderOutcome::NotFound,
            ClaimFormatDesignation::LdpVp => {
                match spec_path_query(effective_value(input.raw_value@), "$.holder"@) {
                    None => HolderOutcome::PathError,
                    Some(node) => match json_text(node) {
                        Some(holder) => HolderOutcome::Found(holder),
                        None => HolderOutcome::DecodeError,
                    },
                }
            },
            _ => spec_holder_search(inputs.drop_first()),
        }
    }
}

/// Whether the exec result reports the spec outcome of the holder scan.
pub open spec fn holder_result_reported(
    outcome: HolderOutcome,
    r: Result<String, String>,
) -> bool {
    match outcome {
        HolderOutcome::Found(holder) => r matches Ok(v) && v@ == holder,
        HolderOutcome::PathError => r matches Err(e) && e@ == "JSONPath error"@,
        HolderOutcome::DecodeError => r matches Err(e) && e@ == "JSONPath decoding error"@,
        HolderOutcome::NotFound => r matches Err(e) && e@ == "Unable to determine holder ID"@,
    }
}

/// Retrieves the presenter's DID from the first presentation-typed entry
/// of the matched inputs.
///
/// Exactly one `$.holder` match inside that presentation is required:
/// zero or several matches, or a non-string holder, is an error. Holder
/// extraction from JWT-encoded presentations is unsupported and reported
/// as an extraction failure, not a crash.
pub fn get_holder_id(inputs: &Vec<MatchingInput>) -> (r: Result<String, String>)
    ensures
        holder_result_reported(spec_holder_search(inputs@), r),
{
    let n = inputs.len();
    proof {
        assert(inputs@.skip(0) =~= inputs@);
    }
    for i in 0..n
        invariant
            n == inputs@.len(),
            spec_holder_search(inputs@) == spec_holder_search(inputs@.skip(i as int)),
    {
        proof {
            assert(inputs@.skip(i as int)[0] == inputs@[i as int]);
        }
        match &inputs[i].format {
            ClaimFormatDesignation::JwtVpJson => {
                return Err("Unable to determine holder ID".to_owned());
            },
            ClaimFormatDesignation::LdpVp => {
                let value = effective_of(inputs[i].raw_value.as_str());
                match path_node_checked(value.as_str(), "$.holder") {
                    None => {
                        return Err("JSONPath error".to_owned());
                    },
                    Some(node) => match json_text_of(node.as_str()) {
                        Some(holder) => {
                            return Ok(holder);
                        },
                        None => {
                            return Err("JSONPath decoding error".to_owned());
                        },
                    },
                }
            },
            _ => {
                proof {
                    assert(inputs@.skip(i as int).drop_first() =~= inputs@.skip(i + 1));
                }
            },
        }
    }
    proof {
        assert(inputs@.skip(n as int) =~= Seq::<MatchingInput>::empty());
    }
    Err("Unable to determine holder ID".to_owned())
}

/// The holder scan, phrased over the submission's descriptor map and the
/// VP Token directly: what [`spec_holder_search`] yields on the inputs
/// that match those mappings. Meaningful under the premise that every
/// mapping is matchable, so that each scanned raw value is the mapping's
/// unique path match.
pub open spec fn spec_holder_from_mappings(
    vp_token: Seq<char>,
    maps: Seq<DescriptorMap>,
) -> HolderOutcome
    decreases maps.len(),
{
    if maps.len() == 0 {
        HolderOutcome::NotFound
    } else {
        let m = maps[0];
        match m.format {
            ClaimFormatDesignation::JwtVpJson => HolderOutcome::NotFound,
            ClaimFormatDesignation::LdpVp => {
                let raw = spec_path_query(vp_token, m.path@).unwrap();
                match spec_path_query(effective_value(raw), "$.holder"@) {
                    None => HolderOutcome::PathError,
                    Some(node) => match json_text(node) {
                        Some(holder) => HolderOutcome::Found(holder),
                        None => HolderOutcome::DecodeError,
                    },
                }
            },
            _ => spec_holder_from_mappings(vp_token, maps.drop_first()),
        }
    }
}

/// On inputs that match the submission's mappings, the holder scan over
/// the inputs and the holder scan over the mappings agree.
pub proof fn lemma_holder_search_from_mappings(
    vp_token: Seq<char>,
    maps: Seq<DescriptorMap>,
    descriptors: Seq<InputDescriptor>,
    inputs: Seq<MatchingInput>,
)
    requires
        inputs.len() == maps.len(),
        forall|k: int|
            0 <= k < maps.len() ==> input_matches_mapping(
                vp_token,
                maps[k],
                descriptors,
                #[trigger] inputs[k],
            ),
    ensures
        spec_holder_search(inputs) == spec_holder_from_mappings(vp_token, maps),
    decreases maps.len(),
{
    if maps.len() > 0 {
        assert(input_matches_mapping(vp_token, maps[0], descriptors, inputs[0]));
        match maps[0].format {
            ClaimFormatDesignation::JwtVpJson => {},
            ClaimFormatDesignation::LdpVp => {},
            _ => {
                assert forall|k: int| 0 <= k < maps.drop_first().len() implies
                    input_matches_mapping(
                        vp_token,
                        maps.drop_first()[k],
                        descriptors,
                        #[trigger] inputs.drop_first()[k],
                    ) by {
                    assert(inputs.drop_first()[k] == inputs[k + 1]);
                    assert(input_matches_mapping(
                        vp_token,
                        maps[k + 1],
                        descriptors,
                        inputs[k + 1],
                    ));
                }
                lemma_holder_search_from_mappings(
                    vp_token,
                    maps.drop_first(),
                    descriptors,
                    inputs.drop_first(),
                );
            },
        }
    }
}

/// Checks one constraint field against a decoded claim value.
fn check_field(field: &ConstraintField, decoded: &str) -> (r: bool)
    ensures
        r == field_ok(*field, decoded@),
{
    match path_node_checked(decoded, field.path.as_str()) {
        None => false,
        Some(node) => match &field.filter {
            None => true,
            Some(FieldFilter::AnyString) => json_text_of(node.as_str()).is_some(),
            Some(FieldFilter::ConstString { value }) => match json_text_of(node.as_str()) {
                Some(content) => crate::text::str_eq(content.as_str(), value.as_str()),
                None => false,
            },
        },
    }
}

/// Looks up the first Input Descriptor with the given id.
fn lookup_descriptor<'a>(descriptors: &'a Vec<InputDescriptor>, id: &str) -> (r: Option<
    &'a InputDescriptor,
>)
    ensures
        match r {
            Some(d) => find_descriptor(descriptors@, id@) == Some(*d),
            None => find_descriptor(descriptors@, id@) is None,
        },
{
    let n = descriptors.len();
    proof {
        assert(descriptors@.skip(0) =~= descriptors@);
    }
    for i in 0..n
        invariant
            n == descriptors@.len(),
            find_descriptor(descriptors@, id@) == find_descriptor(
                descriptors@.skip(i as int),
                id@,
            ),
            forall|k: int| 0 <= k < i ==> (#[trigger] descriptors@[k]).id@ != id@,
    {
        proof {
            assert(descriptors@.skip(i as int)[0] == descriptors@[i as int]);
        }
        if crate::text::str_eq(descriptors[i].id.as_str(), id) {
            return Some(&descriptors[i]);
        }
        proof {
            assert(descriptors@.skip(i as int).drop_first() =~= descriptors@.skip(i + 1));
        }
    }
    proof {
        assert(descriptors@.skip(n as int) =~= Seq::<InputDescriptor>::empty());
    }
    None
}

/// Checks a decoded claim value against the constraint fields of the
/// referenced Input Descriptor.
fn validate_against_descriptor(
    descriptors: &Vec<InputDescriptor>,
    id: &str,
    decoded: &str,
) -> (r: Result<(), MatchError>)
    ensures
        r is Ok <==> descriptor_accepts(descriptors@, id@, decoded@),
        r matches Err(e) ==> (e is UnknownDescriptor || e is ConstraintMismatch),
        r matches Err(e) ==> (e is UnknownDescriptor <==> find_descriptor(
            descriptors@,
            id@,
        ) is None),
{
    match lookup_descriptor(descriptors, id) {
        None => Err(MatchError::UnknownDescriptor),
        Some(descriptor) => {
            let n = descriptor.fields.len();
            for k in 0..n
                invariant
                    n == descriptor.fields@.len(),
                    find_descriptor(descriptors@, id@) == Some(*descriptor),
                    forall|kk: int|
                        0 <= kk < k ==> field_ok(#[trigger] descriptor.fields@[kk], decoded@),
            {
                if !check_field(&descriptor.fields[k], decoded) {
                    proof {
                        let d = find_descriptor(descriptors@, id@).unwrap();
                        assert(d == *descriptor);
                        assert(!field_ok(d.fields@[k as int], decoded@));
                        assert(!descriptor_accepts(descriptors@, id@, decoded@));
                    }
                    return Err(MatchError::ConstraintMismatch);
                }
            }
            Ok(())
        },
    }
}

/// The position of the first descriptor-map entry that cannot be
/// matched. Meaningful only where some entry fails.
pub open spec fn first_unmatchable(
    vp_token: Seq<char>,
    maps: Seq<DescriptorMap>,
    descriptors: Seq<InputDescriptor>,
) -> int
    decreases maps.len(),
{
    if maps.len() == 0 {
        0
    } else if !mapping_matchable(vp_token, maps[0], descriptors) {
        0
    } else {
        1 + first_unmatchable(vp_token, maps.drop_first(), descriptors)
    }
}

/// Where every entry before `k` matches and entry `k` does not, `k` is
/// the first unmatchable position.
proof fn lemma_first_unmatchable_at(
    vp_token: Seq<char>,
    maps: Seq<DescriptorMap>,
    descriptors: Seq<InputDescriptor>,
    k: int,
)
    requires
        0 <= k < maps.len(),
        forall|kk: int|
            0 <= kk < k ==> mapping_matchable(vp_token, #[trigger] maps[kk], descriptors),
        !mapping_matchable(vp_token, maps[k], descriptors),
    ensures
        first_unmatchable(vp_token, maps, descriptors) == k,
    decreases k,
{
    if k > 0 {
        assert(mapping_matchable(vp_token, maps[0], descriptors));
        assert forall|kk: int| 0 <= kk < k - 1 implies mapping_matchable(
            vp_token,
            #[trigger] maps.drop_first()[kk],
            descriptors,
        ) by {
            assert(maps.drop_first()[kk] == maps[kk + 1]);
        }
        assert(maps.drop_first()[k - 1] == maps[k]);
        lemma_first_unmatchable_at(vp_token, maps.drop_first(), descriptors, k - 1);
    }
}

/// What the error of a failed match says of the first unmatchable entry.
pub open spec fn match_error_reported(
    vp_token: Seq<char>,
    maps: Seq<DescriptorMap>,
    descriptors: Seq<InputDescriptor>,
    e: MatchError,
) -> bool {
    let k = first_unmatchable(vp_token, maps, descriptors);
    let m = maps[k];
    &&& 0 <= k < maps.len()
    &&& match e {
        MatchError::PathMismatch => spec_path_query(vp_token, m.path@) is None,
        MatchError::Decoding { error } => {
            &&& spec_path_query(vp_token, m.path@) matches Some(node)
            &&& crate::decode::decode_contract(
                spec_path_query(vp_token, m.path@).unwrap(),
                m.format,
                Err(error),
            )
        },
        MatchError::UnknownDescriptor => {
            &&& spec_path_query(vp_token, m.path@) matches Some(node)
            &&& spec_decoded_value(spec_path_query(vp_token, m.path@).unwrap(), m.format) is Some
            &&& find_descriptor(descriptors, m.id@) is None
        },
        MatchError::ConstraintMismatch => {
            &&& spec_path_query(vp_token, m.path@) matches Some(node)
            &&& spec_decoded_value(spec_path_query(vp_token, m.path@).unwrap(), m.format)
                matches Some(decoded)
            &&& find_descriptor(descriptors, m.id@) is Some
            &&& !descriptor_accepts(descriptors, m.id@, decoded)
        },
    }
}

/// Resolves every descriptor-map entry of the submission against the VP
/// Token, decodes each matched value under its declared format, and
/// validates it against the referenced Input Descriptor's constraint
/// fields.
///
/// Succeeds — with one matched input per descriptor-map entry, in map
/// order — exactly when every entry matches; an ambiguous, missing or
/// over-long path match, an undecodable value, an unknown descriptor
/// reference or an unsatisfied constraint is an error, not a silent
/// skip.
pub fn find_and_validate_inputs(
    definition: &PresentationDefinition,
    submission: &PresentationSubmission,
    vp_token_json: &str,
) -> (r: Result<Vec<MatchingInput>, MatchError>)
    ensures
        r is Ok <==> forall|k: int|
            0 <= k < submission.descriptor_map@.len() ==> mapping_matchable(
                vp_token_json@,
                #[trigger] submission.descriptor_map@[k],
                definition.input_descriptors@,
            ),
        r matches Ok(outs) ==> {
            &&& outs@.len() == submission.descriptor_map@.len()
            &&& forall|k: int|
                0 <= k < outs@.len() ==> input_matches_mapping(
                    vp_token_json@,
                    submission.descriptor_map@[k],
                    definition.input_descriptors@,
                    #[trigger] outs@[k],
                )
        },
        r matches Err(e) ==> match_error_reported(
            vp_token_json@,
            submission.descriptor_map@,
            definition.input_descriptors@,
            e,
        ),
{
    let n = submission.descriptor_map.len();
    let mut outs: Vec<MatchingInput> = Vec::new();
    let decoder = VerifyingClaimsDecoder;
    for k in 0..n
        invariant
            n == submission.descriptor_map@.len(),
            outs@.len() == k,
            forall|kk: int|
                0 <= kk < k ==> mapping_matchable(
                    vp_token_json@,
                    #[trigger] submission.descriptor_map@[kk],
                    definition.input_descriptors@,
                ),
            forall|kk: int|
                0 <= kk < k ==> input_matches_mapping(
                    vp_token_json@,
                    submission.descriptor_map@[kk],
                    definition.input_descriptors@,
                    #[trigger] outs@[kk],
                ),
    {
        let mapping = &submission.descriptor_map[k];
        let node = match path_node_checked(vp_token_json, mapping.path.as_str()) {
            Some(node) => node,
            None => {
                proof {
                    lemma_first_unmatchable_at(
                        vp_token_json@,
                        submission.descriptor_map@,
                        definition.input_descriptors@,
                        k as int,
                    );
                }
                return Err(MatchError::PathMismatch);
            },
        };
        let decoded = match decoder.decode(node.as_str(), &mapping.format) {
            Ok(c) => c,
            Err(error) => {
                proof {
                    lemma_first_unmatchable_at(
                        vp_token_json@,
                        submission.descriptor_map@,
                        definition.input_descriptors@,
                        k as int,
                    );
                }
                return Err(MatchError::Decoding { error });
            },
        };
        if let Err(e) = validate_against_descriptor(
            &definition.input_descriptors,
            mapping.id.as_str(),
            decoded.decoded_value.as_str(),
        ) {
            proof {
                lemma_first_unmatchable_at(
                    vp_token_json@,
                    submission.descriptor_map@,
                    definition.input_descriptors@,
                    k as int,
                );
            }
            return Err(e);
        }
        outs.push(MatchingInput {
            descriptor_id: mapping.id.clone(),
            format: mapping.format.duplicate(),
            raw_value: decoded.original_value,
            decoded_value: decoded.decoded_value,
        });
    }
    Ok(outs)
}

} // verus!
