//! The claims decoder: turns one raw submitted claim value into canonical
//! JSON according to its declared wire format, without verifying
//! authenticity. Signature verification is applied later, to the
//! still-encoded token, never to the decoded payload.

use vstd::prelude::*;

use crate::json::{
    json_doc, json_doc_of, json_text, json_text_of, jws_payload, jws_payload_of,
};

verus! {

/// The wire encoding of a submitted claim. Determines decoder and
/// verifier dispatch; tags outside the known set are rejected as unknown.
#[derive(Debug)]
pub enum ClaimFormatDesignation {
    JwtVcJson,
    JwtVc,
    LdpVc,
    JwtVpJson,
    LdpVp,
    Other { tag: String },
}

impl ClaimFormatDesignation {
    /// An exact copy of this format tag.
    pub fn duplicate(&self) -> (r: Self)
        ensures
            r == *self,
    {
        match self {
            ClaimFormatDesignation::JwtVcJson => ClaimFormatDesignation::JwtVcJson,
            ClaimFormatDesignation::JwtVc => ClaimFormatDesignation::JwtVc,
            ClaimFormatDesignation::LdpVc => ClaimFormatDesignation::LdpVc,
            ClaimFormatDesignation::JwtVpJson => ClaimFormatDesignation::JwtVpJson,
            ClaimFormatDesignation::LdpVp => ClaimFormatDesignation::LdpVp,
            ClaimFormatDesignation::Other { tag } => ClaimFormatDesignation::Other {
                tag: tag.clone(),
            },
        }
    }

    /// Whether this is one of the three compact-JWT encodings.
    pub open spec fn spec_is_jwt(self) -> bool {
        self is JwtVcJson || self is JwtVc || self is JwtVpJson
    }
}

/// One decoded claim: the value as submitted and its canonical JSON.
#[derive(Debug)]
pub struct DecodedClaim {
    pub original_value: String,
    pub decoded_value: String,
}

/// Why a claim could not be decoded.
#[derive(Debug)]
pub enum ClaimDecodingError {
    /// The declared format is not one this engine decodes.
    UnknownFormat { format: ClaimFormatDesignation },
    /// The value does not decode under its declared format.
    Undecodable { details: String },
}

/// The canonical JSON a raw claim value decodes to under a format, or
/// `None` where it does not decode:
/// - the JWT encodings expect a JSON string holding a compact token whose
///   payload is JSON;
/// - `LdpVp` expects a JSON string holding an embedded JSON object;
/// - `LdpVc` is already canonical JSON and passes through;
/// - any other format never decodes.
pub open spec fn spec_decoded_value(
    raw: Seq<char>,
    format: ClaimFormatDesignation,
) -> Option<Seq<char>> {
    if format.spec_is_jwt() {
        match json_text(raw) {
            Some(token) => match jws_payload(token) {
                Some(payload) => json_doc(payload),
                None => None,
            },
            None => None,
        }
    } else if format is LdpVp {
        match json_text(raw) {
            Some(embedded) => json_doc(embedded),
            None => None,
        }
    } else if format is LdpVc {
        Some(raw)
    } else {
        None
    }
}

/// The full postcondition of [`VerifyingClaimsDecoder::decode`]: success
/// exactly when the value decodes under its format, with the canonical
/// JSON pinned; otherwise the error names the stage that failed.
pub open spec fn decode_contract(
    raw: Seq<char>,
    format: ClaimFormatDesignation,
    r: Result<DecodedClaim, ClaimDecodingError>,
) -> bool {
    &&& r matches Ok(c) ==> {
        &&& c.original_value@ == raw
        &&& spec_decoded_value(raw, format) == Some(c.decoded_value@)
    }
    &&& r is Ok <==> spec_decoded_value(raw, format) is Some
    &&& r matches Err(ClaimDecodingError::UnknownFormat { format: f }) ==> {
        &&& f == format
        &&& !format.spec_is_jwt()
        &&& format !is LdpVp
        &&& format !is LdpVc
    }
    &&& r matches Err(ClaimDecodingError::Undecodable { details }) ==> {
        &&& (format.spec_is_jwt() || format is LdpVp)
        &&& if json_text(raw) is None {
            details@ == "unable to convert value to string"@
        } else if format.spec_is_jwt() && jws_payload(json_text(raw).unwrap()) is None {
            details@ == "unable to decode JWS payload"@
        } else {
            details@ == "unable to deserialize payload"@
        }
    }
}

/// The claims decoder: decodes payloads only, verifying nothing.
pub struct VerifyingClaimsDecoder;

impl VerifyingClaimsDecoder {
    /// Decodes one raw claim value according to its declared format.
    ///
    /// The compact-JWT formats carry a JSON string holding a signed token
    /// of three base64url segments; only header and payload are decoded
    /// here. `LdpVp` carries a JSON string holding an embedded
    /// presentation object. `LdpVc` is already canonical JSON. Any other
    /// format fails as unknown; a value that does not decode under its
    /// declared format fails with the stage that broke.
    pub fn decode(&self, raw_value: &str, format: &ClaimFormatDesignation) -> (r: Result<
        DecodedClaim,
        ClaimDecodingError,
    >)
        ensures
            decode_contract(raw_value@, *format, r),
    {
        match format {
            ClaimFormatDesignation::JwtVcJson
            | ClaimFormatDesignation::JwtVc
            | ClaimFormatDesignation::JwtVpJson => match json_text_of(raw_value) {
                None => Err(ClaimDecodingError::Undecodable {
                    details: "unable to convert value to string".to_owned(),
                }),
                Some(token) => match jws_payload_of(token.as_str()) {
                    None => Err(ClaimDecodingError::Undecodable {
                        details: "unable to decode JWS payload".to_owned(),
                    }),
                    Some(payload) => match json_doc_of(payload.as_str()) {
                        None => Err(ClaimDecodingError::Undecodable {
                            details: "unable to deserialize payload".to_owned(),
                        }),
                        Some(decoded) => Ok(DecodedClaim {
                            original_value: raw_value.to_owned(),
                            decoded_value: decoded,
                        }),
                    },
                },
            },
            ClaimFormatDesignation::LdpVp => match json_text_of(raw_value) {
                None => Err(ClaimDecodingError::Undecodable {
                    details: "unable to convert value to string".to_owned(),
                }),
                Some(embedded) => match json_doc_of(embedded.as_str()) {
                    None => Err(ClaimDecodingError::Undecodable {
                        details: "unable to deserialize payload".to_owned(),
                    }),
                    Some(decoded) => Ok(DecodedClaim {
                        original_value: raw_value.to_owned(),
                        decoded_value: decoded,
                    }),
                },
            },
            ClaimFormatDesignation::LdpVc => Ok(DecodedClaim {
                original_value: raw_value.to_owned(),
                decoded_value: raw_value.to_owned(),
            }),
            _ => Err(ClaimDecodingError::UnknownFormat { format: format.duplicate() }),
        }
    }
}

} // verus!
