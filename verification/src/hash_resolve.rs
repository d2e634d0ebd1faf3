//! The authoritative-hash resolution policy.
//!
//! Precedence, in order: an explicit hash in the manifest; the content of
//! a hash-fetch URL; the installed module's hash queried from the remote
//! boundary.  When both an explicit hash and a hash URL are present the
//! explicit hash wins, and the ambiguity is reported as a non-fatal
//! warning, not an error.
use vstd::prelude::*;
use vstd::string::StringSliceAdditionalSpecFns;
use crate::bytes_util::{first_whitespace_token, spec_first_token};
use crate::errors::PullError;
use crate::integrity::{hex_decode, hex_decoded, is_hex_encoding};
use crate::manifest::Manifest;

verus! {

/// Where the authoritative hash of a module must come from.
pub enum HashSource {
    /// The manifest declares the hash itself.
    Explicit { hash_hex: String },
    /// The manifest names a URL whose text content carries the hash.
    FromUrl { url: String },
    /// Neither is declared: ask the remote boundary for the installed
    /// module's hash.
    OnChain,
}

/// Chooses the hash source by manifest precedence.  The second component
/// reports the non-fatal ambiguity of a manifest that declares both an
/// explicit hash and a hash URL.
pub fn choose_hash_source(m: &Manifest) -> (r: (HashSource, bool))
    ensures
        r.1 == (m.wasm_hash is Some && m.wasm_hash_url is Some),
        match r.0 {
            HashSource::Explicit { hash_hex } => (m.wasm_hash matches Some(h) && hash_hex@ == h@),
            HashSource::FromUrl { url } => m.wasm_hash is None && (m.wasm_hash_url matches Some(u)
                && url@ == u@),
            HashSource::OnChain => m.wasm_hash is None && m.wasm_hash_url is None,
        },
{
    let ambiguous = m.wasm_hash.is_some() && m.wasm_hash_url.is_some();
    let source = if let Some(h) = &m.wasm_hash {
        HashSource::Explicit { hash_hex: h.clone() }
    } else if let Some(u) = &m.wasm_hash_url {
        HashSource::FromUrl { url: u.clone() }
    } else {
        HashSource::OnChain
    };
    (source, ambiguous)
}

/// Decodes the manifest's explicit hash; a string that is not valid
/// hexadecimal is a terminal integrity error.
pub fn hash_from_explicit(hash_hex: &str) -> (r: Result<Vec<u8>, PullError>)
    ensures
        r is Ok <==> is_hex_encoding(hash_hex.spec_bytes()),
        r matches Ok(v) ==> v@ == hex_decoded(hash_hex.spec_bytes()),
        r matches Err(e) ==> e is Integrity,
{
    match hex_decode(hash_hex.as_bytes()) {
        Ok(v) => Ok(v),
        Err(_) => Err(
            PullError::Integrity {
                message: String::from_str("failed to decode the declared hash as hexadecimal"),
            },
        ),
    }
}

/// Resolves the hash from the downloaded content of the manifest's hash
/// URL: the first whitespace-delimited token, decoded as hexadecimal.
/// Empty content is a terminal protocol error; a token that is not valid
/// hexadecimal is a terminal integrity error.
pub fn hash_from_url_content(content: &[u8]) -> (r: Result<Vec<u8>, PullError>)
    ensures
        match r {
            Ok(v) => spec_first_token(content@) matches Some(t) && is_hex_encoding(t) && v@
                == hex_decoded(t),
            Err(e) => match spec_first_token(content@) {
                Some(t) => !is_hex_encoding(t) && e is Integrity,
                None => e is TerminalProtocol,
            },
        },
{
    let token = first_whitespace_token(content);
    match token {
        Some(t) => match hex_decode(t.as_slice()) {
            Ok(v) => Ok(v),
            Err(_) => Err(
                PullError::Integrity {
                    message: String::from_str(
                        "failed to decode the downloaded hash content as hexadecimal",
                    ),
                },
            ),
        },
        None => Err(
            PullError::TerminalProtocol {
                message: String::from_str("the downloaded hash content is empty"),
            },
        ),
    }
}

/// Resolves the hash from the remote boundary's answer for the installed
/// module: absence (the module is not installed anywhere) is a terminal
/// protocol error.
pub fn hash_from_chain(installed: Option<Vec<u8>>) -> (r: Result<Vec<u8>, PullError>)
    ensures
        match r {
            Ok(v) => installed matches Some(h) && v@ == h@,
            Err(e) => installed is None && e is TerminalProtocol,
        },
{
    match installed {
        Some(h) => Ok(h),
        None => Err(
            PullError::TerminalProtocol {
                message: String::from_str(
                    "the module has no installed hash; perhaps it is not installed",
                ),
            },
        ),
    }
}

/// Hash precedence: a manifest with an explicit hash resolves to that
/// hash, whatever its hash URL says; the URL is consulted only when no
/// explicit hash is declared, and the boundary only when neither is
/// declared.
pub proof fn lemma_hash_precedence(m: Manifest, r: (HashSource, bool))
    requires
        m.wasm_hash is Some,
        match r.0 {
            HashSource::Explicit { hash_hex } => (m.wasm_hash matches Some(h) && hash_hex@ == h@),
            HashSource::FromUrl { url } => m.wasm_hash is None && (m.wasm_hash_url matches Some(u)
                && url@ == u@),
            HashSource::OnChain => m.wasm_hash is None && m.wasm_hash_url is None,
        },
    ensures
        r.0 matches HashSource::Explicit { hash_hex } && hash_hex@ == m.wasm_hash.unwrap()@,
{
}

} // verus!
