//! Interpreting the remote boundary's answer to a metadata fetch.
//!
//! A fetch must distinguish three outcomes: defined absence (the metadata
//! does not exist on the remote module: an explicit empty result, not an
//! error), transient failure (retried), and terminal failure
//! (propagated).  Two distinct boundary signals both mean defined
//! absence: a structured not-found status whose message carries a
//! specific prefix, and a distinct lookup-path-absent signal.
use vstd::prelude::*;
use crate::bytes_util::{bytes_extend, bytes_starts_with, has_prefix};
use crate::errors::PullError;

verus! {

/// What the remote boundary reported when a metadata fetch did not
/// return data.
pub enum RemoteCallError {
    /// A structured status answer with its message content.
    Http { status: u16, content: Vec<u8> },
    /// The remote state tree has no path for the requested data.
    LookupPathAbsent,
    /// Any other boundary fault, classified by the boundary as transient
    /// or not.
    Other { transient: bool, message: String },
}

/// The message prefix by which a not-found status conveys defined
/// absence of a metadata section.
pub open spec fn absent_section_prefix(section: Seq<u8>) -> Seq<u8> {
    vstd::utf8::encode_utf8("Custom section "@) + section + vstd::utf8::encode_utf8(" not found"@)
}

/// Builds the not-found message prefix for a section name.
pub fn build_absent_section_prefix(section: &[u8]) -> (r: Vec<u8>)
    ensures
        r@ == absent_section_prefix(section@),
{
    let mut out: Vec<u8> = Vec::new();
    bytes_extend(&mut out, "Custom section ".as_bytes());
    bytes_extend(&mut out, section);
    bytes_extend(&mut out, " not found".as_bytes());
    out
}

/// Classifies the boundary's answer to a metadata fetch for `section`.
/// Data is handed through; a not-found status carrying the section's
/// not-found prefix, and the lookup-path-absent signal, are both defined
/// absence; every other fault is an error of the matching kind.
pub fn interpret_metadata_response(
    section: &[u8],
    response: Result<Vec<u8>, RemoteCallError>,
) -> (r: Result<Option<Vec<u8>>, PullError>)
    ensures
        match response {
            Ok(data) => r matches Ok(Some(d)) && d@ == data@,
            Err(e) => match e {
                RemoteCallError::Http { status, content } => {
                    if status == 404 && has_prefix(content@, absent_section_prefix(section@)) {
                        r matches Ok(None)
                    } else {
                        r matches Err(pe) && pe is TerminalProtocol
                    }
                },
                RemoteCallError::LookupPathAbsent => r matches Ok(None),
                RemoteCallError::Other { transient, message } => {
                    if transient {
                        r matches Err(pe) && (pe matches PullError::TransientNetwork {
                            message: m,
                        } && m@ == message@)
                    } else {
                        r matches Err(pe) && (pe matches PullError::TerminalProtocol {
                            message: m,
                        } && m@ == message@)
                    }
                },
            },
        },
{
    match response {
        Ok(data) => Ok(Some(data)),
        Err(e) => match e {
            RemoteCallError::Http { status, content } => {
                let prefix = build_absent_section_prefix(section);
                if status == 404 && bytes_starts_with(content.as_slice(), prefix.as_slice()) {
                    Ok(None)
                } else {
                    Err(
                        PullError::TerminalProtocol {
                            message: String::from_str("the boundary rejected the metadata fetch"),
                        },
                    )
                }
            },
            RemoteCallError::LookupPathAbsent => Ok(None),
            RemoteCallError::Other { transient, message } => {
                if transient {
                    Err(PullError::TransientNetwork { message })
                } else {
                    Err(PullError::TerminalProtocol { message })
                }
            },
        },
    }
}

} // verus!
