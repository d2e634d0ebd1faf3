use module_pull::hash_resolve::{
    HashSource, choose_hash_source, hash_from_chain, hash_from_explicit, hash_from_url_content,
};
use module_pull::manifest::Manifest;
use module_pull::errors::PullError;

fn manifest(hash: Option<&str>, hash_url: Option<&str>) -> Manifest {
    Manifest {
        dependencies: Vec::new(),
        wasm_url: "https://example.invalid/module.wasm".to_string(),
        wasm_hash: hash.map(|s| s.to_string()),
        wasm_hash_url: hash_url.map(|s| s.to_string()),
        init_guide: None,
        init_arg: None,
    }
}

#[test]
fn explicit_hash_wins_over_hash_url() {
    // The manifest declares "aa11" explicitly while its hash URL would
    // serve "bb22": resolution takes "aa11" and flags the ambiguity.
    let m = manifest(Some("aa11"), Some("https://example.invalid/hash.txt"));
    let (source, ambiguous) = choose_hash_source(&m);
    assert!(ambiguous);
    match source {
        HashSource::Explicit { hash_hex } => {
            assert_eq!(hash_hex, "aa11");
            assert_eq!(hash_from_explicit(&hash_hex).unwrap(), vec![0xaa, 0x11]);
        }
        _ => panic!("expected the explicit hash to win"),
    }
    let url_content = b"bb22  module.wasm";
    assert_eq!(hash_from_url_content(url_content).unwrap(), vec![0xbb, 0x22]);
}

#[test]
fn hash_url_is_used_when_no_explicit_hash_is_given() {
    let m = manifest(None, Some("https://example.invalid/hash.txt"));
    let (source, ambiguous) = choose_hash_source(&m);
    assert!(!ambiguous);
    match source {
        HashSource::FromUrl { url } => assert_eq!(url, "https://example.invalid/hash.txt"),
        _ => panic!("expected the hash URL"),
    }
}

#[test]
fn boundary_is_asked_when_neither_is_given() {
    let m = manifest(None, None);
    let (source, ambiguous) = choose_hash_source(&m);
    assert!(!ambiguous);
    assert!(matches!(source, HashSource::OnChain));
}

#[test]
fn url_content_takes_the_first_whitespace_token() {
    assert_eq!(hash_from_url_content(b"  \t deadbeef  module.wasm\n").unwrap(), vec![
        0xde, 0xad, 0xbe, 0xef,
    ]);
}

#[test]
fn empty_url_content_is_a_terminal_protocol_error() {
    assert!(matches!(
        hash_from_url_content(b"   \n\t "),
        Err(PullError::TerminalProtocol { .. })
    ));
}

#[test]
fn undecodable_url_content_is_an_integrity_error() {
    assert!(matches!(
        hash_from_url_content(b"zz11 module.wasm"),
        Err(PullError::Integrity { .. })
    ));
    assert!(matches!(hash_from_url_content(b"abc"), Err(PullError::Integrity { .. })));
}

#[test]
fn undecodable_explicit_hash_is_an_integrity_error() {
    assert!(matches!(hash_from_explicit("xyz"), Err(PullError::Integrity { .. })));
    assert!(matches!(hash_from_explicit("a"), Err(PullError::Integrity { .. })));
}

#[test]
fn mixed_case_explicit_hash_decodes() {
    assert_eq!(hash_from_explicit("DeadBEEF").unwrap(), vec![0xde, 0xad, 0xbe, 0xef]);
}

#[test]
fn missing_installed_hash_is_a_terminal_protocol_error() {
    assert!(matches!(hash_from_chain(None), Err(PullError::TerminalProtocol { .. })));
    assert_eq!(hash_from_chain(Some(vec![1, 2, 3])).unwrap(), vec![1, 2, 3]);
}
