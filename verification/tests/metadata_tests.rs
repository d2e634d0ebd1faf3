use module_pull::metadata::{RemoteCallError, interpret_metadata_response};
use module_pull::errors::PullError;
use module_pull::bytes_util::first_whitespace_token;
use module_pull::start_cmd::{CanisterStartOpts, select_start_targets, use_legacy_start};

#[test]
fn returned_data_is_handed_through() {
    let r = interpret_metadata_response(b"dfx", Ok(b"{\"pullable\":{}}".to_vec()));
    assert_eq!(r.unwrap(), Some(b"{\"pullable\":{}}".to_vec()));
}

#[test]
fn a_not_found_status_with_the_section_prefix_is_defined_absence() {
    let content = b"Custom section dfx not found".to_vec();
    let r = interpret_metadata_response(
        b"dfx",
        Err(RemoteCallError::Http { status: 404, content }),
    );
    assert_eq!(r.unwrap(), None);
}

#[test]
fn a_not_found_status_for_another_section_is_terminal() {
    let content = b"Custom section candid:service not found".to_vec();
    let r = interpret_metadata_response(
        b"dfx",
        Err(RemoteCallError::Http { status: 404, content }),
    );
    assert!(matches!(r, Err(PullError::TerminalProtocol { .. })));
}

#[test]
fn a_matching_message_under_another_status_is_terminal() {
    let content = b"Custom section dfx not found".to_vec();
    let r = interpret_metadata_response(
        b"dfx",
        Err(RemoteCallError::Http { status: 500, content }),
    );
    assert!(matches!(r, Err(PullError::TerminalProtocol { .. })));
}

#[test]
fn a_lookup_path_absent_signal_is_defined_absence() {
    let r = interpret_metadata_response(b"dfx", Err(RemoteCallError::LookupPathAbsent));
    assert_eq!(r.unwrap(), None);
}

#[test]
fn other_faults_keep_their_transient_or_terminal_class() {
    let transient = interpret_metadata_response(
        b"dfx",
        Err(RemoteCallError::Other { transient: true, message: "timed out".to_string() }),
    );
    assert!(matches!(transient, Err(PullError::TransientNetwork { .. })));
    let terminal = interpret_metadata_response(
        b"dfx",
        Err(RemoteCallError::Other { transient: false, message: "rejected".to_string() }),
    );
    assert!(matches!(terminal, Err(PullError::TerminalProtocol { .. })));
}

#[test]
fn the_first_whitespace_token_is_extracted() {
    assert_eq!(first_whitespace_token(b"  abc  def").unwrap(), b"abc".to_vec());
    assert_eq!(first_whitespace_token(b"abc").unwrap(), b"abc".to_vec());
    assert!(first_whitespace_token(b"   ").is_none());
    assert!(first_whitespace_token(b"").is_none());
}

#[test]
fn a_named_canister_is_the_only_start_target() {
    let opts = CanisterStartOpts { canister_name: Some("web".to_string()), all: true };
    let configured = vec!["web".to_string(), "backend".to_string()];
    assert_eq!(select_start_targets(&opts, &configured).unwrap(), vec!["web".to_string()]);
}

#[test]
fn the_all_flag_starts_every_configured_canister() {
    let opts = CanisterStartOpts { canister_name: None, all: true };
    let configured = vec!["web".to_string(), "backend".to_string()];
    assert_eq!(select_start_targets(&opts, &configured).unwrap(), configured);
}

#[test]
fn neither_name_nor_all_is_an_error() {
    let opts = CanisterStartOpts { canister_name: None, all: false };
    match select_start_targets(&opts, &Vec::new()) {
        Err(PullError::TerminalProtocol { message }) => {
            assert_eq!(message, "Cannot find canister name.");
        }
        _ => panic!("expected a terminal error naming the missing canister name"),
    }
}

#[test]
fn only_the_old_api_version_takes_the_legacy_path() {
    assert!(use_legacy_start("0.14.0"));
    assert!(!use_legacy_start("0.18.3"));
    assert!(!use_legacy_start(""));
}
