use module_pull::diagnosis::{
    AgentFailure, CreateCanisterFailure, Diagnosable, DiagnosedError, ErrorCause, HostInfo,
    RejectCode, SyncFailure, cycles_ledger_not_found, diagnose, duplicate_asset_key_dist_and_src,
    insufficient_cycles, is_src_to_dist, ledger_not_found, local_replica_not_running,
    not_a_controller, wallet_method_not_found,
};

fn diagnosable(cause: ErrorCause, rendered: &str) -> Diagnosable {
    Diagnosable { cause, rendered: rendered.as_bytes().to_vec() }
}

fn explanation_of(d: &DiagnosedError) -> String {
    d.explanation.clone().unwrap_or_default()
}

fn suggestion_of(d: &DiagnosedError) -> String {
    d.action_suggestion.clone().unwrap_or_default()
}

#[test]
fn new_and_contains_diagnosis() {
    let d = DiagnosedError::new("why".to_string(), "how".to_string());
    assert!(d.contains_diagnosis());
    assert_eq!(d.explanation, Some("why".to_string()));
    assert_eq!(d.action_suggestion, Some("how".to_string()));
    let empty = DiagnosedError { explanation: None, action_suggestion: None };
    assert!(!empty.contains_diagnosis());
}

#[test]
fn an_already_diagnosed_error_is_handed_through() {
    let attached = DiagnosedError::new("already".to_string(), "done".to_string());
    let d = diagnosable(ErrorCause::AlreadyDiagnosed { diagnosed: attached }, "");
    let r = diagnose(&d, &None);
    assert_eq!(explanation_of(&r), "already");
    assert_eq!(suggestion_of(&r), "done");
}

#[test]
fn a_wallet_without_the_called_method_is_recognized() {
    let f = AgentFailure::CertifiedReject {
        reject_code: RejectCode::CanisterError,
        reject_message: b"Canister has no update method 'wallet_create_canister'".to_vec(),
        error_code: None,
    };
    assert!(wallet_method_not_found(&f));
    let r = diagnose(&diagnosable(ErrorCause::Agent { failure: f }, ""), &None);
    assert!(explanation_of(&r).contains("A wallet has been previously configured"));
    assert!(suggestion_of(&r).contains("dfx wallet upgrade"));
}

#[test]
fn a_query_reject_with_another_code_is_not_a_wallet_problem() {
    let f = AgentFailure::UncertifiedReject {
        reject_code: RejectCode::CanisterReject,
        reject_message: b"Canister has no query method 'wallet_balance'".to_vec(),
        error_code: None,
    };
    assert!(!wallet_method_not_found(&f));
}

#[test]
fn a_non_controller_call_is_diagnosed_as_access() {
    let f = AgentFailure::UncertifiedReject {
        reject_code: RejectCode::CanisterError,
        reject_message: b"rejected".to_vec(),
        error_code: Some(b"IC0512".to_vec()),
    };
    assert!(not_a_controller(&f));
    let r = diagnose(&diagnosable(ErrorCause::Agent { failure: f }, ""), &None);
    assert!(explanation_of(&r).contains("set of controllers"));
    assert!(suggestion_of(&r).contains("dfx canister update-settings"));
}

#[test]
fn an_unauthorized_subnet_is_diagnosed() {
    let f = AgentFailure::CertificateNotAuthorized;
    let r = diagnose(&diagnosable(ErrorCause::Agent { failure: f }, ""), &None);
    assert_eq!(
        explanation_of(&r),
        "Subnet is not authorized to respond for the requested canister id."
    );
}

#[test]
fn missing_ledgers_are_recognized_from_the_rendered_text() {
    assert!(cycles_ledger_not_found(b"Canister um5iw-rqaaa-aaaaq-qaaba-cai not found"));
    assert!(!cycles_ledger_not_found(b"Canister aaaaa-aa not found"));
    assert!(ledger_not_found(b"call failed: Canister ryjl3-tyaaa-aaaaa-aaaba-cai not found."));
    let f = AgentFailure::Other;
    let r = diagnose(
        &diagnosable(
            ErrorCause::Agent { failure: f },
            "Canister um5iw-rqaaa-aaaaq-qaaba-cai not found",
        ),
        &None,
    );
    assert!(explanation_of(&r).contains("Cycles ledger"));
}

#[test]
fn a_refused_local_connection_means_the_replica_is_not_running() {
    let localhost = ErrorCause::Agent {
        failure: AgentFailure::Transport {
            connect_failure: true,
            host: Some(HostInfo::Domain { name: b"localhost".to_vec() }),
        },
    };
    assert!(local_replica_not_running(&localhost));
    let loopback_in_root_key_fetch = ErrorCause::RootKeyFetchAgent {
        failure: AgentFailure::Transport {
            connect_failure: true,
            host: Some(HostInfo::Ipv4 { loopback: true }),
        },
    };
    assert!(local_replica_not_running(&loopback_in_root_key_fetch));
    let remote = ErrorCause::Agent {
        failure: AgentFailure::Transport {
            connect_failure: true,
            host: Some(HostInfo::Domain { name: b"example.invalid".to_vec() }),
        },
    };
    assert!(!local_replica_not_running(&remote));
    let r = diagnose(&diagnosable(localhost, ""), &None);
    assert_eq!(
        explanation_of(&r),
        "You are trying to connect to the local replica but dfx cannot connect to it."
    );
    assert_eq!(
        suggestion_of(&r),
        "Target a different network or run 'dfx start' to start the local replica."
    );
}

#[test]
fn a_dist_src_mirror_pair_is_recognized() {
    assert!(is_src_to_dist(
        b"/home/dev/project/dist/frontend/js/app.js",
        b"/home/dev/project/src/frontend/assets/js/app.js",
    ));
    assert!(!is_src_to_dist(
        b"/home/dev/project/dist/frontend/js/app.js",
        b"/home/dev/project/src/frontend/js/app.js",
    ));
    assert!(!is_src_to_dist(b"/home/dev/project/out/frontend/js/app.js", b"/x"));
    let failure = SyncFailure::DuplicateAssetKey {
        path0: b"/p/dist/web/logo.svg".to_vec(),
        path1: b"/p/src/web/assets/logo.svg".to_vec(),
    };
    assert!(duplicate_asset_key_dist_and_src(&failure));
    let r = diagnose(
        &diagnosable(ErrorCause::Sync { failure }, ""),
        &None,
    );
    assert!(explanation_of(&r).contains("asset key was found in both"));
    assert!(suggestion_of(&r).contains("CopyPlugin"));
}

#[test]
fn insufficient_cycles_suggests_a_top_up_on_the_right_network() {
    let failure = CreateCanisterFailure::InsufficientFunds;
    assert!(insufficient_cycles(&failure));
    let cause = ErrorCause::CreateCanister { failure };
    let on_unknown = diagnose(&diagnosable(cause, ""), &None);
    assert_eq!(
        suggestion_of(&on_unknown),
        "Please top up your cycles balance by converting ICP to cycles like below:\n'dfx cycles convert --amount=0.123'"
    );
    let cause_local = ErrorCause::CreateCanister {
        failure: CreateCanisterFailure::InsufficientFunds,
    };
    let on_local = diagnose(&diagnosable(cause_local, ""), &Some("local".to_string()));
    assert!(suggestion_of(&on_local).ends_with("--amount=0.123'"));
    let cause_ic = ErrorCause::CreateCanister {
        failure: CreateCanisterFailure::InsufficientFunds,
    };
    let on_ic = diagnose(&diagnosable(cause_ic, ""), &Some("ic".to_string()));
    assert!(suggestion_of(&on_ic).ends_with("--amount=0.123 --network ic'"));
}

#[test]
fn an_unrecognized_error_yields_the_empty_diagnosis() {
    let r = diagnose(&diagnosable(ErrorCause::Other, "something odd"), &None);
    assert!(!r.contains_diagnosis());
    let r2 = diagnose(
        &diagnosable(
            ErrorCause::CreateCanister { failure: CreateCanisterFailure::Other },
            "",
        ),
        &None,
    );
    assert!(!r2.contains_diagnosis());
}
