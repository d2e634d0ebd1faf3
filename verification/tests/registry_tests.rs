use module_pull::registry::{ArtifactFacade, PullAttempt, download_all_and_generate_pulled_json};
use module_pull::manifest::ResolvedModule;
use module_pull::errors::PullError;
use module_pull::ModuleId;

fn record(tag: &str) -> ResolvedModule {
    ResolvedModule {
        wasm_hash: tag.to_string(),
        wasm_hash_download: tag.to_string(),
        gzip: false,
        dependencies: Vec::new(),
        init_guide: None,
        init_arg: None,
        candid_args: "()".to_string(),
    }
}

#[test]
fn one_failure_keeps_the_other_entries_and_reports_failure() {
    let attempts = vec![
        PullAttempt { id: ModuleId::new(1), outcome: Ok(record("11")) },
        PullAttempt {
            id: ModuleId::new(2),
            outcome: Err(PullError::TransientNetwork { message: "unreachable".to_string() }),
        },
        PullAttempt { id: ModuleId::new(3), outcome: Ok(record("33")) },
    ];
    let outcome = download_all_and_generate_pulled_json(attempts);
    assert!(!outcome.succeeded());
    assert_eq!(outcome.failed.len(), 1);
    assert_eq!(outcome.failed[0].value, 2);
    assert_eq!(outcome.registry.entries.len(), 2);
    assert!(outcome.registry.get(&ModuleId::new(1)).is_some());
    assert!(outcome.registry.get(&ModuleId::new(2)).is_none());
    let three = outcome.registry.get(&ModuleId::new(3)).unwrap();
    assert_eq!(three.wasm_hash, "33");
}

#[test]
fn all_successes_report_success() {
    let attempts = vec![
        PullAttempt { id: ModuleId::new(4), outcome: Ok(record("44")) },
        PullAttempt { id: ModuleId::new(5), outcome: Ok(record("55")) },
    ];
    let outcome = download_all_and_generate_pulled_json(attempts);
    assert!(outcome.succeeded());
    assert_eq!(outcome.registry.entries.len(), 2);
    assert_eq!(outcome.registry.entries[0].id.value, 4);
    assert_eq!(outcome.registry.entries[1].id.value, 5);
}

#[test]
fn an_empty_pull_succeeds_with_an_empty_registry() {
    let outcome = download_all_and_generate_pulled_json(Vec::new());
    assert!(outcome.succeeded());
    assert_eq!(outcome.registry.entries.len(), 0);
}

#[test]
fn every_failure_is_recorded_in_order() {
    let attempts = vec![
        PullAttempt {
            id: ModuleId::new(9),
            outcome: Err(PullError::Integrity { message: "bad hash".to_string() }),
        },
        PullAttempt {
            id: ModuleId::new(7),
            outcome: Err(PullError::Decode { message: "bad section".to_string() }),
        },
    ];
    let outcome = download_all_and_generate_pulled_json(attempts);
    assert!(!outcome.succeeded());
    let failed: Vec<u64> = outcome.failed.iter().map(|m| m.value).collect();
    assert_eq!(failed, vec![9, 7]);
    assert_eq!(outcome.registry.entries.len(), 0);
}

#[test]
fn the_artifact_facade_answers_recorded_identifiers_only() {
    let mut facade = ArtifactFacade::new();
    assert!(facade.facade_download(&ModuleId::new(8)).is_none());
    facade.record(ModuleId::new(8), record("88"));
    let fixed = facade.facade_download(&ModuleId::new(8)).expect("recorded");
    assert_eq!(fixed.wasm_hash, "88");
    assert!(facade.facade_download(&ModuleId::new(9)).is_none());
}
